use esedb::wide_string::WideString;

#[test]
fn test_from_str_ascii() {
    let w = WideString::from_str("abc");
    assert_eq!(4, w.len());
    assert!(!w.is_empty());
    assert_eq!(&[97u16, 98, 99, 0], w.as_ucs2_slice());
}

#[test]
fn test_from_str_empty() {
    let w = WideString::from_str("");
    assert_eq!(1, w.len());
    assert_eq!(&[0u16], w.as_ucs2_slice());
    assert_eq!("", w.to_string_lossy());
}

#[test]
fn test_from_str_surrogate_pair() {
    // U+1D11E is encoded as the surrogate pair D834 DD1E.
    let w = WideString::from_str("\u{1D11E}");
    assert_eq!(&[0xD834u16, 0xDD1E, 0], w.as_ucs2_slice());
    assert_eq!("\u{1D11E}", w.to_string_lossy());
}

#[test]
fn test_round_trip_mixed_text() {
    let text = "Hello, w\u{00F6}rld \u{4E16}\u{754C} \u{1F600}";
    let w = WideString::from_str(text);
    assert_eq!(text, w.to_string_lossy());
}

#[test]
fn test_from_ucs2() {
    let w = WideString::from_ucs2(vec![72, 105, 0]);
    assert_eq!(3, w.len());
    assert_eq!("Hi", w.to_string_lossy());
}

#[test]
fn test_try_from_ucs2_rejects_missing_terminator() {
    assert!(WideString::try_from_ucs2(vec![72, 105]).is_none());
    assert!(WideString::try_from_ucs2(vec![]).is_none());
    assert!(WideString::try_from_ucs2(vec![72, 0]).is_some());
}

#[test]
fn test_lossy_decoding_of_unpaired_surrogate() {
    let w = WideString::from_ucs2(vec![0xD800, 0]);
    assert_eq!("\u{FFFD}", w.to_string_lossy());

    // A low surrogate followed by a high one does not pair either way.
    let w2 = WideString::from_ucs2(vec![0xDC00, 0xD800, 0]);
    assert_eq!("\u{FFFD}\u{FFFD}", w2.to_string_lossy());
}
