use esedb::table::{JetTable, MoveOutcome, RetrieveStep, SeekType, is_end_of_table};

fn cursor() -> JetTable {
    JetTable::new(0x5E5, 0x7AB)
}

#[test]
fn test_new_cursor_has_no_current_record() {
    let t = cursor();
    assert_eq!(0x5E5, t.sesid());
    assert_eq!(0x7AB, t.raw());
    assert!(!t.has_current_record());
}

#[test]
fn test_move_request_offsets() {
    let t = cursor();
    assert_eq!(-2147483648, t.move_first().offset);
    assert_eq!(0, t.move_first().grbit);
    assert_eq!(1, t.move_next().offset);
    assert_eq!(0, t.move_next().grbit);
    assert_eq!(1, t.move_next_key().offset);
    assert_eq!(1, t.move_next_key().grbit);
    assert_eq!(-1, t.move_prev().offset);
    assert_eq!(-1, t.move_prev_key().offset);
    assert_eq!(1, t.move_prev_key().grbit);
    assert_eq!(2147483647, t.move_last().offset);
}

#[test]
fn test_apply_move_success_and_end() {
    let mut t = cursor();
    assert!(matches!(t.apply_move(0), MoveOutcome::Moved));
    assert!(t.has_current_record());
    assert!(matches!(t.apply_move(-1603), MoveOutcome::EndOfTable));
    assert!(!t.has_current_record());
}

#[test]
fn test_apply_move_failure_keeps_state() {
    let mut t = cursor();
    t.apply_move(0);
    match t.apply_move(-1018) {
        MoveOutcome::Fail(e) => {
            assert_eq!(-1018, e.code);
            assert_eq!("Checksum error on a database page", e.text);
            assert!(!is_end_of_table(&e));
        }
        _ => panic!("a checksum failure is not an end of iteration"),
    }
    assert!(t.has_current_record());
}

#[test]
fn test_probe_buffer_truncated_leads_to_fetch() {
    let t = cursor();
    match t.retrieve_probe_step(1006, 42) {
        RetrieveStep::Fetch(n) => assert_eq!(42, n),
        _ => panic!("the probe must request the fetch phase"),
    }
}

#[test]
fn test_probe_null_column_is_done_with_empty_buffer() {
    let t = cursor();
    match t.retrieve_probe_step(1004, 17) {
        RetrieveStep::Done(v) => assert!(v.is_empty()),
        _ => panic!("a null column must finish the protocol with an empty buffer"),
    }
}

#[test]
fn test_probe_success_is_a_protocol_violation() {
    let t = cursor();
    assert!(matches!(t.retrieve_probe_step(0, 0), RetrieveStep::Abort));
}

#[test]
fn test_probe_error_fails() {
    let t = cursor();
    match t.retrieve_probe_step(-1507, 0) {
        RetrieveStep::Failed(e) => assert_eq!(-1507, e.code),
        _ => panic!("an unknown column must fail the retrieval"),
    }
}

#[test]
fn test_fetch_length_must_match_probe() {
    let t = cursor();
    match t.retrieve_fetch_step(3, 0, vec![7, 8, 9]) {
        RetrieveStep::Done(v) => assert_eq!(vec![7, 8, 9], v),
        _ => panic!("a fetch of the probed length completes the read"),
    }
    // A synthetic mismatch between the phases is fatal, never truncated.
    assert!(matches!(t.retrieve_fetch_step(3, 0, vec![7, 8]), RetrieveStep::Abort));
    assert!(matches!(t.retrieve_fetch_step(3, 1006, vec![7, 8, 9]), RetrieveStep::Abort));
    assert!(matches!(t.retrieve_fetch_step(3, -1017, vec![7, 8, 9]), RetrieveStep::Failed(_)));
}

#[test]
fn test_retrieve_fixed_width_mismatch_fails() {
    let t = cursor();
    match t.retrieve(4, 0, 4, vec![4, 3, 2, 1]) {
        RetrieveStep::Done(v) => assert_eq!(Some(0x01020304), esedb::util::u32_from_bytes(&v)),
        _ => panic!("a fixed-width read of the exact width succeeds"),
    }
    // The column is narrower than the requested type: must not silently succeed.
    assert!(matches!(t.retrieve(4, 0, 2, vec![4, 3]), RetrieveStep::Abort));
    assert!(matches!(t.retrieve(4, -1038, 0, vec![]), RetrieveStep::Failed(_)));
}

#[test]
fn test_retrieve_wstring_and_string() {
    let t = cursor();
    // "Hi" in wide units, terminator included, as raw little-endian bytes.
    let bytes = vec![72, 0, 105, 0, 0, 0];
    let w = t.retrieve_wstring(bytes.clone()).expect("well-formed wide text");
    assert_eq!("Hi", w.to_string_lossy());
    assert_eq!(Some("Hi".to_string()), t.retrieve_string(bytes));

    // An odd byte count cannot be wide text.
    assert!(t.retrieve_wstring(vec![72, 0, 105]).is_none());
    // Wide units without the trailing terminator are rejected.
    assert!(t.retrieve_wstring(vec![72, 0, 105, 0]).is_none());
}

#[test]
fn test_get_column_id() {
    let t = cursor();
    assert_eq!(7, t.get_column_id(0, 7).unwrap());
    let e = t.get_column_id(-1507, 0).unwrap_err();
    assert_eq!(-1507, e.code);
    assert_eq!("No such column", e.text);
}

#[test]
fn test_select_index() {
    let t = cursor();
    assert!(t.select_index(0).is_ok());
    assert_eq!(-1404, t.select_index(-1404).unwrap_err().code);
}

#[test]
fn test_seek_request_bits() {
    let t = cursor();
    assert_eq!(0x1, t.seek(SeekType::Equal, vec![]).seek_grbit);
    assert_eq!(0x21, t.seek(SeekType::EqualOnly, vec![]).seek_grbit);
    assert_eq!(0x8, t.seek(SeekType::EqualOrGreater, vec![]).seek_grbit);
    assert_eq!(0x4, t.seek(SeekType::EqualOrLesser, vec![]).seek_grbit);
    assert_eq!(0x10, t.seek(SeekType::ClosestGreater, vec![]).seek_grbit);
    assert_eq!(0x2, t.seek(SeekType::ClosestLesser, vec![]).seek_grbit);
    assert_eq!(0x1, t.seek(SeekType::Equal, vec![]).new_key_grbit);
}

#[test]
fn test_seek_key_construction() {
    let t = cursor();
    assert_eq!(vec![5u8, 0, 0, 0], t.seek_u32(SeekType::Equal, 5).key);
    assert_eq!(vec![5u8, 0, 0, 0, 0, 0, 0, 0], t.seek_u64(SeekType::Equal, 5).key);
    let w = esedb::wide_string::WideString::from_str("A");
    assert_eq!(vec![65u8, 0, 0, 0], t.seek_wstr(SeekType::Equal, &w).key);
}

#[test]
fn test_apply_seek_outcomes() {
    let mut t = cursor();
    assert_eq!(true, t.apply_seek(0).unwrap());
    assert!(t.has_current_record());

    let mut t2 = cursor();
    // The inexact-match warning is a valid outcome, not a failure.
    assert_eq!(false, t2.apply_seek(1039).unwrap());
    assert!(t2.has_current_record());

    let mut t3 = cursor();
    // No qualifying record at all is a failure distinguishable from an
    // inexact match.
    let e = t3.apply_seek(-1601).unwrap_err();
    assert_eq!(-1601, e.code);
    assert_eq!("The key was not found", e.text);
    assert!(!t3.has_current_record());
}

#[test]
fn test_update_requests() {
    let t = cursor();
    assert!(t.apply_update(0).is_ok());
    assert_eq!(-1048, t.apply_update(-1048).unwrap_err().code);
    assert_eq!(vec![1u8, 0, 0, 0], t.update_u32(1));
    let w = esedb::wide_string::WideString::from_str("B");
    assert_eq!(vec![66u8, 0, 0, 0], t.update_wstr(&w));
}
