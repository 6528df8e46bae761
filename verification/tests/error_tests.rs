use esedb::error::{
    describe, get_text, status_class, category_of, category_name, ErrorCategory, JetError,
    StatusClass, NO_ERROR_TEXT,
};

#[test]
fn test_err_text() {
    assert_eq!(
        Some("read/write access is not supported on compressed files"),
        get_text(-4005)
    );
}

#[test]
fn test_catalog_spot_checks() {
    assert_eq!(Some("Successful Operation"), get_text(0));
    assert_eq!(Some("Function Not Yet Implemented"), get_text(-1));
    assert_eq!(Some("Invalid session handle"), get_text(-1104));
    assert_eq!(Some("Disk IO error"), get_text(-1022));
    assert_eq!(Some("Column is NULL-valued"), get_text(1004));
    assert_eq!(Some("Buffer too small for data"), get_text(1006));
    assert_eq!(Some("Exact match not found during seek"), get_text(1039));
    assert_eq!(Some("Currency not on a record"), get_text(-1603));
    assert_eq!(Some("No such column"), get_text(-1507));
    assert_eq!(Some("The key was not found"), get_text(-1601));
}

#[test]
fn test_catalog_later_entry_wins_shared_code() {
    // One code carries two historical names; the later entry's text stands.
    assert_eq!(Some("OBSOLETE"), get_text(-550));
}

#[test]
fn test_catalog_unknown_codes() {
    assert_eq!(None, get_text(-999_999));
    assert_eq!(None, get_text(7));
}

#[test]
fn test_error_from_code() {
    let e = JetError::from_code(-1104);
    assert_eq!(-1104, e.code);
    assert_eq!("Invalid session handle", e.text);

    let unknown = JetError::from_code(-999_999);
    assert_eq!(-999_999, unknown.code);
    assert_eq!(NO_ERROR_TEXT, unknown.text);
}

#[test]
fn test_error_from_trait() {
    let e = JetError::from(-1104);
    assert_eq!(-1104, e.code);
    assert_eq!("Invalid session handle", e.text);
    let e2: JetError = (-4005i32).into();
    assert_eq!("read/write access is not supported on compressed files", e2.text);
}

#[test]
fn test_describe_unknown_is_stable_nonempty_fallback() {
    let a = describe(-999_999);
    let b = describe(123_456);
    assert!(!a.is_empty());
    assert_eq!(a, b);
    assert_eq!("[no error text]", a);
}

#[test]
fn test_describe_known() {
    assert_eq!("Successful Operation", describe(0));
    assert_eq!("Invalid session handle", describe(-1104));
}

#[test]
fn test_status_class_by_sign() {
    assert_eq!(StatusClass::Success, status_class(0));
    assert_eq!(StatusClass::Warning, status_class(1004));
    assert_eq!(StatusClass::Warning, status_class(1039));
    assert_eq!(StatusClass::Error, status_class(-1603));
    assert_eq!(StatusClass::Error, status_class(-1));
}

#[test]
fn test_category_mapping() {
    assert_eq!(Some(ErrorCategory::Unknown), category_of(0));
    assert_eq!(Some(ErrorCategory::Io), category_of(4));
    assert_eq!(Some(ErrorCategory::Usage), category_of(14));
    assert_eq!(Some(ErrorCategory::Obsolete), category_of(16));
    assert_eq!(None, category_of(17));
    assert_eq!(None, category_of(-1));
    assert_eq!("I/O", category_name(ErrorCategory::Io));
    assert_eq!("programmer", category_name(ErrorCategory::Usage));
    assert_eq!("data corruption", category_name(ErrorCategory::Corruption));
}

#[test]
fn test_message_with_category() {
    let e = JetError::from_code(-1104);
    let m = e.message(0, 14);
    assert_eq!("ESE DB programmer error: Invalid session handle (code -1104)", m);
}

#[test]
fn test_message_fallback_when_classification_fails() {
    let e = JetError::from_code(-1022);
    let m = e.message(-1, 0);
    assert_eq!(
        "ESE DB error: Disk IO error (code -1022) (failed to get error type because code -1)",
        m
    );
}
