use esedb::session::{DatabaseAccessMode, JetSession};

#[test]
fn test_attach_bit_for_access_mode() {
    let s = JetSession::new(0x55);
    // Read-only must be requested explicitly through its option bit.
    assert_eq!(0x1, s.attach_bit(DatabaseAccessMode::ReadOnly));
    assert_eq!(0, s.attach_bit(DatabaseAccessMode::ReadWrite));
}

#[test]
fn test_attach_then_open() {
    let s = JetSession::new(0x55);
    let ticket = s.apply_attach(0).expect("attachment succeeded");
    let db = s.open_database(ticket, 0, 3).expect("open succeeded");
    assert_eq!(3, db.dbid());
    assert_eq!(0x55, db.sesid());
}

#[test]
fn test_already_attached_is_surfaced_as_error() {
    let s = JetSession::new(0x55);
    let e = s.apply_attach(1007).unwrap_err();
    assert_eq!(1007, e.code);
    assert_eq!("Database is already attached", e.text);
}

#[test]
fn test_open_database_failure() {
    let s = JetSession::new(0x55);
    let ticket = s.apply_attach(0).unwrap();
    let e = s.open_database(ticket, -1203, 0).unwrap_err();
    assert_eq!(-1203, e.code);
    assert_eq!("No such database", e.text);
}

#[test]
fn test_open_table() {
    let s = JetSession::new(0x55);
    let ticket = s.apply_attach(0).unwrap();
    let db = s.open_database(ticket, 0, 3).unwrap();
    let t = db.open_table(0, 0x7AB).expect("table opened");
    assert_eq!(0x7AB, t.raw());
    assert_eq!(0x55, t.sesid());
    assert!(!t.has_current_record());

    let e = db.open_table(-1305, 0).unwrap_err();
    assert_eq!(-1305, e.code);
    assert_eq!("No such table or object", e.text);
}

#[test]
fn test_locked_file_open_failure() {
    let s = JetSession::new(0x55);
    let e = s.apply_attach(-1032).unwrap_err();
    assert_eq!(-1032, e.code);
    assert_eq!("Cannot access file, the file is locked or in use", e.text);
}

#[test]
fn test_close_and_end_session() {
    let s = JetSession::new(0x55);
    let ticket = s.apply_attach(0).unwrap();
    let db = s.open_database(ticket, 0, 3).unwrap();
    assert!(db.apply_close(0).is_ok());
    assert_eq!(-1202, db.apply_close(-1202).unwrap_err().code);
    assert!(s.apply_end_session(0).is_ok());
    assert_eq!(-1914, s.apply_end_session(-1914).unwrap_err().code);
}
