use esedb::cursor_model::{scan_model, seek_ge_model};
use esedb::table::{JetTable, MoveOutcome, RetrieveStep, SeekType};
use esedb::util::u32_from_bytes;
use esedb::wide_string::WideString;

#[test]
fn test_scan_visits_every_record_once_in_order() {
    assert_eq!(Vec::<usize>::new(), scan_model(0));
    assert_eq!(vec![0], scan_model(1));
    assert_eq!(vec![0, 1, 2, 3, 4], scan_model(5));
}

#[test]
fn test_iteration_protocol_over_a_model_table() {
    // Drive the cursor protocol over a table of three records: the engine
    // answers success while a record remains and the no-current-record
    // status at the end.
    let records = 3usize;
    let mut t = JetTable::new(1, 2);
    let mut visited = 0usize;

    let _first = t.move_first();
    let status = if records == 0 { -1603 } else { 0 };
    let mut outcome = t.apply_move(status);
    while matches!(outcome, MoveOutcome::Moved) {
        visited += 1;
        let _next = t.move_next();
        let status = if visited < records { 0 } else { -1603 };
        outcome = t.apply_move(status);
    }
    assert_eq!(records, visited);
    assert!(matches!(outcome, MoveOutcome::EndOfTable));
    assert!(!t.has_current_record());
}

#[test]
fn test_empty_table_iteration_ends_immediately() {
    let mut t = JetTable::new(1, 2);
    let _first = t.move_first();
    let outcome = t.apply_move(-1603);
    assert!(matches!(outcome, MoveOutcome::EndOfTable));
    assert!(!t.has_current_record());
}

#[test]
fn test_seek_equal_or_greater_on_absent_key() {
    // A monotonically keyed table {1, 3, 7, 9}: seeking 5 lands on the
    // nearest greater key, 7, with an inexact match.
    let keys: Vec<u64> = vec![1, 3, 7, 9];
    let (idx, exact) = seek_ge_model(&keys, 5).expect("a qualifying record exists");
    assert_eq!(2, idx);
    assert!(!exact);
    assert_eq!(7, keys[idx]);

    // A present key is an exact match at its own index.
    let (idx7, exact7) = seek_ge_model(&keys, 7).expect("exact key present");
    assert_eq!(2, idx7);
    assert!(exact7);

    // Past the end of the index nothing qualifies: a distinguishable
    // not-found outcome, not an inexact match.
    assert!(seek_ge_model(&keys, 10).is_none());
}

#[test]
fn test_read_only_scenario_seek_then_retrieve_text() {
    // A read-only table with an unsigned 32-bit primary key and a text
    // column: records (1, "Ann"), (3, "Ben"), (7, "Carol"), (9, "Dan").
    let ids: Vec<u64> = vec![1, 3, 7, 9];
    let names = ["Ann", "Ben", "Carol", "Dan"];

    // Seek equal-or-greater on id 5: the model says where the engine's
    // cursor lands and that the match is inexact.
    let (idx, exact) = seek_ge_model(&ids, 5).unwrap();
    assert!(!exact);
    assert_eq!(7, ids[idx]);

    // The cursor protocol: build the seek request for id 5, then interpret
    // the inexact-match status the engine returns for this table.
    let mut t = JetTable::new(1, 2);
    let rq = t.seek_u32(SeekType::EqualOrGreater, 5);
    assert_eq!(vec![5u8, 0, 0, 0], rq.key);
    assert_eq!(0x8, rq.seek_grbit);
    let found_exact = t.apply_seek(1039).expect("an inexact match is a valid outcome");
    assert!(!found_exact);
    assert!(t.has_current_record());

    // Retrieve the id column with the fixed-width protocol; the engine
    // hands back the record's key bytes.
    let id_bytes = vec![7u8, 0, 0, 0];
    match t.retrieve(4, 0, 4, id_bytes) {
        RetrieveStep::Done(v) => assert_eq!(Some(7), u32_from_bytes(&v)),
        _ => panic!("the id column is exactly four bytes wide"),
    }

    // Retrieve the name column with the two-phase protocol: probe, then
    // fetch exactly the reported size, then decode the wide text.
    let stored = WideString::from_str(names[idx]);
    let stored_bytes = esedb::util::wide_to_bytes(stored.as_ucs2_slice());
    let reported = stored_bytes.len() as u32;
    let fetch_len = match t.retrieve_probe_step(1006, reported) {
        RetrieveStep::Fetch(n) => n,
        _ => panic!("the probe must request the fetch phase"),
    };
    assert_eq!(reported, fetch_len);
    let fetched = match t.retrieve_fetch_step(fetch_len, 0, stored_bytes) {
        RetrieveStep::Done(v) => v,
        _ => panic!("the fetch filled exactly the probed size"),
    };
    assert_eq!(Some("Carol".to_string()), t.retrieve_string(fetched));
}
