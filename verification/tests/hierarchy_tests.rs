use esedb::hierarchy::{ResourceKind, ResourceLog};

#[test]
fn test_release_plan_is_exact_reverse_of_acquisition() {
    let mut log = ResourceLog::new();
    let inst = log.record_instance(1);
    let ses = log.record_session(2, inst);
    let db = log.record_database(3, ses);
    let cur1 = log.record_cursor(4, db);
    let _cur2 = log.record_cursor(5, db);
    assert_eq!(5, log.len());
    assert_eq!(3, cur1);

    let plan = log.release_plan();
    let ids: Vec<u64> = plan.iter().map(|a| a.id).collect();
    assert_eq!(vec![5, 4, 3, 2, 1], ids);

    let kinds: Vec<ResourceKind> = plan.iter().map(|a| a.kind).collect();
    assert_eq!(
        vec![
            ResourceKind::TableCursor,
            ResourceKind::TableCursor,
            ResourceKind::Database,
            ResourceKind::Session,
            ResourceKind::EngineInstance,
        ],
        kinds
    );
}

#[test]
fn test_every_resource_released_before_its_owner() {
    let mut log = ResourceLog::new();
    let inst = log.record_instance(10);
    let ses_a = log.record_session(11, inst);
    let ses_b = log.record_session(12, inst);
    let db_a = log.record_database(13, ses_a);
    let db_b = log.record_database(14, ses_b);
    log.record_cursor(15, db_a);
    log.record_cursor(16, db_b);
    log.record_cursor(17, db_a);

    let entries_in_order: Vec<(u64, Option<usize>)> = {
        // Reverse the release plan to recover acquisition order.
        let mut plan = log.release_plan();
        plan.reverse();
        plan.iter().map(|a| (a.id, a.parent)).collect()
    };
    let plan = log.release_plan();
    let position_in_plan = |id: u64| plan.iter().position(|a| a.id == id).unwrap();

    // Each entry with an owner is released strictly before it.
    for (id, parent) in entries_in_order.iter() {
        if let Some(p) = parent {
            let owner_id = entries_in_order[*p].0;
            assert!(position_in_plan(*id) < position_in_plan(owner_id));
        }
    }
}

#[test]
fn test_empty_log_releases_nothing() {
    let log = ResourceLog::new();
    assert_eq!(0, log.len());
    assert!(log.release_plan().is_empty());
}
