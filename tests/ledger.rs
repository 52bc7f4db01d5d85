use torrent_core::ledger::ActivityLedger;

#[test]
fn same_user_twice_counts_twice_logs_once() {
    let mut l = ActivityLedger::new();
    assert!(l.record_fetch(42, 7));
    assert!(!l.record_fetch(42, 7));
    assert_eq!(l.snatched(42), 2);
    assert_eq!(l.rows.len(), 1);
    assert!(l.has_row(42, 7));
    assert_eq!((l.rows[0].record_id, l.rows[0].user_id), (42, 7));
}

#[test]
fn distinct_users_get_one_row_each() {
    let mut l = ActivityLedger::new();
    for user in 1..=5 {
        l.record_fetch(10, user);
    }
    assert_eq!(l.snatched(10), 5);
    assert_eq!(l.rows.len(), 5);
    assert_eq!(l.snatched(11), 0);
}

#[test]
fn many_fetches_by_one_user() {
    let mut l = ActivityLedger::new();
    for _ in 0..10 {
        l.record_fetch(3, 9);
    }
    l.record_fetch(4, 9);
    assert_eq!(l.snatched(3), 10);
    assert_eq!(l.snatched(4), 1);
    assert_eq!(l.rows.len(), 2);
    assert!(!l.has_row(3, 8));
}
