use ntd_db::connection::{connection_url, journal_mode_is_wal};

#[test]
fn connection_urls() {
    assert_eq!(connection_url(":memory:"), "sqlite::memory:");
    assert_eq!(connection_url("/home/u/.ntd/data.db"), "sqlite:///home/u/.ntd/data.db?mode=rwc");
    assert_eq!(connection_url(""), "sqlite://?mode=rwc");
}

#[test]
fn wal_mode_check_ignores_case() {
    assert!(journal_mode_is_wal("wal"));
    assert!(journal_mode_is_wal("WAL"));
    assert!(journal_mode_is_wal("Wal"));
    assert!(!journal_mode_is_wal("delete"));
    assert!(!journal_mode_is_wal("wal "));
    assert!(!journal_mode_is_wal(""));
}
