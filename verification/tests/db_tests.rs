use bvresolver::db;

fn mem_db() -> rusqlite::Connection {
    let conn = rusqlite::Connection::open_in_memory().unwrap();
    conn.execute(
        "CREATE TABLE IF NOT EXISTS users (mid INTEGER PRIMARY KEY, username TEXT)",
        [],
    )
    .unwrap();
    conn.execute(
        "CREATE TABLE IF NOT EXISTS bv_cache (bvid TEXT PRIMARY KEY, mid INTEGER, updated_at INTEGER)",
        [],
    )
    .unwrap();
    conn
}

#[test]
fn add_remove_and_lookup_users() {
    let mut conn = mem_db();
    assert_eq!(db::get_blocked_count(&conn).unwrap(), 0);
    assert!(db::add_user(&mut conn, 42, Some("someone")).unwrap());
    assert!(!db::add_user(&mut conn, 42, None).unwrap());
    assert_eq!(db::get_blocked_count(&conn).unwrap(), 1);
    assert!(db::is_user_exist(&conn, 42).unwrap());
    assert!(!db::is_user_exist(&conn, 43).unwrap());
    assert!(db::remove_user(&mut conn, 42).unwrap());
    assert!(!db::remove_user(&mut conn, 42).unwrap());
    assert_eq!(db::get_blocked_count(&conn).unwrap(), 0);
}

#[test]
fn upsert_is_idempotent_and_latest_timestamp_wins() {
    let mut conn = mem_db();
    db::cache_bv_mid(&mut conn, "BV1", 7, 100).unwrap();
    assert_eq!(db::get_bv_cache_count(&conn).unwrap(), 1);
    db::cache_bv_mid(&mut conn, "BV1", 7, 200).unwrap();
    assert_eq!(db::get_bv_cache_count(&conn).unwrap(), 1);
    assert_eq!(db::get_mid_by_bv(&conn, "BV1").unwrap(), Some(7));
    // The later timestamp won: a sweep between the two stamps removes nothing.
    assert_eq!(db::clean_expired_cache(&mut conn, 150, 0).unwrap(), 0);
    assert_eq!(db::get_bv_cache_count(&conn).unwrap(), 1);
    // A later successful resolution overwrites the mid as well.
    db::cache_bv_mid(&mut conn, "BV1", 9, 300).unwrap();
    assert_eq!(db::get_mid_by_bv(&conn, "BV1").unwrap(), Some(9));
    assert_eq!(db::get_bv_cache_count(&conn).unwrap(), 1);
}

#[test]
fn lookup_miss_gives_none() {
    let conn = mem_db();
    assert_eq!(db::get_mid_by_bv(&conn, "BVmissing").unwrap(), None);
}

#[test]
fn delete_older_than_is_exact_and_idempotent() {
    let mut conn = mem_db();
    db::cache_bv_mid(&mut conn, "BVold", 1, 999).unwrap();
    db::cache_bv_mid(&mut conn, "BVedge", 2, 1000).unwrap();
    db::cache_bv_mid(&mut conn, "BVnew", 3, 1001).unwrap();
    // Threshold 1000: strictly older entries go, the entry at the threshold
    // stays.
    let deleted = db::clean_expired_cache(&mut conn, 1000, 0).unwrap();
    assert_eq!(deleted, 1);
    assert_eq!(db::get_mid_by_bv(&conn, "BVold").unwrap(), None);
    assert_eq!(db::get_mid_by_bv(&conn, "BVedge").unwrap(), Some(2));
    assert_eq!(db::get_mid_by_bv(&conn, "BVnew").unwrap(), Some(3));
    // Running the same sweep again is a no-op.
    let deleted_again = db::clean_expired_cache(&mut conn, 1000, 0).unwrap();
    assert_eq!(deleted_again, 0);
    assert_eq!(db::get_bv_cache_count(&conn).unwrap(), 2);
}

#[test]
fn stale_entry_swept_at_zero_expiration_seconds() {
    let mut conn = mem_db();
    let now: i64 = 1_700_000_000;
    db::cache_bv_mid(&mut conn, "BVstale", 5, now - 1000).unwrap();
    assert_eq!(db::get_bv_cache_count(&conn).unwrap(), 1);
    let deleted = db::clean_expired_cache(&mut conn, now, 0).unwrap();
    assert_eq!(deleted, 1);
    assert_eq!(db::get_bv_cache_count(&conn).unwrap(), 0);
}

#[test]
fn operations_fail_without_tables() {
    let mut conn = rusqlite::Connection::open_in_memory().unwrap();
    assert!(db::add_user(&mut conn, 1, None).is_err());
    assert!(db::is_user_exist(&conn, 1).is_err());
    assert!(db::get_mid_by_bv(&conn, "BV1").is_err());
    assert!(db::cache_bv_mid(&mut conn, "BV1", 1, 0).is_err());
    assert!(db::get_blocked_count(&conn).is_err());
    assert!(db::get_bv_cache_count(&conn).is_err());
    assert!(db::clean_expired_cache(&mut conn, 0, 0).is_err());
}
