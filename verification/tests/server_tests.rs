use bvresolver::db;
use bvresolver::server::{BlockOutcome, BvStatus, MidStatus, UnblockOutcome};
use bvresolver::state::AppState;

fn mem_db() -> rusqlite::Connection {
    let conn = rusqlite::Connection::open_in_memory().unwrap();
    conn.execute(
        "CREATE TABLE IF NOT EXISTS users (mid INTEGER PRIMARY KEY, username TEXT)",
        [],
    )
    .unwrap();
    conn.execute(
        "CREATE TABLE IF NOT EXISTS bv_cache (bvid TEXT PRIMARY KEY, mid INTEGER, updated_at INTEGER)",
        [],
    )
    .unwrap();
    conn
}

#[test]
fn block_then_check_then_unblock() {
    let mut st = AppState::new(mem_db());
    assert!(matches!(st.block_user("12", Some("name")), BlockOutcome::Added));
    assert_eq!(st.db_stats.blocked_user_count, 1);
    assert!(matches!(st.block_user("12", None), BlockOutcome::Rejected));
    assert_eq!(st.db_stats.blocked_user_count, 1);
    assert!(matches!(st.check_user("12"), MidStatus::Blocked));
    assert!(matches!(st.check_user("13"), MidStatus::NotBlocked));
    assert!(matches!(st.unblock_user("12"), UnblockOutcome::Removed));
    assert_eq!(st.db_stats.blocked_user_count, 0);
    assert!(matches!(st.unblock_user("12"), UnblockOutcome::Rejected));
    assert!(matches!(st.check_user("12"), MidStatus::NotBlocked));
}

#[test]
fn malformed_ids_are_rejected_at_the_boundary() {
    let mut st = AppState::new(mem_db());
    assert!(matches!(st.block_user("12a", None), BlockOutcome::InvalidId));
    assert!(matches!(st.block_user("", None), BlockOutcome::InvalidId));
    assert!(matches!(st.block_user("-5", None), BlockOutcome::InvalidId));
    assert!(matches!(st.unblock_user("+7"), UnblockOutcome::InvalidId));
    assert!(matches!(st.check_user("1 2"), MidStatus::Invalid));
    assert_eq!(st.db_stats.blocked_user_count, 0);
}

#[test]
fn check_mids_answers_in_order() {
    let mut st = AppState::new(mem_db());
    assert!(matches!(st.block_user("100", None), BlockOutcome::Added));
    let mids = vec![
        "100".to_string(),
        "101".to_string(),
        "x".to_string(),
        "".to_string(),
    ];
    let res = st.check_mids(&mids);
    assert_eq!(res.len(), 4);
    assert_eq!(res[0], MidStatus::Blocked);
    assert_eq!(res[1], MidStatus::NotBlocked);
    assert_eq!(res[2], MidStatus::Invalid);
    assert_eq!(res[3], MidStatus::Invalid);
}

#[test]
fn check_user_store_error_without_tables() {
    let conn = rusqlite::Connection::open_in_memory().unwrap();
    let st = AppState::new(conn);
    assert!(matches!(st.check_user("5"), MidStatus::StoreError));
}

#[test]
fn check_bvs_answers_and_routes_misses() {
    let mut st = AppState::new(mem_db());
    assert!(matches!(st.block_user("10", None), BlockOutcome::Added));
    db::cache_bv_mid(&mut st.conn, "BVhitblocked", 10, 1).unwrap();
    db::cache_bv_mid(&mut st.conn, "BVhitfree", 20, 1).unwrap();

    let bvs = vec![
        "BVhitblocked".to_string(),
        "BVhitfree".to_string(),
        "BVmiss".to_string(),
    ];
    let out = st.check_bvs(&bvs);
    assert_eq!(out.results.len(), 3);
    assert_eq!(out.mids.len(), 3);
    assert_eq!(out.results[0], BvStatus::Blocked);
    assert_eq!(out.mids[0], Some(10));
    assert_eq!(out.results[1], BvStatus::NotBlocked);
    assert_eq!(out.mids[1], Some(20));
    assert_eq!(out.results[2], BvStatus::Unknown);
    assert_eq!(out.mids[2], None);
    // The miss went into the pipeline, deduplicated.
    assert!(st.is_pending("BVmiss"));
    assert_eq!(st.queue_depth(), 1);
    assert_eq!(st.spider_stats.total_received_count, 3);

    // Asking again does not enqueue the miss twice.
    let out2 = st.check_bvs(&bvs);
    assert_eq!(out2.results[2], BvStatus::Unknown);
    assert_eq!(st.queue_depth(), 1);
    assert_eq!(st.spider_stats.total_received_count, 6);
}

#[test]
fn status_words_match_the_wire_protocol() {
    assert_eq!(MidStatus::Invalid.as_str(), "ERR1");
    assert_eq!(MidStatus::Blocked.as_str(), "True");
    assert_eq!(MidStatus::NotBlocked.as_str(), "False");
    assert_eq!(MidStatus::StoreError.as_str(), "ERR2");
    assert_eq!(BvStatus::Blocked.as_str(), "True");
    assert_eq!(BvStatus::NotBlocked.as_str(), "False");
    assert_eq!(BvStatus::Unknown.as_str(), "None");
    assert_eq!(BvStatus::StoreError.as_str(), "ERR2");
}

#[test]
fn service_counters_accumulate() {
    let mut st = AppState::new(mem_db());
    st.record_service_request(5);
    st.record_service_request(7);
    assert_eq!(st.service_stats.req_count, 2);
    assert_eq!(st.service_stats.req_time_sum, 12);
    let snap = st.get_stats();
    assert_eq!(snap.service_req_count, 2);
    assert_eq!(snap.service_req_time_sum, 12);
    assert_eq!(snap.spider_queue_size, 0);
    assert_eq!(snap.server_status, bvresolver::state::ServerStatus::Init);
}
