use bvresolver::spider::{FetchOutcome, SubmitOutcome};
use bvresolver::state::AppState;

fn mem_db() -> rusqlite::Connection {
    let conn = rusqlite::Connection::open_in_memory().unwrap();
    conn.execute(
        "CREATE TABLE IF NOT EXISTS users (mid INTEGER PRIMARY KEY, username TEXT)",
        [],
    )
    .unwrap();
    conn.execute(
        "CREATE TABLE IF NOT EXISTS bv_cache (bvid TEXT PRIMARY KEY, mid INTEGER, updated_at INTEGER)",
        [],
    )
    .unwrap();
    conn
}

#[test]
fn submit_fetch_success_scenario() {
    let mut st = AppState::new(mem_db());
    st.load_initial_stats();
    assert_eq!(st.queue_depth(), 0);
    assert_eq!(st.spider_stats.bv_cache_count, 0);

    let r = st.submit("BVexample1");
    assert!(matches!(r, SubmitOutcome::Enqueued));
    assert_eq!(st.queue_depth(), 1);
    assert!(st.is_pending("BVexample1"));

    let id = st.dispatch_next().unwrap();
    assert_eq!(id.as_str(), "BVexample1");
    assert_eq!(st.queue_depth(), 1);
    assert!(st.is_pending("BVexample1"));

    assert!(st.try_acquire_permit());
    assert!(st.start_fetch());

    let out = st.complete_fetch(
        "BVexample1",
        Some("{\"code\":0,\"data\":{\"owner\":{\"mid\":555}}}"),
        1_700_000_000,
        12,
    );
    assert!(matches!(out, FetchOutcome::Cached));
    assert_eq!(st.queue_depth(), 0);
    assert!(!st.is_pending("BVexample1"));
    assert_eq!(st.spider_stats.bv_cache_count, 1);
    assert_eq!(st.spider_stats.fail_count, 0);
    assert_eq!(st.spider_stats.req_time_sum, 12);
    assert_eq!(st.spider_stats.actual_api_req_count, 1);

    let got = bvresolver::db::get_mid_by_bv(&st.conn, "BVexample1").unwrap();
    assert_eq!(got, Some(555));
}

#[test]
fn duplicate_submit_is_deduplicated() {
    let mut st = AppState::new(mem_db());
    let first = st.submit("BVdup");
    let second = st.submit("BVdup");
    assert!(matches!(first, SubmitOutcome::Enqueued));
    assert!(matches!(second, SubmitOutcome::AlreadyPending));
    assert_eq!(st.queue_depth(), 1);

    // Still deduplicated after dispatch, while the fetch is in flight.
    let _ = st.dispatch_next().unwrap();
    let third = st.submit("BVdup");
    assert!(matches!(third, SubmitOutcome::AlreadyPending));
    assert_eq!(st.queue_depth(), 1);
}

#[test]
fn api_error_counts_failure_and_releases() {
    let mut st = AppState::new(mem_db());
    assert!(matches!(st.submit("BVbad"), SubmitOutcome::Enqueued));
    let _ = st.dispatch_next().unwrap();
    assert!(st.try_acquire_permit());
    assert!(st.start_fetch());

    let out = st.complete_fetch("BVbad", Some("{\"code\":-404}"), 1_700_000_000, 5);
    assert!(matches!(out, FetchOutcome::ApiError(-404)));
    assert_eq!(st.spider_stats.fail_count, 1);
    assert_eq!(st.spider_stats.bv_cache_count, 0);
    assert_eq!(bvresolver::db::get_mid_by_bv(&st.conn, "BVbad").unwrap(), None);
    assert!(!st.is_pending("BVbad"));
    assert_eq!(st.queue_depth(), 0);

    // Released means it can be submitted afresh.
    assert!(matches!(st.submit("BVbad"), SubmitOutcome::Enqueued));
}

#[test]
fn malformed_body_counts_failure() {
    let mut st = AppState::new(mem_db());
    let _ = st.submit("BVx");
    let _ = st.dispatch_next().unwrap();
    let out = st.complete_fetch("BVx", Some("not json at all"), 0, 3);
    assert!(matches!(out, FetchOutcome::ParseFailed));
    assert_eq!(st.spider_stats.fail_count, 1);
    // Latency is only accumulated for bodies that parsed.
    assert_eq!(st.spider_stats.req_time_sum, 0);
}

#[test]
fn missing_owner_counts_failure() {
    let mut st = AppState::new(mem_db());
    let _ = st.submit("BVy");
    let _ = st.dispatch_next().unwrap();
    let out = st.complete_fetch("BVy", Some("{\"code\":0}"), 0, 4);
    assert!(matches!(out, FetchOutcome::MissingOwner));
    assert_eq!(st.spider_stats.fail_count, 1);
    assert_eq!(st.spider_stats.req_time_sum, 4);
}

#[test]
fn transport_error_counts_failure() {
    let mut st = AppState::new(mem_db());
    let _ = st.submit("BVz");
    let _ = st.dispatch_next().unwrap();
    let out = st.complete_fetch("BVz", None, 0, 9);
    assert!(matches!(out, FetchOutcome::TransportFailed));
    assert_eq!(st.spider_stats.fail_count, 1);
    assert_eq!(st.spider_stats.req_time_sum, 0);
    assert!(!st.is_pending("BVz"));
}

#[test]
fn store_write_failure_is_a_failure() {
    // A connection without the cache table: the fetch succeeds but the
    // cache write is refused.
    let conn = rusqlite::Connection::open_in_memory().unwrap();
    let mut st = AppState::new(conn);
    let _ = st.submit("BVs");
    let _ = st.dispatch_next().unwrap();
    let out = st.complete_fetch(
        "BVs",
        Some("{\"code\":0,\"data\":{\"owner\":{\"mid\":1}}}"),
        0,
        1,
    );
    assert!(matches!(out, FetchOutcome::StoreFailed));
    assert_eq!(st.spider_stats.fail_count, 1);
    assert_eq!(st.spider_stats.bv_cache_count, 0);
    assert!(!st.is_pending("BVs"));
}

#[test]
fn permit_pool_admits_at_most_sixteen() {
    let mut st = AppState::new(mem_db());
    for _ in 0..16 {
        assert!(st.try_acquire_permit());
    }
    assert!(!st.try_acquire_permit());
    assert!(!st.try_acquire_permit());
    // Completing one fetch gives its permit back.
    let _ = st.complete_fetch("BVnone", None, 0, 0);
    assert!(st.try_acquire_permit());
    assert!(!st.try_acquire_permit());
}

#[test]
fn pause_gate_blocks_new_fetches() {
    let mut st = AppState::new(mem_db());
    assert!(!st.is_paused());
    assert!(st.toggle_spider_status());
    assert!(st.is_paused());
    assert!(!st.start_fetch());
    assert_eq!(st.spider_stats.actual_api_req_count, 0);
    // Queued work is not lost while paused.
    assert!(matches!(st.submit("BVp"), SubmitOutcome::Enqueued));
    assert_eq!(st.queue_depth(), 1);
    // Un-pausing lets it proceed.
    assert!(!st.toggle_spider_status());
    assert!(st.start_fetch());
    assert_eq!(st.spider_stats.actual_api_req_count, 1);
}

#[test]
fn dispatch_is_first_in_first_out() {
    let mut st = AppState::new(mem_db());
    let _ = st.submit("BVa");
    let _ = st.submit("BVb");
    let _ = st.submit("BVc");
    assert_eq!(st.dispatch_next().unwrap().as_str(), "BVa");
    assert_eq!(st.dispatch_next().unwrap().as_str(), "BVb");
    assert_eq!(st.dispatch_next().unwrap().as_str(), "BVc");
    assert!(st.dispatch_next().is_none());
}

#[test]
fn initial_stats_seed_from_the_store() {
    let mut conn = mem_db();
    bvresolver::db::add_user(&mut conn, 1, None).unwrap();
    bvresolver::db::add_user(&mut conn, 2, None).unwrap();
    bvresolver::db::cache_bv_mid(&mut conn, "BV1", 1, 0).unwrap();
    let mut st = AppState::new(conn);
    assert_eq!(st.db_stats.blocked_user_count, 0);
    st.load_initial_stats();
    assert_eq!(st.db_stats.blocked_user_count, 2);
    assert_eq!(st.spider_stats.bv_cache_count, 1);
}

#[test]
fn queue_refuses_beyond_capacity() {
    let mut st = AppState::new(mem_db());
    for i in 0..1000 {
        let id = format!("BVq{}", i);
        assert!(matches!(st.submit(id.as_str()), SubmitOutcome::Enqueued));
    }
    assert!(matches!(st.submit("BVoverflow"), SubmitOutcome::QueueFull));
    assert_eq!(st.queue_depth(), 1000);
    // Draining one makes room again.
    let _ = st.dispatch_next().unwrap();
    assert!(matches!(st.submit("BVoverflow"), SubmitOutcome::Enqueued));
}
