use bvresolver::db;
use bvresolver::state::AppState;
use bvresolver::sweeper::SweepOutcome;

fn mem_db() -> rusqlite::Connection {
    let conn = rusqlite::Connection::open_in_memory().unwrap();
    conn.execute(
        "CREATE TABLE IF NOT EXISTS users (mid INTEGER PRIMARY KEY, username TEXT)",
        [],
    )
    .unwrap();
    conn.execute(
        "CREATE TABLE IF NOT EXISTS bv_cache (bvid TEXT PRIMARY KEY, mid INTEGER, updated_at INTEGER)",
        [],
    )
    .unwrap();
    conn
}

#[test]
fn zero_days_disables_the_sweep() {
    let now: i64 = 1_700_000_000;
    let mut st = AppState::new(mem_db());
    db::cache_bv_mid(&mut st.conn, "BVstale", 5, now - 1000).unwrap();
    st.load_initial_stats();
    assert_eq!(st.spider_stats.bv_cache_count, 1);
    let out = st.sweep_cycle(0, now);
    assert!(matches!(out, SweepOutcome::Disabled));
    assert_eq!(db::get_bv_cache_count(&st.conn).unwrap(), 1);
    assert_eq!(st.spider_stats.session_cleaned_count, 0);
    assert_eq!(st.spider_stats.bv_cache_count, 1);
}

#[test]
fn sweep_deletes_stale_entry_and_moves_counters() {
    let now: i64 = 1_700_000_000;
    let mut st = AppState::new(mem_db());
    // One entry stale by a day and a bit, one fresh.
    db::cache_bv_mid(&mut st.conn, "BVstale", 5, now - 86400 - 1000).unwrap();
    db::cache_bv_mid(&mut st.conn, "BVfresh", 6, now - 10).unwrap();
    st.load_initial_stats();
    assert_eq!(st.spider_stats.bv_cache_count, 2);

    let out = st.sweep_cycle(1, now);
    assert!(matches!(out, SweepOutcome::Swept(1)));
    assert_eq!(st.spider_stats.session_cleaned_count, 1);
    assert_eq!(st.spider_stats.bv_cache_count, 1);
    assert_eq!(db::get_mid_by_bv(&st.conn, "BVstale").unwrap(), None);
    assert_eq!(db::get_mid_by_bv(&st.conn, "BVfresh").unwrap(), Some(6));
}

#[test]
fn sweeping_twice_is_a_noop_the_second_time() {
    let now: i64 = 1_700_000_000;
    let mut st = AppState::new(mem_db());
    db::cache_bv_mid(&mut st.conn, "BVstale", 5, now - 200_000).unwrap();
    let first = st.sweep_cycle(1, now);
    assert!(matches!(first, SweepOutcome::Swept(1)));
    let second = st.sweep_cycle(1, now);
    assert!(matches!(second, SweepOutcome::Swept(0)));
    assert_eq!(st.spider_stats.session_cleaned_count, 1);
}

#[test]
fn sweep_without_tables_reports_store_failure() {
    let conn = rusqlite::Connection::open_in_memory().unwrap();
    let mut st = AppState::new(conn);
    let out = st.sweep_cycle(1, 1_700_000_000);
    assert!(matches!(out, SweepOutcome::StoreFailed));
    assert_eq!(st.spider_stats.session_cleaned_count, 0);
}

#[test]
fn run_sweep_uses_the_clock() {
    // Entries stamped far in the past are swept against the real clock;
    // entries stamped far in the future stay.
    let mut st = AppState::new(mem_db());
    db::cache_bv_mid(&mut st.conn, "BVancient", 1, 1000).unwrap();
    db::cache_bv_mid(&mut st.conn, "BVfuture", 2, i64::MAX - 1000).unwrap();
    let out = st.run_sweep(7);
    assert!(matches!(out, SweepOutcome::Swept(1)));
    assert_eq!(db::get_mid_by_bv(&st.conn, "BVancient").unwrap(), None);
    assert_eq!(db::get_mid_by_bv(&st.conn, "BVfuture").unwrap(), Some(2));
}
