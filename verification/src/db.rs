//! The persistent store: a block list of account ids (`users`) and a cache of
//! resolved BV id → mid pairs (`bv_cache`), both kept in an SQLite database
//! behind `rusqlite`.  The store is a collaborator: its operations are trusted
//! at this boundary, with contracts over two abstract views of the connection,
//! `db_users` (the set of blocked mids) and `db_cache` (the map from BV id to
//! the cached mid and its write timestamp).  Everything built on top of these
//! operations is verified against those contracts.

use vstd::prelude::*;

verus! {

#[verifier::external_type_specification]
#[verifier::external_body]
pub struct ExConnection(rusqlite::Connection);

#[verifier::external_type_specification]
#[verifier::external_body]
pub struct ExSqlError(rusqlite::Error);

/// The set of blocked account ids held in the `users` table (empty when the
/// table does not exist yet).  Usernames are stored alongside but never read
/// back by the pipeline, so they are not part of the view.
pub uninterp spec fn db_users(c: rusqlite::Connection) -> Set<i64>;

/// The contents of the `bv_cache` table (empty when the table does not exist
/// yet): BV id → (mid, updated_at).
pub uninterp spec fn db_cache(c: rusqlite::Connection) -> Map<Seq<char>, (i64, i64)>;

/// The cache after deleting every entry written strictly before `threshold`.
pub open spec fn swept(m: Map<Seq<char>, (i64, i64)>, threshold: i64) -> Map<
    Seq<char>,
    (i64, i64),
> {
    Map::new(|k: Seq<char>| m.dom().contains(k) && m[k].1 >= threshold, |k: Seq<char>| m[k])
}

/// `a - b` clamped to the range of `i64`.
pub open spec fn sat_sub_i64(a: i64, b: i64) -> i64 {
    if a - b > i64::MAX {
        i64::MAX
    } else if a - b < i64::MIN {
        i64::MIN
    } else {
        (a - b) as i64
    }
}

/// Relies on rusqlite's `Connection::execute` running
/// `INSERT OR IGNORE INTO users`: one row is inserted exactly when `mid` was
/// absent, and the call reports the number of rows inserted.
#[verifier::external_body]
pub fn add_user(
    conn: &mut rusqlite::Connection,
    mid: i64,
    username: Option<&str>,
) -> (r: Result<bool, rusqlite::Error>)
    ensures
        db_cache(*final(conn)) == db_cache(*old(conn)),
        r is Ok ==> {
            &&& (r->Ok_0 <==> !db_users(*old(conn)).contains(mid))
            &&& db_users(*final(conn)) == db_users(*old(conn)).insert(mid)
        },
        r is Err ==> db_users(*final(conn)) == db_users(*old(conn)),
{
    let mut stmt = conn.prepare("INSERT OR IGNORE INTO users (mid, username) VALUES (?, ?)")?;
    let rows = stmt.execute((mid, username))?;
    Ok(rows > 0)
}

/// Relies on rusqlite's `Connection::execute` running `DELETE FROM users`:
/// the keyed row is removed, and the call reports how many rows went.
#[verifier::external_body]
pub fn remove_user(conn: &mut rusqlite::Connection, mid: i64) -> (r: Result<
    bool,
    rusqlite::Error,
>)
    ensures
        db_cache(*final(conn)) == db_cache(*old(conn)),
        r is Ok ==> {
            &&& (r->Ok_0 <==> db_users(*old(conn)).contains(mid))
            &&& db_users(*final(conn)) == db_users(*old(conn)).remove(mid)
        },
        r is Err ==> db_users(*final(conn)) == db_users(*old(conn)),
{
    let rows = conn.execute("DELETE FROM users WHERE mid = ?", (mid,))?;
    Ok(rows > 0)
}

/// Relies on rusqlite's `Statement::exists` over `SELECT 1 FROM users`:
/// true exactly when the keyed row is present.
#[verifier::external_body]
pub fn is_user_exist(conn: &rusqlite::Connection, mid: i64) -> (r: Result<
    bool,
    rusqlite::Error,
>)
    ensures
        r is Ok ==> r->Ok_0 == db_users(*conn).contains(mid),
{
    let mut stmt = conn.prepare("SELECT 1 FROM users WHERE mid = ?")?;
    let exists = stmt.exists((mid,))?;
    Ok(exists)
}

/// Relies on rusqlite's `Connection::query_row` over
/// `SELECT mid FROM bv_cache`: the cached mid for the key, if any.
#[verifier::external_body]
pub fn get_mid_by_bv(conn: &rusqlite::Connection, bvid: &str) -> (r: Result<
    Option<i64>,
    rusqlite::Error,
>)
    ensures
        r is Ok ==> match r->Ok_0 {
            Some(m) => db_cache(*conn).dom().contains(bvid@) && db_cache(*conn)[bvid@].0 == m,
            None => !db_cache(*conn).dom().contains(bvid@),
        },
{
    match conn.query_row("SELECT mid FROM bv_cache WHERE bvid = ?", (bvid,), |row| row.get(0)) {
        Ok(m) => Ok(Some(m)),
        Err(rusqlite::Error::QueryReturnedNoRows) => Ok(None),
        Err(e) => Err(e),
    }
}

/// Relies on rusqlite's `Connection::execute` running
/// `INSERT OR REPLACE INTO bv_cache`: upsert semantics, the keyed row is
/// created or overwritten with the given mid and timestamp.
#[verifier::external_body]
pub fn cache_bv_mid(
    conn: &mut rusqlite::Connection,
    bvid: &str,
    mid: i64,
    now: i64,
) -> (r: Result<(), rusqlite::Error>)
    ensures
        db_users(*final(conn)) == db_users(*old(conn)),
        r is Ok ==> db_cache(*final(conn)) == db_cache(*old(conn)).insert(bvid@, (mid, now)),
        r is Err ==> db_cache(*final(conn)) == db_cache(*old(conn)),
{
    conn.execute(
        "INSERT OR REPLACE INTO bv_cache (bvid, mid, updated_at) VALUES (?, ?, ?)",
        (bvid, mid, now),
    )?;
    Ok(())
}

/// Relies on rusqlite's `Connection::query_row` over `SELECT COUNT(*)`:
/// the number of rows in `users`.
#[verifier::external_body]
pub fn get_blocked_count(conn: &rusqlite::Connection) -> (r: Result<usize, rusqlite::Error>)
    ensures
        r is Ok ==> db_users(*conn).finite() && r->Ok_0 == db_users(*conn).len(),
{
    let count: i64 = conn.query_row("SELECT COUNT(*) FROM users", [], |row| row.get(0))?;
    Ok(count as usize)
}

/// Relies on rusqlite's `Connection::query_row` over `SELECT COUNT(*)`:
/// the number of rows in `bv_cache`.
#[verifier::external_body]
pub fn get_bv_cache_count(conn: &rusqlite::Connection) -> (r: Result<usize, rusqlite::Error>)
    ensures
        r is Ok ==> db_cache(*conn).dom().finite() && r->Ok_0 == db_cache(*conn).dom().len(),
{
    let count: i64 = conn.query_row("SELECT COUNT(*) FROM bv_cache", [], |row| row.get(0))?;
    Ok(count as usize)
}

/// Relies on rusqlite's `Connection::execute` running
/// `DELETE FROM bv_cache WHERE updated_at < ?`: exactly the rows written
/// strictly before `threshold` go, and the call reports how many.
#[verifier::external_body]
fn delete_cache_older_than(conn: &mut rusqlite::Connection, threshold: i64) -> (r: Result<
    usize,
    rusqlite::Error,
>)
    ensures
        db_users(*final(conn)) == db_users(*old(conn)),
        r is Ok ==> db_cache(*final(conn)) == swept(db_cache(*old(conn)), threshold),
        r is Ok && db_cache(*old(conn)).dom().finite() ==> {
            &&& db_cache(*final(conn)).dom().finite()
            &&& r->Ok_0 == db_cache(*old(conn)).dom().len() - db_cache(
                *final(conn),
            ).dom().len()
        },
        r is Err ==> db_cache(*final(conn)) == db_cache(*old(conn)),
{
    let rows = conn.execute("DELETE FROM bv_cache WHERE updated_at < ?", (threshold,))?;
    Ok(rows)
}

/// Deletes every cache entry older than `expiration_secs` seconds, measured
/// from `now`; the threshold clamps at the ends of the `i64` range.  Returns
/// how many entries went.
pub fn clean_expired_cache(
    conn: &mut rusqlite::Connection,
    now: i64,
    expiration_secs: i64,
) -> (r: Result<usize, rusqlite::Error>)
    ensures
        db_users(*final(conn)) == db_users(*old(conn)),
        r is Ok ==> db_cache(*final(conn)) == swept(
            db_cache(*old(conn)),
            sat_sub_i64(now, expiration_secs),
        ),
        r is Ok && db_cache(*old(conn)).dom().finite() ==> {
            &&& db_cache(*final(conn)).dom().finite()
            &&& r->Ok_0 == db_cache(*old(conn)).dom().len() - db_cache(
                *final(conn),
            ).dom().len()
        },
        r is Err ==> db_cache(*final(conn)) == db_cache(*old(conn)),
{
    let threshold: i64 = if expiration_secs >= 0 {
        if now >= i64::MIN + expiration_secs {
            now - expiration_secs
        } else {
            i64::MIN
        }
    } else {
        if now <= i64::MAX + expiration_secs {
            now - expiration_secs
        } else {
            i64::MAX
        }
    };
    assert(threshold == sat_sub_i64(now, expiration_secs));
    delete_cache_older_than(conn, threshold)
}

/// Upserting the same (bv_id, mid) again leaves the number of cached entries
/// unchanged, and the latest timestamp wins.
pub proof fn lemma_upsert_idempotent(
    m: Map<Seq<char>, (i64, i64)>,
    k: Seq<char>,
    mid: i64,
    t1: i64,
    t2: i64,
)
    ensures
        m.insert(k, (mid, t1)).insert(k, (mid, t2)) == m.insert(k, (mid, t2)),
        m.insert(k, (mid, t1)).insert(k, (mid, t2)).dom() == m.insert(k, (mid, t1)).dom(),
        m.insert(k, (mid, t1)).insert(k, (mid, t2))[k] == (mid, t2),
{
    assert(m.insert(k, (mid, t1)).insert(k, (mid, t2)) =~= m.insert(k, (mid, t2)));
    assert(m.insert(k, (mid, t1)).insert(k, (mid, t2)).dom() =~= m.insert(k, (mid, t1)).dom());
}

/// A sweep at `threshold` keeps exactly the entries written at or after
/// `threshold`, unchanged, and drops exactly those written strictly before.
pub proof fn lemma_sweep_exact(m: Map<Seq<char>, (i64, i64)>, threshold: i64)
    ensures
        forall|k: Seq<char>| #[trigger]
            swept(m, threshold).dom().contains(k) <==> m.dom().contains(k) && m[k].1 >= threshold,
        forall|k: Seq<char>|
            swept(m, threshold).dom().contains(k) ==> #[trigger] swept(m, threshold)[k] == m[k],
{
}

/// Sweeping twice at the same threshold is a no-op the second time.
pub proof fn lemma_sweep_idempotent(m: Map<Seq<char>, (i64, i64)>, threshold: i64)
    ensures
        swept(swept(m, threshold), threshold) == swept(m, threshold),
{
    assert(swept(swept(m, threshold), threshold) =~= swept(m, threshold));
}

} // verus!
