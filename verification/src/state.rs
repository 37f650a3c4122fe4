//! Shared state of the resolution pipeline: the store connection, the
//! ingestion queue, the in-flight set, the concurrency permits, and the
//! process-wide counters.  The scheduling glue owns one `AppState` and drives
//! every transition through the verified methods on it; `wf` is the invariant
//! that the constructor establishes and every method preserves.

use vstd::prelude::*;

use crate::db;

verus! {

/// Capacity of the ingestion queue; producers see backpressure beyond it.
pub const QUEUE_CAPACITY: usize = 1000;

/// Size of the concurrency permit pool bounding simultaneous remote fetches.
pub const MAX_CONCURRENT_FETCHES: usize = 16;

/// `x + 1` clamped to `usize`.
pub open spec fn sat_inc(x: usize) -> usize {
    if x == usize::MAX {
        x
    } else {
        (x + 1) as usize
    }
}

/// `x + y` clamped to `usize`.
pub open spec fn sat_add(x: usize, y: usize) -> usize {
    if x + y > usize::MAX {
        usize::MAX
    } else {
        (x + y) as usize
    }
}

/// `x - 1` clamped at zero.
pub open spec fn sat_dec(x: usize) -> usize {
    if x == 0 {
        0
    } else {
        (x - 1) as usize
    }
}

/// `x + y` clamped to `u64`.
pub open spec fn sat_add64(x: u64, y: u64) -> u64 {
    if x + y > u64::MAX {
        u64::MAX
    } else {
        (x + y) as u64
    }
}

pub fn counter_inc(c: &mut usize)
    ensures
        *final(c) == sat_inc(*old(c)),
{
    if *c < usize::MAX {
        *c = *c + 1;
    }
}

pub fn counter_add(c: &mut usize, y: usize)
    ensures
        *final(c) == sat_add(*old(c), y),
{
    if usize::MAX - *c < y {
        *c = usize::MAX;
    } else {
        *c = *c + y;
    }
}

pub fn counter_dec(c: &mut usize)
    ensures
        *final(c) == sat_dec(*old(c)),
{
    if *c > 0 {
        *c = *c - 1;
    }
}

pub fn counter_add64(c: &mut u64, y: u64)
    ensures
        *final(c) == sat_add64(*old(c), y),
{
    if u64::MAX - *c < y {
        *c = u64::MAX;
    } else {
        *c = *c + y;
    }
}

/// Counters for the local query service.
pub struct ServiceStats {
    pub req_count: usize,
    /// Cumulative handling time, milliseconds.
    pub req_time_sum: u64,
}

/// Counters for the block list.
pub struct DbStats {
    pub blocked_user_count: usize,
}

/// Counters for the resolver pool and the sweeper, plus the pause flag.
pub struct SpiderStats {
    pub bv_cache_count: usize,
    /// Cumulative remote-fetch time, milliseconds.
    pub req_time_sum: u64,
    pub fail_count: usize,
    pub session_cleaned_count: usize,
    pub is_paused: bool,
    pub total_received_count: usize,
    pub actual_api_req_count: usize,
}

#[derive(PartialEq, Eq, Structural, Clone, Copy, Debug)]
pub enum ServerStatus {
    Init,
    Running,
    Failed,
}

/// All ids in a sequence of owned strings, as character sequences.
pub open spec fn seq_ids(v: Seq<String>) -> Seq<Seq<char>> {
    v.map_values(|s: String| s@)
}

/// No id occurs twice.
pub open spec fn distinct_ids(s: Seq<Seq<char>>) -> bool {
    forall|i: int, j: int| 0 <= i < j < s.len() ==> s[i] != s[j]
}

/// No id occurs in both sequences.
pub open spec fn disjoint_ids(a: Seq<Seq<char>>, b: Seq<Seq<char>>) -> bool {
    forall|i: int, j: int| 0 <= i < a.len() && 0 <= j < b.len() ==> a[i] != b[j]
}

/// Whether `id` occurs among the ids held in `v`.
pub(crate) fn contains_id(v: &Vec<String>, id: &str) -> (r: bool)
    ensures
        r == seq_ids(v@).contains(id@),
{
    let mut i: usize = 0;
    while i < v.len()
        invariant
            0 <= i <= v@.len(),
            forall|j: int| 0 <= j < i ==> seq_ids(v@)[j] != id@,
        decreases v@.len() - i,
    {
        if crate::text::chars_eq(v[i].as_str(), id) {
            assert(seq_ids(v@)[i as int] == id@);
            return true;
        }
        i = i + 1;
    }
    assert(forall|j: int| 0 <= j < seq_ids(v@).len() ==> seq_ids(v@)[j] != id@);
    false
}

/// Removes the first occurrence of `id` from `v`, if any.  Every other id
/// keeps its membership, and under distinctness `id` is gone entirely.
pub(crate) fn remove_id(v: &mut Vec<String>, id: &str)
    ensures
        !seq_ids(old(v)@).contains(id@) ==> final(v)@ == old(v)@,
        seq_ids(old(v)@).contains(id@) ==> final(v)@.len() == old(v)@.len() - 1,
        forall|x: Seq<char>|
            x != id@ ==> #[trigger] seq_ids(final(v)@).contains(x) == seq_ids(old(v)@).contains(x),
        forall|x: Seq<char>| #[trigger]
            seq_ids(final(v)@).contains(x) ==> seq_ids(old(v)@).contains(x),
        distinct_ids(seq_ids(old(v)@)) ==> distinct_ids(seq_ids(final(v)@)) && !seq_ids(
            final(v)@,
        ).contains(id@),
{
    let mut i: usize = 0;
    while i < v.len()
        invariant
            v@ == old(v)@,
            0 <= i <= v@.len(),
            forall|j: int| 0 <= j < i ==> seq_ids(v@)[j] != id@,
        decreases v@.len() - i,
    {
        if crate::text::chars_eq(v[i].as_str(), id) {
            assert(seq_ids(old(v)@)[i as int] == id@);
            v.remove(i);
            proof {
                let pre = seq_ids(old(v)@);
                let post = seq_ids(v@);
                assert(pre.contains(id@)) by {
                    assert(0 <= i < pre.len() && pre[i as int] == id@);
                }
                assert(post.len() == pre.len() - 1);
                assert(post =~= pre.remove(i as int)) by {
                    assert(forall|j: int|
                        0 <= j < post.len() ==> post[j] == #[trigger] pre.remove(i as int)[j]);
                }
                assert forall|x: Seq<char>| x != id@ implies #[trigger] post.contains(x)
                    == pre.contains(x) by {
                    if pre.contains(x) {
                        let k = choose|k: int| 0 <= k < pre.len() && pre[k] == x;
                        if k < i {
                            assert(post[k] == x);
                        } else {
                            assert(k > i);
                            assert(post[k - 1] == x);
                        }
                    }
                    if post.contains(x) {
                        let k = choose|k: int| 0 <= k < post.len() && post[k] == x;
                        if k < i {
                            assert(pre[k] == x);
                        } else {
                            assert(pre[k + 1] == x);
                        }
                    }
                }
                assert forall|x: Seq<char>| #[trigger]
                    post.contains(x) implies pre.contains(x) by {
                    let k = choose|k: int| 0 <= k < post.len() && post[k] == x;
                    if k < i {
                        assert(pre[k] == x);
                    } else {
                        assert(pre[k + 1] == x);
                    }
                }
                if distinct_ids(pre) {
                    assert forall|a: int, b: int|
                        0 <= a < b < post.len() implies post[a] != post[b] by {
                        if b < i {
                            assert(post[a] == pre[a] && post[b] == pre[b]);
                        } else if a < i {
                            assert(post[a] == pre[a] && post[b] == pre[b + 1]);
                        } else {
                            assert(post[a] == pre[a + 1] && post[b] == pre[b + 1]);
                        }
                    }
                    if post.contains(id@) {
                        let k = choose|k: int| 0 <= k < post.len() && post[k] == id@;
                        if k < i {
                            assert(pre[k] == id@ && pre[i as int] == id@);
                        } else {
                            assert(pre[k + 1] == id@ && pre[i as int] == id@);
                        }
                        assert(false);
                    }
                }
            }
            return;
        }
        i = i + 1;
    }
    assert(forall|j: int| 0 <= j < seq_ids(v@).len() ==> seq_ids(v@)[j] != id@);
    assert(!seq_ids(v@).contains(id@));
}

pub struct AppState {
    pub conn: rusqlite::Connection,
    pub service_stats: ServiceStats,
    pub db_stats: DbStats,
    pub spider_stats: SpiderStats,
    /// Ids accepted for resolution and not yet dispatched (FIFO).
    pub queue: Vec<String>,
    /// Ids dispatched to a resolver task and not yet completed.
    pub inflight: Vec<String>,
    /// Concurrency permits currently held by fetching tasks.
    pub permits_in_use: usize,
    pub server_status: ServerStatus,
}

impl AppState {
    pub open spec fn queue_ids(&self) -> Seq<Seq<char>> {
        seq_ids(self.queue@)
    }

    pub open spec fn inflight_ids(&self) -> Seq<Seq<char>> {
        seq_ids(self.inflight@)
    }

    /// The pending set: every id between acceptance and completion.  This is
    /// the set that deduplication is measured against.
    pub open spec fn pending_ids(&self) -> Set<Seq<char>> {
        Set::new(|id: Seq<char>| self.queue_ids().contains(id) || self.inflight_ids().contains(id))
    }

    /// The pipeline invariant: the queue respects its capacity, no id is
    /// queued or in flight twice, and no more permits are out than the pool
    /// holds.
    pub open spec fn wf(&self) -> bool {
        &&& self.queue@.len() <= QUEUE_CAPACITY
        &&& distinct_ids(self.queue_ids())
        &&& distinct_ids(self.inflight_ids())
        &&& disjoint_ids(self.queue_ids(), self.inflight_ids())
        &&& self.permits_in_use <= MAX_CONCURRENT_FETCHES
    }

    /// Fresh state around an opened store connection: nothing pending,
    /// nothing in flight, all counters at zero, not paused.
    pub fn new(conn: rusqlite::Connection) -> (s: AppState)
        ensures
            s.wf(),
            s.conn == conn,
            s.queue@ =~= Seq::<String>::empty(),
            s.inflight@ =~= Seq::<String>::empty(),
            s.permits_in_use == 0,
            s.server_status == ServerStatus::Init,
            s.service_stats == (ServiceStats { req_count: 0, req_time_sum: 0 }),
            s.db_stats == (DbStats { blocked_user_count: 0 }),
            s.spider_stats == (SpiderStats {
                bv_cache_count: 0,
                req_time_sum: 0,
                fail_count: 0,
                session_cleaned_count: 0,
                is_paused: false,
                total_received_count: 0,
                actual_api_req_count: 0,
            }),
    {
        AppState {
            conn,
            service_stats: ServiceStats { req_count: 0, req_time_sum: 0 },
            db_stats: DbStats { blocked_user_count: 0 },
            spider_stats: SpiderStats {
                bv_cache_count: 0,
                req_time_sum: 0,
                fail_count: 0,
                session_cleaned_count: 0,
                is_paused: false,
                total_received_count: 0,
                actual_api_req_count: 0,
            },
            queue: Vec::new(),
            inflight: Vec::new(),
            permits_in_use: 0,
            server_status: ServerStatus::Init,
        }
    }

    /// Seeds the block-list and cache counters from the store, keeping zero
    /// for a count the store could not give.
    pub fn load_initial_stats(&mut self)
        ensures
            final(self).wf() == old(self).wf(),
            *final(self) == (AppState {
                db_stats: DbStats { blocked_user_count: final(self).db_stats.blocked_user_count },
                spider_stats: SpiderStats {
                    bv_cache_count: final(self).spider_stats.bv_cache_count,
                    ..old(self).spider_stats
                },
                ..*old(self)
            }),
            db::db_users(old(self).conn).finite() ==> final(self).db_stats.blocked_user_count
                == db::db_users(old(self).conn).len() || final(self).db_stats.blocked_user_count
                == 0,
            db::db_cache(old(self).conn).dom().finite()
                ==> final(self).spider_stats.bv_cache_count == db::db_cache(
                old(self).conn,
            ).dom().len() || final(self).spider_stats.bv_cache_count == 0,
    {
        let blocked = match db::get_blocked_count(&self.conn) {
            Ok(n) => n,
            Err(_) => 0,
        };
        let cached = match db::get_bv_cache_count(&self.conn) {
            Ok(n) => n,
            Err(_) => 0,
        };
        self.db_stats.blocked_user_count = blocked;
        self.spider_stats.bv_cache_count = cached;
    }

    /// Flips the pause flag and returns the new value.  While paused, no new
    /// remote fetch may start; nothing queued or pending is lost.
    pub fn toggle_spider_status(&mut self) -> (paused: bool)
        ensures
            paused == !old(self).spider_stats.is_paused,
            *final(self) == (AppState {
                spider_stats: SpiderStats { is_paused: paused, ..old(self).spider_stats },
                ..*old(self)
            }),
    {
        let next = !self.spider_stats.is_paused;
        self.spider_stats.is_paused = next;
        next
    }

    pub fn is_paused(&self) -> (r: bool)
        ensures
            r == self.spider_stats.is_paused,
    {
        self.spider_stats.is_paused
    }

    pub fn set_server_status(&mut self, status: ServerStatus)
        ensures
            *final(self) == (AppState { server_status: status, ..*old(self) }),
    {
        self.server_status = status;
    }

    /// Accepted-but-not-completed count, clamped to `usize`.
    pub fn queue_depth(&self) -> (d: usize)
        ensures
            d == sat_add(self.queue.len(), self.inflight.len()),
    {
        if usize::MAX - self.queue.len() < self.inflight.len() {
            usize::MAX
        } else {
            self.queue.len() + self.inflight.len()
        }
    }

    /// Counts one handled service request of `dur_ms` milliseconds.
    pub fn record_service_request(&mut self, dur_ms: u64)
        ensures
            *final(self) == (AppState {
                service_stats: ServiceStats {
                    req_count: sat_inc(old(self).service_stats.req_count),
                    req_time_sum: sat_add64(old(self).service_stats.req_time_sum, dur_ms),
                },
                ..*old(self)
            }),
    {
        counter_inc(&mut self.service_stats.req_count);
        counter_add64(&mut self.service_stats.req_time_sum, dur_ms);
    }
}

/// A point-in-time copy of every counter, for polling by an observer.
/// Neighbouring fields may be an update apart; none of them is a ledger.
#[derive(PartialEq, Eq, Structural, Clone, Copy, Debug)]
pub struct StatsSnapshot {
    pub service_req_count: usize,
    pub service_req_time_sum: u64,
    pub db_blocked_count: usize,
    pub spider_cache_count: usize,
    pub spider_queue_size: usize,
    pub spider_fail_count: usize,
    pub spider_req_time_sum: u64,
    pub session_cleaned_count: usize,
    pub is_paused: bool,
    pub spider_total_received: usize,
    pub spider_actual_reqs: usize,
    pub server_status: ServerStatus,
}

impl AppState {
    pub fn get_stats(&self) -> (snap: StatsSnapshot)
        ensures
            snap == (StatsSnapshot {
                service_req_count: self.service_stats.req_count,
                service_req_time_sum: self.service_stats.req_time_sum,
                db_blocked_count: self.db_stats.blocked_user_count,
                spider_cache_count: self.spider_stats.bv_cache_count,
                spider_queue_size: sat_add(self.queue.len(), self.inflight.len()),
                spider_fail_count: self.spider_stats.fail_count,
                spider_req_time_sum: self.spider_stats.req_time_sum,
                session_cleaned_count: self.spider_stats.session_cleaned_count,
                is_paused: self.spider_stats.is_paused,
                spider_total_received: self.spider_stats.total_received_count,
                spider_actual_reqs: self.spider_stats.actual_api_req_count,
                server_status: self.server_status,
            }),
    {
        StatsSnapshot {
            service_req_count: self.service_stats.req_count,
            service_req_time_sum: self.service_stats.req_time_sum,
            db_blocked_count: self.db_stats.blocked_user_count,
            spider_cache_count: self.spider_stats.bv_cache_count,
            spider_queue_size: self.queue_depth(),
            spider_fail_count: self.spider_stats.fail_count,
            spider_req_time_sum: self.spider_stats.req_time_sum,
            session_cleaned_count: self.spider_stats.session_cleaned_count,
            is_paused: self.spider_stats.is_paused,
            spider_total_received: self.spider_stats.total_received_count,
            spider_actual_reqs: self.spider_stats.actual_api_req_count,
            server_status: self.server_status,
        }
    }
}

} // verus!
