//! The expiration sweeper: one cycle reads the configured expiration, and if
//! it is positive deletes every cache entry older than the threshold, then
//! refreshes the cached-entry counter.  The periodic timer that calls it
//! lives in the scheduling glue; the cycle itself is verified.

use vstd::prelude::*;

use crate::db;
use crate::state::{counter_add, sat_add, AppState};

verus! {

#[derive(PartialEq, Eq, Structural, Clone, Copy, Debug)]
pub enum SweepOutcome {
    /// A non-positive expiration setting disables deletion for this cycle.
    Disabled,
    /// The sweep ran and deleted this many entries.
    Swept(usize),
    /// The store refused the deletion; nothing changed.
    StoreFailed,
}

/// The expiration in seconds: whole days, clamped to the range of `i64`.
pub open spec fn sweep_secs(days: u64) -> i64 {
    if days * 86400 > i64::MAX {
        i64::MAX
    } else {
        (days * 86400) as i64
    }
}

/// Everything one sweep cycle does, relating the state before (`pre`) and
/// after (`post`) for expiration setting `days` at time `now`.  The pipeline
/// fields are untouched; with a positive setting the cache is swept at
/// `now - sweep_secs(days)` and the cleaned and cached counters move.
pub open spec fn sweep_post(
    pre: AppState,
    post: AppState,
    days: u64,
    now: i64,
    r: SweepOutcome,
) -> bool {
    &&& post.queue == pre.queue
    &&& post.inflight == pre.inflight
    &&& post.permits_in_use == pre.permits_in_use
    &&& post.service_stats == pre.service_stats
    &&& post.db_stats == pre.db_stats
    &&& post.server_status == pre.server_status
    &&& post.spider_stats.is_paused == pre.spider_stats.is_paused
    &&& post.spider_stats.fail_count == pre.spider_stats.fail_count
    &&& post.spider_stats.req_time_sum == pre.spider_stats.req_time_sum
    &&& post.spider_stats.total_received_count == pre.spider_stats.total_received_count
    &&& post.spider_stats.actual_api_req_count == pre.spider_stats.actual_api_req_count
    &&& db::db_users(post.conn) == db::db_users(pre.conn)
    &&& (days == 0 ==> r == SweepOutcome::Disabled && post == pre)
    &&& (days > 0 ==> match r {
        SweepOutcome::Disabled => false,
        SweepOutcome::StoreFailed => {
            &&& db::db_cache(post.conn) == db::db_cache(pre.conn)
            &&& post.spider_stats.session_cleaned_count == pre.spider_stats.session_cleaned_count
            &&& post.spider_stats.bv_cache_count == pre.spider_stats.bv_cache_count
        },
        SweepOutcome::Swept(n) => {
            &&& db::db_cache(post.conn) == db::swept(
                db::db_cache(pre.conn),
                db::sat_sub_i64(now, sweep_secs(days)),
            )
            &&& post.spider_stats.session_cleaned_count == sat_add(
                pre.spider_stats.session_cleaned_count,
                n,
            )
            &&& (db::db_cache(pre.conn).dom().finite() ==> n == db::db_cache(
                pre.conn,
            ).dom().len() - db::db_cache(post.conn).dom().len())
            &&& (post.spider_stats.bv_cache_count == pre.spider_stats.bv_cache_count || (db::db_cache(
                post.conn,
            ).dom().finite() && post.spider_stats.bv_cache_count == db::db_cache(
                post.conn,
            ).dom().len()))
        },
    })
}

impl AppState {
    /// One sweep cycle at an explicit time: deletes entries older than
    /// `days` whole days before `now`, counts them into the session total,
    /// and refreshes the cached-entry counter from the store.
    pub fn sweep_cycle(&mut self, days: u64, now: i64) -> (r: SweepOutcome)
        ensures
            sweep_post(*old(self), *final(self), days, now, r),
            old(self).wf() ==> final(self).wf(),
    {
        if days == 0 {
            return SweepOutcome::Disabled;
        }
        let secs: i64 = if days > (i64::MAX as u64) / 86400 {
            i64::MAX
        } else {
            proof {
                assert(days * 86400 <= i64::MAX) by (nonlinear_arith)
                    requires
                        days <= (i64::MAX as u64) / 86400,
                ;
            }
            (days * 86400) as i64
        };
        assert(secs == sweep_secs(days));
        match db::clean_expired_cache(&mut self.conn, now, secs) {
            Ok(deleted) => {
                counter_add(&mut self.spider_stats.session_cleaned_count, deleted);
                match db::get_bv_cache_count(&self.conn) {
                    Ok(c) => {
                        self.spider_stats.bv_cache_count = c;
                    },
                    Err(_) => {},
                }
                SweepOutcome::Swept(deleted)
            },
            Err(_) => SweepOutcome::StoreFailed,
        }
    }

    /// One sweep cycle at the current wall-clock time.
    pub fn run_sweep(&mut self, days: u64) -> (r: SweepOutcome)
        ensures
            exists|t: i64| sweep_post(*old(self), *final(self), days, t, r),
            old(self).wf() ==> final(self).wf(),
    {
        let now = unix_now();
        let r = self.sweep_cycle(days, now);
        proof {
            assert(sweep_post(*old(self), *self, days, now, r));
        }
        r
    }
}

/// Relies on chrono's `Utc::now`: the current Unix timestamp in seconds.
/// Nothing is promised of the value.
#[verifier::external_body]
fn unix_now() -> i64 {
    chrono::Utc::now().timestamp()
}

} // verus!
