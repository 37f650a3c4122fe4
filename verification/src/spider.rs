//! The resolver pool: ingestion with deduplication, FIFO dispatch, the
//! concurrency permit pool, the pause gate, and the completion of each
//! remote fetch.  The scheduling glue drives these transitions; every
//! decision and every state change is made here, under contract.

use vstd::prelude::*;

use crate::db;
use crate::state::{
    contains_id, remove_id, sat_add64, sat_dec, sat_inc, AppState, SpiderStats,
    MAX_CONCURRENT_FETCHES, QUEUE_CAPACITY,
};

verus! {

#[derive(PartialEq, Eq, Structural, Clone, Copy, Debug)]
pub enum SubmitOutcome {
    /// The id was accepted and now waits in the ingestion queue.
    Enqueued,
    /// The id is already queued or in flight; nothing was enqueued.
    AlreadyPending,
    /// The queue is at capacity; the producer should retry later.
    QueueFull,
}

/// What `submit` decides, given the pending set and the queue length.
pub open spec fn submit_decision(
    pending: Set<Seq<char>>,
    queue_len: int,
    id: Seq<char>,
) -> SubmitOutcome {
    if pending.contains(id) {
        SubmitOutcome::AlreadyPending
    } else if queue_len >= QUEUE_CAPACITY {
        SubmitOutcome::QueueFull
    } else {
        SubmitOutcome::Enqueued
    }
}

#[derive(PartialEq, Eq, Structural, Clone, Copy, Debug)]
pub enum FetchOutcome {
    /// The response carried an owner; the mapping is now cached.
    Cached,
    /// The remote answered with a non-zero application status code.
    ApiError(i64),
    /// The response parsed but held no owner identifier.
    MissingOwner,
    /// The response body failed structural parsing.
    ParseFailed,
    /// No response body was obtained at all.
    TransportFailed,
    /// The fetch succeeded but the cache write did not.
    StoreFailed,
}

/// What parsing a response body yields: `None` when the body is not a JSON
/// object of the expected shape, otherwise the application status code and
/// the owner's mid where present.  A function of the characters alone.
pub uninterp spec fn api_response_of(t: Seq<char>) -> Option<(i64, Option<i64>)>;

/// Relies on serde_json's `from_str`: parsing is a function of the input
/// characters alone.  Reads the `code` field and the `data.owner.mid` field
/// of the parsed object.
#[verifier::external_body]
fn parse_api_response(text: &str) -> (r: Option<(i64, Option<i64>)>)
    ensures
        r == api_response_of(text@),
{
    let v: serde_json::Value = match serde_json::from_str(text) {
        Ok(v) => v,
        Err(_) => return None,
    };
    let code = match v.get("code").and_then(|c| c.as_i64()) {
        Some(c) => c,
        None => return None,
    };
    let mid = v.get("data").and_then(|d| d.get("owner")).and_then(|o| o.get("mid")).and_then(
        |m| m.as_i64(),
    );
    Some((code, mid))
}

/// The parse of the body, where a body was obtained at all.
pub open spec fn parsed_body(body: Option<&str>) -> Option<(i64, Option<i64>)> {
    match body {
        Some(t) => api_response_of(t@),
        None => None,
    }
}

impl AppState {
    /// Whether `bvid` is currently queued or in flight.
    pub fn is_pending(&self, bvid: &str) -> (r: bool)
        ensures
            r == self.pending_ids().contains(bvid@),
    {
        contains_id(&self.queue, bvid) || contains_id(&self.inflight, bvid)
    }

    /// The sole entry path into the pipeline: accepts `bvid` unless it is
    /// already pending (the deduplication gate) or the queue is full (the
    /// backpressure gate).
    pub fn submit(&mut self, bvid: &str) -> (r: SubmitOutcome)
        requires
            old(self).wf(),
        ensures
            final(self).wf(),
            r == submit_decision(old(self).pending_ids(), old(self).queue@.len() as int, bvid@),
            r != SubmitOutcome::Enqueued ==> *final(self) == *old(self),
            r == SubmitOutcome::Enqueued ==> {
                &&& final(self).queue_ids() == old(self).queue_ids().push(bvid@)
                &&& final(self).inflight == old(self).inflight
                &&& final(self).pending_ids() == old(self).pending_ids().insert(bvid@)
                &&& *final(self) == (AppState { queue: final(self).queue, ..*old(self) })
            },
    {
        if self.is_pending(bvid) {
            return SubmitOutcome::AlreadyPending;
        }
        if self.queue.len() >= QUEUE_CAPACITY {
            return SubmitOutcome::QueueFull;
        }
        let ghost pre = *self;
        self.queue.push(bvid.to_owned());
        proof {
            assert(self.queue_ids() =~= pre.queue_ids().push(bvid@)) by {
                assert(forall|j: int|
                    0 <= j < self.queue_ids().len() ==> self.queue_ids()[j] == #[trigger] pre
                        .queue_ids().push(bvid@)[j]);
            }
            assert forall|x: Seq<char>| #[trigger]
                self.pending_ids().contains(x) == pre.pending_ids().insert(bvid@).contains(x) by {
                if x == bvid@ {
                    assert(self.queue_ids()[self.queue_ids().len() - 1] == bvid@);
                    assert(self.queue_ids().contains(x));
                }
                if pre.queue_ids().contains(x) {
                    let j = choose|j: int|
                        0 <= j < pre.queue_ids().len() && pre.queue_ids()[j] == x;
                    assert(self.queue_ids()[j] == x);
                }
                if self.queue_ids().contains(x) && x != bvid@ {
                    let j = choose|j: int|
                        0 <= j < self.queue_ids().len() && self.queue_ids()[j] == x;
                    assert(j < pre.queue_ids().len());
                    assert(pre.queue_ids()[j] == x);
                }
            }
            assert(self.pending_ids() =~= pre.pending_ids().insert(bvid@));
            assert forall|i: int, j: int|
                0 <= i < j < self.queue_ids().len() implies self.queue_ids()[i]
                != self.queue_ids()[j] by {
                if j == self.queue_ids().len() - 1 {
                    assert(self.queue_ids()[i] == pre.queue_ids()[i]);
                    assert(pre.queue_ids().contains(pre.queue_ids()[i]));
                    assert(!pre.pending_ids().contains(bvid@));
                }
            }
            assert forall|i: int, j: int|
                0 <= i < self.queue_ids().len() && 0 <= j
                    < self.inflight_ids().len() implies self.queue_ids()[i]
                != self.inflight_ids()[j] by {
                if i == self.queue_ids().len() - 1 {
                    assert(self.inflight_ids().contains(self.inflight_ids()[j]));
                    assert(!pre.pending_ids().contains(bvid@));
                }
            }
        }
        SubmitOutcome::Enqueued
    }

    /// Takes the oldest queued id and marks it in flight; dispatch order is
    /// first-in-first-out.
    pub fn dispatch_next(&mut self) -> (r: Option<String>)
        requires
            old(self).wf(),
        ensures
            final(self).wf(),
            old(self).queue@.len() == 0 ==> r is None && *final(self) == *old(self),
            old(self).queue@.len() > 0 ==> {
                &&& r is Some
                &&& r->0@ == old(self).queue_ids()[0]
                &&& final(self).queue_ids() == old(self).queue_ids().drop_first()
                &&& final(self).inflight_ids() == old(self).inflight_ids().push(r->0@)
                &&& final(self).pending_ids() == old(self).pending_ids()
                &&& *final(self) == (AppState {
                    queue: final(self).queue,
                    inflight: final(self).inflight,
                    ..*old(self)
                })
            },
    {
        if self.queue.len() == 0 {
            return None;
        }
        let ghost pre = *self;
        let id = self.queue.remove(0);
        let out = id.clone();
        self.inflight.push(id);
        proof {
            assert(self.queue_ids() =~= pre.queue_ids().drop_first()) by {
                assert(forall|j: int|
                    0 <= j < self.queue_ids().len() ==> self.queue_ids()[j] == #[trigger] pre
                        .queue_ids().drop_first()[j]);
            }
            assert(self.inflight_ids() =~= pre.inflight_ids().push(pre.queue_ids()[0])) by {
                assert(forall|j: int|
                    0 <= j < self.inflight_ids().len() ==> self.inflight_ids()[j] == #[trigger] pre
                        .inflight_ids().push(pre.queue_ids()[0])[j]);
            }
            assert forall|x: Seq<char>| #[trigger]
                self.pending_ids().contains(x) == pre.pending_ids().contains(x) by {
                assert(pre.queue_ids().contains(x) <==> exists|j: int|
                    0 <= j < pre.queue_ids().len() && pre.queue_ids()[j] == x);
                if self.queue_ids().contains(x) {
                    let j = choose|j: int|
                        0 <= j < self.queue_ids().len() && self.queue_ids()[j] == x;
                    assert(pre.queue_ids()[j + 1] == x);
                }
                if pre.queue_ids().contains(x) {
                    let j = choose|j: int|
                        0 <= j < pre.queue_ids().len() && pre.queue_ids()[j] == x;
                    if j == 0 {
                        assert(self.inflight_ids().last() == x);
                    } else {
                        assert(self.queue_ids()[j - 1] == x);
                    }
                }
                if pre.inflight_ids().contains(x) {
                    let j = choose|j: int|
                        0 <= j < pre.inflight_ids().len() && pre.inflight_ids()[j] == x;
                    assert(self.inflight_ids()[j] == x);
                }
                if self.inflight_ids().contains(x) {
                    let j = choose|j: int|
                        0 <= j < self.inflight_ids().len() && self.inflight_ids()[j] == x;
                    if j == pre.inflight_ids().len() {
                        assert(pre.queue_ids()[0] == x);
                    } else {
                        assert(pre.inflight_ids()[j] == x);
                    }
                }
            }
            assert(self.pending_ids() =~= pre.pending_ids());
            assert forall|i: int, j: int|
                0 <= i < j < self.inflight_ids().len() implies self.inflight_ids()[i]
                != self.inflight_ids()[j] by {
                if j == self.inflight_ids().len() - 1 {
                    assert(self.inflight_ids()[i] == pre.inflight_ids()[i]);
                    assert(pre.queue_ids()[0] != pre.inflight_ids()[i]);
                }
            }
            assert forall|i: int, j: int|
                0 <= i < self.queue_ids().len() && 0 <= j
                    < self.inflight_ids().len() implies self.queue_ids()[i]
                != self.inflight_ids()[j] by {
                assert(self.queue_ids()[i] == pre.queue_ids()[i + 1]);
                if j == self.inflight_ids().len() - 1 {
                    assert(self.inflight_ids()[j] == pre.queue_ids()[0]);
                } else {
                    assert(self.inflight_ids()[j] == pre.inflight_ids()[j]);
                }
            }
        }
        Some(out)
    }

    /// Takes one concurrency permit when the pool is not exhausted.  At most
    /// `MAX_CONCURRENT_FETCHES` permits are ever out at once.
    pub fn try_acquire_permit(&mut self) -> (r: bool)
        requires
            old(self).wf(),
        ensures
            final(self).wf(),
            r == (old(self).permits_in_use < MAX_CONCURRENT_FETCHES),
            r ==> *final(self) == (AppState {
                permits_in_use: (old(self).permits_in_use + 1) as usize,
                ..*old(self)
            }),
            !r ==> *final(self) == *old(self),
    {
        if self.permits_in_use < MAX_CONCURRENT_FETCHES {
            self.permits_in_use = self.permits_in_use + 1;
            true
        } else {
            false
        }
    }

    /// The pause gate, passed immediately before the remote call: while the
    /// pipeline is paused no fetch starts and nothing changes; otherwise the
    /// attempt is counted and the fetch may proceed.
    pub fn start_fetch(&mut self) -> (r: bool)
        ensures
            r == !old(self).spider_stats.is_paused,
            r ==> *final(self) == (AppState {
                spider_stats: SpiderStats {
                    actual_api_req_count: sat_inc(old(self).spider_stats.actual_api_req_count),
                    ..old(self).spider_stats
                },
                ..*old(self)
            }),
            !r ==> *final(self) == *old(self),
    {
        if self.spider_stats.is_paused {
            return false;
        }
        crate::state::counter_inc(&mut self.spider_stats.actual_api_req_count);
        true
    }

    /// Settles one dispatched fetch.  `body` is the response text when one
    /// was obtained; `now` stamps a successful cache write; `duration_ms` is
    /// the measured fetch time.  Exactly one of success or failure is
    /// recorded, and the id always leaves the in-flight set and gives its
    /// permit back, so it can be submitted afresh.
    pub fn complete_fetch(
        &mut self,
        bvid: &str,
        body: Option<&str>,
        now: i64,
        duration_ms: u64,
    ) -> (r: FetchOutcome)
        requires
            old(self).wf(),
        ensures
            final(self).wf(),
            final(self).queue == old(self).queue,
            !final(self).inflight_ids().contains(bvid@),
            forall|x: Seq<char>|
                x != bvid@ ==> #[trigger] final(self).inflight_ids().contains(x) == old(
                    self,
                ).inflight_ids().contains(x),
            final(self).inflight@.len() == (if old(self).inflight_ids().contains(bvid@) {
                old(self).inflight@.len() - 1
            } else {
                old(self).inflight@.len() as int
            }),
            !old(self).queue_ids().contains(bvid@) ==> final(self).pending_ids() == old(self).pending_ids().remove(bvid@),
            final(self).permits_in_use == sat_dec(old(self).permits_in_use),
            final(self).service_stats == old(self).service_stats,
            final(self).db_stats == old(self).db_stats,
            final(self).server_status == old(self).server_status,
            final(self).spider_stats.is_paused == old(self).spider_stats.is_paused,
            final(self).spider_stats.total_received_count == old(self).spider_stats.total_received_count,
            final(self).spider_stats.actual_api_req_count == old(self).spider_stats.actual_api_req_count,
            final(self).spider_stats.session_cleaned_count == old(self).spider_stats.session_cleaned_count,
            db::db_users(final(self).conn) == db::db_users(old(self).conn),
            // Which outcome comes back, by case on the body.
            body is None ==> r == FetchOutcome::TransportFailed,
            body is Some && parsed_body(body) is None ==> r == FetchOutcome::ParseFailed,
            parsed_body(body) is Some && (parsed_body(body)->0).0 != 0 ==> r
                == FetchOutcome::ApiError((parsed_body(body)->0).0),
            parsed_body(body) is Some && (parsed_body(body)->0).0 == 0 && (parsed_body(body)->0).1
                is None ==> r == FetchOutcome::MissingOwner,
            parsed_body(body) is Some && (parsed_body(body)->0).0 == 0 && (parsed_body(body)->0).1
                is Some ==> {
                ||| (r == FetchOutcome::Cached && db::db_cache(final(self).conn) == db::db_cache(
                    old(self).conn,
                ).insert(bvid@, ((parsed_body(body)->0).1->0, now)))
                ||| r == FetchOutcome::StoreFailed
            },
            // Exactly one of success or failure is recorded.
            r == FetchOutcome::Cached ==> {
                &&& final(self).spider_stats.fail_count == old(self).spider_stats.fail_count
                &&& final(self).spider_stats.bv_cache_count == sat_inc(
                    old(self).spider_stats.bv_cache_count,
                )
            },
            r != FetchOutcome::Cached ==> {
                &&& db::db_cache(final(self).conn) == db::db_cache(old(self).conn)
                &&& final(self).spider_stats.fail_count == sat_inc(
                    old(self).spider_stats.fail_count,
                )
                &&& final(self).spider_stats.bv_cache_count == old(self).spider_stats.bv_cache_count
            },
            // Fetch latency is accumulated exactly when the body parsed.
            parsed_body(body) is Some ==> final(self).spider_stats.req_time_sum == sat_add64(
                old(self).spider_stats.req_time_sum,
                duration_ms,
            ),
            parsed_body(body) is None ==> final(self).spider_stats.req_time_sum == old(self).spider_stats.req_time_sum,
    {
        let ghost pre = *self;
        let outcome: FetchOutcome = match body {
            None => {
                crate::state::counter_inc(&mut self.spider_stats.fail_count);
                FetchOutcome::TransportFailed
            },
            Some(text) => {
                match parse_api_response(text) {
                    None => {
                        crate::state::counter_inc(&mut self.spider_stats.fail_count);
                        FetchOutcome::ParseFailed
                    },
                    Some((code, maybe_mid)) => {
                        crate::state::counter_add64(
                            &mut self.spider_stats.req_time_sum,
                            duration_ms,
                        );
                        if code != 0 {
                            crate::state::counter_inc(&mut self.spider_stats.fail_count);
                            FetchOutcome::ApiError(code)
                        } else {
                            match maybe_mid {
                                None => {
                                    crate::state::counter_inc(&mut self.spider_stats.fail_count);
                                    FetchOutcome::MissingOwner
                                },
                                Some(mid) => {
                                    match db::cache_bv_mid(&mut self.conn, bvid, mid, now) {
                                        Ok(_) => {
                                            crate::state::counter_inc(
                                                &mut self.spider_stats.bv_cache_count,
                                            );
                                            FetchOutcome::Cached
                                        },
                                        Err(_) => {
                                            crate::state::counter_inc(
                                                &mut self.spider_stats.fail_count,
                                            );
                                            FetchOutcome::StoreFailed
                                        },
                                    }
                                },
                            }
                        }
                    },
                }
            },
        };
        remove_id(&mut self.inflight, bvid);
        if self.permits_in_use > 0 {
            self.permits_in_use = self.permits_in_use - 1;
        }
        proof {
            assert forall|i: int, j: int|
                0 <= i < self.queue_ids().len() && 0 <= j < self.inflight_ids().len() implies self
                .queue_ids()[i] != self.inflight_ids()[j] by {
                if self.queue_ids()[i] == self.inflight_ids()[j] {
                    assert(self.inflight_ids().contains(self.queue_ids()[i]));
                    assert(pre.inflight_ids().contains(self.queue_ids()[i]));
                    let k = choose|k: int|
                        0 <= k < pre.inflight_ids().len() && pre.inflight_ids()[k]
                            == self.queue_ids()[i];
                    assert(pre.queue_ids()[i] != pre.inflight_ids()[k]);
                }
            }
            if !pre.queue_ids().contains(bvid@) {
                assert(self.pending_ids() =~= pre.pending_ids().remove(bvid@));
            }
        }
        outcome
    }
}

/// For every id, at most one resolution is queued or in flight at any
/// instant: under the invariant, the id occurs at most once across the
/// ingestion queue and the in-flight set together.
pub proof fn lemma_at_most_one_resolution(s: AppState, id: Seq<char>)
    requires
        s.wf(),
    ensures
        count_ids(s.queue_ids(), id) + count_ids(s.inflight_ids(), id) <= 1,
{
    lemma_distinct_count(s.queue_ids(), id);
    lemma_distinct_count(s.inflight_ids(), id);
    if count_ids(s.queue_ids(), id) >= 1 && count_ids(s.inflight_ids(), id) >= 1 {
        lemma_count_contains(s.queue_ids(), id);
        lemma_count_contains(s.inflight_ids(), id);
        let i = choose|i: int| 0 <= i < s.queue_ids().len() && s.queue_ids()[i] == id;
        let j = choose|j: int| 0 <= j < s.inflight_ids().len() && s.inflight_ids()[j] == id;
        assert(s.queue_ids()[i] != s.inflight_ids()[j]);
        assert(false);
    }
}

/// How many times `id` occurs in `s`.
pub open spec fn count_ids(s: Seq<Seq<char>>, id: Seq<char>) -> int
    decreases s.len(),
{
    if s.len() == 0 {
        0
    } else {
        count_ids(s.drop_last(), id) + if s.last() == id {
            1int
        } else {
            0int
        }
    }
}

proof fn lemma_count_contains(s: Seq<Seq<char>>, id: Seq<char>)
    requires
        count_ids(s, id) >= 1,
    ensures
        s.contains(id),
    decreases s.len(),
{
    if s.len() > 0 {
        if s.last() == id {
            assert(s[s.len() - 1] == id);
        } else {
            lemma_count_contains(s.drop_last(), id);
            let k = choose|k: int| 0 <= k < s.drop_last().len() && s.drop_last()[k] == id;
            assert(s[k] == id);
        }
    }
}

proof fn lemma_distinct_count(s: Seq<Seq<char>>, id: Seq<char>)
    requires
        crate::state::distinct_ids(s),
    ensures
        count_ids(s, id) <= 1,
        count_ids(s, id) >= 0,
    decreases s.len(),
{
    if s.len() > 0 {
        assert(crate::state::distinct_ids(s.drop_last()));
        lemma_distinct_count(s.drop_last(), id);
        if s.last() == id && count_ids(s.drop_last(), id) >= 1 {
            lemma_count_contains(s.drop_last(), id);
            let k = choose|k: int| 0 <= k < s.drop_last().len() && s.drop_last()[k] == id;
            assert(s[k] == id && s[s.len() - 1] == id);
            assert(false);
        }
    }
}

/// A released id can always be re-submitted: once it is out of the pending
/// set, `submit` accepts it whenever the queue has room — never a silent
/// drop.  (`complete_fetch` guarantees the release on success and on
/// failure alike.)
pub proof fn lemma_released_id_resubmittable(
    pending: Set<Seq<char>>,
    queue_len: int,
    id: Seq<char>,
)
    requires
        !pending.contains(id),
        queue_len < QUEUE_CAPACITY,
    ensures
        submit_decision(pending, queue_len, id) == SubmitOutcome::Enqueued,
{
}

/// The permit pool never lets more than `MAX_CONCURRENT_FETCHES` fetches run
/// at once: the invariant bounds the permits out, and `try_acquire_permit`
/// refuses beyond the bound.
pub proof fn lemma_permit_pool_bounded(s: AppState)
    requires
        s.wf(),
    ensures
        s.permits_in_use <= MAX_CONCURRENT_FETCHES,
{
}

#[verifier::external_type_specification]
#[verifier::external_body]
pub struct ExClient(reqwest::Client);

/// The views of an optional proxy URL.
pub open spec fn opt_chars(o: Option<String>) -> Option<Seq<char>> {
    match o {
        Some(s) => Some(s@),
        None => None,
    }
}

/// Which proxy the client is built with: the configured URL exactly when the
/// proxy is enabled and the URL is present and non-empty.
pub open spec fn proxy_choice(url: Option<Seq<char>>, enabled: bool) -> Option<Seq<char>> {
    match url {
        Some(u) => if enabled && u.len() > 0 {
            Some(u)
        } else {
            None
        },
        None => None,
    }
}

/// Picks the proxy URL that an outbound client should use.
pub fn effective_proxy<'a>(proxy_url: &'a Option<String>, enabled: bool) -> (r: Option<&'a String>)
    ensures
        match r {
            Some(u) => proxy_choice(opt_chars(*proxy_url), enabled) == Some(u@),
            None => proxy_choice(opt_chars(*proxy_url), enabled) is None,
        },
{
    if !enabled {
        return None;
    }
    match proxy_url {
        Some(u) => {
            if u.as_str().is_empty() {
                None
            } else {
                Some(u)
            }
        },
        None => None,
    }
}

/// Relies on reqwest's `Client::builder` (user agent, pool settings, an
/// optional proxy from `Proxy::all`, then `build`).  An unusable proxy URL or
/// a failed build falls back to a client without a proxy, so a client always
/// comes back.
#[verifier::external_body]
fn new_client(proxy: Option<&str>) -> reqwest::Client {
    let mut builder = reqwest::Client::builder().user_agent(
        "Mozilla/5.0 (Windows NT 10.0; Win64; x64) AppleWebKit/537.36 (KHTML, like Gecko) Chrome/120.0.0.0 Safari/537.36 Edg/120.0.0.0",
    ).pool_idle_timeout(std::time::Duration::from_secs(15)).pool_max_idle_per_host(16);
    if let Some(url) = proxy {
        if let Ok(p) = reqwest::Proxy::all(url) {
            builder = builder.proxy(p);
        }
    }
    builder.build().unwrap_or_else(|_| reqwest::Client::new())
}

/// Builds the outbound client for a proxy setting snapshot.  The decision of
/// whether to use the proxy is `effective_proxy`; the construction itself is
/// reqwest's.
pub fn build_client(proxy_url: &Option<String>, enabled: bool) -> reqwest::Client {
    match effective_proxy(proxy_url, enabled) {
        Some(u) => new_client(Some(u.as_str())),
        None => new_client(None),
    }
}

/// Whether the client must be rebuilt: either proxy field of the live
/// configuration differs from the snapshot the active client was built from.
pub fn needs_rebuild(
    current_url: &Option<String>,
    current_enabled: bool,
    cfg: &crate::config::AppConfig,
) -> (r: bool)
    ensures
        r == !(opt_chars(*current_url) == opt_chars(cfg.proxy_url) && current_enabled
            == cfg.proxy_enabled),
{
    if current_enabled != cfg.proxy_enabled {
        return true;
    }
    match (current_url, &cfg.proxy_url) {
        (None, None) => false,
        (Some(a), Some(b)) => !crate::text::chars_eq(a.as_str(), b.as_str()),
        _ => true,
    }
}

} // verus!
