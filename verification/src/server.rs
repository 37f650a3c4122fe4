//! The query service's decision logic: validating ids, answering block-list
//! membership, and the bulk BV check that routes cache misses into the
//! resolution pipeline through `submit` — the deduplication contract's sole
//! enforcement point.  The HTTP framing around these calls is glue and lives
//! outside the crate.

use vstd::prelude::*;

use crate::db;
use crate::state::{counter_add, sat_add, sat_dec, sat_inc, seq_ids, AppState, SpiderStats};
use crate::text::{digits_value, valid_mid_str};

verus! {

/// The id value named by a well-formed id string.
pub open spec fn mid_value(s: Seq<char>) -> i64 {
    digits_value(s) as i64
}

/// Answer for one id in a block-list query.
#[derive(PartialEq, Eq, Structural, Clone, Copy, Debug)]
pub enum MidStatus {
    /// The id string is not a well-formed account id.
    Invalid,
    /// The account is on the block list.
    Blocked,
    /// The account is not on the block list.
    NotBlocked,
    /// The store could not answer.
    StoreError,
}

impl MidStatus {
    /// The wire word for this answer.
    pub fn as_str(&self) -> (r: &'static str)
        ensures
            *self == MidStatus::Invalid ==> r@ == "ERR1"@,
            *self == MidStatus::Blocked ==> r@ == "True"@,
            *self == MidStatus::NotBlocked ==> r@ == "False"@,
            *self == MidStatus::StoreError ==> r@ == "ERR2"@,
    {
        match self {
            MidStatus::Invalid => "ERR1",
            MidStatus::Blocked => "True",
            MidStatus::NotBlocked => "False",
            MidStatus::StoreError => "ERR2",
        }
    }
}

/// Answer for one BV id in a bulk check.
#[derive(PartialEq, Eq, Structural, Clone, Copy, Debug)]
pub enum BvStatus {
    /// Cached, and its owner is on the block list.
    Blocked,
    /// Cached, and its owner is not on the block list.
    NotBlocked,
    /// Not cached yet; the id was routed to the resolver.
    Unknown,
    /// The store could not answer.
    StoreError,
}

impl BvStatus {
    /// The wire word for this answer.
    pub fn as_str(&self) -> (r: &'static str)
        ensures
            *self == BvStatus::Blocked ==> r@ == "True"@,
            *self == BvStatus::NotBlocked ==> r@ == "False"@,
            *self == BvStatus::Unknown ==> r@ == "None"@,
            *self == BvStatus::StoreError ==> r@ == "ERR2"@,
    {
        match self {
            BvStatus::Blocked => "True",
            BvStatus::NotBlocked => "False",
            BvStatus::Unknown => "None",
            BvStatus::StoreError => "ERR2",
        }
    }
}

#[derive(PartialEq, Eq, Structural, Clone, Copy, Debug)]
pub enum BlockOutcome {
    /// The id string is not a well-formed account id; nothing happened.
    InvalidId,
    /// The account is newly on the block list.
    Added,
    /// The account was already listed, or the store refused; nothing changed.
    Rejected,
}

#[derive(PartialEq, Eq, Structural, Clone, Copy, Debug)]
pub enum UnblockOutcome {
    /// The id string is not a well-formed account id; nothing happened.
    InvalidId,
    /// The account left the block list.
    Removed,
    /// The account was not listed, or the store refused; nothing changed.
    Rejected,
}

impl AppState {
    /// Whether one account id is on the block list.
    pub fn check_user(&self, mid_str: &str) -> (r: MidStatus)
        ensures
            r == MidStatus::Invalid <==> !valid_mid_str(mid_str@),
            r == MidStatus::Blocked ==> db::db_users(self.conn).contains(mid_value(mid_str@)),
            r == MidStatus::NotBlocked ==> !db::db_users(self.conn).contains(mid_value(mid_str@)),
    {
        match crate::text::parse_mid(mid_str) {
            None => MidStatus::Invalid,
            Some(mid) => match db::is_user_exist(&self.conn, mid) {
                Ok(true) => MidStatus::Blocked,
                Ok(false) => MidStatus::NotBlocked,
                Err(_) => MidStatus::StoreError,
            },
        }
    }

    /// Answers a batch of account ids, one status per input, in order.
    pub fn check_mids(&self, mids: &Vec<String>) -> (res: Vec<MidStatus>)
        ensures
            res@.len() == mids@.len(),
            forall|i: int|
                0 <= i < mids@.len() ==> ((#[trigger] res@[i]) == MidStatus::Invalid
                    <==> !valid_mid_str(mids@[i]@)),
            forall|i: int|
                0 <= i < mids@.len() && (#[trigger] res@[i]) == MidStatus::Blocked ==> db::db_users(
                    self.conn,
                ).contains(mid_value(mids@[i]@)),
            forall|i: int|
                0 <= i < mids@.len() && (#[trigger] res@[i]) == MidStatus::NotBlocked
                    ==> !db::db_users(self.conn).contains(mid_value(mids@[i]@)),
    {
        let mut res: Vec<MidStatus> = Vec::new();
        let mut i: usize = 0;
        while i < mids.len()
            invariant
                0 <= i <= mids@.len(),
                res@.len() == i,
                forall|j: int|
                    0 <= j < i ==> ((#[trigger] res@[j]) == MidStatus::Invalid <==> !valid_mid_str(
                        mids@[j]@,
                    )),
                forall|j: int|
                    0 <= j < i && (#[trigger] res@[j]) == MidStatus::Blocked ==> db::db_users(
                        self.conn,
                    ).contains(mid_value(mids@[j]@)),
                forall|j: int|
                    0 <= j < i && (#[trigger] res@[j]) == MidStatus::NotBlocked ==> !db::db_users(
                        self.conn,
                    ).contains(mid_value(mids@[j]@)),
            decreases mids@.len() - i,
        {
            let st = self.check_user(mids[i].as_str());
            res.push(st);
            i = i + 1;
        }
        res
    }

    /// Puts an account on the block list and counts it, rejecting malformed
    /// ids and accounts already listed.
    pub fn block_user(&mut self, mid_str: &str, username: Option<&str>) -> (r: BlockOutcome)
        ensures
            db::db_cache(final(self).conn) == db::db_cache(old(self).conn),
            *final(self) == (AppState {
                conn: final(self).conn,
                db_stats: final(self).db_stats,
                ..*old(self)
            }),
            r == BlockOutcome::InvalidId <==> !valid_mid_str(mid_str@),
            r == BlockOutcome::InvalidId ==> *final(self) == *old(self),
            r == BlockOutcome::Added ==> {
                &&& !db::db_users(old(self).conn).contains(mid_value(mid_str@))
                &&& db::db_users(final(self).conn) == db::db_users(old(self).conn).insert(
                    mid_value(mid_str@),
                )
                &&& final(self).db_stats.blocked_user_count == sat_inc(
                    old(self).db_stats.blocked_user_count,
                )
            },
            r == BlockOutcome::Rejected ==> {
                &&& db::db_users(final(self).conn) == db::db_users(old(self).conn)
                &&& final(self).db_stats == old(self).db_stats
            },
    {
        let mid = match crate::text::parse_mid(mid_str) {
            None => { return BlockOutcome::InvalidId },
            Some(m) => m,
        };
        match db::add_user(&mut self.conn, mid, username) {
            Ok(true) => {
                crate::state::counter_inc(&mut self.db_stats.blocked_user_count);
                BlockOutcome::Added
            },
            Ok(false) => BlockOutcome::Rejected,
            Err(_) => BlockOutcome::Rejected,
        }
    }

    /// Takes an account off the block list and counts it, rejecting
    /// malformed ids and accounts not listed.
    pub fn unblock_user(&mut self, mid_str: &str) -> (r: UnblockOutcome)
        ensures
            db::db_cache(final(self).conn) == db::db_cache(old(self).conn),
            *final(self) == (AppState {
                conn: final(self).conn,
                db_stats: final(self).db_stats,
                ..*old(self)
            }),
            r == UnblockOutcome::InvalidId <==> !valid_mid_str(mid_str@),
            r == UnblockOutcome::InvalidId ==> *final(self) == *old(self),
            r == UnblockOutcome::Removed ==> {
                &&& db::db_users(old(self).conn).contains(mid_value(mid_str@))
                &&& db::db_users(final(self).conn) == db::db_users(old(self).conn).remove(
                    mid_value(mid_str@),
                )
                &&& final(self).db_stats.blocked_user_count == sat_dec(
                    old(self).db_stats.blocked_user_count,
                )
            },
            r == UnblockOutcome::Rejected ==> {
                &&& db::db_users(final(self).conn) == db::db_users(old(self).conn)
                &&& final(self).db_stats == old(self).db_stats
            },
    {
        let mid = match crate::text::parse_mid(mid_str) {
            None => { return UnblockOutcome::InvalidId },
            Some(m) => m,
        };
        match db::remove_user(&mut self.conn, mid) {
            Ok(true) => {
                crate::state::counter_dec(&mut self.db_stats.blocked_user_count);
                UnblockOutcome::Removed
            },
            Ok(false) => UnblockOutcome::Rejected,
            Err(_) => UnblockOutcome::Rejected,
        }
    }
}

/// The two answer columns of a bulk BV check: for each input id, the cached
/// mid if any, and the status word.
pub struct BvCheckOutcome {
    pub mids: Vec<Option<i64>>,
    pub results: Vec<BvStatus>,
}

impl AppState {
    /// The bulk BV check: looks every id up in the cache; a hit is answered
    /// from the block list, a miss is answered `Unknown` and routed into the
    /// resolution pipeline through `submit`, deduplicated against the
    /// pending set.
    pub fn check_bvs(&mut self, bvs: &Vec<String>) -> (out: BvCheckOutcome)
        requires
            old(self).wf(),
        ensures
            final(self).wf(),
            out.mids@.len() == bvs@.len(),
            out.results@.len() == bvs@.len(),
            final(self).conn == old(self).conn,
            final(self).inflight == old(self).inflight,
            final(self).permits_in_use == old(self).permits_in_use,
            final(self).service_stats == old(self).service_stats,
            final(self).db_stats == old(self).db_stats,
            final(self).server_status == old(self).server_status,
            final(self).spider_stats == (SpiderStats {
                total_received_count: sat_add(
                    old(self).spider_stats.total_received_count,
                    bvs@.len() as usize,
                ),
                ..old(self).spider_stats
            }),
            // The queue only grows, by some of the missing ids, FIFO order kept.
            old(self).queue@.len() <= final(self).queue@.len(),
            forall|k: int|
                0 <= k < old(self).queue_ids().len() ==> #[trigger] final(self).queue_ids()[k]
                    == old(self).queue_ids()[k],
            forall|x: Seq<char>| #[trigger]
                old(self).pending_ids().contains(x) ==> final(self).pending_ids().contains(x),
            forall|x: Seq<char>| #[trigger]
                final(self).pending_ids().contains(x) ==> old(self).pending_ids().contains(x)
                    || seq_ids(bvs@).contains(x),
            // Each answer, against the store at call time.
            forall|i: int|
                0 <= i < bvs@.len() && (#[trigger] out.mids@[i]) is Some ==> db::db_cache(
                    old(self).conn,
                ).dom().contains(bvs@[i]@) && db::db_cache(old(self).conn)[bvs@[i]@].0
                    == out.mids@[i]->0,
            forall|i: int|
                0 <= i < bvs@.len() && !db::db_cache(old(self).conn).dom().contains(bvs@[i]@)
                    ==> (#[trigger] out.mids@[i]) is None,
            forall|i: int|
                0 <= i < bvs@.len() && (#[trigger] out.results@[i]) == BvStatus::Blocked ==> {
                    &&& out.mids@[i] is Some
                    &&& db::db_users(old(self).conn).contains(out.mids@[i]->0)
                },
            forall|i: int|
                0 <= i < bvs@.len() && (#[trigger] out.results@[i]) == BvStatus::NotBlocked ==> {
                    &&& out.mids@[i] is Some
                    &&& !db::db_users(old(self).conn).contains(out.mids@[i]->0)
                },
            forall|i: int|
                0 <= i < bvs@.len() && (#[trigger] out.results@[i]) == BvStatus::Unknown
                    ==> !db::db_cache(old(self).conn).dom().contains(bvs@[i]@),
            // A miss is never silently dropped: it is pending afterwards,
            // unless the queue ran full.
            forall|i: int|
                0 <= i < bvs@.len() && (#[trigger] out.results@[i]) == BvStatus::Unknown ==> final(self).pending_ids().contains(bvs@[i]@) || final(self).queue@.len()
                    >= crate::state::QUEUE_CAPACITY,
    {
        let ghost pre = *old(self);
        let mut mids: Vec<Option<i64>> = Vec::new();
        let mut results: Vec<BvStatus> = Vec::new();
        counter_add(&mut self.spider_stats.total_received_count, bvs.len());
        let mut i: usize = 0;
        while i < bvs.len()
            invariant
                0 <= i <= bvs@.len(),
                self.wf(),
                mids@.len() == i,
                results@.len() == i,
                self.conn == pre.conn,
                self.inflight == pre.inflight,
                self.permits_in_use == pre.permits_in_use,
                self.service_stats == pre.service_stats,
                self.db_stats == pre.db_stats,
                self.server_status == pre.server_status,
                self.spider_stats == (SpiderStats {
                    total_received_count: sat_add(
                        pre.spider_stats.total_received_count,
                        bvs@.len() as usize,
                    ),
                    ..pre.spider_stats
                }),
                pre.queue@.len() <= self.queue@.len(),
                forall|k: int|
                    0 <= k < pre.queue_ids().len() ==> #[trigger] self.queue_ids()[k]
                        == pre.queue_ids()[k],
                forall|x: Seq<char>| #[trigger]
                    pre.pending_ids().contains(x) ==> self.pending_ids().contains(x),
                forall|x: Seq<char>| #[trigger]
                    self.pending_ids().contains(x) ==> pre.pending_ids().contains(x) || seq_ids(
                        bvs@,
                    ).contains(x),
                forall|j: int|
                    0 <= j < i && (#[trigger] mids@[j]) is Some ==> db::db_cache(
                        pre.conn,
                    ).dom().contains(bvs@[j]@) && db::db_cache(pre.conn)[bvs@[j]@].0
                        == mids@[j]->0,
                forall|j: int|
                    0 <= j < i && !db::db_cache(pre.conn).dom().contains(bvs@[j]@)
                        ==> (#[trigger] mids@[j]) is None,
                forall|j: int|
                    0 <= j < i && (#[trigger] results@[j]) == BvStatus::Blocked ==> {
                        &&& mids@[j] is Some
                        &&& db::db_users(pre.conn).contains(mids@[j]->0)
                    },
                forall|j: int|
                    0 <= j < i && (#[trigger] results@[j]) == BvStatus::NotBlocked ==> {
                        &&& mids@[j] is Some
                        &&& !db::db_users(pre.conn).contains(mids@[j]->0)
                    },
                forall|j: int|
                    0 <= j < i && (#[trigger] results@[j]) == BvStatus::Unknown
                        ==> !db::db_cache(pre.conn).dom().contains(bvs@[j]@),
                forall|j: int|
                    0 <= j < i && (#[trigger] results@[j]) == BvStatus::Unknown
                        ==> self.pending_ids().contains(bvs@[j]@) || self.queue@.len()
                        >= crate::state::QUEUE_CAPACITY,
            decreases bvs@.len() - i,
        {
            let bv = &bvs[i];
            match db::get_mid_by_bv(&self.conn, bv.as_str()) {
                Ok(Some(mid)) => {
                    mids.push(Some(mid));
                    match db::is_user_exist(&self.conn, mid) {
                        Ok(true) => results.push(BvStatus::Blocked),
                        Ok(false) => results.push(BvStatus::NotBlocked),
                        Err(_) => results.push(BvStatus::StoreError),
                    }
                },
                Ok(None) => {
                    mids.push(None);
                    results.push(BvStatus::Unknown);
                    let ghost before = *self;
                    let submitted = self.submit(bv.as_str());
                    proof {
                        if submitted == crate::spider::SubmitOutcome::QueueFull {
                            assert(self.queue@.len() >= crate::state::QUEUE_CAPACITY);
                        } else {
                            assert(self.pending_ids().contains(bvs@[i as int]@));
                        }
                        assert(seq_ids(bvs@)[i as int] == bvs@[i as int]@);
                    }
                },
                Err(_) => {
                    mids.push(None);
                    results.push(BvStatus::StoreError);
                },
            }
            i = i + 1;
        }
        BvCheckOutcome { mids, results }
    }
}

} // verus!
