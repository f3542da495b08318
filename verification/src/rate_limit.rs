use vstd::prelude::*;
use crate::error::TokenError;
use crate::identity::Identity;
use crate::keyed_map::KeyedMap;

verus! {

/// The length of the rate limiter's window: one hour, in nanoseconds.
pub const WINDOW: u64 = 3_600_000_000_000;

/// How many transactions an identity may make within one window.
pub const MAX_PER_WINDOW: u64 = 100;

/// What the rate limiter remembers of one identity.
#[derive(Clone, Copy, Debug, PartialEq, Eq, Structural)]
pub struct RateLimitRecord {
    pub count: u64,
    pub last_transaction_time: u64,
}

/// Whether `now` is less than a window after `last`. A `now` that lies
/// before `last` counts as within the window.
pub open spec fn within_window(last: u64, now: u64) -> bool {
    now - last < WINDOW
}

/// Whether `who` may transact at `now`: always, unless the last recorded
/// transaction is less than a window ago and the count has reached the cap.
pub open spec fn permits(records: Map<Seq<u8>, RateLimitRecord>, who: Seq<u8>, now: u64) -> bool {
    records.contains_key(who) ==> !(within_window(records[who].last_transaction_time, now)
        && records[who].count >= MAX_PER_WINDOW)
}

/// The count that `who` has after one more transaction at `now`: one more
/// than before within the window, and 1 after a gap of a window or on the
/// first transaction.
pub open spec fn next_count(records: Map<Seq<u8>, RateLimitRecord>, who: Seq<u8>, now: u64) -> int {
    if records.contains_key(who) && within_window(records[who].last_transaction_time, now) {
        records[who].count + 1
    } else {
        1
    }
}

/// The records after a transaction of `who` at `now`.
pub open spec fn recorded(records: Map<Seq<u8>, RateLimitRecord>, who: Seq<u8>, now: u64) -> Map<
    Seq<u8>,
    RateLimitRecord,
> {
    records.insert(
        who,
        RateLimitRecord { count: next_count(records, who, now) as u64, last_transaction_time: now },
    )
}

/// The answer of the rate limiter to `who` at `now`.
pub open spec fn limit_check(records: Map<Seq<u8>, RateLimitRecord>, who: Seq<u8>, now: u64) -> Result<
    (),
    TokenError,
> {
    if permits(records, who, now) {
        Ok(())
    } else {
        Err(TokenError::RateLimitExceeded)
    }
}

/// A fixed-window counter for each identity. The window starts anew only
/// after an identity has made no transaction for a full window.
pub struct RateLimiter {
    records: KeyedMap<Identity, RateLimitRecord>,
}

impl RateLimiter {
    /// The record of each identity that has transacted.
    pub closed spec fn records(&self) -> Map<Seq<u8>, RateLimitRecord> {
        self.records@
    }

    pub closed spec fn wf(&self) -> bool {
        self.records.wf()
    }

    /// A limiter that has seen no transaction.
    pub fn new() -> (limiter: RateLimiter)
        ensures
            limiter.wf(),
            limiter.records() == Map::<Seq<u8>, RateLimitRecord>::empty(),
    {
        RateLimiter { records: KeyedMap::new() }
    }

    /// Whether `who` may transact at `now`. Changes nothing.
    pub fn check_limit(&self, who: &Identity, now: u64) -> (r: Result<(), TokenError>)
        requires
            self.wf(),
        ensures
            r == limit_check(self.records(), who@, now),
    {
        match self.records.get(who) {
            Some(record) => {
                let within: bool = now < record.last_transaction_time || now
                    - record.last_transaction_time < WINDOW;
                if within && record.count >= MAX_PER_WINDOW {
                    Err(TokenError::RateLimitExceeded)
                } else {
                    Ok(())
                }
            },
            None => Ok(()),
        }
    }

    /// Counts a transaction of `who` at `now`, which the limiter permits.
    pub fn record_transaction(&mut self, who: &Identity, now: u64)
        requires
            old(self).wf(),
            permits(old(self).records(), who@, now),
        ensures
            final(self).wf(),
            final(self).records() == recorded(old(self).records(), who@, now),
    {
        let count: u64 = match self.records.get(who) {
            Some(record) => {
                if now < record.last_transaction_time || now - record.last_transaction_time
                    < WINDOW {
                    record.count + 1
                } else {
                    1
                }
            },
            None => 1,
        };
        self.records.insert(who, RateLimitRecord { count, last_transaction_time: now });
    }
}

} // verus!
