//! The sponsor snapshot cache: the latest classified lists and when they were
//! fetched. A query refreshes the snapshot first when it has gone stale.

use vstd::prelude::*;

use crate::github::{
    active_count, categorize_sponsors, level_of, SponsorLevel, SponsorLists, Sponsorship,
};

verus! {

/// How long a snapshot serves queries, in milliseconds: five minutes.
pub const REFRESH_INTERVAL_MS: u64 = 5 * 60 * 1000;

/// The held snapshot. Times are milliseconds on a clock that the caller supplies.
///
/// A query that finds the snapshot stale fetches and calls `refresh` before
/// it reads; where that fetch fails, the snapshot is left as it was and the
/// query fails with the fetch's error.
pub struct SponsorCache {
    pub lists: SponsorLists,
    pub fetched_at: u64,
    pub refresh_interval: u64,
}

impl SponsorCache {
    /// The snapshot is stale at `now` when more than the interval has passed
    /// since it was fetched (a clock that went back counts as no time passed).
    pub open spec fn is_stale(self, now: u64) -> bool {
        now > self.fetched_at && now - self.fetched_at > self.refresh_interval
    }

    /// The cache after a query at `now`, where `fresh` is what a refresh would fetch.
    pub open spec fn after_query(self, now: u64, fresh: SponsorLists) -> SponsorCache {
        if self.is_stale(now) {
            SponsorCache { lists: fresh, fetched_at: now, refresh_interval: self.refresh_interval }
        } else {
            self
        }
    }

    /// A cache holding `lists`, fetched at `now`.
    pub fn new(lists: SponsorLists, now: u64, refresh_interval: u64) -> (r: SponsorCache)
        ensures
            r.lists == lists,
            r.fetched_at == now,
            r.refresh_interval == refresh_interval,
    {
        SponsorCache { lists, fetched_at: now, refresh_interval }
    }

    /// Whether a query at `now` must refresh the snapshot first.
    pub fn needs_refresh(&self, now: u64) -> (r: bool)
        ensures
            r == self.is_stale(now),
    {
        now > self.fetched_at && now - self.fetched_at > self.refresh_interval
    }

    /// Replaces the whole snapshot with `lists`, fetched at `now`.
    pub fn replace(&mut self, lists: SponsorLists, now: u64)
        ensures
            final(self).lists == lists,
            final(self).fetched_at == now,
            final(self).refresh_interval == old(self).refresh_interval,
    {
        self.lists = lists;
        self.fetched_at = now;
    }

    /// Classifies freshly fetched records and holds them as the snapshot of `now`.
    pub fn refresh(&mut self, sponsors: Vec<Sponsorship>, now: u64)
        ensures
            final(self).lists.classifies(sponsors@),
            final(self).fetched_at == now,
            final(self).refresh_interval == old(self).refresh_interval,
    {
        let lists = categorize_sponsors(sponsors);
        self.replace(lists, now);
    }

    /// The level of `user` in the held snapshot.
    pub fn query(&self, user: &str) -> (r: SponsorLevel)
        ensures
            r == level_of(self.lists, user@),
    {
        self.lists.level_for_user(user)
    }

    /// The number of current sponsors in the held snapshot.
    pub fn total_active_count(&self) -> (r: usize)
        requires
            active_count(self.lists) <= usize::MAX,
        ensures
            r == active_count(self.lists),
    {
        self.lists.total_active_count()
    }
}

/// Two queries at `t1` and then `t2`, no further apart than the interval,
/// fetch at most once between them: where the first refreshes, the second
/// reads the snapshot the first installed; where the second finds its
/// snapshot fresh, both read the snapshot that was held before.
pub proof fn lemma_at_most_one_refresh(
    c: SponsorCache,
    fresh1: SponsorLists,
    t1: u64,
    t2: u64,
)
    requires
        t1 <= t2,
        t2 - t1 <= c.refresh_interval,
    ensures
        c.is_stale(t1) ==> !c.after_query(t1, fresh1).is_stale(t2),
        !c.is_stale(t2) ==> !c.is_stale(t1) && c.after_query(t1, fresh1) == c,
{
}

} // verus!
