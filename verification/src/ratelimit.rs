//! Sliding-window rate limiting of session starts, per caller identity.
//!
//! Each identity owns an ordered list of admitted-request timestamps. One
//! check is a single atomic unit: prune stamps that have fallen out of the
//! window, then admit and record the current time only if fewer than the
//! maximum remain. A rejected check records nothing.

use vstd::prelude::*;
use crate::config::spec_index_of_key;

verus! {

/// Monotonically non-decreasing sequence of timestamps.
pub open spec fn sorted(s: Seq<u64>) -> bool {
    forall|i: int, j: int| 0 <= i <= j < s.len() ==> s[i] <= s[j]
}

/// The stamps still inside the window at `now`: those strictly younger than
/// one window width.
pub open spec fn pruned(s: Seq<u64>, now: u64, window: u64) -> Seq<u64>
    decreases s.len(),
{
    if s.len() == 0 {
        Seq::empty()
    } else {
        let rest = pruned(s.drop_last(), now, window);
        if now - s.last() < window {
            rest.push(s.last())
        } else {
            rest
        }
    }
}

/// One admit check as a pure function of the recorded stamps: the decision
/// and the stamps recorded afterwards.
pub open spec fn spec_admit(stamps: Seq<u64>, now: u64, window: u64, max: nat) -> (bool, Seq<
    u64,
>) {
    let kept = pruned(stamps, now, window);
    if kept.len() < max {
        (true, kept.push(now))
    } else {
        (false, kept)
    }
}

/// The request timestamps recorded for one identity, oldest first, in
/// seconds on a monotone clock supplied by the caller.
pub struct RateWindow {
    pub stamps: Vec<u64>,
}

impl RateWindow {
    pub open spec fn wf(self) -> bool {
        sorted(self.stamps@)
    }

    /// Every recorded stamp is at or before `now`.
    pub open spec fn at_most(self, now: u64) -> bool {
        forall|i: int| 0 <= i < self.stamps@.len() ==> self.stamps@[i] <= now
    }

    pub fn new() -> (r: RateWindow)
        ensures
            r.wf(),
            r.stamps@ == Seq::<u64>::empty(),
    {
        RateWindow { stamps: Vec::new() }
    }

    /// One atomic admit check at time `now`: prune, then admit and record
    /// `now` if fewer than `max` stamps remain, else reject without
    /// recording.
    pub fn check(&mut self, now: u64, window: u64, max: usize) -> (admitted: bool)
        requires
            old(self).wf(),
            old(self).at_most(now),
        ensures
            admitted == spec_admit(old(self).stamps@, now, window, max as nat).0,
            final(self).stamps@ == spec_admit(old(self).stamps@, now, window, max as nat).1,
            final(self).wf(),
            final(self).at_most(now),
    {
        let ghost s = self.stamps@;
        let mut kept: Vec<u64> = Vec::new();
        let mut i: usize = 0;
        let n = self.stamps.len();
        while i < n
            invariant
                i <= n,
                n == s.len(),
                s == self.stamps@,
                old(self).at_most(now),
                s == old(self).stamps@,
                kept@ == pruned(s.take(i as int), now, window),
            decreases n - i,
        {
            let t = self.stamps[i];
            proof {
                assert(s.take(i + 1).drop_last() =~= s.take(i as int));
                assert(s.take(i + 1).last() == s[i as int]);
            }
            if now - t < window {
                kept.push(t);
            }
            i = i + 1;
        }
        proof {
            assert(s.take(n as int) =~= s);
            lemma_pruned_sorted(s, now, window);
            assert forall|k: int| 0 <= k < pruned(s, now, window).len() implies pruned(
                s,
                now,
                window,
            )[k] <= now by {
                let j = choose|j: int| 0 <= j < s.len() && pruned(s, now, window)[k] == s[j];
            }
        }
        let admitted = kept.len() < max;
        if admitted {
            kept.push(now);
        }
        self.stamps = kept;
        admitted
    }
}

/// Pruning a sorted sequence keeps it sorted, and every surviving stamp was
/// present before.
pub proof fn lemma_pruned_sorted(s: Seq<u64>, now: u64, window: u64)
    requires
        sorted(s),
    ensures
        sorted(pruned(s, now, window)),
        forall|k: int|
            0 <= k < pruned(s, now, window).len() ==> exists|j: int|
                0 <= j < s.len() && #[trigger] pruned(s, now, window)[k] == s[j],
    decreases s.len(),
{
    if s.len() > 0 {
        let dl = s.drop_last();
        lemma_pruned_sorted(dl, now, window);
        let rest = pruned(dl, now, window);
        assert forall|k: int| 0 <= k < rest.len() implies rest[k] <= s.last() by {
            let j = choose|j: int| 0 <= j < dl.len() && rest[k] == dl[j];
            assert(dl[j] == s[j]);
        }
        assert forall|k: int|
            0 <= k < pruned(s, now, window).len() implies exists|j: int|
                0 <= j < s.len() && #[trigger] pruned(s, now, window)[k] == s[j] by {
            let p = pruned(s, now, window);
            if k < rest.len() {
                let j = choose|j: int| 0 <= j < dl.len() && rest[k] == dl[j];
                assert(p[k] == s[j]);
            } else {
                assert(p[k] == s[s.len() - 1]);
            }
        }
    }
}

/// If every stamp is still inside the window at `now`, pruning removes
/// nothing.
pub proof fn lemma_pruned_keeps_all(s: Seq<u64>, now: u64, window: u64)
    requires
        forall|i: int| 0 <= i < s.len() ==> now - s[i] < window,
    ensures
        pruned(s, now, window) == s,
    decreases s.len(),
{
    if s.len() > 0 {
        lemma_pruned_keeps_all(s.drop_last(), now, window);
        assert(pruned(s, now, window) =~= s);
    }
}

/// If a full window has passed since every stamp, pruning removes
/// everything.
pub proof fn lemma_pruned_drops_all(s: Seq<u64>, now: u64, window: u64)
    requires
        forall|i: int| 0 <= i < s.len() ==> s[i] + window <= now,
    ensures
        pruned(s, now, window) == Seq::<u64>::empty(),
    decreases s.len(),
{
    if s.len() > 0 {
        lemma_pruned_drops_all(s.drop_last(), now, window);
        assert(pruned(s, now, window) =~= Seq::<u64>::empty());
    }
}

/// The decisions and final stamps of a series of admit checks at the given
/// times, starting from the given stamps.
pub open spec fn run_checks(stamps: Seq<u64>, times: Seq<u64>, window: u64, max: nat) -> (Seq<
    bool,
>, Seq<u64>)
    decreases times.len(),
{
    if times.len() == 0 {
        (Seq::empty(), stamps)
    } else {
        let first = spec_admit(stamps, times[0], window, max);
        let rest = run_checks(first.1, times.drop_first(), window, max);
        (seq![first.0] + rest.0, rest.1)
    }
}

proof fn lemma_burst_inner(stamps: Seq<u64>, times: Seq<u64>, window: u64, max: nat, base: u64)
    requires
        times.len() >= 1,
        stamps.len() + times.len() == max + 1,
        sorted(stamps),
        sorted(times),
        forall|i: int| 0 <= i < stamps.len() ==> base <= stamps[i] && stamps[i] - base < window,
        forall|i: int| 0 <= i < times.len() ==> base <= times[i] && times[i] - base < window,
        forall|i: int| 0 <= i < stamps.len() ==> stamps[i] <= times[0],
    ensures
        ({
            let ds = run_checks(stamps, times, window, max).0;
            &&& ds.len() == times.len()
            &&& forall|i: int| 0 <= i < times.len() - 1 ==> ds[i] == true
            &&& ds[times.len() - 1] == false
        }),
    decreases times.len(),
{
    let now = times[0];
    assert(forall|i: int| 0 <= i < stamps.len() ==> now - stamps[i] < window);
    lemma_pruned_keeps_all(stamps, now, window);
    let first = spec_admit(stamps, now, window, max);
    if times.len() == 1 {
        assert(stamps.len() == max);
        assert(first.0 == false);
        assert(times.drop_first().len() == 0);
        assert(run_checks(first.1, times.drop_first(), window, max).0 == Seq::<bool>::empty());
        let ds = run_checks(stamps, times, window, max).0;
        assert(ds =~= seq![false]);
    } else {
        assert(stamps.len() < max);
        assert(first.0 == true);
        let stamps2 = stamps.push(now);
        assert(first.1 == stamps2);
        let times2 = times.drop_first();
        assert(sorted(stamps2));
        assert(sorted(times2));
        assert(forall|i: int| 0 <= i < times2.len() ==> times2[i] == times[i + 1]);
        lemma_burst_inner(stamps2, times2, window, max, base);
        let ds = run_checks(stamps, times, window, max).0;
        let ds2 = run_checks(stamps2, times2, window, max).0;
        assert(ds == seq![true] + ds2);
        assert(ds.len() == times.len());
        assert(forall|i: int| 1 <= i < times.len() - 1 ==> ds[i] == ds2[i - 1]);
        assert(ds[times.len() - 1] == ds2[times2.len() - 1]);
    }
}

/// Law: with window width W and maximum M, a run of M+1 admit checks for one
/// identity that all fall within one window — starting from no recorded
/// history — admits exactly the first M and rejects the last: exactly one
/// rejection among the M+1.
pub proof fn lemma_rate_limit_burst(times: Seq<u64>, window: u64, max: nat)
    requires
        times.len() == max + 1,
        sorted(times),
        times.last() - times[0] < window,
    ensures
        ({
            let ds = run_checks(Seq::empty(), times, window, max).0;
            &&& ds.len() == max + 1
            &&& forall|i: int| 0 <= i < max ==> ds[i] == true
            &&& ds[max as int] == false
        }),
{
    assert(forall|i: int|
        0 <= i < times.len() ==> times[0] <= #[trigger] times[i] && times[i] - times[0] < window);
    lemma_burst_inner(Seq::empty(), times, window, max, times[0]);
}

/// Law: once a full window has passed since every recorded stamp, the next
/// check is admitted again (for any positive maximum).
pub proof fn lemma_rate_limit_reset(stamps: Seq<u64>, now: u64, window: u64, max: nat)
    requires
        max >= 1,
        forall|i: int| 0 <= i < stamps.len() ==> stamps[i] + window <= now,
    ensures
        spec_admit(stamps, now, window, max).0 == true,
{
    lemma_pruned_drops_all(stamps, now, window);
}

/// The recorded window of one caller identity.
pub struct IdentityWindow {
    pub identity: String,
    pub window: RateWindow,
}

/// The identity keys of the limiter's entries, as character sequences.
pub open spec fn id_views(entries: Seq<IdentityWindow>) -> Seq<Seq<char>> {
    entries.map_values(|e: IdentityWindow| e.identity@)
}

/// The process-wide rate limiter: one recorded window per caller identity.
/// Check-and-record is a single operation; callers serialize access around
/// it (writer exclusion is the embedding's concern, not encoded here).
pub struct RateLimiter {
    pub entries: Vec<IdentityWindow>,
}

impl RateLimiter {
    pub open spec fn wf(self) -> bool {
        &&& forall|i: int| 0 <= i < self.entries@.len() ==> (#[trigger] self.entries@[i]).window.wf()
        &&& forall|i: int, j: int|
            0 <= i < j < self.entries@.len() ==> self.entries@[i].identity@
                != self.entries@[j].identity@
    }

    /// Every stamp of every identity is at or before `now`.
    pub open spec fn at_most(self, now: u64) -> bool {
        forall|i: int|
            0 <= i < self.entries@.len() ==> (#[trigger] self.entries@[i]).window.at_most(now)
    }

    pub fn new() -> (r: RateLimiter)
        ensures
            r.wf(),
            r.entries@ == Seq::<IdentityWindow>::empty(),
    {
        RateLimiter { entries: Vec::new() }
    }

    /// One atomic admit check for `identity` at time `now`. The identity's
    /// window — a fresh empty one if the identity was never seen — takes one
    /// `spec_admit` step; every other identity's record is untouched.
    pub fn check(&mut self, identity: &String, now: u64, window: u64, max: usize) -> (admitted:
        bool)
        requires
            old(self).wf(),
            old(self).at_most(now),
        ensures
            final(self).wf(),
            final(self).at_most(now),
            ({
                let j = spec_index_of_key(id_views(old(self).entries@), identity@);
                if j >= 0 {
                    &&& admitted == spec_admit(
                        old(self).entries@[j].window.stamps@,
                        now,
                        window,
                        max as nat,
                    ).0
                    &&& final(self).entries@.len() == old(self).entries@.len()
                    &&& final(self).entries@[j].identity@ == identity@
                    &&& final(self).entries@[j].window.stamps@ == spec_admit(
                        old(self).entries@[j].window.stamps@,
                        now,
                        window,
                        max as nat,
                    ).1
                    &&& forall|k: int|
                        0 <= k < old(self).entries@.len() && k != j ==> final(self).entries@[k]
                            == old(self).entries@[k]
                } else {
                    &&& admitted == spec_admit(Seq::empty(), now, window, max as nat).0
                    &&& final(self).entries@.len() == old(self).entries@.len() + 1
                    &&& final(self).entries@.subrange(0, old(self).entries@.len() as int) == old(
                        self,
                    ).entries@
                    &&& final(self).entries@.last().identity@ == identity@
                    &&& final(self).entries@.last().window.stamps@ == spec_admit(
                        Seq::empty(),
                        now,
                        window,
                        max as nat,
                    ).1
                }
            }),
    {
        let ghost keys = id_views(self.entries@);
        let n = self.entries.len();
        let mut i: usize = 0;
        while i < n
            invariant
                i <= n,
                n == self.entries@.len(),
                *self == *old(self),
                old(self).wf(),
                old(self).at_most(now),
                keys == id_views(old(self).entries@),
                forall|j: int| 0 <= j < i ==> keys[j] != identity@,
            decreases n - i,
        {
            if self.entries[i].identity.eq(identity) {
                proof {
                    assert(keys[i as int] == old(self).entries@[i as int].identity@);
                    crate::config::lemma_index_of_key_first(keys, identity@, i as int);
                }
                let mut entry = self.entries.remove(i);
                let admitted = entry.window.check(now, window, max);
                self.entries.insert(i, entry);
                proof {
                    assert(self.entries@ =~= old(self).entries@.update(
                        i as int,
                        self.entries@[i as int],
                    ));
                    assert(self.entries@[i as int].identity@ == old(self).entries@[
                        i as int
                    ].identity@);
                    assert(forall|k: int|
                        0 <= k < old(self).entries@.len() && k != i ==> self.entries@[k] == old(
                            self,
                        ).entries@[k]);
                }
                return admitted;
            }
            i = i + 1;
        }
        proof {
            crate::config::lemma_index_of_key_none(keys, identity@);
        }
        let mut w = RateWindow::new();
        let admitted = w.check(now, window, max);
        self.entries.push(IdentityWindow { identity: identity.clone(), window: w });
        proof {
            assert(self.entries@.subrange(0, old(self).entries@.len() as int)
                =~= old(self).entries@);
            assert(forall|k: int|
                0 <= k < old(self).entries@.len() ==> (#[trigger] old(self).entries@[k]).identity@
                    == keys[k]);
        }
        admitted
    }
}

} // verus!
