//! Debounced digital input: one physical contact, filtered by a guard interval.

use vstd::prelude::*;

verus! {

/// Minimum time, in milliseconds, between two accepted edges of one channel.
pub const DEBOUNCE_GUARD_MS: u64 = 50;

/// A clean transition of a contact.
#[derive(Clone, Copy, Debug, PartialEq, Eq, Structural)]
pub enum Edge {
    Pressed,
    Released,
}

/// The edge reported when a channel settles on `level`.
///
/// Levels are "active" levels: `true` means the contact is closed, which on a
/// pulled-up line reads electrically low.
pub open spec fn edge_for(level: bool) -> Edge {
    if level {
        Edge::Pressed
    } else {
        Edge::Released
    }
}

/// Debounce record of one channel. Times are milliseconds on a monotonic clock.
#[derive(Clone, Copy, Debug)]
pub struct DebounceState {
    pub last_stable_level: bool,
    pub last_change_at: u64,
}

impl DebounceState {
    /// At least the guard interval has passed since the last accepted change.
    pub open spec fn guard_elapsed(self, now: u64) -> bool {
        now >= self.last_change_at + DEBOUNCE_GUARD_MS
    }

    /// One sample: the next record and the edge it reports.
    pub open spec fn step(self, level: bool, now: u64) -> (DebounceState, Option<Edge>) {
        if level != self.last_stable_level && self.guard_elapsed(now) {
            (DebounceState { last_stable_level: level, last_change_at: now }, Some(edge_for(level)))
        } else {
            (self, None)
        }
    }

    /// A sequence of samples `(level, now)` fed one after the other: the last
    /// record and the edges reported, in order.
    pub open spec fn run(self, samples: Seq<(bool, u64)>) -> (DebounceState, Seq<Edge>)
        decreases samples.len(),
    {
        if samples.len() == 0 {
            (self, Seq::empty())
        } else {
            let (next, edge) = self.step(samples[0].0, samples[0].1);
            let (last, edges) = next.run(samples.drop_first());
            match edge {
                Some(e) => (last, seq![e] + edges),
                None => (last, edges),
            }
        }
    }

    /// A released channel whose guard interval starts at `now`.
    pub fn new(now: u64) -> (r: Self)
        ensures
            r.last_stable_level == false,
            r.last_change_at == now,
    {
        DebounceState { last_stable_level: false, last_change_at: now }
    }

    /// Feeds one sample. A change of level is accepted only once the guard
    /// interval has passed since the previous accepted change; a change that
    /// comes earlier is bounce and is dropped, not queued.
    pub fn poll(&mut self, raw_level: bool, now: u64) -> (r: Option<Edge>)
        ensures
            (*final(self), r) == old(self).step(raw_level, now),
            final(self).last_change_at >= old(self).last_change_at,
    {
        if raw_level != self.last_stable_level && now >= self.last_change_at
            && now - self.last_change_at >= DEBOUNCE_GUARD_MS {
            self.last_stable_level = raw_level;
            self.last_change_at = now;
            if raw_level {
                Some(Edge::Pressed)
            } else {
                Some(Edge::Released)
            }
        } else {
            None
        }
    }
}

/// Samples that all come before the guard interval of `s` has passed report
/// no edge and leave the record as it is.
proof fn lemma_run_silent(s: DebounceState, samples: Seq<(bool, u64)>)
    requires
        forall|i: int| 0 <= i < samples.len() ==> samples[i].1 < s.last_change_at + DEBOUNCE_GUARD_MS,
    ensures
        s.run(samples).1.len() == 0,
        s.run(samples).0 == s,
    decreases samples.len(),
{
    if samples.len() > 0 {
        lemma_run_silent(s, samples.drop_first());
    }
}

/// However many level flips arrive within one guard interval, starting at
/// `start`, at most one of them is accepted.
pub proof fn lemma_debounce_collapses_bounce(s: DebounceState, samples: Seq<(bool, u64)>, start: u64)
    requires
        forall|i: int|
            0 <= i < samples.len() ==> start <= #[trigger] samples[i].1 < start + DEBOUNCE_GUARD_MS,
    ensures
        s.run(samples).1.len() <= 1,
    decreases samples.len(),
{
    if samples.len() > 0 {
        let (next, edge) = s.step(samples[0].0, samples[0].1);
        let rest = samples.drop_first();
        assert forall|i: int| 0 <= i < rest.len() implies start <= #[trigger] rest[i].1 < start
            + DEBOUNCE_GUARD_MS by {
            assert(rest[i] == samples[i + 1]);
        }
        match edge {
            Some(e) => {
                assert forall|i: int| 0 <= i < rest.len() implies #[trigger] rest[i].1
                    < next.last_change_at + DEBOUNCE_GUARD_MS by {
                    assert(rest[i] == samples[i + 1]);
                }
                lemma_run_silent(next, rest);
            },
            None => {
                lemma_debounce_collapses_bounce(next, rest, start);
            },
        }
    }
}

/// A level that differs from the stable one and is held for a run of samples
/// is reported exactly once, as its own edge, as soon as one of those samples
/// comes at least a guard interval after the previous accepted change.
pub proof fn lemma_debounce_reports_settled_flip(
    s: DebounceState,
    level: bool,
    samples: Seq<(bool, u64)>,
    k: int,
)
    requires
        level != s.last_stable_level,
        forall|i: int| 0 <= i < samples.len() ==> (#[trigger] samples[i]).0 == level,
        0 <= k < samples.len(),
        s.guard_elapsed(samples[k].1),
    ensures
        s.run(samples).1 == seq![edge_for(level)],
        s.run(samples).0.last_stable_level == level,
    decreases samples.len(),
{
    let (next, edge) = s.step(samples[0].0, samples[0].1);
    let rest = samples.drop_first();
    assert forall|i: int| 0 <= i < rest.len() implies (#[trigger] rest[i]).0 == level by {
        assert(rest[i] == samples[i + 1]);
    }
    assert(samples[0].0 == level);
    match edge {
        Some(e) => {
            lemma_run_steady(next, rest);
            assert(seq![e] + Seq::<Edge>::empty() =~= seq![edge_for(level)]);
        },
        None => {
            assert(k > 0);
            assert(rest[k - 1] == samples[k]);
            lemma_debounce_reports_settled_flip(next, level, rest, k - 1);
        },
    }
}

/// Samples that all repeat the stable level report nothing.
proof fn lemma_run_steady(s: DebounceState, samples: Seq<(bool, u64)>)
    requires
        forall|i: int| 0 <= i < samples.len() ==> (#[trigger] samples[i]).0 == s.last_stable_level,
    ensures
        s.run(samples).1.len() == 0,
        s.run(samples).0 == s,
    decreases samples.len(),
{
    if samples.len() > 0 {
        let rest = samples.drop_first();
        assert forall|i: int| 0 <= i < rest.len() implies (#[trigger] rest[i]).0
            == s.last_stable_level by {
            assert(rest[i] == samples[i + 1]);
        }
        assert(samples[0].0 == s.last_stable_level);
        lemma_run_steady(s, rest);
    }
}

} // verus!
