//! When graphs are due.
//!
//! Time is counted in nanoseconds from a start that the caller chooses and
//! keeps.  For each label the schedule holds the time from which its graphs
//! may next be drawn.

use vstd::hash_map::StringHashMap;
use vstd::prelude::*;

verus! {

/// Nanoseconds in a second.
pub const NANOS_PER_SECOND: u128 = 1_000_000_000;

/// The time that lies `interval` seconds after `now`, where it can be
/// counted.
pub open spec fn after(now: u128, interval: u64) -> Option<u128> {
    if now + interval * NANOS_PER_SECOND <= u128::MAX {
        Some((now + interval * NANOS_PER_SECOND) as u128)
    } else {
        None
    }
}

/// The time from which a label that is seen for the first time at `now` may
/// be drawn: one interval later, or `now` where that cannot be counted.
pub open spec fn seeded(now: u128, interval: u64) -> u128 {
    match after(now, interval) {
        Some(t) => t,
        None => now,
    }
}

/// Whether the graphs of `label` are due at `now`: the label has been seen
/// before, and its time has come.
pub open spec fn due(deadlines: Map<Seq<char>, u128>, label: Seq<char>, now: u128) -> bool {
    deadlines.contains_key(label) && deadlines[label] <= now
}

/// The schedule after `label` was looked at, at `now`: a label seen for the
/// first time is entered, and nothing else changes.
pub open spec fn observed(
    deadlines: Map<Seq<char>, u128>,
    label: Seq<char>,
    now: u128,
    interval: u64,
) -> Map<Seq<char>, u128> {
    if deadlines.contains_key(label) {
        deadlines
    } else {
        deadlines.insert(label, seeded(now, interval))
    }
}

/// The schedule after the graphs of `label` were drawn in a pass that was
/// found due at `at`: they are next due one interval after `at`.  Where
/// that time cannot be counted the schedule stays as it is.
pub open spec fn drawn(
    deadlines: Map<Seq<char>, u128>,
    label: Seq<char>,
    at: u128,
    interval: u64,
) -> Map<Seq<char>, u128> {
    match after(at, interval) {
        Some(t) => deadlines.insert(label, t),
        None => deadlines,
    }
}

/// For each label, the time from which its graphs may next be drawn.
pub struct Graphmap {
    deadlines: StringHashMap<u128>,
}

impl View for Graphmap {
    type V = Map<Seq<char>, u128>;

    closed spec fn view(&self) -> Map<Seq<char>, u128> {
        self.deadlines@
    }
}

/// Computes the time that lies `interval` seconds after `now`.
pub fn time_after(now: u128, interval: u64) -> (r: Option<u128>)
    ensures
        r == after(now, interval),
{
    let span: u128 = (interval as u128) * NANOS_PER_SECOND;
    now.checked_add(span)
}

impl Graphmap {
    /// A schedule without labels.
    pub fn new() -> (g: Graphmap)
        ensures
            g@ == Map::<Seq<char>, u128>::empty(),
    {
        Graphmap { deadlines: StringHashMap::new() }
    }

    /// The time from which the graphs of `label` may next be drawn, where
    /// the label has been seen.
    pub fn deadline(&self, label: &str) -> (r: Option<u128>)
        ensures
            r == if self@.contains_key(label@) {
                Some(self@[label@])
            } else {
                None
            },
    {
        match self.deadlines.get(label) {
            Some(t) => Some(*t),
            None => None,
        }
    }

    /// Looks at `label` at the time `now` and tells whether its graphs are
    /// due.  A label that is seen for the first time is entered and not
    /// due.
    pub fn observe(&mut self, label: &str, now: u128, interval: u64) -> (r: bool)
        ensures
            r == due(old(self)@, label@, now),
            final(self)@ == observed(old(self)@, label@, now, interval),
    {
        match self.deadline(label) {
            Some(t) => t <= now,
            None => {
                let first = match time_after(now, interval) {
                    Some(t) => t,
                    None => now,
                };
                self.deadlines.insert(String::from_str(label), first);
                false
            },
        }
    }

    /// Records that the graphs of `label` were drawn in a pass that was
    /// found due at `at`.
    pub fn record(&mut self, label: &str, at: u128, interval: u64)
        ensures
            final(self)@ == drawn(old(self)@, label@, at, interval),
    {
        match time_after(at, interval) {
            Some(t) => {
                self.deadlines.insert(String::from_str(label), t);
            },
            None => {},
        }
    }
}

} // verus!
