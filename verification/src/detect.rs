//! Change detection for the watched artifact.
//!
//! The detector keeps the modification time seen by the most recent
//! successful metadata read and compares each new reading against it. A
//! failed read is absorbed here: it neither reports a change nor disturbs
//! the stored baseline, so a later successful read still compares against
//! the right value.

use vstd::prelude::*;

verus! {

/// A file-modification instant, split into whole seconds and nanoseconds
/// so that equality is plain field equality.
#[derive(Clone, Copy, PartialEq, Eq, Structural, Debug)]
pub struct Timestamp {
    pub secs: u64,
    pub nanos: u32,
}

/// What one observation does: the new baseline, and whether a change is
/// reported. A failed read (`None`) leaves the baseline untouched and
/// never reports a change. A successful read always becomes the new
/// baseline, and reports a change exactly when a baseline already existed
/// and differs from the fresh reading; the very first successful read is
/// the initial observation, not a change.
pub open spec fn observe_spec(last: Option<Timestamp>, reading: Option<Timestamp>) -> (Option<
    Timestamp,
>, bool) {
    match reading {
        None => (last, false),
        Some(t) => (Some(t), last matches Some(p) && p != t),
    }
}

/// Watches one file's modification time and reports whether it changed
/// since the previous successful observation.
pub struct ChangeDetector {
    /// The modification time seen by the most recent successful read, if
    /// any successful read has happened yet.
    pub last_seen: Option<Timestamp>,
}

impl ChangeDetector {
    /// A detector that has not yet observed the file.
    pub fn new() -> (d: ChangeDetector)
        ensures
            d.last_seen is None,
    {
        ChangeDetector { last_seen: None }
    }

    /// Feed the detector one metadata reading, `None` standing for a
    /// failed read. Returns whether the file changed since the previous
    /// successful observation, per [`observe_spec`].
    pub fn observe(&mut self, reading: Option<Timestamp>) -> (changed: bool)
        ensures
            (final(self).last_seen, changed) == observe_spec(old(self).last_seen, reading),
    {
        match reading {
            None => false,
            Some(t) => {
                let changed: bool = match self.last_seen {
                    Some(p) => !(p == t),
                    None => false,
                };
                self.last_seen = Some(t);
                changed
            },
        }
    }
}

/// A failed metadata read is harmless: it reports no change and leaves
/// the comparison baseline exactly as it was.
pub proof fn lemma_failed_read_is_absorbed(last: Option<Timestamp>)
    ensures
        observe_spec(last, None) == (last, false),
{
}

/// A failed metadata read does not mask a real change: if the baseline
/// holds `p` and a failed read comes in between, the next successful
/// read of some `t != p` still reports the change.
pub proof fn lemma_failed_read_does_not_mask_change(p: Timestamp, t: Timestamp)
    requires
        p != t,
    ensures
        observe_spec(observe_spec(Some(p), None).0, Some(t)) == (Some(t), true),
{
}

/// The baseline, once set, is never cleared: every later observation
/// either keeps it or replaces it with a freshly read value.
pub proof fn lemma_baseline_never_clears(last: Option<Timestamp>, reading: Option<Timestamp>)
    requires
        last is Some,
    ensures
        observe_spec(last, reading).0 is Some,
{
}

} // verus!
