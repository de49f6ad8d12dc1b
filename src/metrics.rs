use vstd::prelude::*;

verus! {

/// How a request ended, for the process-wide counters.
#[derive(Clone, Copy, Debug, PartialEq, Eq, Structural)]
pub enum Outcome {
    /// The upload was stored (or found already stored).
    Succeeded,
    /// The upload pipeline failed.
    Failed,
    /// A rate or concurrency gate turned the request away.
    Limited,
}

/// The process-wide upload counters.
#[derive(Clone, Copy, Debug, PartialEq, Eq, Structural)]
pub struct Metrics {
    pub upload_ok: u64,
    pub upload_fail: u64,
    pub upload_limited: u64,
}

/// A counter after one increment, wrapping at the top of its range.
pub open spec fn bumped(x: u64) -> u64 {
    if x == u64::MAX {
        0
    } else {
        (x + 1) as u64
    }
}

fn bump(x: u64) -> (r: u64)
    ensures
        r == bumped(x),
{
    if x == u64::MAX {
        0
    } else {
        x + 1
    }
}

impl Metrics {
    /// All counters at zero.
    pub fn new() -> (r: Metrics)
        ensures
            r.upload_ok == 0 && r.upload_fail == 0 && r.upload_limited == 0,
    {
        Metrics { upload_ok: 0, upload_fail: 0, upload_limited: 0 }
    }

    /// Counts one request outcome: exactly the matching counter moves by one.
    pub fn record(&mut self, outcome: Outcome)
        ensures
            final(self).upload_ok == if outcome == Outcome::Succeeded {
                bumped(old(self).upload_ok)
            } else {
                old(self).upload_ok
            },
            final(self).upload_fail == if outcome == Outcome::Failed {
                bumped(old(self).upload_fail)
            } else {
                old(self).upload_fail
            },
            final(self).upload_limited == if outcome == Outcome::Limited {
                bumped(old(self).upload_limited)
            } else {
                old(self).upload_limited
            },
    {
        match outcome {
            Outcome::Succeeded => self.upload_ok = bump(self.upload_ok),
            Outcome::Failed => self.upload_fail = bump(self.upload_fail),
            Outcome::Limited => self.upload_limited = bump(self.upload_limited),
        }
    }
}

impl Default for Metrics {
    fn default() -> (r: Metrics)
        ensures
            r.upload_ok == 0 && r.upload_fail == 0 && r.upload_limited == 0,
    {
        Metrics::new()
    }
}

} // verus!
