//! The projectM stop grace period.
//!
//! Hiding the visualization stops its ticks immediately, but recreating the
//! projectM instance compiles shaders and loads a preset on the UI thread.
//! [`GraceTimer`] keeps a stopped instance alive for [`GRACE`] so a quick
//! toggle, a minimise/restore or a placement change resumes without
//! rebuilding; once the deadline passes the caller frees the instance.
//!
//! Instants and durations are nanoseconds on the caller's monotonic clock.

use vstd::prelude::*;

verus! {

/// How long a stopped visualization keeps its instance before freeing it:
/// ten seconds, in nanoseconds.
pub const GRACE: u64 = 10_000_000_000;

/// A one-shot deadline from which the caller can schedule and poll.
#[derive(Debug, Default, Clone, Copy, PartialEq, Eq, Structural)]
pub struct GraceTimer {
    /// When the instance should be freed, if a stop is pending.
    pub deadline: Option<u64>,
}

/// The deadline after arming at `now`: an armed timer keeps its deadline.
pub open spec fn armed(deadline: Option<u64>, now: u64) -> Option<u64> {
    match deadline {
        None => Some((now + GRACE) as u64),
        Some(d) => Some(d),
    }
}

/// Whether a timer with `deadline` is due at `now`.
pub open spec fn is_due(deadline: Option<u64>, now: u64) -> bool {
    match deadline {
        Some(d) => now >= d,
        None => false,
    }
}

/// The time left until `deadline`, zero once it passed.
pub open spec fn remaining(deadline: Option<u64>, now: u64) -> Option<u64> {
    match deadline {
        Some(d) => Some(if d >= now { (d - now) as u64 } else { 0u64 }),
        None => None,
    }
}

impl GraceTimer {
    /// An idle timer: nothing pending.
    pub fn new() -> (t: Self)
        ensures
            t.deadline == None::<u64>,
    {
        GraceTimer { deadline: None }
    }

    /// Arms the grace period from `now`, unless it is already armed.
    pub fn arm(&mut self, now: u64)
        requires
            old(self).deadline is None ==> now + GRACE <= u64::MAX,
        ensures
            final(self).deadline == armed(old(self).deadline, now),
    {
        if self.deadline.is_none() {
            self.deadline = Some(now + GRACE);
        }
    }

    /// Disarms it: the visualization started again, so nothing is pending.
    pub fn disarm(&mut self)
        ensures
            final(self).deadline == None::<u64>,
    {
        self.deadline = None;
    }

    /// How long until the instance should be freed, so the caller can
    /// schedule a wake for it. `None` when nothing is pending.
    pub fn wait(&self, now: u64) -> (r: Option<u64>)
        ensures
            r == remaining(self.deadline, now),
    {
        match self.deadline {
            Some(deadline) => Some(if deadline >= now { deadline - now } else { 0 }),
            None => None,
        }
    }

    /// Whether the deadline has passed, clearing it when so.
    pub fn take_due(&mut self, now: u64) -> (due: bool)
        ensures
            due == is_due(old(self).deadline, now),
            final(self).deadline == if due { None } else { old(self).deadline },
    {
        let due = match self.deadline {
            Some(deadline) => now >= deadline,
            None => false,
        };
        if due {
            self.deadline = None;
        }
        due
    }
}

/// An idle timer armed at `start` is due exactly from `start + GRACE` on,
/// and re-arming it before then does not move the deadline.
pub proof fn lemma_grace_period(start: u64, rearm: u64, now: u64)
    requires
        start + GRACE <= u64::MAX,
    ensures
        armed(armed(None, start), rearm) == armed(None, start),
        is_due(armed(None, start), now) == (now >= start + GRACE),
        remaining(armed(None, start), start) == Some(GRACE),
{
}

/// A disarmed timer is never due and has nothing to wait for.
pub proof fn lemma_disarmed_is_idle(now: u64)
    ensures
        !is_due(None, now),
        remaining(None, now) == None::<u64>,
{
}

} // verus!
