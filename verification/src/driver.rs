//! Loop drivers: how a poll makes forward progress on the underlying event
//! loop, and what that attempt reports.

use vstd::prelude::*;

verus! {

/// What one poll of an adapter reports to its task: either the awaited value,
/// or nothing yet (the driver has already arranged for the task to be woken
/// again).
#[derive(Clone, Copy, Debug, PartialEq, Eq)]
pub enum PollResult<T> {
    Pending,
    Ready(T),
}

/// What one non-blocking iteration step of an owned event loop reported: it
/// dispatched some number of sources, the loop was asked to quit with a
/// return value, or iterating failed with an error code.
#[derive(Clone, Copy, Debug, PartialEq, Eq)]
pub enum IterateOutcome {
    Advanced(u32),
    Quit(i32),
    Failed(i32),
}

/// The loop driver's verdict for the current poll. `Quit` and `Error` are
/// terminal for every future and stream sharing the loop.
#[derive(Clone, Copy, Debug, PartialEq, Eq)]
pub enum DriverReport {
    Success,
    Quit,
    Error,
}

impl DriverReport {
    /// A report other than `Success` must resolve the polling entity to
    /// failure on this very poll.
    pub open spec fn is_fatal(self) -> bool {
        !(self is Success)
    }

    /// Executable mirror of [`DriverReport::is_fatal`].
    pub fn fatal(&self) -> (r: bool)
        ensures
            r == self.is_fatal(),
    {
        match self {
            DriverReport::Success => false,
            DriverReport::Quit => true,
            DriverReport::Error => true,
        }
    }
}

/// How an iterate step of an owned loop classifies as a driver verdict.
pub open spec fn classified(outcome: IterateOutcome) -> DriverReport {
    match outcome {
        IterateOutcome::Advanced(_) => DriverReport::Success,
        IterateOutcome::Quit(_) => DriverReport::Quit,
        IterateOutcome::Failed(_) => DriverReport::Error,
    }
}

/// The two loop-driving strategies, chosen at construction time and never
/// switched afterwards. A self-driven adapter owns its loop and advances it
/// one non-blocking step per poll. A host-driven adapter only schedules a
/// low-priority re-wake on a loop someone else owns, so no local iterate
/// outcome exists and loop failure is the host's concern, never visible here.
#[derive(Clone, Copy, Debug, PartialEq, Eq)]
pub enum LoopDriver {
    SelfDriven,
    HostDriven,
}

impl LoopDriver {
    /// The verdict a poll derives from this driver, given the iterate outcome
    /// of an owned loop (present exactly in self-driven mode).
    pub open spec fn report_of(self, iterate: Option<IterateOutcome>) -> DriverReport {
        match self {
            LoopDriver::SelfDriven => classified(iterate.unwrap()),
            LoopDriver::HostDriven => DriverReport::Success,
        }
    }

    /// The decision half of advancing the loop once: turn what the loop did
    /// into the verdict every poll starts from. A host-driven poll always
    /// reports success locally.
    pub fn poll_once(&self, iterate: Option<IterateOutcome>) -> (r: DriverReport)
        requires
            (*self is SelfDriven) <==> (iterate is Some),
        ensures
            r == self.report_of(iterate),
    {
        match self {
            LoopDriver::SelfDriven => match iterate {
                Some(IterateOutcome::Advanced(_)) => DriverReport::Success,
                Some(IterateOutcome::Quit(_)) => DriverReport::Quit,
                Some(IterateOutcome::Failed(_)) => DriverReport::Error,
                None => DriverReport::Error,
            },
            LoopDriver::HostDriven => DriverReport::Success,
        }
    }
}

} // verus!
