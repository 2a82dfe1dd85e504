//! The turns of the serving loop.
//!
//! A server announces that it is ready, then for ever fetches an event,
//! handles it and fetches the next. It reports a handling that failed, and
//! rests for a moment after a fetch that failed. The loop itself does the
//! fetching, handling, reporting and resting; what to do next is decided
//! here.

use vstd::prelude::*;

verus! {

/// How long the loop rests after a fetch that failed, in milliseconds.
pub const BACKOFF_MILLIS: u64 = 1000;

/// Where the loop stands.
#[derive(Clone, Copy, Debug, PartialEq, Eq, Structural)]
pub enum Phase {
    /// Nothing was done yet.
    Starting,
    /// An event is to be fetched.
    Polling,
    /// A fetched event is to be handled.
    Handling,
    /// A failed handling is to be reported.
    Reporting,
    /// A failed fetch is to be slept off.
    Resting,
}

/// What the loop does in a phase.
#[derive(Clone, Copy, Debug, PartialEq, Eq, Structural)]
pub enum Action {
    AnnounceReady,
    FetchEvent,
    HandleEvent,
    ReportError,
    Sleep { millis: u64 },
}

impl Phase {
    /// What the loop does in this phase.
    pub open spec fn spec_action(self) -> Action {
        match self {
            Phase::Starting => Action::AnnounceReady,
            Phase::Polling => Action::FetchEvent,
            Phase::Handling => Action::HandleEvent,
            Phase::Reporting => Action::ReportError,
            Phase::Resting => Action::Sleep { millis: BACKOFF_MILLIS },
        }
    }

    /// The phase that follows this one, given whether its action succeeded.
    /// Only a fetch and a handling are asked how they went.
    pub open spec fn spec_next(self, succeeded: bool) -> Phase {
        match self {
            Phase::Polling => if succeeded {
                Phase::Handling
            } else {
                Phase::Resting
            },
            Phase::Handling => if succeeded {
                Phase::Polling
            } else {
                Phase::Reporting
            },
            Phase::Starting | Phase::Reporting | Phase::Resting => Phase::Polling,
        }
    }

    /// What the loop does in this phase.
    pub fn action(self) -> (r: Action)
        ensures
            r == self.spec_action(),
    {
        match self {
            Phase::Starting => Action::AnnounceReady,
            Phase::Polling => Action::FetchEvent,
            Phase::Handling => Action::HandleEvent,
            Phase::Reporting => Action::ReportError,
            Phase::Resting => Action::Sleep { millis: BACKOFF_MILLIS },
        }
    }

    /// The phase that follows this one, given whether its action succeeded.
    pub fn next(self, succeeded: bool) -> (r: Phase)
        ensures
            r == self.spec_next(succeeded),
    {
        match self {
            Phase::Polling => if succeeded {
                Phase::Handling
            } else {
                Phase::Resting
            },
            Phase::Handling => if succeeded {
                Phase::Polling
            } else {
                Phase::Reporting
            },
            _ => Phase::Polling,
        }
    }
}

/// The loop rests only after a fetch that failed, and then for the backoff
/// time; it reports only after a handling that failed; an event is handled
/// only after a fetch that succeeded; and the loop announces itself once,
/// at the start.
pub proof fn lemma_turns(phase: Phase, succeeded: bool)
    ensures
        phase.spec_next(succeeded) == Phase::Resting <==> phase == Phase::Polling && !succeeded,
        phase.spec_next(succeeded) == Phase::Reporting <==> phase == Phase::Handling && !succeeded,
        phase.spec_next(succeeded) == Phase::Handling <==> phase == Phase::Polling && succeeded,
        phase.spec_next(succeeded) != Phase::Starting,
        Phase::Resting.spec_action() == (Action::Sleep { millis: 1000 }),
{
}

/// Whatever comes of its actions, the loop is back at fetching after three
/// turns at most.
pub proof fn lemma_polls_again(phase: Phase, first: bool, second: bool, third: bool)
    ensures
        ({
            let one = phase.spec_next(first);
            let two = one.spec_next(second);
            let three = two.spec_next(third);
            one == Phase::Polling || two == Phase::Polling || three == Phase::Polling
        }),
{
}

} // verus!
