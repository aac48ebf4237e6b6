//! The refresh scheduler: repeats pod discovery at a fixed interval until
//! shutdown is seen, or does nothing at all where the interval is zero.
//!
//! The scheduler waits for nothing itself. It is told what happened, the
//! interval elapsed or shutdown was seen, and answers what to do next.
use crate::k8s::DiscoveryError;
use vstd::prelude::*;

verus! {

/// The state of the scheduler.
#[derive(Clone, Copy, Debug, PartialEq, Eq, Structural)]
pub enum RefreshState {
    /// The interval is zero: there is no periodic discovery.
    Disabled,
    /// Discovery runs each time the interval elapses.
    Ticking,
    /// Shutdown was seen. This state is never left.
    Stopped,
}

/// What the scheduler is told.
#[derive(Debug)]
pub enum RefreshEvent {
    /// The interval has elapsed.
    IntervalElapsed,
    /// The shutdown signal was seen.
    ShutdownObserved,
    /// The discovery cycle that was asked for has run.
    CycleDone,
    /// The discovery cycle that was asked for has failed.
    CycleFailed(DiscoveryError),
}

/// What the scheduler wants done.
#[derive(Debug)]
pub enum RefreshAction {
    /// Leave the loop: the scheduler is disabled or stopped.
    Return,
    /// Wait until the interval elapses or shutdown is seen, whichever is
    /// noticed first.
    Wait,
    /// Run one discovery cycle.
    Discover,
    /// Write this complaint to standard error, then go on waiting.
    Report(String),
}

/// What an action says, with its text as a sequence of characters.
pub enum Reaction {
    Return,
    Wait,
    Discover,
    Report(Seq<char>),
}

impl View for RefreshAction {
    type V = Reaction;

    open spec fn view(&self) -> Reaction {
        match self {
            RefreshAction::Return => Reaction::Return,
            RefreshAction::Wait => Reaction::Wait,
            RefreshAction::Discover => Reaction::Discover,
            RefreshAction::Report(text) => Reaction::Report(text@),
        }
    }
}

/// The state in which a scheduler with this interval begins.
pub open spec fn initial_state(interval_seconds: u64) -> RefreshState {
    if interval_seconds == 0 {
        RefreshState::Disabled
    } else {
        RefreshState::Ticking
    }
}

/// The state that follows `state` on `event`: only a ticking scheduler
/// changes state, and only on shutdown.
pub open spec fn next_state(state: RefreshState, event: RefreshEvent) -> RefreshState {
    match (state, event) {
        (RefreshState::Ticking, RefreshEvent::ShutdownObserved) => RefreshState::Stopped,
        _ => state,
    }
}

/// The complaint about a discovery cycle that failed.
pub open spec fn refresh_error_text(cause: Seq<char>) -> Seq<char> {
    "Error during periodic pod discovery: "@ + cause
}

/// What a scheduler in `state` wants done when nothing has happened yet.
pub open spec fn wanted(state: RefreshState) -> Reaction {
    match state {
        RefreshState::Ticking => Reaction::Wait,
        _ => Reaction::Return,
    }
}

/// What a scheduler in `state` wants done on `event`. A ticking scheduler
/// runs one discovery cycle per elapsed interval, reports a failed cycle and
/// waits again after a cycle has run. On shutdown, and in every other state,
/// it wants to return.
pub open spec fn reaction(state: RefreshState, event: RefreshEvent) -> Reaction {
    match state {
        RefreshState::Ticking => match event {
            RefreshEvent::IntervalElapsed => Reaction::Discover,
            RefreshEvent::ShutdownObserved => Reaction::Return,
            RefreshEvent::CycleDone => Reaction::Wait,
            RefreshEvent::CycleFailed(e) => Reaction::Report(refresh_error_text(e.message_text())),
        },
        _ => Reaction::Return,
    }
}

/// The state of a scheduler that began in `state` and was told `events`.
pub open spec fn state_after(state: RefreshState, events: Seq<RefreshEvent>) -> RefreshState
    decreases events.len(),
{
    if events.len() == 0 {
        state
    } else {
        next_state(state_after(state, events.drop_last()), events.last())
    }
}

/// A scheduler that does not tick stays as it is, whatever it is told.
pub proof fn lemma_rest_is_final(state: RefreshState, events: Seq<RefreshEvent>)
    requires
        state != RefreshState::Ticking,
    ensures
        state_after(state, events) == state,
    decreases events.len(),
{
    if events.len() > 0 {
        lemma_rest_is_final(state, events.drop_last());
    }
}

/// With an interval of zero the scheduler never ticks: whatever it is told,
/// and however often, it stays disabled and wants nothing but to return. It
/// asks for no discovery cycle and for no wait.
pub proof fn lemma_zero_interval_never_ticks(events: Seq<RefreshEvent>, event: RefreshEvent)
    ensures
        wanted(initial_state(0)) == Reaction::Return,
        state_after(initial_state(0), events) == RefreshState::Disabled,
        reaction(state_after(initial_state(0), events), event) == Reaction::Return,
{
    lemma_rest_is_final(RefreshState::Disabled, events);
}

/// Shutdown ends the loop in one step: told of the shutdown, the scheduler
/// wants to return whatever its state, and whatever it is told after that,
/// it never ticks again and wants nothing but to return.
pub proof fn lemma_shutdown_stops_at_once(
    state: RefreshState,
    later: Seq<RefreshEvent>,
    event: RefreshEvent,
)
    ensures
        reaction(state, RefreshEvent::ShutdownObserved) == Reaction::Return,
        next_state(state, RefreshEvent::ShutdownObserved) != RefreshState::Ticking,
        state_after(next_state(state, RefreshEvent::ShutdownObserved), later) == next_state(
            state,
            RefreshEvent::ShutdownObserved,
        ),
        reaction(state_after(next_state(state, RefreshEvent::ShutdownObserved), later), event)
            == Reaction::Return,
{
    lemma_rest_is_final(next_state(state, RefreshEvent::ShutdownObserved), later);
}

/// Decides when discovery runs again.
#[derive(Debug)]
pub struct RefreshScheduler {
    state: RefreshState,
    interval_seconds: u64,
}

impl RefreshScheduler {
    /// The state of this scheduler.
    pub closed spec fn state_of(&self) -> RefreshState {
        self.state
    }

    /// The interval of this scheduler, in seconds.
    pub closed spec fn interval_of(&self) -> u64 {
        self.interval_seconds
    }

    /// A scheduler for this interval: disabled where it is zero, ticking
    /// otherwise.
    pub fn new(interval_seconds: u64) -> (s: RefreshScheduler)
        ensures
            s.state_of() == initial_state(interval_seconds),
            s.interval_of() == interval_seconds,
    {
        if interval_seconds == 0 {
            RefreshScheduler { state: RefreshState::Disabled, interval_seconds }
        } else {
            RefreshScheduler { state: RefreshState::Ticking, interval_seconds }
        }
    }

    /// The state of this scheduler.
    pub fn state(&self) -> (r: RefreshState)
        ensures
            r == self.state_of(),
    {
        self.state
    }

    /// The interval between two discovery cycles, in seconds.
    pub fn interval_seconds(&self) -> (r: u64)
        ensures
            r == self.interval_of(),
    {
        self.interval_seconds
    }

    /// What to do when nothing has happened yet, or after a report: wait if
    /// the scheduler ticks, return if not.
    pub fn pending(&self) -> (action: RefreshAction)
        ensures
            action@ == wanted(self.state_of()),
    {
        match self.state {
            RefreshState::Ticking => RefreshAction::Wait,
            _ => RefreshAction::Return,
        }
    }

    /// One step of the periodic refresh: takes what happened and says what
    /// to do next.
    pub fn run_periodic_refresh(&mut self, event: RefreshEvent) -> (action: RefreshAction)
        ensures
            action@ == reaction(old(self).state_of(), event),
            final(self).state_of() == next_state(old(self).state_of(), event),
            final(self).interval_of() == old(self).interval_of(),
    {
        match self.state {
            RefreshState::Ticking => match event {
                RefreshEvent::IntervalElapsed => RefreshAction::Discover,
                RefreshEvent::ShutdownObserved => {
                    self.state = RefreshState::Stopped;
                    RefreshAction::Return
                },
                RefreshEvent::CycleDone => RefreshAction::Wait,
                RefreshEvent::CycleFailed(e) => {
                    let mut text = String::from_str("Error during periodic pod discovery: ");
                    let cause = e.message();
                    text.append(cause.as_str());
                    RefreshAction::Report(text)
                },
            },
            _ => RefreshAction::Return,
        }
    }
}

} // verus!
