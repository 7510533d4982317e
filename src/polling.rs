use crate::fetch::FetchError;
use vstd::prelude::*;

verus! {

/// Where the polling loop stands. At most one fetch-and-dispatch cycle is in
/// progress at any time, and the phase says which part of it.
#[derive(Debug, Clone, Copy, PartialEq, Eq, Structural)]
pub enum LoopPhase {
    /// Waiting for the next tick of the timer.
    AwaitTick,
    /// One fetch is in flight; it started at `started_ns`.
    Fetching { started_ns: u64 },
    /// The handler is running on the value of the last fetch.
    Dispatching,
}

/// What happened outside the loop. Times are nanoseconds on a monotonic clock.
#[derive(Debug, Clone, Copy, PartialEq, Eq, Structural)]
pub enum LoopEvent {
    /// The timer ticked.
    Tick { now_ns: u64 },
    /// The fetch in flight returned a decoded value.
    FetchSucceeded { now_ns: u64 },
    /// The fetch in flight failed.
    FetchFailed { error: FetchError },
    /// The handler finished with the last value.
    HandlerReturned,
}

/// What the driver of the loop does next.
#[derive(Debug, Clone, Copy, PartialEq, Eq, Structural)]
pub enum LoopAction {
    /// Start one fetch of the poller's URL.
    Fetch,
    /// Hand the fetched value to the handler, with the time the fetch took.
    Dispatch { elapsed_ns: u64 },
    /// Log the failure; the loop goes on with the next tick.
    Report { error: FetchError },
    /// Wait for the next tick.
    AwaitTick,
    /// A tick came while a cycle was in progress: drop it, queue nothing.
    SkipTick,
    /// The event does not belong to the current phase: nothing to do.
    Ignore,
}

/// The time from `started` to `now`, or zero where the clock reads earlier.
pub open spec fn elapsed_spec(started: u64, now: u64) -> u64 {
    if now >= started {
        (now - started) as u64
    } else {
        0
    }
}

/// One transition of the polling loop: the next phase and the action to take.
pub open spec fn transition(phase: LoopPhase, event: LoopEvent) -> (LoopPhase, LoopAction) {
    match (phase, event) {
        (LoopPhase::AwaitTick, LoopEvent::Tick { now_ns }) => (
            LoopPhase::Fetching { started_ns: now_ns },
            LoopAction::Fetch,
        ),
        (_, LoopEvent::Tick { .. }) => (phase, LoopAction::SkipTick),
        (LoopPhase::Fetching { started_ns }, LoopEvent::FetchSucceeded { now_ns }) => (
            LoopPhase::Dispatching,
            LoopAction::Dispatch { elapsed_ns: elapsed_spec(started_ns, now_ns) },
        ),
        (LoopPhase::Fetching { .. }, LoopEvent::FetchFailed { error }) => (
            LoopPhase::AwaitTick,
            LoopAction::Report { error },
        ),
        (LoopPhase::Dispatching, LoopEvent::HandlerReturned) => (
            LoopPhase::AwaitTick,
            LoopAction::AwaitTick,
        ),
        _ => (phase, LoopAction::Ignore),
    }
}

/// The decisions of the polling loop. Its driver waits for ticks, performs
/// the fetches and runs the handler, and reports each of these as an event.
pub struct PollLoop {
    phase: LoopPhase,
}

impl View for PollLoop {
    type V = LoopPhase;

    closed spec fn view(&self) -> LoopPhase {
        self.phase
    }
}

impl PollLoop {
    /// A loop waiting for its first tick.
    pub fn new() -> (r: PollLoop)
        ensures
            r@ == LoopPhase::AwaitTick,
    {
        PollLoop { phase: LoopPhase::AwaitTick }
    }

    /// The current phase.
    pub fn phase(&self) -> (r: LoopPhase)
        ensures
            r == self@,
    {
        self.phase
    }

    /// Takes one event and returns what to do about it.
    pub fn step(&mut self, event: LoopEvent) -> (r: LoopAction)
        ensures
            (final(self)@, r) == transition(old(self)@, event),
    {
        let (phase, action) = match (self.phase, event) {
            (LoopPhase::AwaitTick, LoopEvent::Tick { now_ns }) => (
                LoopPhase::Fetching { started_ns: now_ns },
                LoopAction::Fetch,
            ),
            (_, LoopEvent::Tick { .. }) => (self.phase, LoopAction::SkipTick),
            (LoopPhase::Fetching { started_ns }, LoopEvent::FetchSucceeded { now_ns }) => {
                let elapsed_ns: u64 = if now_ns >= started_ns {
                    now_ns - started_ns
                } else {
                    0
                };
                (LoopPhase::Dispatching, LoopAction::Dispatch { elapsed_ns })
            },
            (LoopPhase::Fetching { .. }, LoopEvent::FetchFailed { error }) => (
                LoopPhase::AwaitTick,
                LoopAction::Report { error },
            ),
            (LoopPhase::Dispatching, LoopEvent::HandlerReturned) => (
                LoopPhase::AwaitTick,
                LoopAction::AwaitTick,
            ),
            _ => (self.phase, LoopAction::Ignore),
        };
        self.phase = phase;
        action
    }
}

/// The handler is called only after a successful fetch, and with the exact
/// time that fetch took, measured from the tick that started it.
pub proof fn lemma_dispatch_only_on_success(phase: LoopPhase, event: LoopEvent)
    ensures
        transition(phase, event).1 is Dispatch ==> {
            &&& phase matches LoopPhase::Fetching { started_ns }
            &&& event matches LoopEvent::FetchSucceeded { now_ns }
            &&& transition(phase, event).1 == (LoopAction::Dispatch {
                elapsed_ns: elapsed_spec(started_ns, now_ns),
            })
            &&& now_ns >= started_ns ==> transition(phase, event).1->elapsed_ns == now_ns - started_ns
        },
{
}

/// A failed fetch never calls the handler and never stops the loop: the
/// failure is reported, and the next tick starts the next fetch.
pub proof fn lemma_failure_keeps_polling(started_ns: u64, error: FetchError, now_ns: u64)
    ensures
        transition(LoopPhase::Fetching { started_ns }, LoopEvent::FetchFailed { error }) == (
            LoopPhase::AwaitTick,
            LoopAction::Report { error },
        ),
        transition(LoopPhase::AwaitTick, LoopEvent::Tick { now_ns }) == (
            LoopPhase::Fetching { started_ns: now_ns },
            LoopAction::Fetch,
        ),
{
}

/// While the handler runs, no event starts a fetch or a second handler call;
/// only its return ends the cycle.
pub proof fn lemma_one_handler_at_a_time(event: LoopEvent)
    ensures
        transition(LoopPhase::Dispatching, event).1 !is Dispatch,
        transition(LoopPhase::Dispatching, event).1 !is Fetch,
        event !is HandlerReturned ==> transition(LoopPhase::Dispatching, event).0
            == LoopPhase::Dispatching,
{
}

/// A tick that comes while a cycle is in progress is dropped: the phase does
/// not change, so nothing is queued to fire later.
pub proof fn lemma_missed_ticks_dropped(phase: LoopPhase, now_ns: u64)
    requires
        phase !is AwaitTick,
    ensures
        transition(phase, LoopEvent::Tick { now_ns }) == (phase, LoopAction::SkipTick),
{
}

/// The phase reached from `phase` after the events, in order.
pub open spec fn run_phase(phase: LoopPhase, events: Seq<LoopEvent>) -> LoopPhase
    decreases events.len(),
{
    if events.len() == 0 {
        phase
    } else {
        transition(run_phase(phase, events.drop_last()), events.last()).0
    }
}

/// How many of the events' actions, from `phase`, call the handler.
pub open spec fn handler_calls(phase: LoopPhase, events: Seq<LoopEvent>) -> nat
    decreases events.len(),
{
    if events.len() == 0 {
        0
    } else {
        let before = run_phase(phase, events.drop_last());
        handler_calls(phase, events.drop_last()) + if transition(before, events.last()).1 is Dispatch {
            1nat
        } else {
            0nat
        }
    }
}

/// How many handler calls, from `phase`, the events saw return.
pub open spec fn handler_returns(phase: LoopPhase, events: Seq<LoopEvent>) -> nat
    decreases events.len(),
{
    if events.len() == 0 {
        0
    } else {
        let before = run_phase(phase, events.drop_last());
        handler_returns(phase, events.drop_last()) + if transition(before, events.last()).1 is AwaitTick {
            1nat
        } else {
            0nat
        }
    }
}

/// Whatever the events and their order, a loop that starts waiting for a tick
/// has at most one handler call in progress: every call but the last has
/// returned, and the last one is in progress exactly while the loop is
/// dispatching.
pub proof fn lemma_handler_calls_serialized(events: Seq<LoopEvent>)
    ensures
        handler_calls(LoopPhase::AwaitTick, events) == handler_returns(LoopPhase::AwaitTick, events)
            + if run_phase(LoopPhase::AwaitTick, events) is Dispatching {
            1nat
        } else {
            0nat
        },
    decreases events.len(),
{
    if events.len() > 0 {
        lemma_handler_calls_serialized(events.drop_last());
    }
}

} // verus!
