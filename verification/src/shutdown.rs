//! The shutdown handshake, seen from the task that closes the connection.
//!
//! A handler puts `true` on a bounded channel; one listener task takes it
//! off, tears the connection down and ends. The listener's decisions are
//! here; the channel and the teardown belong to the caller.

use vstd::prelude::*;

verus! {

/// How many signals the shutdown channel can hold.
pub const SIGNAL_CAPACITY: usize = 64;

/// Where the process stands.
#[derive(Clone, Copy, Debug, PartialEq, Eq, Structural)]
pub enum Lifecycle {
    /// Serving interactions; the listener waits on the channel.
    Idle,
    /// A stop signal has arrived; the connection is being torn down.
    ShuttingDown,
    /// The teardown is done.
    Terminated,
}

/// What the listener has just seen.
#[derive(Clone, Copy, Debug, PartialEq, Eq, Structural)]
pub enum ListenerEvent {
    /// The channel handed out `value`; `None` when it is closed and empty.
    Received { value: Option<bool> },
    /// The teardown has finished.
    TornDown,
}

/// What the listener does next.
#[derive(Clone, Copy, Debug, PartialEq, Eq, Structural)]
pub enum ListenerAction {
    /// Wait for the next value on the channel.
    Receive,
    /// Close the connection to the platform.
    Teardown,
    /// Leave the loop.
    Exit,
}

/// Why the listener gave up.
#[derive(Clone, Copy, Debug, PartialEq, Eq, Structural)]
pub enum ListenerError {
    /// Every sender is gone and no stop signal ever came.
    ChannelClosed,
}

impl Lifecycle {
    /// How far along the process is: 0 while serving, 2 once terminated.
    pub open spec fn rank(self) -> nat {
        match self {
            Lifecycle::Idle => 0,
            Lifecycle::ShuttingDown => 1,
            Lifecycle::Terminated => 2,
        }
    }

    /// The state after `event`, or the error that `event` amounts to.
    ///
    /// While idle, `true` starts the shutdown, `false` changes nothing, and
    /// a closed channel is an error. While shutting down, the end of the
    /// teardown terminates the process. Every other event is stale and
    /// changes nothing.
    pub open spec fn after(self, event: ListenerEvent) -> Result<Lifecycle, ListenerError> {
        match (self, event) {
            (Lifecycle::Idle, ListenerEvent::Received { value: Some(stop) }) => Ok(
                if stop {
                    Lifecycle::ShuttingDown
                } else {
                    Lifecycle::Idle
                },
            ),
            (Lifecycle::Idle, ListenerEvent::Received { value: None }) => Err(
                ListenerError::ChannelClosed,
            ),
            (Lifecycle::ShuttingDown, ListenerEvent::TornDown) => Ok(Lifecycle::Terminated),
            _ => Ok(self),
        }
    }

    /// What the listener does in this state.
    pub open spec fn duty(self) -> ListenerAction {
        match self {
            Lifecycle::Idle => ListenerAction::Receive,
            Lifecycle::ShuttingDown => ListenerAction::Teardown,
            Lifecycle::Terminated => ListenerAction::Exit,
        }
    }

    /// The state in which the process starts.
    pub fn start() -> (state: Lifecycle)
        ensures
            state == Lifecycle::Idle,
    {
        Lifecycle::Idle
    }

    /// What the listener has to do in this state.
    pub fn pending(&self) -> (action: ListenerAction)
        ensures
            action == self.duty(),
    {
        match self {
            Lifecycle::Idle => ListenerAction::Receive,
            Lifecycle::ShuttingDown => ListenerAction::Teardown,
            Lifecycle::Terminated => ListenerAction::Exit,
        }
    }

    /// Takes in what the listener has seen.
    ///
    /// Fails exactly when the channel turns out closed while the process is
    /// still idle: the sending side was lost before any stop signal, which
    /// the caller treats as fatal.
    pub fn listen(self, event: ListenerEvent) -> (next: Result<Lifecycle, ListenerError>)
        ensures
            next == self.after(event),
    {
        match self {
            Lifecycle::Idle => match event {
                ListenerEvent::Received { value: Some(true) } => Ok(Lifecycle::ShuttingDown),
                ListenerEvent::Received { value: Some(false) } => Ok(Lifecycle::Idle),
                ListenerEvent::Received { value: None } => Err(ListenerError::ChannelClosed),
                ListenerEvent::TornDown => Ok(Lifecycle::Idle),
            },
            Lifecycle::ShuttingDown => match event {
                ListenerEvent::TornDown => Ok(Lifecycle::Terminated),
                ListenerEvent::Received { .. } => Ok(Lifecycle::ShuttingDown),
            },
            Lifecycle::Terminated => Ok(Lifecycle::Terminated),
        }
    }
}

/// The state reached from `state` through `events`, or the first error on
/// the way.
pub open spec fn run(state: Lifecycle, events: Seq<ListenerEvent>) -> Result<
    Lifecycle,
    ListenerError,
>
    decreases events.len(),
{
    if events.len() == 0 {
        Ok(state)
    } else {
        match state.after(events[0]) {
            Ok(next) => run(next, events.drop_first()),
            Err(error) => Err(error),
        }
    }
}

/// How often the listener is sent to tear the connection down while it
/// goes from `state` through `events`: once for each step that enters
/// `ShuttingDown`.
pub open spec fn teardowns(state: Lifecycle, events: Seq<ListenerEvent>) -> nat
    decreases events.len(),
{
    if events.len() == 0 {
        0
    } else {
        match state.after(events[0]) {
            Ok(next) => (if state != Lifecycle::ShuttingDown && next == Lifecycle::ShuttingDown {
                1nat
            } else {
                0nat
            }) + teardowns(next, events.drop_first()),
            Err(_) => 0,
        }
    }
}

/// The process only moves forward: no event takes it back to an earlier
/// state, and the only error is a closed channel seen while idle.
pub proof fn lemma_no_way_back(state: Lifecycle, event: ListenerEvent)
    ensures
        state.after(event) matches Ok(next) ==> state.rank() <= next.rank(),
        state.after(event) is Err <==> state == Lifecycle::Idle && event
            == (ListenerEvent::Received { value: None }),
{
}

/// One `true` on the channel, seen while idle, sends the listener to tear
/// the connection down; when that is done the listener leaves its loop,
/// and nothing that arrives afterwards changes that or fails.
pub proof fn lemma_stop_signal_terminates(later: Seq<ListenerEvent>)
    ensures
        Lifecycle::Idle.after(ListenerEvent::Received { value: Some(true) }) == Ok::<
            Lifecycle,
            ListenerError,
        >(Lifecycle::ShuttingDown),
        Lifecycle::ShuttingDown.duty() == ListenerAction::Teardown,
        Lifecycle::ShuttingDown.after(ListenerEvent::TornDown) == Ok::<Lifecycle, ListenerError>(
            Lifecycle::Terminated,
        ),
        Lifecycle::Terminated.duty() == ListenerAction::Exit,
        run(Lifecycle::Terminated, later) == Ok::<Lifecycle, ListenerError>(Lifecycle::Terminated),
        teardowns(Lifecycle::Terminated, later) == 0,
    decreases later.len(),
{
    if later.len() > 0 {
        lemma_stop_signal_terminates(later.drop_first());
    }
}

/// Whatever arrives, in whatever order, the listener is sent to tear the
/// connection down at most once, and never again once a shutdown has
/// begun.
pub proof fn lemma_teardown_at_most_once(state: Lifecycle, events: Seq<ListenerEvent>)
    ensures
        teardowns(state, events) <= 1,
        state != Lifecycle::Idle ==> teardowns(state, events) == 0,
        run(state, events) matches Ok(last) ==> state.rank() <= last.rank(),
    decreases events.len(),
{
    if events.len() > 0 {
        match state.after(events[0]) {
            Ok(next) => {
                lemma_teardown_at_most_once(next, events.drop_first());
            },
            Err(_) => {},
        }
    }
}

} // verus!
