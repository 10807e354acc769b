//! The network loop of a connection's worker, as a state machine.
//!
//! The worker owns the session's network side. It tells the machine what
//! happened and does what the machine answers: call the player, wait for the
//! next event, pause and subscribe again, or end. The machine never blocks
//! and never gives up on its own: after a transport error it asks for the
//! same short pause every time, without limit, and only a disconnect ends
//! the loop.

use vstd::prelude::*;
use crate::config::{Configuration, ConfigurationView};
use crate::router::{delivery, handle_message, Invocation, InvocationView, Rejection};

verus! {

/// How long the worker pauses after a transport error, in seconds.
pub const BACKOFF_SECONDS: u64 = 1;

/// Where the worker stands.
#[derive(Debug, Clone, Copy, PartialEq, Eq, Structural)]
pub enum Phase {
    /// About to ask for the subscription.
    Connecting,
    /// The subscription is asked for; events are awaited.
    Subscribed,
    /// Pausing after a transport error.
    Reconnecting,
    /// The loop has ended for good.
    Stopped,
}

/// What the session reports to the worker.
#[derive(Debug, Clone, PartialEq, Eq)]
pub enum NetworkEvent {
    /// A message came in on `topic`.
    Publish { topic: String },
    /// The disconnect that a teardown asked for has gone out.
    Disconnect,
    /// Anything else that is no error.
    Other,
    /// The transport failed.
    TransportError,
}

/// What happened since the machine was last asked.
#[derive(Debug, Clone, Copy, PartialEq, Eq)]
pub enum LoopInput<'a> {
    /// The subscription has been asked for.
    SubscribeQueued,
    /// The session reported an event.
    Event(&'a NetworkEvent),
    /// The pause after a transport error is over.
    BackoffElapsed,
}

/// What the worker is to do next.
#[derive(Debug, Clone, PartialEq, Eq)]
pub enum LoopAction {
    /// Call the player, once, then await the next event.
    Invoke(Invocation),
    /// Nothing to do for this message but to note why; await the next event.
    Discard(Rejection),
    /// Await the next event.
    Continue,
    /// Stop reading events and pause for this many seconds.
    Backoff { seconds: u64 },
    /// Clear what is left of the failed connection and subscribe again.
    Resubscribe,
    /// Leave the loop.
    Exit,
}

/// The answer of the machine: the phase from now on, and what to do.
#[derive(Debug, Clone, PartialEq, Eq)]
pub struct Step {
    pub phase: Phase,
    pub action: LoopAction,
}

/// The contents of a [`NetworkEvent`].
pub enum NetworkEventView {
    Publish { topic: Seq<char> },
    Disconnect,
    Other,
    TransportError,
}

impl View for NetworkEvent {
    type V = NetworkEventView;

    open spec fn view(&self) -> NetworkEventView {
        match self {
            NetworkEvent::Publish { topic } => NetworkEventView::Publish { topic: topic@ },
            NetworkEvent::Disconnect => NetworkEventView::Disconnect,
            NetworkEvent::Other => NetworkEventView::Other,
            NetworkEvent::TransportError => NetworkEventView::TransportError,
        }
    }
}

/// The contents of a [`LoopInput`].
pub enum LoopInputView {
    SubscribeQueued,
    Event(NetworkEventView),
    BackoffElapsed,
}

impl<'a> View for LoopInput<'a> {
    type V = LoopInputView;

    open spec fn view(&self) -> LoopInputView {
        match self {
            LoopInput::SubscribeQueued => LoopInputView::SubscribeQueued,
            LoopInput::Event(event) => LoopInputView::Event(event@),
            LoopInput::BackoffElapsed => LoopInputView::BackoffElapsed,
        }
    }
}

/// The contents of a [`LoopAction`].
pub enum LoopActionView {
    Invoke(InvocationView),
    Discard(Rejection),
    Continue,
    Backoff { seconds: u64 },
    Resubscribe,
    Exit,
}

impl View for LoopAction {
    type V = LoopActionView;

    open spec fn view(&self) -> LoopActionView {
        match self {
            LoopAction::Invoke(invocation) => LoopActionView::Invoke(invocation@),
            LoopAction::Discard(rejection) => LoopActionView::Discard(*rejection),
            LoopAction::Continue => LoopActionView::Continue,
            LoopAction::Backoff { seconds } => LoopActionView::Backoff { seconds: *seconds },
            LoopAction::Resubscribe => LoopActionView::Resubscribe,
            LoopAction::Exit => LoopActionView::Exit,
        }
    }
}

/// The phase that follows `phase` on `input`.
///
/// Once stopped, always stopped. Otherwise a disconnect stops the loop, a
/// transport error starts the pause, the end of the pause leads back to
/// connecting, and asking for the subscription completes connecting. Every
/// other input leaves the phase as it is.
pub open spec fn next_phase(phase: Phase, input: LoopInputView) -> Phase {
    match (phase, input) {
        (Phase::Stopped, _) => Phase::Stopped,
        (_, LoopInputView::Event(NetworkEventView::Disconnect)) => Phase::Stopped,
        (_, LoopInputView::Event(NetworkEventView::TransportError)) => Phase::Reconnecting,
        (Phase::Reconnecting, LoopInputView::BackoffElapsed) => Phase::Connecting,
        (Phase::Connecting, LoopInputView::SubscribeQueued) => Phase::Subscribed,
        (phase, _) => phase,
    }
}

/// What the worker is to do on `input` in `phase`, while `stored` is what
/// the configuration store holds.
pub open spec fn next_action(
    phase: Phase,
    input: LoopInputView,
    stored: Option<ConfigurationView>,
) -> LoopActionView {
    match (phase, input) {
        (Phase::Stopped, _) => LoopActionView::Exit,
        (_, LoopInputView::Event(NetworkEventView::Disconnect)) => LoopActionView::Exit,
        (_, LoopInputView::Event(NetworkEventView::TransportError)) => LoopActionView::Backoff {
            seconds: BACKOFF_SECONDS,
        },
        (_, LoopInputView::Event(NetworkEventView::Publish { topic })) => match delivery(
            stored,
            topic,
        ) {
            Ok(invocation) => LoopActionView::Invoke(invocation),
            Err(rejection) => LoopActionView::Discard(rejection),
        },
        (Phase::Reconnecting, LoopInputView::BackoffElapsed) => LoopActionView::Resubscribe,
        (_, _) => LoopActionView::Continue,
    }
}

impl Phase {
    /// The phase in which a worker begins.
    pub fn start() -> (phase: Phase)
        ensures
            phase == Phase::Connecting,
    {
        Phase::Connecting
    }
}

/// Advances the loop by one input.
pub fn step(phase: Phase, input: &LoopInput, stored: Option<&Configuration>) -> (answer: Step)
    ensures
        answer.phase == next_phase(phase, input@),
        answer.action@ == next_action(
            phase,
            input@,
            match stored {
                Some(config) => Some(config@),
                None => None,
            },
        ),
{
    match phase {
        Phase::Stopped => Step { phase: Phase::Stopped, action: LoopAction::Exit },
        _ => match input {
            LoopInput::SubscribeQueued => match phase {
                Phase::Connecting => Step { phase: Phase::Subscribed, action: LoopAction::Continue },
                _ => Step { phase, action: LoopAction::Continue },
            },
            LoopInput::BackoffElapsed => match phase {
                Phase::Reconnecting => Step {
                    phase: Phase::Connecting,
                    action: LoopAction::Resubscribe,
                },
                _ => Step { phase, action: LoopAction::Continue },
            },
            LoopInput::Event(event) => match event {
                NetworkEvent::Disconnect => Step { phase: Phase::Stopped, action: LoopAction::Exit },
                NetworkEvent::TransportError => Step {
                    phase: Phase::Reconnecting,
                    action: LoopAction::Backoff { seconds: BACKOFF_SECONDS },
                },
                NetworkEvent::Other => Step { phase, action: LoopAction::Continue },
                NetworkEvent::Publish { topic } => match handle_message(stored, topic.as_str()) {
                    Ok(invocation) => Step { phase, action: LoopAction::Invoke(invocation) },
                    Err(rejection) => Step { phase, action: LoopAction::Discard(rejection) },
                },
            },
        },
    }
}

/// The loop ends only by a disconnect: a worker that has not stopped stays
/// out of `Stopped` on every input but the disconnect event, and is told to
/// leave exactly when it stops or has stopped.
pub proof fn lemma_only_disconnect_stops(
    phase: Phase,
    input: LoopInputView,
    stored: Option<ConfigurationView>,
)
    ensures
        (next_phase(phase, input) == Phase::Stopped) <==> (phase == Phase::Stopped || input
            == LoopInputView::Event(NetworkEventView::Disconnect)),
        (next_action(phase, input, stored) == LoopActionView::Exit) <==> (next_phase(phase, input)
            == Phase::Stopped),
{
}

/// Every transport error is answered with the same pause, however many
/// came before, and after the pause the worker subscribes again.
pub proof fn lemma_retry_is_fixed_and_unbounded(phase: Phase, stored: Option<ConfigurationView>)
    requires
        phase != Phase::Stopped,
    ensures
        next_phase(phase, LoopInputView::Event(NetworkEventView::TransportError))
            == Phase::Reconnecting,
        next_action(phase, LoopInputView::Event(NetworkEventView::TransportError), stored)
            == (LoopActionView::Backoff { seconds: BACKOFF_SECONDS }),
        next_phase(Phase::Reconnecting, LoopInputView::BackoffElapsed) == Phase::Connecting,
        next_action(Phase::Reconnecting, LoopInputView::BackoffElapsed, stored)
            == LoopActionView::Resubscribe,
        next_phase(Phase::Connecting, LoopInputView::SubscribeQueued) == Phase::Subscribed,
{
}

/// The player is called only for a message that passes every check: a call
/// is answered only to a publish event whose delivery is accepted, and then
/// it is the accepted call.
pub proof fn lemma_invoke_only_on_accepted_message(
    phase: Phase,
    input: LoopInputView,
    stored: Option<ConfigurationView>,
)
    ensures
        next_action(phase, input, stored) matches LoopActionView::Invoke(invocation) ==> {
            &&& phase != Phase::Stopped
            &&& input matches LoopInputView::Event(NetworkEventView::Publish { topic })
            &&& delivery(stored, topic) == Ok::<InvocationView, Rejection>(invocation)
        },
{
}

} // verus!
