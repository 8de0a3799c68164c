//! The WebSocket session state machine.
//!
//! One session owns one upgraded connection. The machine reads at most one
//! inbound message; once a message has arrived it becomes a timer-driven
//! producer, sending the fixed greeting and sleeping for the fixed interval,
//! in turn, until a send fails or the peer goes away. Any transport failure
//! ends the session; nothing is retried and nothing is propagated.
//!
//! The machine is pure: the serving layer performs the pending action of the
//! current state (receive, send, sleep, release), observes its outcome as a
//! [`SessionEvent`], and steps the machine.

use vstd::prelude::*;

verus! {

/// The fixed text sent to the peer while streaming.
pub open spec fn spec_greeting() -> Seq<char> {
    "Hi!"@
}

/// The fixed pause between two greetings, in milliseconds.
pub const GREETING_INTERVAL_MS: u64 = 3000;

/// The state of one session.
#[derive(Clone, Copy, Debug, PartialEq, Eq, Structural)]
pub enum SessionState {
    /// Waiting for the single inbound message that starts the stream.
    AwaitingFirstMessage,
    /// Streaming, about to send the greeting.
    ReadyToSend,
    /// Streaming, pausing for the fixed interval before the next greeting.
    Sleeping,
    /// Terminal: the connection is released; no further action is taken.
    Closed,
}

/// What the transport reported after the pending action was performed.
#[derive(Clone, Copy, Debug, PartialEq, Eq, Structural)]
pub enum SessionEvent {
    /// An inbound message arrived and was decoded.
    MessageReceived,
    /// The stream closed or the read failed before any message arrived.
    ReceiveClosed,
    /// The greeting was sent and flushed.
    SendSucceeded,
    /// The send failed: the peer disconnected.
    SendFailed,
    /// The fixed interval elapsed.
    TimerElapsed,
}

/// What the serving layer must do next for a session.
#[derive(Clone, Copy, Debug, PartialEq, Eq, Structural)]
pub enum SessionAction {
    /// Suspend until one inbound message arrives or the stream ends.
    AwaitMessage,
    /// Send the greeting text [`greeting`].
    SendGreeting,
    /// Sleep for [`GREETING_INTERVAL_MS`] milliseconds.
    SleepInterval,
    /// Release the connection; the session is over.
    Release,
}

/// The action pending in a state: the one the serving layer performs next.
pub open spec fn pending_action(s: SessionState) -> SessionAction {
    match s {
        SessionState::AwaitingFirstMessage => SessionAction::AwaitMessage,
        SessionState::ReadyToSend => SessionAction::SendGreeting,
        SessionState::Sleeping => SessionAction::SleepInterval,
        SessionState::Closed => SessionAction::Release,
    }
}

/// Whether `e` is a possible outcome of the action pending in `s`. In the
/// terminal state no action is pending, so no event is valid there.
pub open spec fn valid_event(s: SessionState, e: SessionEvent) -> bool {
    match s {
        SessionState::AwaitingFirstMessage => e == SessionEvent::MessageReceived || e
            == SessionEvent::ReceiveClosed,
        SessionState::ReadyToSend => e == SessionEvent::SendSucceeded || e
            == SessionEvent::SendFailed,
        SessionState::Sleeping => e == SessionEvent::TimerElapsed,
        SessionState::Closed => false,
    }
}

/// The state after observing `e` in `s`: a message starts the stream, a
/// successful send starts the pause, the elapsed timer starts the next send,
/// and every transport failure ends the session.
pub open spec fn spec_step(s: SessionState, e: SessionEvent) -> SessionState {
    match (s, e) {
        (SessionState::AwaitingFirstMessage, SessionEvent::MessageReceived) => SessionState::ReadyToSend,
        (SessionState::ReadyToSend, SessionEvent::SendSucceeded) => SessionState::Sleeping,
        (SessionState::Sleeping, SessionEvent::TimerElapsed) => SessionState::ReadyToSend,
        _ => SessionState::Closed,
    }
}

/// The state of a session right after the upgrade.
pub fn session_initial() -> (s: SessionState)
    ensures
        s == SessionState::AwaitingFirstMessage,
{
    SessionState::AwaitingFirstMessage
}

/// The action the serving layer performs next for a session in state `s`.
pub fn next_action(s: &SessionState) -> (a: SessionAction)
    ensures
        a == pending_action(*s),
{
    match *s {
        SessionState::AwaitingFirstMessage => SessionAction::AwaitMessage,
        SessionState::ReadyToSend => SessionAction::SendGreeting,
        SessionState::Sleeping => SessionAction::SleepInterval,
        SessionState::Closed => SessionAction::Release,
    }
}

/// Whether `e` can answer the action pending in `s`.
pub fn event_is_valid(s: &SessionState, e: &SessionEvent) -> (r: bool)
    ensures
        r == valid_event(*s, *e),
{
    match *s {
        SessionState::AwaitingFirstMessage => *e == SessionEvent::MessageReceived || *e
            == SessionEvent::ReceiveClosed,
        SessionState::ReadyToSend => *e == SessionEvent::SendSucceeded || *e
            == SessionEvent::SendFailed,
        SessionState::Sleeping => *e == SessionEvent::TimerElapsed,
        SessionState::Closed => false,
    }
}

/// Steps the session: the serving layer performed the pending action of `s`
/// and observed `e`.
pub fn session_step(s: SessionState, e: SessionEvent) -> (s2: SessionState)
    requires
        valid_event(s, e),
    ensures
        s2 == spec_step(s, e),
{
    match (s, e) {
        (SessionState::AwaitingFirstMessage, SessionEvent::MessageReceived) => SessionState::ReadyToSend,
        (SessionState::ReadyToSend, SessionEvent::SendSucceeded) => SessionState::Sleeping,
        (SessionState::Sleeping, SessionEvent::TimerElapsed) => SessionState::ReadyToSend,
        _ => SessionState::Closed,
    }
}

/// The state of a session after it has consumed the events of `t`, oldest
/// first, starting from the state right after the upgrade.
pub open spec fn state_after(t: Seq<SessionEvent>) -> SessionState
    decreases t.len(),
{
    if t.len() == 0 {
        SessionState::AwaitingFirstMessage
    } else {
        spec_step(state_after(t.drop_last()), t.last())
    }
}

/// Whether `t` is a run the transport can produce: each event answers the
/// action pending at its point, and nothing follows the terminal state.
pub open spec fn valid_trace(t: Seq<SessionEvent>) -> bool {
    forall|i: int| 0 <= i < t.len() ==> valid_event(state_after(#[trigger] t.take(i)), t[i])
}

/// A session whose stream closes before any message arrives ends at once:
/// the run consists of that one event, the machine is closed (the connection
/// is released), and at no point of the run is a send pending, so no message
/// is ever emitted.
pub proof fn lemma_close_before_first_message(t: Seq<SessionEvent>)
    requires
        valid_trace(t),
        t.len() >= 1,
        t[0] == SessionEvent::ReceiveClosed,
    ensures
        t.len() == 1,
        state_after(t) == SessionState::Closed,
        forall|i: int|
            0 <= i <= t.len() ==> pending_action(state_after(#[trigger] t.take(i)))
                != SessionAction::SendGreeting,
{
    assert(t.take(0) =~= Seq::<SessionEvent>::empty());
    assert(t.take(1).drop_last() =~= t.take(0));
    assert(t.take(1).last() == t[0]);
    assert(state_after(t.take(1)) == SessionState::Closed);
    if t.len() >= 2 {
        assert(valid_event(state_after(t.take(1)), t[1]));
        assert(false);
    }
    assert(t.take(1) =~= t);
    assert forall|i: int|
        0 <= i <= t.len() implies pending_action(state_after(#[trigger] t.take(i)))
        != SessionAction::SendGreeting by {
        if i == 0 {
            assert(t.take(0) =~= Seq::<SessionEvent>::empty());
        } else {
            assert(t.take(1) =~= t);
        }
    }
}

/// The state reached `i` events into a run that starts with the single
/// inbound message and in which no send has failed: the machine alternates
/// between being about to send and sleeping, starting with a send.
proof fn lemma_streaming_state_at(t: Seq<SessionEvent>, i: int)
    requires
        valid_trace(t),
        t.len() >= 1,
        t[0] == SessionEvent::MessageReceived,
        forall|j: int| 0 <= j < t.len() ==> t[j] != SessionEvent::SendFailed,
        1 <= i <= t.len(),
    ensures
        state_after(t.take(i)) == if i % 2 == 1 {
            SessionState::ReadyToSend
        } else {
            SessionState::Sleeping
        },
    decreases i,
{
    if i == 1 {
        assert(t.take(1).drop_last() =~= t.take(0));
        assert(t.take(0) =~= Seq::<SessionEvent>::empty());
        assert(t.take(1).last() == t[0]);
    } else {
        lemma_streaming_state_at(t, i - 1);
        assert(t.take(i).drop_last() =~= t.take(i - 1));
        assert(t.take(i).last() == t[i - 1]);
        assert(valid_event(state_after(t.take(i - 1)), t[i - 1]));
        assert(t[i - 1] != SessionEvent::SendFailed);
    }
}

/// Once the single inbound message has arrived, the session is a pure
/// timer-driven producer: as long as no send fails, the pending actions
/// alternate between sending the fixed greeting and sleeping for the fixed
/// interval, starting with a send, and the machine never closes — however
/// long the run goes on.
pub proof fn lemma_streaming_alternates(t: Seq<SessionEvent>)
    requires
        valid_trace(t),
        t.len() >= 1,
        t[0] == SessionEvent::MessageReceived,
        forall|i: int| 0 <= i < t.len() ==> t[i] != SessionEvent::SendFailed,
    ensures
        forall|i: int|
            1 <= i <= t.len() ==> pending_action(state_after(#[trigger] t.take(i))) == (
            if i % 2 == 1 {
                SessionAction::SendGreeting
            } else {
                SessionAction::SleepInterval
            }),
        forall|i: int|
            0 <= i <= t.len() ==> state_after(#[trigger] t.take(i)) != SessionState::Closed,
{
    assert forall|i: int|
        1 <= i <= t.len() implies pending_action(state_after(#[trigger] t.take(i))) == (
    if i % 2 == 1 {
        SessionAction::SendGreeting
    } else {
        SessionAction::SleepInterval
    }) by {
        lemma_streaming_state_at(t, i);
    }
    assert forall|i: int|
        0 <= i <= t.len() implies state_after(#[trigger] t.take(i)) != SessionState::Closed by {
        if i == 0 {
            assert(t.take(0) =~= Seq::<SessionEvent>::empty());
        } else {
            lemma_streaming_state_at(t, i);
        }
    }
}

/// A streaming session ends only from outside: after any run that starts
/// with the single inbound message and in which no send has failed, some
/// event other than a send failure can still answer the pending action, so
/// the machine itself never ends the stream — only the transport can.
pub proof fn lemma_streaming_never_stops(t: Seq<SessionEvent>)
    requires
        valid_trace(t),
        t.len() >= 1,
        t[0] == SessionEvent::MessageReceived,
        forall|i: int| 0 <= i < t.len() ==> t[i] != SessionEvent::SendFailed,
    ensures
        exists|e: SessionEvent|
            valid_event(state_after(t), e) && e != SessionEvent::SendFailed,
{
    lemma_streaming_state_at(t, t.len() as int);
    assert(t.take(t.len() as int) =~= t);
    if state_after(t) == SessionState::ReadyToSend {
        assert(valid_event(state_after(t), SessionEvent::SendSucceeded));
    } else {
        assert(valid_event(state_after(t), SessionEvent::TimerElapsed));
    }
}

/// The greeting text sent to the peer while streaming.
pub fn greeting() -> (r: String)
    ensures
        r@ == spec_greeting(),
{
    "Hi!".to_owned()
}

} // verus!
