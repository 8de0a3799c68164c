use ws_demo::session::{
    event_is_valid, greeting, next_action, session_initial, session_step, SessionAction,
    SessionEvent, SessionState, GREETING_INTERVAL_MS,
};

#[test]
fn greeting_and_interval_are_fixed() {
    assert_eq!(greeting(), "Hi!");
    assert_eq!(GREETING_INTERVAL_MS, 3000);
}

#[test]
fn upgrade_awaits_the_first_message() {
    let s = session_initial();
    assert_eq!(s, SessionState::AwaitingFirstMessage);
    assert_eq!(next_action(&s), SessionAction::AwaitMessage);
}

#[test]
fn close_before_first_message_sends_nothing() {
    let s = session_initial();
    let s = session_step(s, SessionEvent::ReceiveClosed);
    assert_eq!(s, SessionState::Closed);
    assert_eq!(next_action(&s), SessionAction::Release);
    // The terminal state accepts no further event: the connection is gone.
    assert!(!event_is_valid(&s, &SessionEvent::MessageReceived));
    assert!(!event_is_valid(&s, &SessionEvent::SendSucceeded));
    assert!(!event_is_valid(&s, &SessionEvent::TimerElapsed));
}

#[test]
fn one_message_starts_an_endless_greeting_loop() {
    let mut s = session_initial();
    s = session_step(s, SessionEvent::MessageReceived);
    assert_eq!(s, SessionState::ReadyToSend);
    for _ in 0..5 {
        assert_eq!(next_action(&s), SessionAction::SendGreeting);
        assert_eq!(greeting(), "Hi!");
        s = session_step(s, SessionEvent::SendSucceeded);
        assert_eq!(s, SessionState::Sleeping);
        assert_eq!(next_action(&s), SessionAction::SleepInterval);
        s = session_step(s, SessionEvent::TimerElapsed);
        assert_eq!(s, SessionState::ReadyToSend);
    }
}

#[test]
fn failed_send_ends_the_session() {
    let mut s = session_initial();
    s = session_step(s, SessionEvent::MessageReceived);
    s = session_step(s, SessionEvent::SendSucceeded);
    s = session_step(s, SessionEvent::TimerElapsed);
    s = session_step(s, SessionEvent::SendFailed);
    assert_eq!(s, SessionState::Closed);
    assert_eq!(next_action(&s), SessionAction::Release);
}

#[test]
fn events_answer_only_their_pending_action() {
    let awaiting = SessionState::AwaitingFirstMessage;
    assert!(event_is_valid(&awaiting, &SessionEvent::MessageReceived));
    assert!(event_is_valid(&awaiting, &SessionEvent::ReceiveClosed));
    assert!(!event_is_valid(&awaiting, &SessionEvent::SendSucceeded));
    assert!(!event_is_valid(&awaiting, &SessionEvent::TimerElapsed));

    let ready = SessionState::ReadyToSend;
    assert!(event_is_valid(&ready, &SessionEvent::SendSucceeded));
    assert!(event_is_valid(&ready, &SessionEvent::SendFailed));
    assert!(!event_is_valid(&ready, &SessionEvent::MessageReceived));

    let sleeping = SessionState::Sleeping;
    assert!(event_is_valid(&sleeping, &SessionEvent::TimerElapsed));
    assert!(!event_is_valid(&sleeping, &SessionEvent::SendSucceeded));
    assert!(!event_is_valid(&sleeping, &SessionEvent::ReceiveClosed));
}
