use hotham::session::{Session, SessionEvent, SessionState};

#[test]
fn poll_no_events_returns_state_unchanged() {
    let mut s = Session::new();
    assert_eq!(s.state, SessionState::Idle);
    let r = s.poll_events(&Vec::new());
    assert_eq!(r, Ok(SessionState::Idle));
    assert_eq!(s.state, SessionState::Idle);
    assert!(!s.lost);
    assert!(!s.ended);
    // a second drain with nothing pending is just as idempotent
    let r = s.poll_events(&Vec::new());
    assert_eq!(r, Ok(SessionState::Idle));
}

#[test]
fn poll_applies_state_changes_in_order() {
    let mut s = Session::new();
    let events = vec![
        SessionEvent::StateChanged(SessionState::Ready),
        SessionEvent::Other,
        SessionEvent::StateChanged(SessionState::Synchronized),
        SessionEvent::StateChanged(SessionState::Focused),
    ];
    let r = s.poll_events(&events);
    assert_eq!(r, Ok(SessionState::Focused));
    assert_eq!(s.state, SessionState::Focused);
    assert!(s.can_submit());
}

#[test]
fn poll_session_loss_is_terminal() {
    let mut s = Session::new();
    let events = vec![
        SessionEvent::StateChanged(SessionState::Ready),
        SessionEvent::InstanceLossPending,
        // anything after the loss must never be processed
        SessionEvent::StateChanged(SessionState::Focused),
    ];
    let r = s.poll_events(&events);
    assert!(r.is_err());
    assert!(s.lost);
    // the event after the loss was not applied
    assert_eq!(s.state, SessionState::Ready);
    assert!(!s.can_submit());
    // loss is terminal, not transient: every later poll reports it again
    let r = s.poll_events(&Vec::new());
    assert!(r.is_err());
    let r = s.poll_events(&vec![SessionEvent::StateChanged(SessionState::Focused)]);
    assert!(r.is_err());
    assert_eq!(s.state, SessionState::Ready);
}

#[test]
fn can_submit_only_in_running_states() {
    let mut s = Session::new();
    for (state, expected) in [
        (SessionState::Idle, false),
        (SessionState::Ready, false),
        (SessionState::Synchronized, true),
        (SessionState::Visible, true),
        (SessionState::Focused, true),
        (SessionState::Stopping, false),
        (SessionState::LossPending, false),
        (SessionState::Exiting, false),
    ] {
        s.state = state;
        assert_eq!(s.can_submit(), expected);
    }
}

#[test]
fn end_session_accepted() {
    let mut s = Session::new();
    s.state = SessionState::Focused;
    assert!(s.can_submit());
    let r = s.end(true);
    assert!(r.is_ok());
    assert!(s.ended);
    // no frames may be submitted after an orderly end
    assert!(!s.can_submit());
}

#[test]
fn end_session_rejected_still_blocks_submission() {
    let mut s = Session::new();
    s.state = SessionState::Synchronized;
    let r = s.end(false);
    assert!(r.is_err());
    assert!(s.ended);
    assert!(!s.can_submit());
}
