//! Session state machine: tracks the lifecycle of the connection to the
//! host XR runtime.
//!
//! State transitions are driven exclusively by runtime events, drained by the
//! embedding application and handed here as plain values; the machine never
//! changes state on its own initiative except at an explicit `end`.

use vstd::prelude::*;

verus! {

/// Lifecycle state of the runtime session, as reported by the runtime.
#[derive(Clone, Copy, PartialEq, Eq, Structural, Debug)]
pub enum SessionState {
    /// Created, runtime not ready to synchronize frames.
    Idle,
    /// Runtime is ready for the application to begin synchronizing.
    Ready,
    /// Frame timing is synchronized with the compositor.
    Synchronized,
    /// Session output is visible to the user.
    Visible,
    /// Session is visible and receives input focus.
    Focused,
    /// Runtime asked the application to stop submitting frames.
    Stopping,
    /// The connection to the device is about to be lost.
    LossPending,
    /// The session is winding down for application exit.
    Exiting,
}

/// One runtime event, drained without blocking by the caller.
#[derive(Clone, Copy, PartialEq, Eq, Structural, Debug)]
pub enum SessionEvent {
    /// The runtime moved the session to a new lifecycle state.
    StateChanged(SessionState),
    /// The runtime connection is unrecoverably lost.
    InstanceLossPending,
    /// Any other event kind: drained and ignored.
    Other,
}

/// The runtime connection was lost; the session is terminal.
#[derive(Clone, Copy, PartialEq, Eq, Structural, Debug)]
pub struct SessionLossError;

/// The runtime rejected the request to end the session.
#[derive(Clone, Copy, PartialEq, Eq, Structural, Debug)]
pub struct SessionTerminationError;

/// The connection to the host XR runtime.
pub struct Session {
    /// Current lifecycle state, updated only while polling events.
    pub state: SessionState,
    /// Orderly termination has been requested via `end`.
    pub ended: bool,
    /// A loss-pending event was observed; the session is terminal.
    pub lost: bool,
}

/// Frame submission is only valid in these three lifecycle states, on a
/// session that is neither lost nor ended.
pub open spec fn can_submit_spec(s: Session) -> bool {
    &&& !s.ended
    &&& !s.lost
    &&& (s.state == SessionState::Synchronized || s.state == SessionState::Visible
        || s.state == SessionState::Focused)
}

/// Effect of draining `events` in order, starting from session `s`: each
/// state-change event updates the state, a loss-pending event stops the
/// drain with an unrecoverable error, anything else is ignored. A session
/// already lost reports the loss again without reading any event.
pub open spec fn poll_spec(s: Session, events: Seq<SessionEvent>) -> (Session, Result<
    SessionState,
    SessionLossError,
>)
    decreases events.len(),
{
    if s.lost {
        (s, Err(SessionLossError))
    } else if events.len() == 0 {
        (s, Ok(s.state))
    } else {
        match events[0] {
            SessionEvent::InstanceLossPending => (
                Session { lost: true, ..s },
                Err(SessionLossError),
            ),
            SessionEvent::StateChanged(ns) => poll_spec(
                Session { state: ns, ..s },
                events.drop_first(),
            ),
            SessionEvent::Other => poll_spec(s, events.drop_first()),
        }
    }
}

impl Session {
    /// A fresh connection: idle, not ended, not lost.
    pub fn new() -> (s: Session)
        ensures
            s == (Session { state: SessionState::Idle, ended: false, lost: false }),
    {
        Session { state: SessionState::Idle, ended: false, lost: false }
    }

    /// Whether the session may currently open and submit frames.
    pub fn can_submit(&self) -> (r: bool)
        ensures
            r == can_submit_spec(*self),
    {
        !self.ended && !self.lost && (match self.state {
            SessionState::Synchronized | SessionState::Visible | SessionState::Focused => true,
            _ => false,
        })
    }

    /// Drain all pending runtime events, already collected by the caller.
    ///
    /// Returns the state after draining, or the unrecoverable loss if a
    /// loss-pending event arrives (or had already arrived): loss is a
    /// terminal condition, not a transient one. With no pending events the
    /// call is idempotent: the state is returned unchanged.
    pub fn poll_events(&mut self, events: &Vec<SessionEvent>) -> (r: Result<
        SessionState,
        SessionLossError,
    >)
        ensures
            (*final(self), r) == poll_spec(*old(self), events@),
    {
        if self.lost {
            return Err(SessionLossError);
        }
        let mut i: usize = 0;
        assert(events@.skip(0) =~= events@);
        while i < events.len()
            invariant
                0 <= i <= events@.len(),
                !self.lost,
                poll_spec(*old(self), events@) == poll_spec(*self, events@.skip(i as int)),
            decreases events@.len() - i,
        {
            assert(events@.skip(i as int).drop_first() =~= events@.skip(i + 1));
            match events[i] {
                SessionEvent::StateChanged(ns) => {
                    self.state = ns;
                },
                SessionEvent::InstanceLossPending => {
                    self.lost = true;
                    return Err(SessionLossError);
                },
                SessionEvent::Other => {},
            }
            i = i + 1;
        }
        assert(events@.skip(i as int) =~= Seq::<SessionEvent>::empty());
        Ok(self.state)
    }

    /// Request orderly termination of the session.
    ///
    /// Whether or not the runtime accepts, no further frames may be
    /// submitted afterward. If the runtime rejects the request the error is
    /// surfaced to the caller.
    pub fn end(&mut self, runtime_accepted: bool) -> (r: Result<(), SessionTerminationError>)
        ensures
            *final(self) == (Session { ended: true, ..*old(self) }),
            r == (if runtime_accepted {
                Ok::<(), SessionTerminationError>(())
            } else {
                Err(SessionTerminationError)
            }),
    {
        self.ended = true;
        if runtime_accepted {
            Ok(())
        } else {
            Err(SessionTerminationError)
        }
    }
}

/// Law: a loss-pending event delivered while polling is terminal. The drain
/// that sees it stops with an error, the session is marked lost, frame
/// submission is no longer valid, and every later drain reports the loss
/// again, whatever events follow.
pub proof fn lemma_loss_is_terminal(s: Session, events: Seq<SessionEvent>, later: Seq<SessionEvent>)
    requires
        exists|i: int| 0 <= i < events.len() && events[i] == SessionEvent::InstanceLossPending,
    ensures
        poll_spec(s, events).1 is Err,
        poll_spec(s, events).0.lost,
        !can_submit_spec(poll_spec(s, events).0),
        poll_spec(poll_spec(s, events).0, later).1 is Err,
    decreases events.len(),
{
    if s.lost {
    } else {
        let i = choose|i: int| 0 <= i < events.len() && events[i]
            == SessionEvent::InstanceLossPending;
        match events[0] {
            SessionEvent::InstanceLossPending => {},
            SessionEvent::StateChanged(ns) => {
                assert(events.drop_first()[i - 1] == SessionEvent::InstanceLossPending);
                lemma_loss_is_terminal(Session { state: ns, ..s }, events.drop_first(), later);
            },
            SessionEvent::Other => {
                assert(events.drop_first()[i - 1] == SessionEvent::InstanceLossPending);
                lemma_loss_is_terminal(s, events.drop_first(), later);
            },
        }
    }
}

/// Law: polling with no pending events is idempotent. A live session is
/// left exactly as it was and its current state is returned.
pub proof fn lemma_poll_no_events_idempotent(s: Session)
    requires
        !s.lost,
    ensures
        poll_spec(s, Seq::<SessionEvent>::empty()) == (s, Ok::<SessionState, SessionLossError>(
            s.state,
        )),
{
}

} // verus!
