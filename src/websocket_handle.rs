//! The three-state handle around a WebSocket whose upgrade may still be
//! pending: `Unaccepted`, then `Accepting`, then `Split`.

use vstd::prelude::*;

verus! {

#[derive(Debug, PartialEq, Eq, Structural, Clone, Copy)]
pub enum WebSocketState {
    Unaccepted,
    Accepting,
    Split,
}

/// Position of a state along the handle's only path.
pub open spec fn state_rank(s: WebSocketState) -> nat {
    match s {
        WebSocketState::Unaccepted => 0,
        WebSocketState::Accepting => 1,
        WebSocketState::Split => 2,
    }
}

#[derive(Debug, PartialEq, Eq, Structural)]
pub enum HandleError {
    /// A frame was sent before the upgrade completed.
    NotAccepted,
    /// `accept` was called a second time.
    AlreadyAccepted,
    /// `accept_and_send` found an upgrade under way.
    InAcceptingState,
}

/// How to send a frame through the handle.
#[derive(Debug, PartialEq, Eq, Structural)]
pub enum SendPlan {
    /// The socket is split: send at once.
    Send,
    /// Complete the upgrade first, then send.
    AcceptThenSend,
}

pub struct WebSocketHandleInner {
    pub state: WebSocketState,
}

pub struct WebSocketHandle {
    pub inner: WebSocketHandleInner,
}

impl WebSocketHandle {
    /// A handle around an upgrade that nobody has accepted yet.
    pub fn new() -> (r: WebSocketHandle)
        ensures
            r.inner.state == WebSocketState::Unaccepted,
    {
        WebSocketHandle { inner: WebSocketHandleInner { state: WebSocketState::Unaccepted } }
    }
}

impl WebSocketHandleInner {
    /// Starts the upgrade; only an unaccepted handle can.
    pub fn accept(&mut self) -> (r: Result<(), HandleError>)
        ensures
            old(self).state == WebSocketState::Unaccepted ==> r is Ok && final(self).state
                == WebSocketState::Accepting,
            old(self).state != WebSocketState::Unaccepted ==> r == Err::<(), HandleError>(
                HandleError::AlreadyAccepted,
            ) && final(self).state == old(self).state,
            state_rank(old(self).state) <= state_rank(final(self).state),
    {
        match self.state {
            WebSocketState::Unaccepted => {
                self.state = WebSocketState::Accepting;
                Ok(())
            },
            _ => Err(HandleError::AlreadyAccepted),
        }
    }

    /// Records that the upgrade started by `accept` completed.
    pub fn complete_accept(&mut self)
        ensures
            old(self).state == WebSocketState::Accepting ==> final(self).state == WebSocketState::Split,
            old(self).state != WebSocketState::Accepting ==> final(self).state == old(self).state,
            state_rank(old(self).state) <= state_rank(final(self).state),
    {
        if self.state == WebSocketState::Accepting {
            self.state = WebSocketState::Split;
        }
    }

    /// Whether a frame may be sent: only once the socket is split.
    pub fn send(&self) -> (r: Result<(), HandleError>)
        ensures
            self.state == WebSocketState::Split ==> r is Ok,
            self.state != WebSocketState::Split ==> r == Err::<(), HandleError>(HandleError::NotAccepted),
    {
        match self.state {
            WebSocketState::Split => Ok(()),
            _ => Err(HandleError::NotAccepted),
        }
    }

    /// Plans sending one frame, accepting the upgrade first where nobody has.
    pub fn accept_and_send(&mut self) -> (r: Result<SendPlan, HandleError>)
        ensures
            old(self).state == WebSocketState::Unaccepted ==> r == Ok::<SendPlan, HandleError>(
                SendPlan::AcceptThenSend,
            ) && final(self).state == WebSocketState::Accepting,
            old(self).state == WebSocketState::Accepting ==> r == Err::<SendPlan, HandleError>(
                HandleError::InAcceptingState,
            ) && final(self).state == old(self).state,
            old(self).state == WebSocketState::Split ==> r == Ok::<SendPlan, HandleError>(
                SendPlan::Send,
            ) && final(self).state == old(self).state,
            state_rank(old(self).state) <= state_rank(final(self).state),
    {
        match self.state {
            WebSocketState::Unaccepted => {
                self.state = WebSocketState::Accepting;
                Ok(SendPlan::AcceptThenSend)
            },
            WebSocketState::Accepting => Err(HandleError::InAcceptingState),
            WebSocketState::Split => Ok(SendPlan::Send),
        }
    }
}

} // verus!
