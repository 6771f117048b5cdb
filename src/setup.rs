//! The life of one runner connection, from the upgrade request to the end
//! of its tasks. Each step takes what the transport reported and says what
//! to do next; the transport performs it.

use vstd::prelude::*;
use crate::connector::check_init;
use crate::errors::WsError;
use crate::protocol::{ToServer, ToServerInit};
use crate::url_data::{connection_query_pairs, url_data_spec, UrlData};

verus! {

#[derive(Debug, PartialEq, Eq, Structural, Clone, Copy)]
pub enum Phase {
    /// Nothing read yet.
    New,
    /// The URL is valid; the upgrade is being accepted.
    Accepting,
    /// Waiting for the runner's init frame.
    AwaitingInit,
    /// The control plane is resolving the runner's identity.
    Identifying,
    /// The previous connection of the runner is being evicted.
    Evicting,
    /// Subscribing to the runner's broker subject.
    Subscribing,
    /// The three tasks run.
    Running,
    Closed,
}

/// What to do next.
pub enum SetupAction {
    /// Complete the WebSocket upgrade.
    Accept,
    /// Read the first frame, within the handshake timeout.
    ReadInit,
    /// Resolve the runner from its namespace, key and init frame.
    Identify { namespace: String, runner_key: String, init: ToServerInit },
    /// Publish an eviction notice on the runner's subject.
    PublishEviction { runner_id: u128 },
    /// Subscribe to the runner's subject.
    Subscribe { runner_id: u128 },
    /// Start the three tasks.
    SpawnTasks,
    /// Mark the runner ineligible for allocation.
    ClearIndex { runner_id: u128 },
    /// Send a close frame with this reason, then drop the socket.
    Close(WsError),
    /// Drop the socket without a close frame.
    Drop,
    /// The event does not belong to this phase: ignore it.
    Nothing,
}

/// One runner connection's setup and supervision.
pub struct ConnectionSetup {
    pub phase: Phase,
    pub protocol_version: u16,
    pub runner_id: u128,
    pub workflow_id: u128,
}

/// The phase reached past each step, in order.
pub open spec fn phase_rank(p: Phase) -> nat {
    match p {
        Phase::New => 0,
        Phase::Accepting => 1,
        Phase::AwaitingInit => 2,
        Phase::Identifying => 3,
        Phase::Evicting => 4,
        Phase::Subscribing => 5,
        Phase::Running => 6,
        Phase::Closed => 7,
    }
}

impl ConnectionSetup {
    pub fn new() -> (r: ConnectionSetup)
        ensures
            r.phase == Phase::New,
    {
        ConnectionSetup { phase: Phase::New, protocol_version: 0, runner_id: 0, workflow_id: 0 }
    }

    /// The connection path arrived. A valid URL leads to the upgrade; an
    /// invalid one closes with `ws.invalid_url`.
    pub fn on_path(&mut self, path: &str) -> (r: (SetupAction, Option<UrlData>))
        ensures
            phase_rank(old(self).phase) <= phase_rank(final(self).phase),
            old(self).phase != Phase::New ==> r.0 is Nothing && r.1 is None && *final(self) == *old(self),
            old(self).phase == Phase::New ==> match connection_query_pairs(path@) {
                Some(pairs) if url_data_spec(pairs) is Some => {
                    let (n, ns, key) = url_data_spec(pairs)->Some_0;
                    &&& r.0 is Accept
                    &&& final(self).phase == Phase::Accepting
                    &&& final(self).protocol_version == n
                    &&& r.1 matches Some(d) && d.protocol_version == n && d.namespace@ == ns
                        && d.runner_key@ == key
                },
                _ => r.0 matches SetupAction::Close(WsError::InvalidUrl(_)) && r.1 is None
                    && final(self).phase == Phase::Closed,
            },
    {
        if self.phase != Phase::New {
            return (SetupAction::Nothing, None);
        }
        match UrlData::parse_url(path) {
            Ok(d) => {
                self.phase = Phase::Accepting;
                self.protocol_version = d.protocol_version;
                (SetupAction::Accept, Some(d))
            },
            Err(e) => {
                self.phase = Phase::Closed;
                (SetupAction::Close(e), None)
            },
        }
    }

    /// The upgrade completed, or failed; a failed upgrade has no socket to close.
    pub fn on_accepted(&mut self, ok: bool) -> (r: SetupAction)
        ensures
            phase_rank(old(self).phase) <= phase_rank(final(self).phase),
            old(self).phase != Phase::Accepting ==> r is Nothing && *final(self) == *old(self),
            old(self).phase == Phase::Accepting && ok ==> r is ReadInit && final(self).phase
                == Phase::AwaitingInit,
            old(self).phase == Phase::Accepting && !ok ==> r is Drop && final(self).phase
                == Phase::Closed,
            final(self).protocol_version == old(self).protocol_version,
    {
        if self.phase != Phase::Accepting {
            return SetupAction::Nothing;
        }
        if ok {
            self.phase = Phase::AwaitingInit;
            SetupAction::ReadInit
        } else {
            self.phase = Phase::Closed;
            SetupAction::Drop
        }
    }

    /// The first frame arrived, or the handshake timed out (`None`). Only an
    /// init frame goes on; anything else closes the connection.
    pub fn on_first_frame(&mut self, url: UrlData, first: Option<ToServer>) -> (r: SetupAction)
        ensures
            phase_rank(old(self).phase) <= phase_rank(final(self).phase),
            final(self).protocol_version == old(self).protocol_version,
            old(self).phase != Phase::AwaitingInit ==> r is Nothing && *final(self) == *old(self),
            old(self).phase == Phase::AwaitingInit ==> match first {
                Some(ToServer::ToServerInit(init)) => final(self).phase == Phase::Identifying
                    && r == (SetupAction::Identify {
                    namespace: url.namespace,
                    runner_key: url.runner_key,
                    init,
                }),
                None => final(self).phase == Phase::Closed && r matches SetupAction::Close(
                    WsError::TimedOutWaitingForInit,
                ),
                Some(_) => final(self).phase == Phase::Closed && r matches SetupAction::Close(
                    WsError::InvalidInitialPacket(_),
                ),
            },
    {
        if self.phase != Phase::AwaitingInit {
            return SetupAction::Nothing;
        }
        match check_init(first) {
            Ok(init) => {
                self.phase = Phase::Identifying;
                SetupAction::Identify { namespace: url.namespace, runner_key: url.runner_key, init }
            },
            Err(e) => {
                self.phase = Phase::Closed;
                SetupAction::Close(e)
            },
        }
    }

    /// The control plane resolved the runner, or refused it. A resolved
    /// runner first evicts whatever connection held it before.
    pub fn on_identified(&mut self, ids: Result<(u128, u128), WsError>) -> (r: SetupAction)
        ensures
            phase_rank(old(self).phase) <= phase_rank(final(self).phase),
            final(self).protocol_version == old(self).protocol_version,
            old(self).phase != Phase::Identifying ==> r is Nothing && *final(self) == *old(self),
            old(self).phase == Phase::Identifying ==> match ids {
                Ok((runner_id, workflow_id)) => final(self).phase == Phase::Evicting
                    && final(self).runner_id == runner_id && final(self).workflow_id == workflow_id
                    && r == (SetupAction::PublishEviction { runner_id }),
                Err(e) => final(self).phase == Phase::Closed && r == SetupAction::Close(e),
            },
    {
        if self.phase != Phase::Identifying {
            return SetupAction::Nothing;
        }
        match ids {
            Ok((runner_id, workflow_id)) => {
                self.phase = Phase::Evicting;
                self.runner_id = runner_id;
                self.workflow_id = workflow_id;
                SetupAction::PublishEviction { runner_id }
            },
            Err(e) => {
                self.phase = Phase::Closed;
                SetupAction::Close(e)
            },
        }
    }

    /// The eviction notice went out; the runner's subject is subscribed next.
    pub fn on_evicted(&mut self) -> (r: SetupAction)
        ensures
            phase_rank(old(self).phase) <= phase_rank(final(self).phase),
            final(self).runner_id == old(self).runner_id,
            final(self).workflow_id == old(self).workflow_id,
            final(self).protocol_version == old(self).protocol_version,
            old(self).phase != Phase::Evicting ==> r is Nothing && *final(self) == *old(self),
            old(self).phase == Phase::Evicting ==> final(self).phase == Phase::Subscribing && r
                == (SetupAction::Subscribe { runner_id: old(self).runner_id }),
    {
        if self.phase != Phase::Evicting {
            return SetupAction::Nothing;
        }
        self.phase = Phase::Subscribing;
        SetupAction::Subscribe { runner_id: self.runner_id }
    }

    /// The subscription is in place, or failed, which ends the connection.
    pub fn on_subscribed(&mut self, ok: bool) -> (r: SetupAction)
        ensures
            phase_rank(old(self).phase) <= phase_rank(final(self).phase),
            final(self).runner_id == old(self).runner_id,
            final(self).workflow_id == old(self).workflow_id,
            final(self).protocol_version == old(self).protocol_version,
            old(self).phase != Phase::Subscribing ==> r is Nothing && *final(self) == *old(self),
            old(self).phase == Phase::Subscribing && ok ==> final(self).phase == Phase::Running
                && r is SpawnTasks,
            old(self).phase == Phase::Subscribing && !ok ==> final(self).phase == Phase::Closed
                && r matches SetupAction::Close(WsError::ConnectionClosed),
    {
        if self.phase != Phase::Subscribing {
            return SetupAction::Nothing;
        }
        if ok {
            self.phase = Phase::Running;
            SetupAction::SpawnTasks
        } else {
            self.phase = Phase::Closed;
            SetupAction::Close(WsError::ConnectionClosed)
        }
    }

    /// One of the three tasks ended: the others are aborted and the runner
    /// becomes ineligible for allocation at once.
    pub fn on_task_exit(&mut self) -> (r: SetupAction)
        ensures
            phase_rank(old(self).phase) <= phase_rank(final(self).phase),
            final(self).runner_id == old(self).runner_id,
            final(self).workflow_id == old(self).workflow_id,
            old(self).phase != Phase::Running ==> r is Nothing && *final(self) == *old(self),
            old(self).phase == Phase::Running ==> final(self).phase == Phase::Closed && r
                == (SetupAction::ClearIndex { runner_id: old(self).runner_id }),
    {
        if self.phase != Phase::Running {
            return SetupAction::Nothing;
        }
        self.phase = Phase::Closed;
        SetupAction::ClearIndex { runner_id: self.runner_id }
    }
}

} // verus!
