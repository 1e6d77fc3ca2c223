//! The connection manager: a state machine that keeps at most one healthy
//! chain-client handle published for the workers. It alternates between the
//! primary and the backup endpoint on every failure, reports endpoint health
//! through the sink, and stops cleanly when the shutdown signal is observed.
//! The surrounding runtime performs the connects, probes and waits; every
//! decision is taken here.

use vstd::prelude::*;

use crate::config::Config;
use crate::sink::{Labels, MetricName, MetricSink};

verus! {

/// Which of the two configured endpoints is currently selected.
#[derive(Clone, Copy, Debug, PartialEq, Eq, Structural)]
pub enum EndpointChoice {
    Primary,
    Backup,
}

/// The other endpoint: selection alternates on every failure.
pub open spec fn spec_other_endpoint(e: EndpointChoice) -> EndpointChoice {
    match e {
        EndpointChoice::Primary => EndpointChoice::Backup,
        EndpointChoice::Backup => EndpointChoice::Primary,
    }
}

/// The manager's phase. A handle is published exactly while `Connected`.
#[derive(Clone, Copy, Debug, PartialEq, Eq, Structural)]
pub enum ManagerPhase {
    Disconnected,
    Connected,
    Shutdown,
}

/// What the runtime observed since the last step.
#[derive(Clone, Copy, Debug, PartialEq, Eq, Structural)]
pub enum ManagerEvent {
    ConnectSucceeded,
    ConnectFailed,
    ProbeSucceeded,
    ProbeFailed,
    ShutdownObserved,
}

/// What the runtime must do after a step.
#[derive(Clone, Copy, Debug, PartialEq, Eq, Structural)]
pub enum ManagerAction {
    /// Store the fresh handle where the workers read it.
    PublishHandle,
    /// Empty the shared handle, then wait out the backoff interval.
    ClearHandleAndBackoff,
    /// Wait out the backoff interval before the next connect attempt.
    Backoff,
    /// Nothing to do; keep running the current phase's loop.
    KeepGoing,
    /// Empty the shared handle and leave the loop for good.
    Exit,
}

/// The connection manager's state.
#[derive(Clone, Copy, Debug, PartialEq, Eq, Structural)]
pub struct ConnectionManager {
    pub phase: ManagerPhase,
    pub selected: EndpointChoice,
}

/// The state a manager starts in: disconnected, primary endpoint selected.
pub open spec fn spec_manager_init() -> ConnectionManager {
    ConnectionManager { phase: ManagerPhase::Disconnected, selected: EndpointChoice::Primary }
}

/// The transition relation: from a state and an event to the next state, the
/// runtime's action, and the value written to the health gauge, if any.
///
/// Every failure — a refused connection or a failed liveness probe — flips
/// the endpoint selection and is followed by a backoff, so the manager never
/// sticks to a dead endpoint and never retries in a tight loop. The shutdown
/// event is terminal from every phase and clears the handle. Events that do
/// not belong to the current phase change nothing.
pub open spec fn spec_step(pre: ConnectionManager, event: ManagerEvent) -> (
    ConnectionManager,
    ManagerAction,
    Option<i64>,
) {
    match (pre.phase, event) {
        (_, ManagerEvent::ShutdownObserved) => (
            ConnectionManager { phase: ManagerPhase::Shutdown, selected: pre.selected },
            ManagerAction::Exit,
            None,
        ),
        (ManagerPhase::Shutdown, _) => (pre, ManagerAction::Exit, None),
        (ManagerPhase::Disconnected, ManagerEvent::ConnectSucceeded) => (
            ConnectionManager { phase: ManagerPhase::Connected, selected: pre.selected },
            ManagerAction::PublishHandle,
            Some(1),
        ),
        (ManagerPhase::Disconnected, ManagerEvent::ConnectFailed) => (
            ConnectionManager {
                phase: ManagerPhase::Disconnected,
                selected: spec_other_endpoint(pre.selected),
            },
            ManagerAction::Backoff,
            Some(0),
        ),
        (ManagerPhase::Connected, ManagerEvent::ProbeSucceeded) => (
            pre,
            ManagerAction::KeepGoing,
            None,
        ),
        (ManagerPhase::Connected, ManagerEvent::ProbeFailed) => (
            ConnectionManager {
                phase: ManagerPhase::Disconnected,
                selected: spec_other_endpoint(pre.selected),
            },
            ManagerAction::ClearHandleAndBackoff,
            Some(0),
        ),
        _ => (pre, ManagerAction::KeepGoing, None),
    }
}

impl ConnectionManager {
    /// A handle is published exactly while the manager is connected.
    pub open spec fn handle_published(&self) -> bool {
        self.phase == ManagerPhase::Connected
    }

    /// A fresh manager: disconnected, primary endpoint selected.
    pub fn new() -> (r: ConnectionManager)
        ensures
            r == spec_manager_init(),
    {
        ConnectionManager { phase: ManagerPhase::Disconnected, selected: EndpointChoice::Primary }
    }

    /// The URL of the currently selected endpoint.
    pub fn select_url<'a>(&self, config: &'a Config) -> (url: &'a String)
        ensures
            self.selected == EndpointChoice::Primary ==> url@ == config.rpc_url@,
            self.selected == EndpointChoice::Backup ==> url@ == config.backup_rpc_url@,
    {
        match self.selected {
            EndpointChoice::Primary => &config.rpc_url,
            EndpointChoice::Backup => &config.backup_rpc_url,
        }
    }

    /// Advance the state machine by one observed event, writing the health
    /// gauge where the transition demands it, and tell the runtime what to
    /// do next.
    pub fn step(&mut self, event: ManagerEvent, sink: &mut MetricSink, labels: &Labels) -> (action:
        ManagerAction)
        requires
            old(sink).wf(),
        ensures
            final(sink).wf(),
            *final(self) == spec_step(*old(self), event).0,
            action == spec_step(*old(self), event).1,
            final(sink)@ == match spec_step(*old(self), event).2 {
                Some(v) => old(sink)@.insert((MetricName::RpcHealth, labels@), v),
                None => old(sink)@,
            },
    {
        match event {
            ManagerEvent::ShutdownObserved => {
                self.phase = ManagerPhase::Shutdown;
                ManagerAction::Exit
            },
            ManagerEvent::ConnectSucceeded => {
                match self.phase {
                    ManagerPhase::Disconnected => {
                        self.phase = ManagerPhase::Connected;
                        sink.set_gauge(MetricName::RpcHealth, labels, 1);
                        ManagerAction::PublishHandle
                    },
                    ManagerPhase::Shutdown => ManagerAction::Exit,
                    _ => ManagerAction::KeepGoing,
                }
            },
            ManagerEvent::ConnectFailed => {
                match self.phase {
                    ManagerPhase::Disconnected => {
                        self.selected = self.flip_selected();
                        sink.set_gauge(MetricName::RpcHealth, labels, 0);
                        ManagerAction::Backoff
                    },
                    ManagerPhase::Shutdown => ManagerAction::Exit,
                    _ => ManagerAction::KeepGoing,
                }
            },
            ManagerEvent::ProbeSucceeded => {
                match self.phase {
                    ManagerPhase::Shutdown => ManagerAction::Exit,
                    _ => ManagerAction::KeepGoing,
                }
            },
            ManagerEvent::ProbeFailed => {
                match self.phase {
                    ManagerPhase::Connected => {
                        self.phase = ManagerPhase::Disconnected;
                        self.selected = self.flip_selected();
                        sink.set_gauge(MetricName::RpcHealth, labels, 0);
                        ManagerAction::ClearHandleAndBackoff
                    },
                    ManagerPhase::Shutdown => ManagerAction::Exit,
                    _ => ManagerAction::KeepGoing,
                }
            },
        }
    }

    /// The endpoint the manager will try next after a failure.
    fn flip_selected(&self) -> (r: EndpointChoice)
        ensures
            r == spec_other_endpoint(self.selected),
    {
        match self.selected {
            EndpointChoice::Primary => EndpointChoice::Backup,
            EndpointChoice::Backup => EndpointChoice::Primary,
        }
    }
}

/// Law: with a primary endpoint that always refuses connections and a backup
/// that accepts them, a fresh manager publishes a handle bound to the backup
/// after at most two connection attempts — the first failure flips the
/// selection to the backup and writes health 0, and the next success connects
/// there, publishes the handle and writes health 1.
pub proof fn lemma_failover_to_backup()
    ensures
        ({
            let first = spec_step(spec_manager_init(), ManagerEvent::ConnectFailed);
            let second = spec_step(first.0, ManagerEvent::ConnectSucceeded);
            &&& first.0.phase == ManagerPhase::Disconnected
            &&& first.0.selected == EndpointChoice::Backup
            &&& first.2 == Some(0i64)
            &&& second.0.handle_published()
            &&& second.0.selected == EndpointChoice::Backup
            &&& second.1 == ManagerAction::PublishHandle
            &&& second.2 == Some(1i64)
        }),
{
}

/// Law: when a liveness probe fails while connected, the same step withdraws
/// the published handle, moves to the other endpoint, and writes health 0 —
/// so the health gauge falls from 1 to 0 before any further connect attempt
/// is made.
pub proof fn lemma_probe_failure_unpublishes(m: ConnectionManager)
    requires
        m.phase == ManagerPhase::Connected,
    ensures
        ({
            let stepped = spec_step(m, ManagerEvent::ProbeFailed);
            &&& !stepped.0.handle_published()
            &&& stepped.0.phase == ManagerPhase::Disconnected
            &&& stepped.0.selected == spec_other_endpoint(m.selected)
            &&& stepped.1 == ManagerAction::ClearHandleAndBackoff
            &&& stepped.2 == Some(0i64)
        }),
{
}

} // verus!
