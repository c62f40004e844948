//! What the handles of one WebSocket client share.
//!
//! Handles decide what they can decide at once: whether a message may be sent,
//! which listener is kept, what a request for shutdown does. Everything else
//! is asked of the worker.
use vstd::prelude::*;
use vstd::string::StringExecFns;

use crate::client_config::{FrameLimits, WebSocketClientConfig};
use crate::clock::Instant;
use crate::connection_status::ConnectionStatus;
use crate::net_error::NetError;
use crate::network_status::NetworkStatusSnapshot;
use crate::reconnect::ReconnectPolicy;
use crate::registered_send::{check_registration_deadline, PrepareFlow};
use crate::send_admission::{check_lease, SendAdmission, SendLease, WSRequestConfig};
use crate::send_flow::{SendFlow, SendStage};
use crate::task_event::WebSocketTaskEndCause;
use crate::text::push_decimal;
use crate::worker_action::WorkerAction;
use crate::ws_client_worker::WSClientWorker;

verus! {

/// Takes the next number of a counter, which never repeats one.
pub fn next_connection_identity(counter: &mut u64) -> (identity: Result<u64, NetError>)
    ensures
        match identity {
            Ok(number) => number == *old(counter) && *final(counter) == *old(counter) + 1,
            Err(error) => {
                &&& error is InternalError
                &&& *old(counter) == u64::MAX
                &&& *final(counter) == *old(counter)
            },
        },
{
    match counter.checked_add(1) {
        Some(next) => {
            let number: u64 = *counter;
            *counter = next;
            Ok(number)
        },
        None => Err(NetError::InternalError),
    }
}

/// What became of a command to the worker.
#[derive(Clone, Copy, Debug, PartialEq, Eq)]
pub enum CommandOutcome {
    /// The worker takes no commands any more.
    Undeliverable,
    /// The worker dropped the command without an answer.
    Unanswered,
    /// The worker answered.
    Answered(Result<(), NetError>),
}

/// The result of a command for its caller.
pub open spec fn answer_of(outcome: CommandOutcome) -> Result<(), NetError> {
    match outcome {
        CommandOutcome::Answered(answer) => answer,
        _ => Err(NetError::EngineDropped),
    }
}

/// The result of a command for its caller.
pub fn command_answer(outcome: CommandOutcome) -> (result: Result<(), NetError>)
    ensures
        result == answer_of(outcome),
{
    match outcome {
        CommandOutcome::Answered(answer) => answer,
        CommandOutcome::Undeliverable => Err(NetError::EngineDropped),
        CommandOutcome::Unanswered => Err(NetError::EngineDropped),
    }
}

/// What a handle asks its surroundings to do, in order.
#[derive(Clone, Copy, Debug, PartialEq, Eq, Structural)]
pub enum ClientAction {
    /// Refuse new task listeners.
    CloseTaskObservers,
    /// End the tasks of the send session.
    EndSendTasks(WebSocketTaskEndCause),
    /// Cancel everybody who waits on the client.
    CancelClient,
    /// Release the network monitor.
    DestroyMonitor,
    /// Drop a log listener.
    DropLogListener(u64),
    /// Wake connect tasks that wait before another attempt.
    WakeRetries,
    /// Tell the worker of an available network, if its queue has room.
    TryNotifyNetwork,
    /// Ask the worker to shut down, if its queue has room.
    TryShutdown,
}

/// The first notification of a status listener.
#[derive(Clone, Copy, Debug, PartialEq, Eq, Structural)]
pub struct InitialStatus {
    /// The status that the new listener is told.
    pub status: ConnectionStatus,
    /// The listener that it replaces, which nobody waits for any more.
    pub retired: Option<u64>,
}

/// What a caller of shutdown does next.
#[derive(Clone, Copy, Debug, PartialEq, Eq)]
pub enum ShutdownWait {
    /// It waits.
    Pending,
    /// It returns.
    Ready(Result<(), NetError>),
}

/// A send that was let through.
#[derive(Debug)]
pub struct SendStart {
    /// The send.
    pub flow: SendFlow,
    /// The connection or session that it belongs to.
    pub lease: SendLease,
}

/// A registered send that was let through.
#[derive(Debug)]
pub struct PrepareStart {
    /// The preparation.
    pub flow: PrepareFlow,
    /// The connection or session that it belongs to.
    pub lease: SendLease,
}

/// The state that the handles of a client share.
#[derive(Debug)]
pub struct WSClientInner {
    /// Number of the client.
    pub instance_id: u64,
    /// Number of the next session.
    pub next_session_id: u64,
    /// Number of the next send task.
    pub next_task_id: u64,
    /// The status that the worker published.
    pub state: ConnectionStatus,
    /// The last error of a connection.
    pub last_connection_error: Option<NetError>,
    /// The HTTP status of the last failed handshake.
    pub last_handshake_http_status: Option<u16>,
    /// Which connection or session sends belong to.
    pub send_admission: SendAdmission,
    /// The latest observation of the network, if it is observed.
    pub network_status: Option<NetworkStatusSnapshot>,
    /// The data listener.
    pub data_listener: Option<u64>,
    /// The status listener.
    pub status_listener: Option<u64>,
    /// The log listener.
    pub log_listener: Option<u64>,
    /// Whether shutdown was requested.
    pub shutdown: bool,
    /// Whether the worker completed the shutdown.
    pub shutdown_complete: bool,
}

/// Identifier of a message that nobody tracks.
pub open spec fn untracked_uuid(sequence: u64) -> Seq<char> {
    "__open_net_untracked:"@ + crate::text::decimal(sequence as nat)
}

/// Identifier of the message with the given number.
pub fn untracked_name(sequence: u64) -> (name: String)
    ensures
        name@ == untracked_uuid(sequence),
        !crate::text::is_blank(name@),
{
    let mut name = String::new();
    name.append("__open_net_untracked:");
    push_decimal(&mut name, sequence);
    proof {
        reveal_strlit("__open_net_untracked:");
        assert(name@ =~= untracked_uuid(sequence));
        assert(name@[0] == '_');
        assert(!crate::text::is_white_space(name@[0]));
    }
    name
}

impl WSClientInner {
    /// Why a send of this configuration is refused now, if it is.
    pub open spec fn send_refusal(
        self,
        config: WSRequestConfig,
        scope: Result<(), NetError>,
        now: Instant,
    ) -> Option<NetError> {
        if !config.usable(now) {
            Some(NetError::ConfigError)
        } else {
            match scope {
                Err(error) => Some(error),
                Ok(_) => crate::send_admission::refusal(
                    self.send_admission,
                    self.send_admission.leased(config.disconnected_policy),
                    self.state,
                    self.network_status,
                ),
            }
        }
    }

    /// The client once shutdown was requested.
    pub open spec fn closing(self) -> WSClientInner {
        WSClientInner {
            send_admission: self.send_admission.session_over(),
            shutdown: true,
            ..self
        }
    }

    /// What the handles share once the worker has asked for `action`.
    pub open spec fn after(self, action: WorkerAction) -> WSClientInner {
        match action {
            WorkerAction::BeginSendSession { session_context_id, scoped } => WSClientInner {
                send_admission: self.send_admission.session_begun(),
                ..self
            },
            WorkerAction::AdmitSendConnection { loss_epoch } => WSClientInner {
                send_admission: self.send_admission.connected(loss_epoch),
                ..self
            },
            WorkerAction::EndSendConnection => WSClientInner {
                send_admission: self.send_admission.disconnected(),
                ..self
            },
            WorkerAction::EndSendSession { cause } => WSClientInner {
                send_admission: self.send_admission.session_over(),
                ..self
            },
            WorkerAction::PublishShutdown => WSClientInner { shutdown: true, ..self },
            WorkerAction::ClearListeners => WSClientInner {
                data_listener: None,
                status_listener: None,
                log_listener: None,
                ..self
            },
            WorkerAction::PublishShutdownComplete => WSClientInner {
                shutdown_complete: true,
                ..self
            },
            _ => self,
        }
    }

    /// What the handles share once the worker has asked for the actions, first
    /// to last.
    pub open spec fn after_all(self, actions: Seq<WorkerAction>) -> WSClientInner
        decreases actions.len(),
    {
        if actions.len() == 0 {
            self
        } else {
            self.after_all(actions.drop_last()).after(actions.last())
        }
    }

    /// What the handles share once a step of the worker is over.
    pub open spec fn following(
        self,
        worker: WSClientWorker,
        actions: Seq<WorkerAction>,
    ) -> WSClientInner {
        WSClientInner {
            state: worker.status,
            last_connection_error: worker.last_connection_error,
            last_handshake_http_status: worker.last_handshake_http_status,
            ..self.after_all(actions)
        }
    }

    /// Takes over what a step of the worker changes for the handles: the
    /// published status and results, and which connection or session sends
    /// belong to.
    pub fn follow(&mut self, worker: &WSClientWorker, actions: &Vec<WorkerAction>)
        requires
            old(self).send_admission.session + actions@.len() <= u64::MAX,
            old(self).send_admission.connection + actions@.len() <= u64::MAX,
        ensures
            *final(self) == old(self).following(*worker, actions@),
            final(self).state == worker.status,
            final(self).last_connection_error == worker.last_connection_error,
            final(self).last_handshake_http_status == worker.last_handshake_http_status,
            final(self).send_admission == old(self).after_all(actions@).send_admission,
    {
        let mut i: usize = 0;
        while i < actions.len()
            invariant
                i <= actions@.len(),
                old(self).send_admission.session + actions@.len() <= u64::MAX,
                old(self).send_admission.connection + actions@.len() <= u64::MAX,
                self.send_admission.session <= old(self).send_admission.session + i,
                self.send_admission.connection <= old(self).send_admission.connection + i,
                *self == old(self).after_all(actions@.take(i as int)),
            decreases actions@.len() - i,
        {
            let action = actions[i];
            match action {
                WorkerAction::BeginSendSession { session_context_id: _, scoped: _ } => {
                    self.send_admission.begin_session();
                },
                WorkerAction::AdmitSendConnection { loss_epoch } => {
                    self.send_admission.connection_succeeded_with_network_epoch(loss_epoch);
                },
                WorkerAction::EndSendConnection => {
                    self.send_admission.connection_ended();
                },
                WorkerAction::EndSendSession { cause: _ } => {
                    self.send_admission.end_session();
                },
                WorkerAction::PublishShutdown => {
                    self.shutdown = true;
                },
                WorkerAction::ClearListeners => {
                    let _ = self.clear_listeners();
                },
                WorkerAction::PublishShutdownComplete => {
                    self.shutdown_complete = true;
                },
                _ => {},
            }
            proof {
                let seen = actions@.take(i as int + 1);
                assert(seen.drop_last() =~= actions@.take(i as int));
                assert(seen.last() == actions@[i as int]);
            }
            i = i + 1;
        }
        assert(actions@.take(i as int) =~= actions@);
        self.state = worker.status;
        self.last_connection_error = worker.last_connection_error;
        self.last_handshake_http_status = worker.last_handshake_http_status;
    }

    /// Builds a client and its worker, neither of which runs yet. Nothing is
    /// counted for a configuration that is refused.
    pub fn new_with_network(
        config: &WebSocketClientConfig,
        limits: FrameLimits,
        now: Instant,
        queues: Result<(), NetError>,
        instances: &mut u64,
        network: Option<NetworkStatusSnapshot>,
    ) -> (client: Result<(Self, WSClientWorker), NetError>)
        ensures
            match client {
                Ok((inner, worker)) => {
                    &&& config.usable(limits, now)
                    &&& queues is Ok
                    &&& *final(instances) == *old(instances) + 1
                    &&& inner == (WSClientInner {
                        instance_id: *old(instances),
                        next_session_id: 1,
                        next_task_id: 1,
                        state: ConnectionStatus::Idle,
                        last_connection_error: None,
                        last_handshake_http_status: None,
                        send_admission: SendAdmission {
                            session: 0,
                            session_open: false,
                            connection: 0,
                            connection_open: false,
                            network_loss_epoch: 0,
                        },
                        network_status: network,
                        data_listener: None,
                        status_listener: None,
                        log_listener: None,
                        shutdown: false,
                        shutdown_complete: false,
                    })
                    &&& worker.wf()
                    &&& inner.mirrors(worker)
                    &&& worker == (WSClientWorker {
                        generation: 0,
                        status: ConnectionStatus::Idle,
                        last_connection_error: None,
                        last_handshake_http_status: None,
                        connect_target: None,
                        connect_waiting: false,
                        connect_running: false,
                        active_io: None,
                        network_loss_epoch: 0,
                        terminal_response_deadline: None,
                        pauses_on_unavailable: network is Some,
                        close_timeout: config.close_timeout,
                        response_dispatch_grace: config.response_dispatch_grace,
                    })
                },
                Err(error) => {
                    &&& *final(instances) == *old(instances)
                    &&& if !config.usable(limits, now) {
                        error is ConfigError
                    } else {
                        match queues {
                            Err(refused) => error == refused,
                            Ok(_) => error is InternalError && *old(instances) == u64::MAX,
                        }
                    }
                },
            },
    {
        match config.validate(limits, now) {
            Ok(()) => {},
            Err(error) => {
                return Err(error);
            },
        }
        match queues {
            Ok(()) => {},
            Err(error) => {
                return Err(error);
            },
        }
        let instance_id: u64 = match next_connection_identity(instances) {
            Ok(number) => number,
            Err(error) => {
                return Err(error);
            },
        };
        let inner = WSClientInner {
            instance_id,
            next_session_id: 1,
            next_task_id: 1,
            state: ConnectionStatus::Idle,
            last_connection_error: None,
            last_handshake_http_status: None,
            send_admission: SendAdmission::new(),
            network_status: network,
            data_listener: None,
            status_listener: None,
            log_listener: None,
            shutdown: false,
            shutdown_complete: false,
        };
        let worker = WSClientWorker::new(
            network.is_some(),
            config.close_timeout,
            config.response_dispatch_grace,
        );
        Ok((inner, worker))
    }

    /// Replaces the data listener. After a request for shutdown none is kept,
    /// so that a listener cannot keep its client alive.
    pub fn register_data_listener(&mut self, listener: u64)
        ensures
            *final(self) == old(self).with_data_listener(listener),
    {
        self.data_listener = if self.shutdown {
            None
        } else {
            Some(listener)
        };
    }

    /// Removes the data listener.
    pub fn unregister_data_listener(&mut self)
        ensures
            *final(self) == (WSClientInner { data_listener: None, ..*old(self) }),
    {
        self.data_listener = None;
    }

    /// Replaces the status listener and tells it the current status. After a
    /// request for shutdown none is kept, and the new one learns that the
    /// client is closed.
    pub fn register_status_listener(&mut self, listener: u64) -> (initial: InitialStatus)
        ensures
            initial == (InitialStatus {
                status: old(self).initial_status(),
                retired: old(self).status_listener,
            }),
            *final(self) == old(self).with_status_listener(listener),
    {
        let retired = self.status_listener;
        if self.shutdown {
            self.status_listener = None;
            InitialStatus { status: ConnectionStatus::Closed, retired }
        } else {
            self.status_listener = Some(listener);
            InitialStatus { status: self.state, retired }
        }
    }

    /// Removes the status listener, which nobody waits for any more.
    pub fn unregister_status_listener(&mut self) -> (retired: Option<u64>)
        ensures
            retired == old(self).status_listener,
            *final(self) == (WSClientInner { status_listener: None, ..*old(self) }),
    {
        let retired = self.status_listener;
        self.status_listener = None;
        retired
    }

    /// The status that the worker published.
    pub fn connection_status(&self) -> (status: ConnectionStatus)
        ensures
            status == self.state,
    {
        self.state
    }

    /// The last error of a connection.
    pub fn last_connection_error(&self) -> (error: Option<NetError>)
        ensures
            error == self.last_connection_error,
    {
        self.last_connection_error
    }

    /// The HTTP status of the last failed handshake.
    pub fn last_handshake_http_status(&self) -> (status: Option<u16>)
        ensures
            status == self.last_handshake_http_status,
    {
        self.last_handshake_http_status
    }

    /// Refuses to hand the worker a policy that is not valid: one that is not
    /// sound in itself, or whose attempts or whose whole cycle would end later
    /// than the clock can express.
    pub fn connect(policy: &ReconnectPolicy, sound: bool, now: Instant) -> (result: Result<
        (),
        NetError,
    >)
        ensures
            result == if policy.valid(sound, now) {
                Ok::<(), NetError>(())
            } else {
                Err::<(), NetError>(NetError::ConfigError)
            },
    {
        if policy.is_valid(sound, now) {
            Ok(())
        } else {
            Err(NetError::ConfigError)
        }
    }

    /// Numbers a new session, once its options were found valid.
    pub fn start_connect_with_context(&mut self, validation: Result<(), NetError>) -> (session_id:
        Result<u64, NetError>)
        ensures
            match session_id {
                Ok(number) => {
                    &&& validation is Ok
                    &&& number == old(self).next_session_id
                    &&& *final(self) == (WSClientInner {
                        next_session_id: (number + 1) as u64,
                        ..*old(self)
                    })
                    &&& number < u64::MAX
                },
                Err(error) => {
                    &&& *final(self) == *old(self)
                    &&& match validation {
                        Err(refused) => error == refused,
                        Ok(_) => error is InternalError && old(self).next_session_id == u64::MAX,
                    }
                },
            },
    {
        match validation {
            Ok(()) => next_connection_identity(&mut self.next_session_id),
            Err(error) => Err(error),
        }
    }

    /// Passes on that the network can be used again. Only who waits now is
    /// woken.
    pub fn notify_network_available(&self) -> (actions: Vec<ClientAction>)
        ensures
            actions@ == seq![ClientAction::WakeRetries, ClientAction::TryNotifyNetwork],
    {
        let mut actions: Vec<ClientAction> = Vec::new();
        actions.push(ClientAction::WakeRetries);
        actions.push(ClientAction::TryNotifyNetwork);
        actions
    }

    /// What a request for shutdown asks for.
    pub open spec fn shutdown_actions(self) -> Seq<ClientAction> {
        let head = seq![
            ClientAction::CloseTaskObservers,
            ClientAction::EndSendTasks(WebSocketTaskEndCause::Shutdown),
            ClientAction::CancelClient,
        ];
        if self.network_status is Some {
            head.push(ClientAction::DestroyMonitor)
        } else {
            head
        }
    }

    fn begin_shutdown(&mut self) -> (actions: Vec<ClientAction>)
        ensures
            *final(self) == old(self).closing(),
            actions@ == old(self).shutdown_actions(),
    {
        let mut actions: Vec<ClientAction> = Vec::new();
        actions.push(ClientAction::CloseTaskObservers);
        self.send_admission.end_session();
        actions.push(ClientAction::EndSendTasks(WebSocketTaskEndCause::Shutdown));
        self.shutdown = true;
        actions.push(ClientAction::CancelClient);
        if self.network_status.is_some() {
            actions.push(ClientAction::DestroyMonitor);
        }
        assert(actions@ =~= old(self).shutdown_actions());
        actions
    }

    /// Requests shutdown without waiting. No send is let through from here
    /// on, whether or not the worker's queue has room for the command.
    pub fn request_shutdown(&mut self) -> (actions: Vec<ClientAction>)
        ensures
            *final(self) == old(self).closing(),
            actions@ == old(self).shutdown_actions().push(ClientAction::TryShutdown),
    {
        let mut actions = self.begin_shutdown();
        actions.push(ClientAction::TryShutdown);
        actions
    }

    /// Requests shutdown on behalf of a caller who waits for it, unless it is
    /// already complete.
    pub fn shutdown(&mut self) -> (request: Option<Vec<ClientAction>>)
        ensures
            match request {
                Some(actions) => {
                    &&& !old(self).shutdown_complete
                    &&& *final(self) == old(self).closing()
                    &&& actions@ == old(self).shutdown_actions().push(ClientAction::TryShutdown)
                },
                None => old(self).shutdown_complete && *final(self) == *old(self),
            },
    {
        if self.shutdown_complete {
            None
        } else {
            Some(self.request_shutdown())
        }
    }

    /// Looks whether the wait for shutdown is over. A worker that is gone
    /// without having completed it is an error.
    pub fn shutdown_progress(&self, worker_gone: bool) -> (wait: ShutdownWait)
        ensures
            wait == self.progress(worker_gone),
    {
        if self.shutdown_complete {
            ShutdownWait::Ready(Ok(()))
        } else if worker_gone {
            ShutdownWait::Ready(Err(NetError::EngineDropped))
        } else {
            ShutdownWait::Pending
        }
    }

    /// The last handle is gone: the client shuts down in the background and
    /// forgets its log listener.
    pub fn last_handle_dropped(&mut self) -> (actions: Vec<ClientAction>)
        ensures
            *final(self) == (WSClientInner { log_listener: None, ..old(self).closing() }),
            actions@ == match old(self).log_listener {
                Some(listener) => old(self).shutdown_actions().push(
                    ClientAction::DropLogListener(listener),
                ).push(ClientAction::TryShutdown),
                None => old(self).shutdown_actions().push(ClientAction::TryShutdown),
            },
    {
        let mut actions = self.begin_shutdown();
        if let Some(listener) = self.log_listener {
            actions.push(ClientAction::DropLogListener(listener));
        }
        self.log_listener = None;
        actions.push(ClientAction::TryShutdown);
        actions
    }

    /// Whether a log listener is to be registered: not after a request for
    /// shutdown.
    pub fn wants_log_listener(&self, offered: bool) -> (wanted: bool)
        ensures
            wanted == (offered && !self.shutdown),
    {
        offered && !self.shutdown
    }

    /// The client with another data listener, as far as it is kept.
    pub open spec fn with_data_listener(self, listener: u64) -> WSClientInner {
        WSClientInner {
            data_listener: if self.shutdown {
                None
            } else {
                Some(listener)
            },
            ..self
        }
    }

    /// The client with another status listener, as far as it is kept.
    pub open spec fn with_status_listener(self, listener: u64) -> WSClientInner {
        WSClientInner {
            status_listener: if self.shutdown {
                None
            } else {
                Some(listener)
            },
            ..self
        }
    }

    /// The status that a new listener is told.
    pub open spec fn initial_status(self) -> ConnectionStatus {
        if self.shutdown {
            ConnectionStatus::Closed
        } else {
            self.state
        }
    }

    /// How a wait for the shutdown stands.
    pub open spec fn progress(self, worker_gone: bool) -> ShutdownWait {
        if self.shutdown_complete {
            ShutdownWait::Ready(Ok::<(), NetError>(()))
        } else if worker_gone {
            ShutdownWait::Ready(Err::<(), NetError>(NetError::EngineDropped))
        } else {
            ShutdownWait::Pending
        }
    }

    /// The client with another log listener, or without one. After a request
    /// for shutdown it keeps none.
    pub open spec fn with_log_listener(self, listener: Option<u64>) -> WSClientInner {
        WSClientInner {
            log_listener: if self.shutdown {
                None
            } else {
                listener
            },
            ..self
        }
    }

    /// Replaces the log listener by one that was registered, or by none. A
    /// registration that failed leaves the old one in place. After a request
    /// for shutdown none is kept, whatever became of the registration. The
    /// answer is the listener that was replaced; it is dropped, as is one that
    /// was registered and is not kept.
    pub fn try_set_log_listener<E>(&mut self, registration: Option<Result<u64, E>>) -> (previous:
        Result<Option<u64>, E>)
        ensures
            match registration {
                Some(Err(error)) if !old(self).shutdown => previous == Err::<Option<u64>, E>(error)
                    && *final(self) == *old(self),
                Some(Ok(listener)) => previous == Ok::<Option<u64>, E>(old(self).log_listener)
                    && *final(self) == old(self).with_log_listener(Some(listener)),
                _ => previous == Ok::<Option<u64>, E>(old(self).log_listener) && *final(self)
                    == old(self).with_log_listener(None),
            },
            old(self).shutdown ==> final(self).log_listener is None,
    {
        let replacement = if self.shutdown {
            None
        } else {
            match registration {
                Some(Ok(listener)) => Some(listener),
                Some(Err(error)) => {
                    return Err(error);
                },
                None => None,
            }
        };
        let previous = self.log_listener;
        self.log_listener = replacement;
        Ok(previous)
    }

    /// As before; a registration that failed is only logged.
    pub fn set_log_listener<E>(&mut self, registration: Option<Result<u64, E>>) -> (dropped: Option<
        u64,
    >)
        ensures
            match registration {
                Some(Err(_)) if !old(self).shutdown => dropped is None && *final(self)
                    == *old(self),
                Some(Ok(listener)) => dropped == old(self).log_listener && *final(self) == old(
                    self,
                ).with_log_listener(Some(listener)),
                _ => dropped == old(self).log_listener && *final(self) == old(
                    self,
                ).with_log_listener(None),
            },
            old(self).shutdown ==> final(self).log_listener is None,
    {
        match self.try_set_log_listener(registration) {
            Ok(previous) => previous,
            Err(_) => None,
        }
    }

    /// Forgets all listeners, so that none keeps its client alive. The answer
    /// is the status listener, which nobody waits for any more, and the log
    /// listener to drop.
    pub fn clear_listeners(&mut self) -> (released: (Option<u64>, Option<u64>))
        ensures
            released == (old(self).status_listener, old(self).log_listener),
            *final(self) == (WSClientInner {
                data_listener: None,
                status_listener: None,
                log_listener: None,
                ..*old(self)
            }),
    {
        let released = (self.status_listener, self.log_listener);
        self.data_listener = None;
        self.status_listener = None;
        self.log_listener = None;
        released
    }

    /// Lets a send through or refuses it. The lease is taken before the status
    /// is looked at; a scope may add a refusal of its own.
    pub fn validate_send_admission_scoped(
        &self,
        config: &WSRequestConfig,
        scope: Result<(), NetError>,
        now: Instant,
    ) -> (lease: Result<SendLease, NetError>)
        ensures
            lease == match self.send_refusal(*config, scope, now) {
                Some(error) => Err::<SendLease, NetError>(error),
                None => Ok::<SendLease, NetError>(
                    self.send_admission.leased(config.disconnected_policy),
                ),
            },
    {
        if !config.is_usable(now) {
            return Err(NetError::ConfigError);
        }
        let lease = self.send_admission.lease_observed(config.disconnected_policy);
        match scope {
            Ok(()) => {},
            Err(error) => {
                return Err(error);
            },
        }
        match check_lease(
            &self.send_admission,
            lease,
            self.connection_status(),
            self.network_status,
        ) {
            Ok(()) => Ok(lease),
            Err(error) => Err(error),
        }
    }

    /// Lets a send without a scope through or refuses it.
    pub fn validate_send_admission(&self, config: &WSRequestConfig, now: Instant) -> (lease: Result<
        SendLease,
        NetError,
    >)
        ensures
            lease == match self.send_refusal(*config, Ok(()), now) {
                Some(error) => Err::<SendLease, NetError>(error),
                None => Ok::<SendLease, NetError>(
                    self.send_admission.leased(config.disconnected_policy),
                ),
            },
    {
        self.validate_send_admission_scoped(config, Ok(()), now)
    }

    /// How a send with an identifier starts.
    pub open spec fn started(
        self,
        config: WSRequestConfig,
        uuid: String,
        body: Result<usize, NetError>,
        waits: bool,
        now: Instant,
    ) -> Result<SendStart, NetError> {
        match self.send_refusal(config, Ok(()), now) {
            Some(error) => Err(error),
            None => match body {
                Err(error) => Err(error),
                Ok(size) => if crate::text::is_blank(uuid@) {
                    Err(NetError::ParameterEmpty)
                } else {
                    Ok(
                        SendStart {
                            flow: SendFlow {
                                uuid,
                                size,
                                urgent: false,
                                expect_response: config.expect_response,
                                waits,
                                stage: SendStage::Observing,
                                token: None,
                            },
                            lease: self.send_admission.leased(config.disconnected_policy),
                        },
                    )
                },
            },
        }
    }

    /// Starts a send with an identifier: admission first, then the body, then
    /// the identifier.
    pub fn send_internal(
        &self,
        config: &WSRequestConfig,
        uuid: String,
        body: Result<usize, NetError>,
        waits: bool,
        now: Instant,
    ) -> (start: Result<SendStart, NetError>)
        ensures
            start == self.started(*config, uuid, body, waits, now),
    {
        let lease = match self.validate_send_admission(config, now) {
            Ok(lease) => lease,
            Err(error) => {
                return Err(error);
            },
        };
        match SendFlow::begin(uuid, body, false, config.expect_response, waits) {
            Ok(flow) => Ok(SendStart { flow, lease }),
            Err(error) => Err(error),
        }
    }

    /// Starts a send whose sender waits for the result.
    pub fn send(
        &self,
        config: &WSRequestConfig,
        uuid: String,
        body: Result<usize, NetError>,
        now: Instant,
    ) -> (start: Result<SendStart, NetError>)
        ensures
            start == self.started(*config, uuid, body, true, now),
    {
        self.send_internal(config, uuid, body, true, now)
    }

    /// Starts a send whose sender does not wait.
    pub fn try_send(
        &self,
        config: &WSRequestConfig,
        uuid: String,
        body: Result<usize, NetError>,
        now: Instant,
    ) -> (start: Result<SendStart, NetError>)
        ensures
            start == self.started(*config, uuid, body, false, now),
    {
        self.send_internal(config, uuid, body, false, now)
    }

    /// Starts a send whose sender wants to know the end of its response, which
    /// therefore has to be expected.
    pub fn send_with_completion(
        &self,
        config: &WSRequestConfig,
        uuid: String,
        body: Result<usize, NetError>,
        waits: bool,
        now: Instant,
    ) -> (start: Result<SendStart, NetError>)
        ensures
            start == if config.expect_response {
                self.started(*config, uuid, body, waits, now)
            } else {
                Err::<SendStart, NetError>(NetError::ConfigError)
            },
    {
        if !config.expect_response {
            return Err(NetError::ConfigError);
        }
        self.send_internal(config, uuid, body, waits, now)
    }

    /// Starts a send of a whole message that nobody tracks. No response is
    /// expected, whatever the configuration says.
    pub fn send_untracked_scoped(
        &self,
        config: &WSRequestConfig,
        size: usize,
        urgent: bool,
        scope: Result<(), NetError>,
        sequence: u64,
        waits: bool,
        now: Instant,
    ) -> (start: Result<SendStart, NetError>)
        ensures
            match start {
                Ok(start) => {
                    &&& self.send_refusal(*config, scope, now) is None
                    &&& start.lease == self.send_admission.leased(config.disconnected_policy)
                    &&& start.flow.uuid@ == untracked_uuid(sequence)
                    &&& start.flow == (SendFlow {
                        uuid: start.flow.uuid,
                        size,
                        urgent,
                        expect_response: false,
                        waits,
                        stage: SendStage::Observing,
                        token: None,
                    })
                },
                Err(error) => self.send_refusal(*config, scope, now) == Some(error),
            },
    {
        let lease = match self.validate_send_admission_scoped(config, scope, now) {
            Ok(lease) => lease,
            Err(error) => {
                return Err(error);
            },
        };
        match SendFlow::begin(untracked_name(sequence), Ok(size), urgent, false, waits) {
            Ok(flow) => Ok(SendStart { flow, lease }),
            Err(error) => Err(error),
        }
    }

    /// Starts the preparation of a registered send.
    pub fn prepare_registered(
        &self,
        config: &WSRequestConfig,
        scope: Result<(), NetError>,
        registration_deadline: Option<Instant>,
        uuid: String,
        body: Result<usize, NetError>,
        waits: bool,
        now: Instant,
    ) -> (start: Result<PrepareStart, NetError>)
        ensures
            start == if !config.expect_response {
                Err::<PrepareStart, NetError>(NetError::ConfigError)
            } else if crate::clock::deadline_passed(now, registration_deadline) {
                Err::<PrepareStart, NetError>(NetError::TimeoutError)
            } else {
                match self.send_refusal(*config, scope, now) {
                    Some(error) => Err::<PrepareStart, NetError>(error),
                    None => if crate::text::is_blank(uuid@) {
                        Err::<PrepareStart, NetError>(NetError::ParameterEmpty)
                    } else {
                        match body {
                            Err(error) => Err::<PrepareStart, NetError>(error),
                            Ok(size) => Ok::<PrepareStart, NetError>(
                                PrepareStart {
                                    flow: PrepareFlow {
                                        uuid,
                                        size,
                                        waits,
                                        stage: crate::registered_send::PrepareStage::Observing,
                                        token: None,
                                    },
                                    lease: self.send_admission.leased(config.disconnected_policy),
                                },
                            ),
                        }
                    },
                }
            },
    {
        if !config.expect_response {
            return Err(NetError::ConfigError);
        }
        match check_registration_deadline(registration_deadline, now) {
            Ok(()) => {},
            Err(error) => {
                return Err(error);
            },
        }
        let lease = match self.validate_send_admission_scoped(config, scope, now) {
            Ok(lease) => lease,
            Err(error) => {
                return Err(error);
            },
        };
        match PrepareFlow::begin(uuid, body, waits) {
            Ok(flow) => Ok(PrepareStart { flow, lease }),
            Err(error) => Err(error),
        }
    }
}

/// Messages that nobody tracks have different identifiers as long as their
/// numbers differ.
pub proof fn untracked_names_are_distinct(first: u64, second: u64)
    requires
        untracked_uuid(first) == untracked_uuid(second),
    ensures
        first == second,
{
    let prefix = "__open_net_untracked:"@;
    let a = crate::text::decimal(first as nat);
    let b = crate::text::decimal(second as nat);
    assert(a =~= untracked_uuid(first).subrange(
        prefix.len() as int,
        untracked_uuid(first).len() as int,
    ));
    assert(b =~= untracked_uuid(second).subrange(
        prefix.len() as int,
        untracked_uuid(second).len() as int,
    ));
    crate::text::decimals_are_distinct(first as nat, second as nat);
}

/// Once shutdown was requested no send is let through on a connection or a
/// session that was there before, whatever the published status still says.
pub proof fn shutdown_stops_sends(
    client: WSClientInner,
    config: WSRequestConfig,
    scope: Result<(), NetError>,
    now: Instant,
)
    ensures
        client.closing().send_refusal(config, scope, now) is Some,
        client.send_admission.session_over() == client.closing().send_admission,
{
}

/// Requesting shutdown again changes nothing.
pub proof fn shutdown_is_idempotent(client: WSClientInner)
    ensures
        client.closing().closing() == client.closing(),
        client.closing().shutdown_actions() == client.shutdown_actions(),
{
}

/// A send is refused for its configuration first, then for its scope, then because
/// there is nothing to send to; one that none of this speaks against is let through
/// with a lease of this moment.
pub proof fn sends_are_refused_in_order(
    client: WSClientInner,
    config: WSRequestConfig,
    error: NetError,
    now: Instant,
)
    ensures
        !config.usable(now) ==> client.send_refusal(config, Ok(()), now) == Some(
            NetError::ConfigError,
        ) && client.send_refusal(config, Err(error), now) == Some(NetError::ConfigError),
        config.usable(now) ==> client.send_refusal(config, Err(error), now) == Some(error),
        config.usable(now) && client.state is Connected && client.send_admission.connection_open
            && client.network_status is None && config.disconnected_policy is Reject
            ==> client.send_refusal(config, Ok(()), now) is None,
        config.usable(now) && (client.state is Connected || client.state is Connecting
            || client.state is Reconnecting) && client.send_admission.session_open
            && config.disconnected_policy is WaitForReconnect ==> client.send_refusal(
            config,
            Ok(()),
            now,
        ) is None,
        config.usable(now) && (client.state is Idle || client.state is Disconnected)
            ==> client.send_refusal(config, Ok(()), now) == Some(NetError::SocketNotOpened),
        config.usable(now) && client.state is Closing ==> client.send_refusal(config, Ok(()), now)
            == Some(NetError::ConnectionClosing),
        config.usable(now) && client.state is Closed ==> client.send_refusal(config, Ok(()), now)
            == Some(NetError::EngineDropped),
{
}

/// A send that is let through starts as the one that was asked for: with its
/// identifier, its size, the response that it expects and a lease of this moment.
/// One that is not says why: its refusal, its body, or its blank identifier.
pub proof fn sends_start_as_asked(
    client: WSClientInner,
    config: WSRequestConfig,
    uuid: String,
    size: usize,
    error: NetError,
    waits: bool,
    now: Instant,
)
    ensures
        ({
            let start = client.started(config, uuid, Ok(size), waits, now);
            let unbuilt = client.started(config, uuid, Err(error), waits, now);
            match client.send_refusal(config, Ok(()), now) {
                Some(refused) => start == Err::<SendStart, NetError>(refused) && unbuilt == Err::<
                    SendStart,
                    NetError,
                >(refused),
                None => {
                    &&& unbuilt == Err::<SendStart, NetError>(error)
                    &&& crate::text::is_blank(uuid@) ==> start == Err::<SendStart, NetError>(
                        NetError::ParameterEmpty,
                    )
                    &&& !crate::text::is_blank(uuid@) ==> (start matches Ok(begun) && {
                        &&& begun.flow.uuid == uuid && begun.flow.size == size
                        &&& begun.flow.waits == waits && !begun.flow.urgent
                        &&& begun.flow.expect_response == config.expect_response
                        &&& begun.flow.stage is Observing && begun.flow.token is None
                        &&& begun.lease.policy == config.disconnected_policy
                        &&& begun.lease.session == client.send_admission.session
                        &&& begun.lease.connection == client.send_admission.connection
                        &&& begun.lease.network_loss_epoch
                            == client.send_admission.network_loss_epoch
                    })
                },
            }
        }),
{
}

/// A request for shutdown refuses new task listeners, ends the tasks of the session
/// as shut down and cancels whoever waits, in this order, and releases the monitor
/// if there is one. From then on the client is marked, and neither connection nor
/// session takes a send.
pub proof fn shutdown_ends_everything_in_order(client: WSClientInner)
    ensures
        ({
            let actions = client.shutdown_actions();
            let after = client.closing();
            &&& actions.len() >= 3
            &&& actions[0] is CloseTaskObservers
            &&& actions[1] == ClientAction::EndSendTasks(WebSocketTaskEndCause::Shutdown)
            &&& actions[2] is CancelClient
            &&& client.network_status is Some ==> actions.len() == 4 && actions[3]
                is DestroyMonitor
            &&& client.network_status is None ==> actions.len() == 3
            &&& after.shutdown
            &&& !after.send_admission.session_open && !after.send_admission.connection_open
            &&& after.state == client.state
            &&& after.shutdown_complete == client.shutdown_complete
            &&& after.data_listener == client.data_listener
            &&& after.status_listener == client.status_listener
        }),
{
}

/// Handles take over from each action of the worker what concerns them: sessions and
/// connections begin and end for sends, the shutdown is marked when it is requested
/// and when it is complete, and listeners are forgotten when they are cleared.
pub proof fn handles_take_over_each_action(
    client: WSClientInner,
    session_context_id: Option<u64>,
    scoped: bool,
    loss_epoch: u64,
    cause: Option<WebSocketTaskEndCause>,
)
    requires
        client.send_admission.session < u64::MAX,
        client.send_admission.connection < u64::MAX,
    ensures
        ({
            let begun = client.after(
                WorkerAction::BeginSendSession { session_context_id, scoped },
            ).send_admission;
            let made = client.after(
                WorkerAction::AdmitSendConnection { loss_epoch },
            ).send_admission;
            let lost = client.after(WorkerAction::EndSendConnection).send_admission;
            let over = client.after(WorkerAction::EndSendSession { cause }).send_admission;
            &&& begun.session_open && begun.session == client.send_admission.session + 1
            &&& made.connection_open && made.network_loss_epoch == loss_epoch && made.connection
                == client.send_admission.connection + 1
            &&& !lost.connection_open && lost.session_open == client.send_admission.session_open
            &&& !over.connection_open && !over.session_open
            &&& client.after(WorkerAction::PublishShutdown).shutdown
            &&& client.after(WorkerAction::PublishShutdownComplete).shutdown_complete
            &&& client.after(WorkerAction::PublishShutdown).shutdown_complete
                == client.shutdown_complete
        }),
        ({
            let cleared = client.after(WorkerAction::ClearListeners);
            cleared.data_listener is None && cleared.status_listener is None
                && cleared.log_listener is None && cleared.shutdown == client.shutdown
        }),
        client.after(WorkerAction::RevokeSession) == client,
        client.after(WorkerAction::AbortConnectTask) == client,
        client.after(WorkerAction::CloseQueues) == client,
{
}

/// What the worker did is what handles show afterwards.
pub proof fn handles_show_the_worker(
    client: WSClientInner,
    worker: WSClientWorker,
    actions: Seq<WorkerAction>,
)
    ensures
        ({
            let after = client.following(worker, actions);
            &&& after.state == worker.status
            &&& after.last_connection_error == worker.last_connection_error
            &&& after.last_handshake_http_status == worker.last_handshake_http_status
        }),
        client.after_all(Seq::empty()) == client,
{
}

/// A log listener is kept unless shutdown was requested.
pub proof fn log_listeners_are_kept_until_shutdown(client: WSClientInner, listener: Option<u64>)
    ensures
        !client.shutdown ==> client.with_log_listener(listener).log_listener == listener,
        client.shutdown ==> client.with_log_listener(listener).log_listener is None,
        client.with_log_listener(listener).data_listener == client.data_listener,
        client.with_log_listener(listener).state == client.state,
{
}

/// Listeners are kept until shutdown is requested and from then on none is; a new
/// status listener hears the present status, or that the client is closed.
pub proof fn listeners_are_kept_until_shutdown(client: WSClientInner, listener: u64)
    ensures
        !client.shutdown ==> ({
            &&& client.with_data_listener(listener).data_listener == Some(listener)
            &&& client.with_status_listener(listener).status_listener == Some(listener)
            &&& client.initial_status() == client.state
        }),
        client.shutdown ==> ({
            &&& client.with_data_listener(listener).data_listener is None
            &&& client.with_status_listener(listener).status_listener is None
            &&& client.initial_status() is Closed
        }),
        client.with_data_listener(listener).status_listener == client.status_listener,
        client.with_data_listener(listener).state == client.state,
        client.with_status_listener(listener).data_listener == client.data_listener,
        client.with_status_listener(listener).state == client.state,
{
}

/// Whoever waits for the shutdown hears of it once the worker has completed it, and
/// of its failure once the worker is gone without that; until then the wait goes on.
pub proof fn shutdown_is_waited_for(client: WSClientInner, worker_gone: bool)
    ensures
        client.progress(worker_gone) is Pending <==> !client.shutdown_complete && !worker_gone,
        client.shutdown_complete ==> client.progress(worker_gone) == ShutdownWait::Ready(
            Ok::<(), NetError>(()),
        ),
        !client.shutdown_complete && worker_gone ==> client.progress(worker_gone)
            == ShutdownWait::Ready(Err::<(), NetError>(NetError::EngineDropped)),
        client.after(WorkerAction::PublishShutdownComplete).progress(worker_gone)
            == ShutdownWait::Ready(Ok::<(), NetError>(())),
{
}

/// The caller of a command gets the worker's answer, and an error without one.
pub proof fn commands_are_answered_by_the_worker(answer: Result<(), NetError>)
    ensures
        answer_of(CommandOutcome::Answered(answer)) == answer,
        answer_of(CommandOutcome::Undeliverable) == Err::<(), NetError>(NetError::EngineDropped),
        answer_of(CommandOutcome::Unanswered) == Err::<(), NetError>(NetError::EngineDropped),
{
}

} // verus!
