//! A send in two steps: everything is reserved first, the message is released
//! to the writer later.
use vstd::prelude::*;

use crate::clock::{is_past, Instant};
use crate::dispatch_phase::{DispatchPhase, PendingCleanup};
use crate::net_error::NetError;
use crate::send_flow;
use crate::send_flow::finish_observed_error;
use crate::task_observer::{DispatchedEvent, TaskObservation};
use crate::text::blank;

verus! {

/// Refuses a registration at or after its deadline.
pub fn check_registration_deadline(deadline: Option<Instant>, now: Instant) -> (result: Result<
    (),
    NetError,
>)
    ensures
        result == if crate::clock::deadline_passed(now, deadline) {
            Err::<(), NetError>(NetError::TimeoutError)
        } else {
            Ok::<(), NetError>(())
        },
{
    if is_past(now, deadline) {
        Err(NetError::TimeoutError)
    } else {
        Ok(())
    }
}

/// How far a preparation came.
#[derive(Clone, Copy, Debug, PartialEq, Eq, Structural)]
pub enum PrepareStage {
    /// Room for the notification is reserved.
    Observing,
    /// The response is registered.
    Registering,
    /// Room in the queue is reserved.
    Preparing,
    /// The preparation is over.
    Over,
}

/// What a preparation learns.
#[derive(Clone, Copy, Debug, PartialEq, Eq)]
pub enum PrepareEvent {
    /// The scope of the request was cancelled while it waited for room.
    ScopeCancelled,
    /// The deadline passed while it waited for room.
    DeadlineElapsed,
    /// Room for the notification was reserved, or could not be.
    Observed(Result<(), NetError>),
    /// The response was registered, or could not be.
    Registered {
        /// Number of the registration.
        registration: Result<u64, NetError>,
        /// When the response is too late, as the registration tells.
        response_deadline: Result<Option<Instant>, NetError>,
    },
    /// Room in the queue was reserved, or could not be.
    Prepared {
        /// How that ended.
        result: Result<(), NetError>,
        /// The error that the registration had already ended with.
        terminal_error: Result<Option<NetError>, NetError>,
    },
}

/// The end of a preparation.
#[derive(Debug)]
pub struct PrepareEnd<S> {
    /// The registration, ready to be released to the writer, or the error.
    pub result: Result<u64, NetError>,
    /// The registration to remove and the error that it ends with.
    pub remove_pending: Option<(u64, NetError)>,
    /// What the listener of sends is told.
    pub notification: Option<DispatchedEvent<S>>,
}

/// What a preparation asks for.
#[derive(Debug)]
pub enum PrepareAction<S> {
    /// Register the response.
    Register,
    /// Reserve room in the queue.
    PrepareEnqueue {
        /// Number of the registration.
        token: u64,
    },
    /// The preparation is over.
    End(PrepareEnd<S>),
    /// The event does not belong to the stage.
    Ignore,
}

/// The preparation of one request.
#[derive(Debug)]
pub struct PrepareFlow {
    /// Identifier of the request.
    pub uuid: String,
    /// Bytes of the message.
    pub size: usize,
    /// Whether the caller waits for room.
    pub waits: bool,
    /// How far it came.
    pub stage: PrepareStage,
    /// Number of the registration.
    pub token: Option<u64>,
}

/// A preparation, its message and its observation after a step.
pub struct PrepareMove<S> {
    /// The preparation.
    pub flow: PrepareFlow,
    /// Who owns the message.
    pub phase: DispatchPhase,
    /// The observation.
    pub observation: Option<TaskObservation<S>>,
    /// What it asks for.
    pub action: PrepareAction<S>,
}

impl PrepareFlow {
    /// The preparation at another stage.
    pub open spec fn at(self, stage: PrepareStage) -> PrepareFlow {
        PrepareFlow { stage, ..self }
    }

    /// The preparation ends, leaving message and observation alone.
    pub open spec fn ends<S>(
        self,
        phase: DispatchPhase,
        observation: Option<TaskObservation<S>>,
        result: Result<u64, NetError>,
        remove_pending: Option<(u64, NetError)>,
    ) -> PrepareMove<S> {
        PrepareMove {
            flow: self.at(PrepareStage::Over),
            phase,
            observation,
            action: PrepareAction::End(PrepareEnd { result, remove_pending, notification: None }),
        }
    }

    /// What follows a registration.
    pub open spec fn registered<S>(
        self,
        token: u64,
        response_deadline: Result<Option<Instant>, NetError>,
        phase: DispatchPhase,
        observation: Option<TaskObservation<S>>,
    ) -> PrepareMove<S> {
        match response_deadline {
            Err(error) => self.ends(phase, observation, Err(error), None),
            Ok(deadline) => {
                let timed = DispatchPhase { response_deadline: deadline, ..phase };
                if phase.pending_cleanup is Some {
                    self.ends(
                        timed,
                        observation,
                        Err(NetError::InternalError),
                        Some((token, NetError::InternalError)),
                    )
                } else {
                    PrepareMove {
                        flow: PrepareFlow { token: Some(token), ..self.at(PrepareStage::Preparing) },
                        phase: DispatchPhase {
                            pending_cleanup: Some(PendingCleanup { uuid: self.uuid, token }),
                            ..timed
                        },
                        observation,
                        action: PrepareAction::PrepareEnqueue { token },
                    }
                }
            },
        }
    }

    /// One step of a preparation.
    pub open spec fn next<S>(
        self,
        event: PrepareEvent,
        phase: DispatchPhase,
        observation: Option<TaskObservation<S>>,
    ) -> PrepareMove<S> {
        match (self.stage, event) {
            (PrepareStage::Observing, PrepareEvent::ScopeCancelled) => self.ends(
                phase,
                observation,
                Err(NetError::Cancelled),
                None,
            ),
            (PrepareStage::Observing, PrepareEvent::DeadlineElapsed) => self.ends(
                phase,
                observation,
                Err(NetError::TimeoutError),
                None,
            ),
            (PrepareStage::Observing, PrepareEvent::Observed(Err(error))) => self.ends(
                phase,
                observation,
                Err(error),
                None,
            ),
            (PrepareStage::Observing, PrepareEvent::Observed(Ok(()))) => PrepareMove {
                flow: self.at(PrepareStage::Registering),
                phase,
                observation,
                action: PrepareAction::Register,
            },
            (
                PrepareStage::Registering,
                PrepareEvent::Registered { registration, response_deadline },
            ) => match registration {
                Err(error) => PrepareMove {
                    flow: self.at(PrepareStage::Over),
                    phase,
                    observation: send_flow::failed(observation, error),
                    action: PrepareAction::End(
                        PrepareEnd {
                            result: Err(send_flow::agreed_error(observation, error)),
                            remove_pending: None,
                            notification: send_flow::told(observation, error),
                        },
                    ),
                },
                Ok(token) => self.registered(token, response_deadline, phase, observation),
            },
            (PrepareStage::Preparing, PrepareEvent::Prepared { result, terminal_error }) => match (
                self.token,
                result,
            ) {
                (Some(token), Ok(())) => self.ends(phase, observation, Ok(token), None),
                (Some(token), Err(error)) => self.ends(
                    phase,
                    observation,
                    Err(
                        match terminal_error {
                            Ok(Some(first)) => first,
                            Ok(None) => error,
                            Err(unknown) => unknown,
                        },
                    ),
                    Some((token, error)),
                ),
                _ => PrepareMove { flow: self, phase, observation, action: PrepareAction::Ignore },
            },
            _ => PrepareMove { flow: self, phase, observation, action: PrepareAction::Ignore },
        }
    }

    /// Starts a preparation. A blank identifier is refused before the body is
    /// looked at.
    pub fn begin(uuid: String, body: Result<usize, NetError>, waits: bool) -> (flow: Result<
        Self,
        NetError,
    >)
        ensures
            flow == if crate::text::is_blank(uuid@) {
                Err::<PrepareFlow, NetError>(NetError::ParameterEmpty)
            } else {
                match body {
                    Err(error) => Err::<PrepareFlow, NetError>(error),
                    Ok(size) => Ok::<PrepareFlow, NetError>(
                        PrepareFlow {
                            uuid,
                            size,
                            waits,
                            stage: PrepareStage::Observing,
                            token: None,
                        },
                    ),
                }
            },
    {
        if blank(uuid.as_str()) {
            return Err(NetError::ParameterEmpty);
        }
        match body {
            Ok(size) => Ok(
                PrepareFlow { uuid, size, waits, stage: PrepareStage::Observing, token: None },
            ),
            Err(error) => Err(error),
        }
    }

    fn end<S>(
        &mut self,
        result: Result<u64, NetError>,
        remove_pending: Option<(u64, NetError)>,
    ) -> (action: PrepareAction<S>)
        ensures
            *final(self) == old(self).at(PrepareStage::Over),
            action == PrepareAction::End(
                PrepareEnd::<S> { result, remove_pending, notification: None },
            ),
    {
        self.stage = PrepareStage::Over;
        PrepareAction::End(PrepareEnd { result, remove_pending, notification: None })
    }

    /// Binds the registration to the message.
    pub fn register_prepared<S>(
        &mut self,
        token: u64,
        response_deadline: Result<Option<Instant>, NetError>,
        phase: &mut DispatchPhase,
        observation: &Option<TaskObservation<S>>,
    ) -> (action: PrepareAction<S>)
        ensures
            (PrepareMove {
                flow: *final(self),
                phase: *final(phase),
                observation: *observation,
                action,
            }) == old(self).registered(token, response_deadline, *old(phase), *observation),
    {
        match response_deadline {
            Ok(deadline) => {
                phase.set_response_deadline(deadline);
                match phase.set_pending_cleanup(self.uuid.clone(), token) {
                    Ok(()) => {
                        self.token = Some(token);
                        self.stage = PrepareStage::Preparing;
                        PrepareAction::PrepareEnqueue { token }
                    },
                    Err(error) => self.end(Err(error), Some((token, error))),
                }
            },
            Err(error) => self.end(Err(error), None),
        }
    }

    /// Takes a preparation one step further. The message's phase and its
    /// observation are shared with the registration, and handed in.
    pub fn prepare_registered<S>(
        &mut self,
        event: PrepareEvent,
        phase: &mut DispatchPhase,
        observation: &mut Option<TaskObservation<S>>,
    ) -> (action: PrepareAction<S>)
        ensures
            (PrepareMove {
                flow: *final(self),
                phase: *final(phase),
                observation: *final(observation),
                action,
            }) == old(self).next(event, *old(phase), *old(observation)),
    {
        match (self.stage, event) {
            (PrepareStage::Observing, PrepareEvent::ScopeCancelled) => self.end(
                Err(NetError::Cancelled),
                None,
            ),
            (PrepareStage::Observing, PrepareEvent::DeadlineElapsed) => self.end(
                Err(NetError::TimeoutError),
                None,
            ),
            (PrepareStage::Observing, PrepareEvent::Observed(Err(error))) => self.end(
                Err(error),
                None,
            ),
            (PrepareStage::Observing, PrepareEvent::Observed(Ok(()))) => {
                self.stage = PrepareStage::Registering;
                PrepareAction::Register
            },
            (
                PrepareStage::Registering,
                PrepareEvent::Registered { registration, response_deadline },
            ) => match registration {
                Ok(token) => self.register_prepared(token, response_deadline, phase, observation),
                Err(error) => {
                    self.stage = PrepareStage::Over;
                    let (agreed, notification) = finish_observed_error(observation, error);
                    PrepareAction::End(
                        PrepareEnd { result: Err(agreed), remove_pending: None, notification },
                    )
                },
            },
            (PrepareStage::Preparing, PrepareEvent::Prepared { result, terminal_error }) => match (
                self.token,
                result,
            ) {
                (Some(token), Ok(())) => self.end(Ok(token), None),
                (Some(token), Err(error)) => {
                    let agreed = match terminal_error {
                        Ok(Some(first)) => first,
                        Ok(None) => error,
                        Err(unknown) => unknown,
                    };
                    self.end(Err(agreed), Some((token, error)))
                },
                _ => PrepareAction::Ignore,
            },
            _ => PrepareAction::Ignore,
        }
    }
}

/// A preparation that fails after its registration removes it, and one that
/// succeeds hands out the registration that it made.
pub proof fn preparations_keep_their_registration<S>(
    flow: PrepareFlow,
    event: PrepareEvent,
    phase: DispatchPhase,
    observation: Option<TaskObservation<S>>,
)
    requires
        flow.stage is Preparing,
        flow.token is Some,
    ensures
        flow.next(event, phase, observation).action matches PrepareAction::End(end) ==> (
        match end.result {
            Ok(token) => Some(token) == flow.token && end.remove_pending is None,
            Err(_) => end.remove_pending matches Some(removed) && Some(removed.0) == flow.token,
        }),
{
}

/// Each step that succeeds leads to the next one: from the observation to the
/// registration, to room in the queue, and to the registration that the caller
/// gets. The registration is bound to the message together with its deadline.
pub proof fn preparations_make_progress<S>(
    flow: PrepareFlow,
    token: u64,
    deadline: Option<Instant>,
    terminal_error: Result<Option<NetError>, NetError>,
    phase: DispatchPhase,
    observation: Option<TaskObservation<S>>,
)
    ensures
        flow.stage is Observing ==> ({
            let after = flow.next(PrepareEvent::Observed(Ok(())), phase, observation);
            &&& after.action is Register
            &&& after.flow.stage is Registering
            &&& after.phase == phase && after.observation == observation
        }),
        flow.stage is Registering && phase.pending_cleanup is None ==> ({
            let after = flow.next(
                PrepareEvent::Registered {
                    registration: Ok(token),
                    response_deadline: Ok(deadline),
                },
                phase,
                observation,
            );
            &&& after.action == (PrepareAction::<S>::PrepareEnqueue { token })
            &&& after.flow.stage is Preparing
            &&& after.flow.token == Some(token)
            &&& after.phase.response_deadline == deadline
            &&& after.phase.phase == phase.phase
            &&& after.phase.pending_cleanup matches Some(cleanup) && cleanup.uuid == flow.uuid
                && cleanup.token == token
            &&& after.observation == observation
        }),
        flow.stage is Preparing && flow.token == Some(token) ==> ({
            let after = flow.next(
                PrepareEvent::Prepared { result: Ok(()), terminal_error },
                phase,
                observation,
            );
            &&& after.action matches PrepareAction::End(end) && end.result == Ok::<u64, NetError>(
                token,
            ) && end.remove_pending is None && end.notification is None
            &&& after.phase == phase && after.observation == observation
        }),
{
}

/// A preparation that fails ends with its reason: the cancellation of its scope,
/// its deadline, or the error of the step that failed; where the registration had
/// already ended, with the error of that.
pub proof fn failed_preparations_say_why<S>(
    flow: PrepareFlow,
    error: NetError,
    token: u64,
    terminal_error: Result<Option<NetError>, NetError>,
    phase: DispatchPhase,
    observation: Option<TaskObservation<S>>,
)
    requires
        observation matches Some(task) ==> task.state is Some && task.selected_result is None,
    ensures
        flow.stage is Observing ==> ({
            let cancelled = flow.next(PrepareEvent::ScopeCancelled, phase, observation);
            let late = flow.next(PrepareEvent::DeadlineElapsed, phase, observation);
            let refused = flow.next(PrepareEvent::Observed(Err(error)), phase, observation);
            &&& cancelled.action matches PrepareAction::End(end) && end.result == Err::<
                u64,
                NetError,
            >(NetError::Cancelled) && end.remove_pending is None
            &&& late.action matches PrepareAction::End(end) && end.result == Err::<u64, NetError>(
                NetError::TimeoutError,
            ) && end.remove_pending is None
            &&& refused.action matches PrepareAction::End(end) && end.result == Err::<
                u64,
                NetError,
            >(error) && end.remove_pending is None
        }),
        flow.stage is Registering ==> ({
            let refused = flow.next(
                PrepareEvent::Registered {
                    registration: Err(error),
                    response_deadline: Ok(None),
                },
                phase,
                observation,
            );
            let untimed = flow.next(
                PrepareEvent::Registered {
                    registration: Ok(token),
                    response_deadline: Err(error),
                },
                phase,
                observation,
            );
            &&& refused.action matches PrepareAction::End(end) && end.result == Err::<
                u64,
                NetError,
            >(error) && end.remove_pending is None && (end.notification is Some
                <==> observation is Some) && (end.notification matches Some(told)
                ==> told.event.result is Err && told.event.result->Err_0 == error)
            &&& untimed.action matches PrepareAction::End(end) && end.result == Err::<
                u64,
                NetError,
            >(error) && end.notification is None
        }),
        flow.stage is Registering && phase.pending_cleanup is Some ==> (flow.next(
            PrepareEvent::Registered { registration: Ok(token), response_deadline: Ok(None) },
            phase,
            observation,
        ).action matches PrepareAction::End(end) && end.result == Err::<u64, NetError>(
            NetError::InternalError,
        ) && end.remove_pending == Some((token, NetError::InternalError))),
        flow.stage is Preparing && flow.token == Some(token) ==> (flow.next(
            PrepareEvent::Prepared { result: Err(error), terminal_error },
            phase,
            observation,
        ).action matches PrepareAction::End(end) && end.remove_pending == Some((token, error))
            && end.result == Err::<u64, NetError>(
            match terminal_error {
                Ok(Some(first)) => first,
                Ok(None) => error,
                Err(unknown) => unknown,
            },
        )),
{
}

/// A preparation ends once, stays the preparation of its request, and hands out a
/// registration only if it made one and there is room for the message.
pub proof fn preparations_end_once<S>(
    flow: PrepareFlow,
    event: PrepareEvent,
    phase: DispatchPhase,
    observation: Option<TaskObservation<S>>,
)
    ensures
        ({
            let after = flow.next(event, phase, observation);
            &&& after.flow.uuid == flow.uuid && after.flow.size == flow.size && after.flow.waits
                == flow.waits
            &&& flow.stage is Over ==> after.action is Ignore
            &&& !(flow.stage is Over) ==> (after.flow.stage is Over <==> after.action is End)
            &&& after.action matches PrepareAction::End(end) ==> (end.result matches Ok(token)
                ==> flow.stage is Preparing && flow.token == Some(token) && (event matches
                PrepareEvent::Prepared { result, terminal_error } && result is Ok))
            &&& after.action is Ignore ==> after.flow == flow && after.phase == phase
                && after.observation == observation
        }),
{
}

} // verus!
