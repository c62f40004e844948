//! The way of one message from its sender to the writer.
//!
//! A message is observed, registered for its response, queued and written, in
//! that order. Whatever step fails, the steps before it are undone.
use vstd::prelude::*;

use crate::dispatch_phase;
use crate::dispatch_phase::{DispatchCancellation, DispatchPhase, PendingCleanup};
use crate::net_error::NetError;
use crate::task_event::{WebSocketTaskEndCause, WebSocketTaskSuccess};
use crate::task_observer::{DispatchedEvent, TaskObservation};
use crate::text::blank;

verus! {

/// Undoes a send whose sender gives up.
#[derive(Clone, Copy, Debug, PartialEq, Eq, Structural)]
pub struct DispatchCancellationGuard {
    /// Registration of the response, if one is expected.
    pub pending: Option<u64>,
    /// Whether the message is in its queue.
    pub enqueued: bool,
    /// Whether there is still something to undo.
    pub armed: bool,
}

/// What undoing a send asks for.
#[derive(Debug)]
pub struct GuardEnd<S> {
    /// Whether the message is cancelled.
    pub cancel_dispatch: bool,
    /// Whether it is taken out of its queue.
    pub cancel_queued: bool,
    /// The registration to remove.
    pub remove_pending: Option<u64>,
    /// What the listener of sends is told.
    pub notification: Option<DispatchedEvent<S>>,
}

/// An observation with a cause announced.
pub open spec fn caused<S>(
    observation: Option<TaskObservation<S>>,
    cause: WebSocketTaskEndCause,
) -> Option<TaskObservation<S>> {
    match observation {
        Some(task) => Some(task.with_cause(cause)),
        None => None,
    }
}

/// An observation after an end with `error`.
pub open spec fn failed<S>(
    observation: Option<TaskObservation<S>>,
    error: NetError,
) -> Option<TaskObservation<S>> {
    match observation {
        Some(task) => Some(task.ended(Err(error))),
        None => None,
    }
}

/// What the listener is told of an end with `error`.
pub open spec fn told<S>(
    observation: Option<TaskObservation<S>>,
    error: NetError,
) -> Option<DispatchedEvent<S>> {
    match observation {
        Some(task) => task.notification(Err(error)),
        None => None,
    }
}

/// The error that the sender gets: the one that the listener was told first.
pub open spec fn agreed_error<S>(
    observation: Option<TaskObservation<S>>,
    error: NetError,
) -> NetError {
    match failed(observation, error) {
        Some(task) => match task.selected_result {
            Some(Err(selected)) => selected,
            _ => error,
        },
        None => error,
    }
}

fn announce<S>(observation: &mut Option<TaskObservation<S>>, cause: WebSocketTaskEndCause)
    ensures
        *final(observation) == caused(*old(observation), cause),
{
    match observation.take() {
        Some(mut task) => {
            task.set_cause(cause);
            *observation = Some(task);
        },
        None => {},
    }
}

fn end_observation<S>(observation: &mut Option<TaskObservation<S>>, error: NetError) -> (told:
    Option<DispatchedEvent<S>>)
    ensures
        *final(observation) == failed(*old(observation), error),
        told == self::told(*old(observation), error),
{
    match observation.take() {
        Some(mut task) => {
            let told = task.finish(Err(error));
            *observation = Some(task);
            told
        },
        None => None,
    }
}

/// Ends the observation of a send that failed. If it had already ended, its
/// sender gets the error that the listener was told.
pub fn finish_observed_error<S>(
    observation: &mut Option<TaskObservation<S>>,
    error: NetError,
) -> (end: (NetError, Option<DispatchedEvent<S>>))
    ensures
        end.0 == agreed_error(*old(observation), error),
        end.1 == told(*old(observation), error),
        *final(observation) == failed(*old(observation), error),
{
    let told = end_observation(observation, error);
    let agreed = match observation.as_ref() {
        Some(task) => match task.selected_result() {
            Some(Err(selected)) => selected,
            _ => error,
        },
        None => error,
    };
    (agreed, told)
}

impl DispatchCancellationGuard {
    /// What giving up asks for, given what the cancellation found.
    pub open spec fn undone<S>(
        self,
        found: DispatchCancellation,
        observation: Option<TaskObservation<S>>,
    ) -> GuardEnd<S> {
        let queued = self.armed && found is Queued;
        GuardEnd {
            cancel_dispatch: self.armed && !(found is AlreadyResolved),
            cancel_queued: queued && self.enqueued,
            remove_pending: if queued {
                self.pending
            } else {
                None
            },
            notification: if queued {
                told(
                    caused(observation, WebSocketTaskEndCause::SendCancelled),
                    NetError::Cancelled,
                )
            } else {
                None
            },
        }
    }

    /// The observation after giving up.
    pub open spec fn observed<S>(
        self,
        found: DispatchCancellation,
        observation: Option<TaskObservation<S>>,
    ) -> Option<TaskObservation<S>> {
        let announced = caused(observation, WebSocketTaskEndCause::SendCancelled);
        if !self.armed || found is AlreadyResolved {
            observation
        } else if found is Queued {
            failed(announced, NetError::Cancelled)
        } else {
            announced
        }
    }

    /// The message's phase after giving up.
    pub open spec fn withdrawn(self, phase: DispatchPhase) -> DispatchPhase {
        if self.armed {
            phase.withdrawn()
        } else {
            phase
        }
    }

    /// Guards a send that is about to be queued.
    pub fn new(pending: Option<u64>) -> (guard: Self)
        ensures
            guard == (DispatchCancellationGuard { pending, enqueued: false, armed: true }),
    {
        DispatchCancellationGuard { pending, enqueued: false, armed: true }
    }

    /// The message is in its queue now.
    pub fn mark_enqueued(&mut self)
        ensures
            *final(self) == (DispatchCancellationGuard { enqueued: true, ..*old(self) }),
    {
        self.enqueued = true;
    }

    /// There is nothing to undo any more.
    pub fn disarm(&mut self)
        ensures
            *final(self) == (DispatchCancellationGuard {
                armed: false,
                pending: None,
                ..*old(self)
            }),
    {
        self.armed = false;
        self.pending = None;
    }

    /// The sender gives up. A message that is still queued is taken back
    /// altogether; of one that a writer owns only the cancellation is asked
    /// for, and the writer cleans up; one that was resolved is left alone.
    pub fn release<S>(
        self,
        phase: &mut DispatchPhase,
        observation: &mut Option<TaskObservation<S>>,
    ) -> (end: GuardEnd<S>)
        ensures
            ({
                let found = dispatch_phase::cancellation_of(old(phase).phase);
                &&& end == self.undone(found, *old(observation))
                &&& *final(observation) == self.observed(found, *old(observation))
                &&& *final(phase) == self.withdrawn(*old(phase))
            }),
    {
        let nothing = GuardEnd {
            cancel_dispatch: false,
            cancel_queued: false,
            remove_pending: None,
            notification: None,
        };
        if !self.armed {
            return nothing;
        }
        match phase.cancel() {
            DispatchCancellation::Queued => {
                announce(observation, WebSocketTaskEndCause::SendCancelled);
                let notification = end_observation(observation, NetError::Cancelled);
                GuardEnd {
                    cancel_dispatch: true,
                    cancel_queued: self.enqueued,
                    remove_pending: self.pending,
                    notification,
                }
            },
            DispatchCancellation::Writing => {
                announce(observation, WebSocketTaskEndCause::SendCancelled);
                GuardEnd {
                    cancel_dispatch: true,
                    cancel_queued: false,
                    remove_pending: None,
                    notification: None,
                }
            },
            DispatchCancellation::AlreadyResolved => nothing,
        }
    }
}

/// How far a send came.
#[derive(Clone, Copy, Debug, PartialEq, Eq, Structural)]
pub enum SendStage {
    /// Room for its notification is reserved.
    Observing,
    /// Its response is registered.
    Reserving,
    /// It waits for room in its queue.
    Queueing,
    /// It is queued or being written.
    Writing,
    /// It is over.
    Over,
}

/// What a send learns.
#[derive(Clone, Copy, Debug, PartialEq, Eq)]
pub enum SendEvent {
    /// Room for the notification was reserved, or could not be.
    Observed(Result<(), NetError>),
    /// The response was registered, or could not be.
    Reserved(Result<u64, NetError>),
    /// The message was queued, or could not be.
    Queued(Result<(), NetError>),
    /// The writer reported the result.
    Written(Result<(), NetError>),
    /// The queue dropped the message without a result.
    ReceiptDropped,
    /// The sender gave up.
    SenderDropped,
}

/// The end of a send.
#[derive(Debug)]
pub struct SendEnd<S> {
    /// What the sender gets, unless it gave up.
    pub result: Option<Result<(), NetError>>,
    /// The registration to remove and the error that it ends with.
    pub remove_pending: Option<(u64, NetError)>,
    /// What the listener of sends is told.
    pub notification: Option<DispatchedEvent<S>>,
    /// Whether the message is cancelled.
    pub cancel_dispatch: bool,
    /// Whether it is taken out of its queue.
    pub cancel_queued: bool,
}

/// What a send asks for.
#[derive(Debug)]
pub enum SendAction<S> {
    /// Register the response.
    Reserve,
    /// Put the message into its queue.
    Enqueue {
        /// Registration of the response, if one is expected.
        pending_token: Option<u64>,
    },
    /// Wait for the writer's result.
    AwaitWrite,
    /// The send is over.
    End(SendEnd<S>),
    /// The event does not belong to the stage.
    Ignore,
}

/// One send.
#[derive(Debug)]
pub struct SendFlow {
    /// Identifier of the message.
    pub uuid: String,
    /// Bytes of the message.
    pub size: usize,
    /// Whether the message uses the queue of urgent messages.
    pub urgent: bool,
    /// Whether a response is expected.
    pub expect_response: bool,
    /// Whether the sender waits for room and for the result.
    pub waits: bool,
    /// How far it came.
    pub stage: SendStage,
    /// Registration of the response.
    pub token: Option<u64>,
}

/// A send, its message and its observation after a step.
pub struct SendMove<S> {
    /// The send.
    pub flow: SendFlow,
    /// Who owns its message.
    pub phase: DispatchPhase,
    /// Its observation.
    pub observation: Option<TaskObservation<S>>,
    /// What it asks for.
    pub action: SendAction<S>,
}

/// An end with a result for the sender.
pub open spec fn plain_end<S>(
    result: Result<(), NetError>,
    remove_pending: Option<(u64, NetError)>,
    notification: Option<DispatchedEvent<S>>,
) -> SendEnd<S> {
    SendEnd {
        result: Some(result),
        remove_pending,
        notification,
        cancel_dispatch: false,
        cancel_queued: false,
    }
}

fn ended<S>(
    result: Result<(), NetError>,
    remove_pending: Option<(u64, NetError)>,
    notification: Option<DispatchedEvent<S>>,
) -> (end: SendEnd<S>)
    ensures
        end == plain_end(result, remove_pending, notification),
{
    SendEnd {
        result: Some(result),
        remove_pending,
        notification,
        cancel_dispatch: false,
        cancel_queued: false,
    }
}

impl SendFlow {
    /// The send at another stage.
    pub open spec fn at(self, stage: SendStage) -> SendFlow {
        SendFlow { stage, ..self }
    }

    /// The registration to remove when the send fails with `error`.
    pub open spec fn cleanup(self, error: NetError) -> Option<(u64, NetError)> {
        match self.token {
            Some(token) => Some((token, error)),
            None => None,
        }
    }

    /// The guard of the send.
    pub open spec fn guard(self) -> DispatchCancellationGuard {
        DispatchCancellationGuard {
            pending: self.token,
            enqueued: self.stage is Writing,
            armed: true,
        }
    }

    /// What the sender's giving up asks for.
    pub open spec fn surrender<S>(self, end: GuardEnd<S>) -> SendEnd<S> {
        SendEnd {
            result: None,
            remove_pending: match end.remove_pending {
                Some(token) => Some((token, NetError::Cancelled)),
                None => None,
            },
            notification: end.notification,
            cancel_dispatch: end.cancel_dispatch,
            cancel_queued: end.cancel_queued,
        }
    }

    /// The send stops with a result, leaving message and observation alone.
    pub open spec fn stops<S>(
        self,
        phase: DispatchPhase,
        observation: Option<TaskObservation<S>>,
        result: Result<(), NetError>,
        remove_pending: Option<(u64, NetError)>,
    ) -> SendMove<S> {
        SendMove {
            flow: self.at(SendStage::Over),
            phase,
            observation,
            action: SendAction::End(plain_end(result, remove_pending, None)),
        }
    }

    /// The send fails before a queue took the message.
    pub open spec fn fails<S>(
        self,
        phase: DispatchPhase,
        observation: Option<TaskObservation<S>>,
        error: NetError,
    ) -> SendMove<S> {
        SendMove {
            flow: self.at(SendStage::Over),
            phase,
            observation: failed(observation, error),
            action: SendAction::End(
                plain_end(
                    Err(agreed_error(observation, error)),
                    self.cleanup(error),
                    told(observation, error),
                ),
            ),
        }
    }

    /// One step of a send.
    pub open spec fn next<S>(
        self,
        event: SendEvent,
        phase: DispatchPhase,
        observation: Option<TaskObservation<S>>,
    ) -> SendMove<S> {
        match (self.stage, event) {
            (SendStage::Observing, SendEvent::Observed(Ok(()))) => SendMove {
                flow: self.at(
                    if self.expect_response {
                        SendStage::Reserving
                    } else {
                        SendStage::Queueing
                    },
                ),
                phase,
                observation,
                action: if self.expect_response {
                    SendAction::Reserve
                } else {
                    SendAction::Enqueue { pending_token: None }
                },
            },
            (SendStage::Observing, SendEvent::Observed(Err(error))) => self.stops(
                phase,
                observation,
                Err(error),
                None,
            ),
            (SendStage::Reserving, SendEvent::Reserved(Ok(token))) => if phase.pending_cleanup
                is Some {
                self.stops(
                    phase,
                    observation,
                    Err(NetError::InternalError),
                    Some((token, NetError::InternalError)),
                )
            } else {
                SendMove {
                    flow: SendFlow { token: Some(token), ..self.at(SendStage::Queueing) },
                    phase: DispatchPhase {
                        pending_cleanup: Some(PendingCleanup { uuid: self.uuid, token }),
                        ..phase
                    },
                    observation,
                    action: SendAction::Enqueue { pending_token: Some(token) },
                }
            },
            (SendStage::Reserving, SendEvent::Reserved(Err(error))) => self.fails(
                phase,
                observation,
                error,
            ),
            (SendStage::Queueing, SendEvent::Queued(Ok(()))) => if self.waits {
                SendMove {
                    flow: self.at(SendStage::Writing),
                    phase,
                    observation,
                    action: SendAction::AwaitWrite,
                }
            } else {
                self.stops(phase, observation, Ok(()), None)
            },
            (SendStage::Queueing, SendEvent::Queued(Err(error))) => self.fails(
                phase,
                observation,
                error,
            ),
            (SendStage::Writing, SendEvent::Written(result)) => self.stops(
                phase,
                observation,
                result,
                match result {
                    Ok(()) => None,
                    Err(error) => self.cleanup(error),
                },
            ),
            (SendStage::Writing, SendEvent::ReceiptDropped) => self.stops(
                phase,
                observation,
                Err(NetError::EngineDropped),
                self.cleanup(NetError::EngineDropped),
            ),
            (SendStage::Queueing, SendEvent::SenderDropped) => self.gives_up(phase, observation),
            (SendStage::Writing, SendEvent::SenderDropped) => self.gives_up(phase, observation),
            _ => SendMove { flow: self, phase, observation, action: SendAction::Ignore },
        }
    }

    /// The sender gives up a send that is guarded.
    pub open spec fn gives_up<S>(
        self,
        phase: DispatchPhase,
        observation: Option<TaskObservation<S>>,
    ) -> SendMove<S> {
        let found = dispatch_phase::cancellation_of(phase.phase);
        SendMove {
            flow: self.at(SendStage::Over),
            phase: phase.withdrawn(),
            observation: self.guard().observed(found, observation),
            action: SendAction::End(self.surrender(self.guard().undone(found, observation))),
        }
    }

    /// Starts a send, once its body was built. A blank identifier is refused.
    pub fn begin(
        uuid: String,
        body: Result<usize, NetError>,
        urgent: bool,
        expect_response: bool,
        waits: bool,
    ) -> (flow: Result<Self, NetError>)
        ensures
            flow == match body {
                Err(error) => Err::<SendFlow, NetError>(error),
                Ok(size) => if crate::text::is_blank(uuid@) {
                    Err::<SendFlow, NetError>(NetError::ParameterEmpty)
                } else {
                    Ok::<SendFlow, NetError>(
                        SendFlow {
                            uuid,
                            size,
                            urgent,
                            expect_response,
                            waits,
                            stage: SendStage::Observing,
                            token: None,
                        },
                    )
                },
            },
    {
        let size: usize = match body {
            Ok(size) => size,
            Err(error) => {
                return Err(error);
            },
        };
        if blank(uuid.as_str()) {
            return Err(NetError::ParameterEmpty);
        }
        Ok(
            SendFlow {
                uuid,
                size,
                urgent,
                expect_response,
                waits,
                stage: SendStage::Observing,
                token: None,
            },
        )
    }

    fn cleanup_for(&self, error: NetError) -> (remove: Option<(u64, NetError)>)
        ensures
            remove == self.cleanup(error),
    {
        match self.token {
            Some(token) => Some((token, error)),
            None => None,
        }
    }

    fn fail<S>(&mut self, error: NetError, observation: &mut Option<TaskObservation<S>>) -> (action:
        SendAction<S>)
        ensures
            *final(self) == old(self).at(SendStage::Over),
            *final(observation) == failed(*old(observation), error),
            action == SendAction::End(
                plain_end(
                    Err(agreed_error(*old(observation), error)),
                    old(self).cleanup(error),
                    told(*old(observation), error),
                ),
            ),
    {
        self.stage = SendStage::Over;
        let (agreed, notification) = finish_observed_error(observation, error);
        SendAction::End(ended(Err(agreed), self.cleanup_for(error), notification))
    }

    fn give_up<S>(
        &mut self,
        phase: &mut DispatchPhase,
        observation: &mut Option<TaskObservation<S>>,
    ) -> (action: SendAction<S>)
        ensures
            (SendMove {
                flow: *final(self),
                phase: *final(phase),
                observation: *final(observation),
                action,
            }) == old(self).gives_up(*old(phase), *old(observation)),
    {
        let mut guard = DispatchCancellationGuard::new(self.token);
        if self.stage == SendStage::Writing {
            guard.mark_enqueued();
        }
        self.stage = SendStage::Over;
        let end = guard.release(phase, observation);
        SendAction::End(
            SendEnd {
                result: None,
                remove_pending: match end.remove_pending {
                    Some(token) => Some((token, NetError::Cancelled)),
                    None => None,
                },
                notification: end.notification,
                cancel_dispatch: end.cancel_dispatch,
                cancel_queued: end.cancel_queued,
            },
        )
    }

    /// Takes a send one step further. The message's phase and its observation
    /// are shared with its queue and its writer, and handed in.
    pub fn enqueue_and_wait_scoped<S>(
        &mut self,
        event: SendEvent,
        phase: &mut DispatchPhase,
        observation: &mut Option<TaskObservation<S>>,
    ) -> (action: SendAction<S>)
        ensures
            (SendMove {
                flow: *final(self),
                phase: *final(phase),
                observation: *final(observation),
                action,
            }) == old(self).next(event, *old(phase), *old(observation)),
    {
        match (self.stage, event) {
            (SendStage::Observing, SendEvent::Observed(Ok(()))) => {
                if self.expect_response {
                    self.stage = SendStage::Reserving;
                    SendAction::Reserve
                } else {
                    self.stage = SendStage::Queueing;
                    SendAction::Enqueue { pending_token: None }
                }
            },
            (SendStage::Observing, SendEvent::Observed(Err(error))) => {
                self.stage = SendStage::Over;
                SendAction::End(ended(Err(error), None, None))
            },
            (SendStage::Reserving, SendEvent::Reserved(Ok(token))) => {
                match phase.set_pending_cleanup(self.uuid.clone(), token) {
                    Ok(()) => {
                        self.token = Some(token);
                        self.stage = SendStage::Queueing;
                        SendAction::Enqueue { pending_token: Some(token) }
                    },
                    Err(error) => {
                        self.stage = SendStage::Over;
                        SendAction::End(ended(Err(error), Some((token, error)), None))
                    },
                }
            },
            (SendStage::Reserving, SendEvent::Reserved(Err(error))) => self.fail(
                error,
                observation,
            ),
            (SendStage::Queueing, SendEvent::Queued(Ok(()))) => {
                if self.waits {
                    self.stage = SendStage::Writing;
                    SendAction::AwaitWrite
                } else {
                    self.stage = SendStage::Over;
                    SendAction::End(ended(Ok(()), None, None))
                }
            },
            (SendStage::Queueing, SendEvent::Queued(Err(error))) => self.fail(error, observation),
            (SendStage::Writing, SendEvent::Written(result)) => {
                self.stage = SendStage::Over;
                let remove = match result {
                    Ok(()) => None,
                    Err(error) => self.cleanup_for(error),
                };
                SendAction::End(ended(result, remove, None))
            },
            (SendStage::Writing, SendEvent::ReceiptDropped) => {
                self.stage = SendStage::Over;
                let remove = self.cleanup_for(NetError::EngineDropped);
                SendAction::End(ended(Err(NetError::EngineDropped), remove, None))
            },
            (SendStage::Queueing, SendEvent::SenderDropped) => self.give_up(phase, observation),
            (SendStage::Writing, SendEvent::SenderDropped) => self.give_up(phase, observation),
            _ => SendAction::Ignore,
        }
    }
}

/// A send that fails leaves no registration behind: whatever was registered is
/// removed with the error that ended the send.
pub proof fn failed_sends_leave_nothing_registered<S>(
    flow: SendFlow,
    event: SendEvent,
    phase: DispatchPhase,
    observation: Option<TaskObservation<S>>,
)
    requires
        flow.token is Some ==> flow.stage is Queueing || flow.stage is Writing,
    ensures
        flow.next(event, phase, observation).action matches SendAction::End(end) ==> (end.result
            matches Some(Err(_)) ==> (flow.token matches Some(token) ==> (end.remove_pending
            matches Some(removed) && removed.0 == token))),
{
}

/// A message that could not be queued is reported to its listener exactly
/// once, and its sender gets the same error.
pub proof fn refused_messages_are_reported_alike<S>(
    flow: SendFlow,
    error: NetError,
    phase: DispatchPhase,
    task: TaskObservation<S>,
)
    requires
        flow.stage is Queueing,
        task.state is Some,
    ensures
        flow.next(SendEvent::Queued(Err(error)), phase, Some(task)).action matches SendAction::End(
            end,
        ) && end.result == Some(Err::<(), NetError>(error)) && end.notification is Some
            && end.notification->0.event.result == Err::<WebSocketTaskSuccess, NetError>(error),
        flow.next(SendEvent::Queued(Err(error)), phase, Some(task)).observation matches Some(
            after,
        ) && after.selected_result == Some(Err::<WebSocketTaskSuccess, NetError>(error)),
{
}

/// A sender that gives up takes back a message that no writer owns, and never
/// removes the registration of one that a writer owns or has resolved.
pub proof fn giving_up_respects_the_writer<S>(
    flow: SendFlow,
    phase: DispatchPhase,
    observation: Option<TaskObservation<S>>,
)
    requires
        flow.stage is Queueing || flow.stage is Writing,
    ensures
        ({
            let after = flow.next(SendEvent::SenderDropped, phase, observation);
            &&& after.action matches SendAction::End(end) && {
                &&& end.result is None
                &&& phase.phase == dispatch_phase::DISPATCH_QUEUED ==> {
                    &&& end.cancel_dispatch
                    &&& end.cancel_queued == flow.stage is Writing
                    &&& end.remove_pending == flow.cleanup(NetError::Cancelled)
                }
                &&& phase.phase != dispatch_phase::DISPATCH_QUEUED ==> {
                    &&& end.remove_pending is None
                    &&& end.notification is None
                    &&& !end.cancel_queued
                    &&& end.cancel_dispatch == dispatch_phase::writer_owns(phase.phase)
                }
            }
            &&& phase.phase == dispatch_phase::DISPATCH_QUEUED || dispatch_phase::writer_owns(
                phase.phase,
            ) ==> dispatch_phase::cancelled(after.phase.phase)
        }),
{
}

/// A send ends once.
pub proof fn sends_end_once<S>(
    flow: SendFlow,
    event: SendEvent,
    phase: DispatchPhase,
    observation: Option<TaskObservation<S>>,
)
    ensures
        flow.next(event, phase, observation).flow.stage is Over <==> flow.stage is Over
            || flow.next(event, phase, observation).action is End,
        flow.stage is Over ==> flow.next(event, phase, observation).action is Ignore,
{
}

/// The sender hears what the writer reported, whatever that is and whether or not
/// a response is registered. A failure takes the registration with it, a success
/// leaves it to the response; message and observation are the writer's affair.
pub proof fn senders_hear_what_the_writer_reported<S>(
    flow: SendFlow,
    result: Result<(), NetError>,
    phase: DispatchPhase,
    observation: Option<TaskObservation<S>>,
)
    requires
        flow.stage is Writing,
    ensures
        ({
            let after = flow.next(SendEvent::Written(result), phase, observation);
            let gone = flow.next(SendEvent::ReceiptDropped, phase, observation);
            &&& after.phase == phase && after.observation == observation
            &&& after.action matches SendAction::End(end) && {
                &&& end.result == Some(result)
                &&& end.remove_pending == match (result, flow.token) {
                    (Err(error), Some(token)) => Some((token, error)),
                    _ => None,
                }
                &&& end.notification is None
                &&& !end.cancel_dispatch && !end.cancel_queued
            }
            &&& gone.phase == phase && gone.observation == observation
            &&& gone.action matches SendAction::End(end) && {
                &&& end.result == Some(Err::<(), NetError>(NetError::EngineDropped))
                &&& end.remove_pending == match flow.token {
                    Some(token) => Some((token, NetError::EngineDropped)),
                    None => None,
                }
                &&& end.notification is None
                &&& !end.cancel_dispatch && !end.cancel_queued
            }
        }),
{
}

/// A sender hears of success only if the writer reported it, or if it does not
/// wait for the writer and the queue took the message.
pub proof fn success_needs_a_writer_or_a_queue<S>(
    flow: SendFlow,
    event: SendEvent,
    phase: DispatchPhase,
    observation: Option<TaskObservation<S>>,
)
    ensures
        flow.next(event, phase, observation).action matches SendAction::End(end) ==> (end.result
            == Some(Ok::<(), NetError>(())) ==> (flow.stage is Writing && (event matches
            SendEvent::Written(result) && result is Ok)) || (flow.stage is Queueing && !flow.waits
            && (event matches SendEvent::Queued(result) && result is Ok))),
        flow.stage is Queueing && !flow.waits ==> (flow.next(
            SendEvent::Queued(Ok(())),
            phase,
            observation,
        ).action matches SendAction::End(end) && end.result == Some(Ok::<(), NetError>(()))
            && end.remove_pending is None && end.notification is None),
{
}

/// Each step that succeeds leads to the next one: from the observation to the
/// registration, if a response is expected, to the queue, and to the writer, if
/// the sender waits. The registration is handed to the queue and to whoever
/// cleans up after the message.
pub proof fn sends_make_progress<S>(
    flow: SendFlow,
    token: u64,
    phase: DispatchPhase,
    observation: Option<TaskObservation<S>>,
)
    ensures
        flow.stage is Observing ==> ({
            let after = flow.next(SendEvent::Observed(Ok(())), phase, observation);
            &&& after.phase == phase && after.observation == observation
            &&& flow.expect_response ==> after.action is Reserve && after.flow.stage is Reserving
            &&& !flow.expect_response ==> after.action == (SendAction::<S>::Enqueue {
                pending_token: None,
            }) && after.flow.stage is Queueing
            &&& after.flow.token == flow.token
        }),
        flow.stage is Reserving && phase.pending_cleanup is None ==> ({
            let after = flow.next(SendEvent::Reserved(Ok(token)), phase, observation);
            &&& after.observation == observation
            &&& after.action == (SendAction::<S>::Enqueue { pending_token: Some(token) })
            &&& after.flow.stage is Queueing
            &&& after.flow.token == Some(token)
            &&& after.phase.phase == phase.phase
            &&& after.phase.pending_cleanup matches Some(cleanup) && cleanup.uuid == flow.uuid
                && cleanup.token == token
        }),
        flow.stage is Queueing && flow.waits ==> ({
            let after = flow.next(SendEvent::Queued(Ok(())), phase, observation);
            &&& after.phase == phase && after.observation == observation
            &&& after.action is AwaitWrite
            &&& after.flow.stage is Writing
            &&& after.flow.token == flow.token
        }),
{
}

/// Whatever happens to a send, it stays the send of its message.
pub proof fn sends_keep_their_message<S>(
    flow: SendFlow,
    event: SendEvent,
    phase: DispatchPhase,
    observation: Option<TaskObservation<S>>,
)
    ensures
        ({
            let after = flow.next(event, phase, observation).flow;
            &&& after.uuid == flow.uuid
            &&& after.size == flow.size
            &&& after.urgent == flow.urgent
            &&& after.expect_response == flow.expect_response
            &&& after.waits == flow.waits
        }),
{
}

/// A step that fails ends the send with its error: without a listener or with
/// one that was not told anything yet the sender hears that very error, and with
/// one that was told another the sender hears the same as the listener. What was
/// registered is removed.
pub proof fn failed_steps_end_the_send<S>(
    flow: SendFlow,
    error: NetError,
    token: u64,
    phase: DispatchPhase,
    observation: Option<TaskObservation<S>>,
)
    requires
        observation matches Some(task) ==> task.wf(),
        flow.stage is Reserving ==> flow.token is None,
    ensures
        ({
            let heard = match observation {
                Some(task) => match task.selected_result {
                    Some(Err(told)) => told,
                    _ => error,
                },
                None => error,
            };
            let event = if flow.stage is Reserving {
                SendEvent::Reserved(Err(error))
            } else {
                SendEvent::Queued(Err(error))
            };
            let after = flow.next(event, phase, observation);
            &&& flow.stage is Observing ==> (flow.next(
                SendEvent::Observed(Err(error)),
                phase,
                observation,
            ).action matches SendAction::End(end) && end.result == Some(Err::<(), NetError>(error))
                && end.remove_pending is None && end.notification is None)
            &&& flow.stage is Reserving || flow.stage is Queueing ==> {
                &&& after.phase == phase
                &&& after.action matches SendAction::End(end) && {
                    &&& end.result == Some(Err::<(), NetError>(heard))
                    &&& end.remove_pending == match flow.token {
                        Some(registered) => Some((registered, error)),
                        None => None,
                    }
                    &&& !end.cancel_dispatch && !end.cancel_queued
                    &&& end.notification is Some <==> (observation matches Some(task)
                        && task.state is Some)
                    &&& end.notification matches Some(told) ==> told.event.result
                        == Err::<WebSocketTaskSuccess, NetError>(error)
                }
            }
            &&& flow.stage is Reserving && phase.pending_cleanup is Some ==> (flow.next(
                SendEvent::Reserved(Ok(token)),
                phase,
                observation,
            ).action matches SendAction::End(end) && end.result == Some(
                Err::<(), NetError>(NetError::InternalError),
            ) && end.remove_pending == Some((token, NetError::InternalError)))
        }),
{
}

/// A sender that gives up a message that is still queued takes it back
/// altogether: message, registration and observation end as cancelled, and the
/// listener is told so once. Of a message that a writer owns only the
/// cancellation is announced.
pub proof fn given_up_messages_end_as_cancelled<S>(
    flow: SendFlow,
    phase: DispatchPhase,
    task: TaskObservation<S>,
)
    requires
        flow.stage is Queueing || flow.stage is Writing,
        task.state matches Some(state) && state.cause is None,
    ensures
        ({
            let after = flow.next(SendEvent::SenderDropped, phase, Some(task));
            let queued = phase.phase == dispatch_phase::DISPATCH_QUEUED;
            let owned = phase.phase == dispatch_phase::DISPATCH_WRITING || phase.phase == dispatch_phase::DISPATCH_DATA_STARTED;
            &&& after.action matches SendAction::End(end) && {
                &&& end.result is None
                &&& end.cancel_dispatch <==> queued || owned
                &&& end.cancel_queued <==> queued && flow.stage is Writing
                &&& end.remove_pending == match flow.token {
                    Some(token) if queued => Some((token, NetError::Cancelled)),
                    _ => None,
                }
                &&& end.notification is Some <==> queued
                &&& end.notification matches Some(told) ==> {
                    &&& told.event.result == Err::<WebSocketTaskSuccess, NetError>(
                        NetError::Cancelled,
                    )
                    &&& told.event.cause is SendCancelled
                }
            }
            &&& queued ==> after.phase.phase == dispatch_phase::DISPATCH_CANCELLED_QUEUED && (after.observation matches Some(ended)
                && ended.state is None && ended.selected_result == Some(
                Err::<WebSocketTaskSuccess, NetError>(NetError::Cancelled),
            ))
            &&& owned ==> (after.observation matches Some(running) && (running.state matches Some(
                state,
            ) && state.cause == Some(WebSocketTaskEndCause::SendCancelled)))
            &&& phase.phase == dispatch_phase::DISPATCH_WRITING ==> after.phase.phase == dispatch_phase::DISPATCH_CANCELLED_WRITING
            &&& phase.phase == dispatch_phase::DISPATCH_DATA_STARTED ==> after.phase.phase == dispatch_phase::DISPATCH_CANCELLED_DATA_STARTED
            &&& !queued && !owned ==> after.phase.phase == phase.phase && after.observation == Some(
                task,
            )
        }),
{
}

} // verus!
