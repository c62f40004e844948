//! A request in the write queue and its only end.
use vstd::prelude::*;

use std::cmp::Ordering;

use crate::dispatch_phase::{DispatchPhase, PendingOutcome};
use crate::net_error::NetError;
use crate::task_event::WebSocketTaskSuccess;
use crate::task_observer::{DispatchedEvent, TaskObservation};

verus! {

/// One request, from its queue to its end.
#[derive(Debug)]
pub struct QueuedRequest<S> {
    /// Number of the pending response, if one is awaited.
    pub pending_token: Option<u64>,
    /// The higher, the earlier it is written.
    pub priority: u8,
    /// Order of arrival among equal priorities.
    pub sequence: u64,
    /// Number of the current attempt, from zero.
    pub attempt: u32,
    /// Whether an earlier attempt may have been delivered.
    pub prior_delivery_unknown: bool,
    /// Whether the sender still waits for the result.
    pub receipt_open: bool,
    /// Whether the request still occupies its place in the queue.
    pub holds_capacity: bool,
    /// Who owns the request.
    pub dispatch_phase: DispatchPhase,
    /// The observation of the task, if a listener is registered.
    pub observation: Option<TaskObservation<S>>,
}

/// What the end of a request tells.
#[derive(Debug)]
pub struct RequestEnd<S> {
    /// The result for the sender, if it still waits.
    pub receipt: Option<Result<(), NetError>>,
    /// The notification for the task listener, if one is due.
    pub notification: Option<DispatchedEvent<S>>,
}

/// The receipt of a request whose response may still arrive within a grace.
#[derive(Clone, Copy, Debug, PartialEq, Eq)]
pub struct DeferredWriteCompletion {
    /// Whether the sender still waits for the result.
    pub receipt_open: bool,
    /// Whether the place in the queue is still occupied.
    pub holds_capacity: bool,
    /// The error that the sender gets if nothing else comes.
    pub fallback_error: NetError,
}

impl DeferredWriteCompletion {
    /// Ends the wait: the place in the queue is free before the result is out.
    pub fn finish(&mut self, result: Result<(), NetError>) -> (receipt: Option<
        Result<(), NetError>,
    >)
        ensures
            receipt == if old(self).receipt_open {
                Some(result)
            } else {
                None
            },
            *final(self) == (DeferredWriteCompletion {
                receipt_open: false,
                holds_capacity: false,
                ..*old(self)
            }),
    {
        self.holds_capacity = false;
        if self.receipt_open {
            self.receipt_open = false;
            Some(result)
        } else {
            None
        }
    }

    /// Ends the wait of a receipt that is dropped: it fails with the fallback.
    pub fn abandon(&mut self) -> (receipt: Option<Result<(), NetError>>)
        ensures
            receipt == if old(self).receipt_open {
                Some(Err::<(), NetError>(old(self).fallback_error))
            } else {
                None
            },
            *final(self) == (DeferredWriteCompletion {
                receipt_open: false,
                holds_capacity: false,
                ..*old(self)
            }),
    {
        self.finish(Err(self.fallback_error))
    }
}

impl<S> QueuedRequest<S> {
    /// The error of an end with the fallback `fallback`: one that was chosen
    /// goes first, then a delivery that may have happened.
    pub open spec fn error_for(self, fallback: NetError) -> NetError {
        match self.dispatch_phase.terminal_error {
            Some(error) => error,
            None => if self.prior_delivery_unknown {
                NetError::DeliveryUnknown
            } else {
                fallback
            },
        }
    }

    /// The fallback of a request that is dropped: what a writer took over may
    /// have been delivered, what was not yet begun is dropped with its queue.
    pub open spec fn drop_fallback(self) -> NetError {
        if self.dispatch_phase.taken_over() {
            NetError::DeliveryUnknown
        } else if crate::dispatch_phase::cancelled(self.dispatch_phase.phase) {
            NetError::Cancelled
        } else {
            NetError::EngineDropped
        }
    }

    /// The result of an end with `result`: a response that was already claimed
    /// proves the delivery.
    pub open spec fn outcome(
        self,
        result: Result<(), NetError>,
        pending: PendingOutcome,
    ) -> Result<(), NetError> {
        match result {
            Ok(()) => Ok(()),
            Err(error) => if self.dispatch_phase.pending_cleanup is Some && !pending.removed
                && pending.claimed {
                Ok(())
            } else {
                Err(self.error_for(error))
            },
        }
    }

    /// The result that the task listener is told of an end with `outcome`;
    /// a written request with a pending response has not ended yet.
    pub open spec fn told(self, outcome: Result<(), NetError>) -> Option<
        Result<WebSocketTaskSuccess, NetError>,
    > {
        match outcome {
            Ok(()) => if self.pending_token is None {
                Some(Ok(WebSocketTaskSuccess::Written))
            } else {
                None
            },
            Err(error) => Some(Err(error)),
        }
    }

    /// The observation after the listener was told `told`.
    pub open spec fn observed(
        self,
        told: Option<Result<WebSocketTaskSuccess, NetError>>,
    ) -> Option<TaskObservation<S>> {
        match (self.observation, told) {
            (Some(observation), Some(result)) => Some(observation.ended(result)),
            _ => self.observation,
        }
    }

    /// The notification of `told`.
    pub open spec fn notified(
        self,
        told: Option<Result<WebSocketTaskSuccess, NetError>>,
    ) -> Option<DispatchedEvent<S>> {
        match (self.observation, told) {
            (Some(observation), Some(result)) => observation.notification(result),
            _ => None,
        }
    }

    /// The result for the sender: an error that was chosen goes first, then
    /// one that the task listener was already told.
    pub open spec fn receipt_of(
        self,
        outcome: Result<(), NetError>,
        observation: Option<TaskObservation<S>>,
    ) -> Result<(), NetError> {
        match outcome {
            Ok(()) => Ok(()),
            Err(error) => Err(
                match self.dispatch_phase.terminal_error {
                    Some(chosen) => chosen,
                    None => match observation {
                        Some(task) => match task.selected_result {
                            Some(Err(selected)) => selected,
                            _ => error,
                        },
                        None => error,
                    },
                },
            ),
        }
    }

    fn observed_error(&self, error: NetError) -> (selected: NetError)
        ensures
            self.receipt_of(Err(error), self.observation) == Err::<(), NetError>(selected),
    {
        match self.dispatch_phase.selected_error() {
            Some(chosen) => chosen,
            None => match &self.observation {
                Some(task) => match task.selected_result() {
                    Some(Err(selected)) => selected,
                    _ => error,
                },
                None => error,
            },
        }
    }

    /// The error of an end with the fallback `fallback`.
    pub fn terminal_error(&self, fallback: NetError) -> (error: NetError)
        ensures
            error == self.error_for(fallback),
    {
        match self.dispatch_phase.selected_error() {
            Some(error) => error,
            None => if self.prior_delivery_unknown {
                NetError::DeliveryUnknown
            } else {
                fallback
            },
        }
    }

    fn fallback(&self) -> (error: NetError)
        ensures
            error == self.drop_fallback(),
    {
        if self.dispatch_phase.writer_took_over() {
            NetError::DeliveryUnknown
        } else if self.dispatch_phase.is_cancelled() {
            NetError::Cancelled
        } else {
            NetError::EngineDropped
        }
    }

    /// Remembers a failed attempt. One that may have been delivered is never
    /// forgotten, neither by the request nor by its observation.
    pub fn remember_delivery_error(&mut self, error: NetError)
        ensures
            *final(self) == if error is DeliveryUnknown {
                QueuedRequest {
                    prior_delivery_unknown: true,
                    dispatch_phase: DispatchPhase {
                        prior_unknown: true,
                        ..old(self).dispatch_phase
                    },
                    observation: match old(self).observation {
                        Some(observation) => Some(remembered(observation)),
                        None => None,
                    },
                    ..*old(self)
                }
            } else {
                *old(self)
            },
    {
        if error == NetError::DeliveryUnknown {
            self.prior_delivery_unknown = true;
            self.dispatch_phase.prior_unknown = true;
            if let Some(mut observation) = self.observation.take() {
                observation.remember_unknown();
                self.observation = Some(observation);
            }
        }
    }

    fn tell(&mut self, outcome: Result<(), NetError>) -> (notification: Option<DispatchedEvent<S>>)
        ensures
            *final(self) == (QueuedRequest {
                observation: old(self).observed(old(self).told(outcome)),
                ..*old(self)
            }),
            notification == old(self).notified(old(self).told(outcome)),
    {
        let told = match outcome {
            Ok(()) => if self.pending_token.is_none() {
                Some(Ok(WebSocketTaskSuccess::Written))
            } else {
                None
            },
            Err(error) => Some(Err(error)),
        };
        match told {
            Some(result) => match self.observation.take() {
                Some(mut observation) => {
                    let notification = observation.finish(result);
                    self.observation = Some(observation);
                    notification
                },
                None => None,
            },
            None => None,
        }
    }

    fn take_receipt(&mut self, outcome: Result<(), NetError>) -> (receipt: Option<
        Result<(), NetError>,
    >)
        ensures
            receipt == if old(self).receipt_open {
                Some(old(self).receipt_of(outcome, old(self).observation))
            } else {
                None
            },
            *final(self) == (QueuedRequest { receipt_open: false, ..*old(self) }),
    {
        let result = match outcome {
            Ok(()) => Ok(()),
            Err(error) => Err(self.observed_error(error)),
        };
        if self.receipt_open {
            self.receipt_open = false;
            Some(result)
        } else {
            None
        }
    }

    /// Ends the request with `result` and frees its place in the queue.
    ///
    /// `pending` is what the table of pending responses answers when the
    /// request's response is cleaned up; it is asked only for a failure.
    pub fn complete(&mut self, result: Result<(), NetError>, pending: PendingOutcome) -> (end:
        RequestEnd<S>)
        ensures
            ({
                let outcome = old(self).outcome(result, pending);
                let told = old(self).told(outcome);
                &&& end.notification == old(self).notified(told)
                &&& end.receipt == if old(self).receipt_open {
                    Some(old(self).receipt_of(outcome, old(self).observed(told)))
                } else {
                    None
                }
                &&& *final(self) == (QueuedRequest {
                    receipt_open: false,
                    holds_capacity: false,
                    observation: old(self).observed(told),
                    dispatch_phase: DispatchPhase {
                        pending_cleanup: None,
                        phase: if old(self).dispatch_phase.phase
                            == crate::dispatch_phase::DISPATCH_QUEUED
                            || crate::dispatch_phase::writer_owns(old(self).dispatch_phase.phase) {
                            crate::dispatch_phase::DISPATCH_FINISHED
                        } else {
                            old(self).dispatch_phase.phase
                        },
                        ..old(self).dispatch_phase
                    },
                    ..*old(self)
                })
            }),
            end.receipt is Some <==> old(self).receipt_open,
            result is Ok && old(self).receipt_open ==> end.receipt == Some(Ok::<(), NetError>(())),
            result matches Err(error) ==> (old(self).receipt_open && old(
                self,
            ).dispatch_phase.terminal_error is None && !old(self).prior_delivery_unknown && old(
                self,
            ).dispatch_phase.pending_cleanup is None && old(self).observation is None
                ==> end.receipt == Some(Err::<(), NetError>(error))),
    {
        let outcome = match result {
            Ok(()) => {
                self.dispatch_phase.disarm_pending_cleanup();
                Ok(())
            },
            Err(fallback) => {
                let error = self.terminal_error(fallback);
                if self.dispatch_phase.cleanup_pending(pending) {
                    Ok(())
                } else {
                    Err(error)
                }
            },
        };
        self.dispatch_phase.finish();
        self.holds_capacity = false;
        let notification = self.tell(outcome);
        let receipt = self.take_receipt(outcome);
        RequestEnd { receipt, notification }
    }

    /// Hands the receipt over to a response that may still arrive; nothing
    /// happens if the sender no longer waits.
    pub fn defer_completion(&mut self) -> (deferred: Option<DeferredWriteCompletion>)
        ensures
            match deferred {
                Some(completion) => {
                    &&& old(self).receipt_open
                    &&& completion == (DeferredWriteCompletion {
                        receipt_open: true,
                        holds_capacity: old(self).holds_capacity,
                        fallback_error: old(self).error_for(old(self).drop_fallback()),
                    })
                    &&& *final(self) == (QueuedRequest {
                        receipt_open: false,
                        holds_capacity: false,
                        dispatch_phase: DispatchPhase {
                            pending_cleanup: None,
                            ..old(self).dispatch_phase
                        },
                        ..*old(self)
                    })
                },
                None => !old(self).receipt_open && *final(self) == *old(self),
            },
    {
        let fallback_error = self.terminal_error(self.fallback());
        if !self.receipt_open {
            return None;
        }
        let deferred = DeferredWriteCompletion {
            receipt_open: true,
            holds_capacity: self.holds_capacity,
            fallback_error,
        };
        self.receipt_open = false;
        self.holds_capacity = false;
        self.dispatch_phase.disarm_pending_cleanup();
        Some(deferred)
    }

    /// Ends a request that is dropped without a result.
    ///
    /// `deferred` tells that a response grace has adopted the receipt; then
    /// nothing is left to do. Otherwise the sender learns whether the message
    /// may have been delivered, which it may as soon as a writer has taken it
    /// over, and a connection with data in flight is retired.
    pub fn abandon(&mut self, deferred: bool, pending: PendingOutcome) -> (end: RequestEnd<S>)
        ensures
            old(self).receipt_open && old(self).dispatch_phase.pending_cleanup is Some && deferred
                ==> end.receipt is None && end.notification is None && *final(self) == *old(self),
            !(old(self).receipt_open && old(self).dispatch_phase.pending_cleanup is Some
                && deferred) ==> ({
                let request = old(self).uncertain();
                let outcome = old(self).outcome(
                    Err::<(), NetError>(old(self).drop_fallback()),
                    pending,
                );
                let told = if old(self).receipt_open {
                    old(self).told(outcome)
                } else {
                    None
                };
                &&& end.notification == request.notified(told)
                &&& end.receipt == if old(self).receipt_open {
                    Some(old(self).receipt_of(outcome, request.observed(told)))
                } else {
                    None
                }
                &&& *final(self) == (QueuedRequest {
                    receipt_open: false,
                    holds_capacity: false,
                    observation: request.observed(told),
                    dispatch_phase: DispatchPhase {
                        pending_cleanup: None,
                        ..request.dispatch_phase
                    },
                    ..*old(self)
                })
            }),
            old(self).receipt_open && old(self).dispatch_phase.pending_cleanup is None && old(
                self,
            ).dispatch_phase.terminal_error is None && !old(self).prior_delivery_unknown && old(
                self,
            ).observation is None ==> ({
                let phase = old(self).dispatch_phase.phase;
                &&& phase == crate::dispatch_phase::DISPATCH_QUEUED ==> end.receipt == Some(
                    Err::<(), NetError>(NetError::EngineDropped),
                )
                &&& phase == crate::dispatch_phase::DISPATCH_WRITING || phase
                    == crate::dispatch_phase::DISPATCH_DATA_STARTED ==> end.receipt == Some(
                    Err::<(), NetError>(NetError::DeliveryUnknown),
                )
            }),
    {
        if self.receipt_open && self.dispatch_phase.pending_cleanup.is_some() && deferred {
            return RequestEnd { receipt: None, notification: None };
        }
        let error = self.terminal_error(self.fallback());
        if error == NetError::DeliveryUnknown {
            if self.receipt_open && self.dispatch_phase.drop_has_unknown_delivery() {
                self.dispatch_phase.retire_write();
            }
            if let Some(mut observation) = self.observation.take() {
                observation.remember_unknown();
                self.observation = Some(observation);
            }
        }
        assert(*self == old(self).uncertain());
        let outcome = if self.dispatch_phase.cleanup_pending(pending) {
            Ok(())
        } else {
            Err(error)
        };
        self.holds_capacity = false;
        let notification = if self.receipt_open {
            self.tell(outcome)
        } else {
            None
        };
        let receipt = self.take_receipt(outcome);
        RequestEnd { receipt, notification }
    }

    /// The request with everything remembered that its drop makes uncertain.
    pub open spec fn uncertain(self) -> QueuedRequest<S> {
        if self.error_for(self.drop_fallback()) is DeliveryUnknown {
            QueuedRequest {
                observation: match self.observation {
                    Some(observation) => Some(remembered(observation)),
                    None => None,
                },
                dispatch_phase: DispatchPhase {
                    write_retirement: if self.receipt_open
                        && self.dispatch_phase.may_be_delivered() {
                        self.dispatch_phase.write_retirement.after_retire()
                    } else {
                        self.dispatch_phase.write_retirement
                    },
                    ..self.dispatch_phase
                },
                ..self
            }
        } else {
            self
        }
    }

    /// The request after its writer gave it back to its queue.
    pub open spec fn requeued(self) -> QueuedRequest<S> {
        QueuedRequest {
            dispatch_phase: DispatchPhase {
                phase: crate::dispatch_phase::DISPATCH_QUEUED,
                ..self.dispatch_phase
            },
            observation: match self.observation {
                Some(task) => Some(
                    task.marked(
                        crate::task_observer::WebSocketTaskEvent {
                            phase: crate::task_event::WebSocketTaskPhase::Queued,
                            ..task.state->0.event
                        },
                    ),
                ),
                None => None,
            },
            ..self
        }
    }

    /// The writer gives the request back to its queue, and the observation of
    /// the task follows. Only a writer that owns the request can do so.
    pub fn requeue(&mut self) -> (requeued: bool)
        ensures
            requeued == crate::dispatch_phase::writer_owns(old(self).dispatch_phase.phase),
            *final(self) == if requeued {
                old(self).requeued()
            } else {
                *old(self)
            },
    {
        let requeued = self.dispatch_phase.requeue();
        if requeued {
            if let Some(mut observation) = self.observation.take() {
                observation.mark_requeued();
                self.observation = Some(observation);
            }
        }
        requeued
    }

    /// Whether two requests have the same place in the order of writing.
    pub open spec fn same_place(self, other: QueuedRequest<S>) -> bool {
        self.priority == other.priority && self.sequence == other.sequence
    }

    /// Whether this request is written before another one: the higher priority
    /// first, among equal priorities the earlier arrival.
    pub open spec fn precedes(self, other: QueuedRequest<S>) -> bool {
        self.priority > other.priority || (self.priority == other.priority && self.sequence
            < other.sequence)
    }

    /// Whether this request is written before another one.
    pub fn is_before(&self, other: &Self) -> (before: bool)
        ensures
            before == self.precedes(*other),
    {
        self.priority > other.priority || (self.priority == other.priority && self.sequence
            < other.sequence)
    }
}

/// Requests are equal when they have the same place in the order of writing;
/// what they carry does not count.
impl<S> PartialEq for QueuedRequest<S> {
    fn eq(&self, other: &Self) -> (equal: bool) {
        self.priority == other.priority && self.sequence == other.sequence
    }
}

impl<S> vstd::std_specs::cmp::PartialEqSpecImpl for QueuedRequest<S> {
    open spec fn obeys_eq_spec() -> bool {
        true
    }

    open spec fn eq_spec(&self, other: &Self) -> bool {
        self.same_place(*other)
    }
}

impl<S> Eq for QueuedRequest<S> {

}

/// The request that is written first is the greatest.
impl<S> PartialOrd for QueuedRequest<S> {
    fn partial_cmp(&self, other: &Self) -> (order: Option<Ordering>) {
        if self.is_before(other) {
            Some(Ordering::Greater)
        } else if other.is_before(self) {
            Some(Ordering::Less)
        } else {
            Some(Ordering::Equal)
        }
    }
}

impl<S> vstd::std_specs::cmp::PartialOrdSpecImpl for QueuedRequest<S> {
    open spec fn obeys_partial_cmp_spec() -> bool {
        true
    }

    open spec fn partial_cmp_spec(&self, other: &Self) -> Option<Ordering> {
        if self.precedes(*other) {
            Some(Ordering::Greater)
        } else if other.precedes(*self) {
            Some(Ordering::Less)
        } else {
            Some(Ordering::Equal)
        }
    }
}

/// The task after a write of it ended without a clear result.
pub open spec fn remembered<S>(task: TaskObservation<S>) -> TaskObservation<S> {
    task.marked(
        crate::task_observer::WebSocketTaskEvent {
            delivery: if task.state->0.event.delivery is Written
                || task.state->0.event.delivery is ResponseClaimed {
                task.state->0.event.delivery
            } else {
                crate::task_event::WebSocketTaskDelivery::Unknown
            },
            ..task.state->0.event
        },
    )
}

/// The order of writing is strict and total: of two requests exactly one goes
/// first unless they have the same place, and the order is transitive.
pub proof fn writing_order_is_total<S>(
    first: QueuedRequest<S>,
    second: QueuedRequest<S>,
    third: QueuedRequest<S>,
)
    ensures
        first.same_place(second) == (!first.precedes(second) && !second.precedes(first)),
        !(first.precedes(second) && second.precedes(first)),
        !first.precedes(first),
        first.precedes(second) && second.precedes(third) ==> first.precedes(third),
{
}

/// A request that a writer took over is never reported as cancelled or dropped
/// when it ends without a result, unless another error was chosen before. One
/// that was not begun, and of which no earlier attempt is uncertain, is
/// reported as dropped.
pub proof fn uncertain_delivery_is_reported<S>(request: QueuedRequest<S>, fallback: NetError)
    requires
        request.dispatch_phase.terminal_error is None,
    ensures
        request.prior_delivery_unknown ==> request.error_for(fallback) is DeliveryUnknown,
        request.dispatch_phase.taken_over() ==> request.error_for(
            request.drop_fallback(),
        ) is DeliveryUnknown,
        request.dispatch_phase.phase == crate::dispatch_phase::DISPATCH_QUEUED
            && !request.prior_delivery_unknown ==> request.error_for(
            request.drop_fallback(),
        ) is EngineDropped,
{
}

/// The sender and the task listener are told the same error when the listener
/// is told at the end of the request and nothing was chosen before.
pub proof fn sender_and_listener_agree<S>(
    request: QueuedRequest<S>,
    result: Result<(), NetError>,
    pending: PendingOutcome,
)
    requires
        request.observation matches Some(task) && task.wf() && task.state is Some,
        request.dispatch_phase.terminal_error is None,
    ensures
        ({
            let outcome = request.outcome(result, pending);
            let told = request.told(outcome);
            outcome is Err ==> request.receipt_of(outcome, request.observed(told)) == outcome
                && told == Some(Err::<WebSocketTaskSuccess, NetError>(outcome->Err_0))
        }),
{
}

/// A request that was written succeeds, and one that failed fails with its error:
/// the one that was chosen before, an uncertain delivery of an earlier attempt, or
/// the one of the failure. Only a response that was already claimed turns a failure
/// into a success.
pub proof fn requests_end_with_what_happened<S>(
    request: QueuedRequest<S>,
    error: NetError,
    pending: PendingOutcome,
)
    ensures
        ({
            let claimed = request.dispatch_phase.pending_cleanup is Some && pending.claimed
                && !pending.removed;
            let outcome = request.outcome(Err(error), pending);
            &&& request.outcome(Ok(()), pending) is Ok
            &&& outcome is Ok <==> claimed
            &&& !claimed ==> outcome == Err::<(), NetError>(
                match request.dispatch_phase.terminal_error {
                    Some(chosen) => chosen,
                    None => if request.prior_delivery_unknown {
                        NetError::DeliveryUnknown
                    } else {
                        error
                    },
                },
            )
        }),
{
}

/// The sender of a request hears how it ended, and so does the listener: a success
/// as soon as no response is awaited any more, a failure at once. What the listener
/// was told before binds the sender too.
pub proof fn everybody_hears_how_requests_end<S>(request: QueuedRequest<S>, error: NetError)
    ensures
        request.told(Ok(())) == if request.pending_token is None {
            Some(Ok::<WebSocketTaskSuccess, NetError>(WebSocketTaskSuccess::Written))
        } else {
            None
        },
        request.told(Err(error)) == Some(Err::<WebSocketTaskSuccess, NetError>(error)),
        request.receipt_of(Ok(()), request.observation) is Ok,
        request.receipt_of(Err(error), request.observation) == Err::<(), NetError>(
            match request.dispatch_phase.terminal_error {
                Some(chosen) => chosen,
                None => match request.observation {
                    Some(task) => match task.selected_result {
                        Some(Err(told)) => told,
                        _ => error,
                    },
                    None => error,
                },
            },
        ),
        request.observation matches Some(task) ==> (task.state matches Some(state) ==> ({
            let told = request.notified(request.told(Err(error)));
            &&& told matches Some(notification) && notification.event.result == Err::<
                WebSocketTaskSuccess,
                NetError,
            >(error) && notification.permit == state.permit
            &&& request.observed(request.told(Err(error))) matches Some(ended) && ended.state
                is None && ended.selected_result == Some(
                Err::<WebSocketTaskSuccess, NetError>(error),
            )
        })),
        request.observation is None ==> request.notified(request.told(Err(error))) is None,
{
}

/// A request that is dropped without a result is uncertain once a writer took it
/// over, cancelled if it was cancelled before, and dropped with the client
/// otherwise. Its connection is retired exactly if data of a request that somebody
/// waits for was in flight.
pub proof fn dropped_requests_say_how_far_they_came<S>(request: QueuedRequest<S>)
    ensures
        ({
            let phase = request.dispatch_phase.phase;
            let flight = phase == crate::dispatch_phase::DISPATCH_COMMITTED || phase == crate::dispatch_phase::DISPATCH_DATA_STARTED || phase == crate::dispatch_phase::DISPATCH_CANCELLED_DATA_STARTED;
            let retirement = request.dispatch_phase.write_retirement;
            let after = request.uncertain();
            &&& phase == crate::dispatch_phase::DISPATCH_WRITING || flight ==> request.drop_fallback() is DeliveryUnknown
            &&& phase == crate::dispatch_phase::DISPATCH_CANCELLED_QUEUED || phase == crate::dispatch_phase::DISPATCH_CANCELLED_WRITING ==> request.drop_fallback() is Cancelled
            &&& phase == crate::dispatch_phase::DISPATCH_QUEUED || phase == crate::dispatch_phase::DISPATCH_FINISHED ==> request.drop_fallback() is EngineDropped
            &&& request.dispatch_phase.terminal_error is None ==> (
            after.dispatch_phase.write_retirement.retired <==> retirement.retired || (flight
                && request.receipt_open && retirement.bound))
            &&& after.receipt_open == request.receipt_open
            &&& after.dispatch_phase.phase == phase
            &&& after.dispatch_phase.terminal_error == request.dispatch_phase.terminal_error
        }),
{
}

/// A request that its writer gives back waits in its queue again, and nothing else
/// of it changes.
pub proof fn requeued_requests_wait_again<S>(request: QueuedRequest<S>)
    ensures
        ({
            let after = request.requeued();
            &&& after.dispatch_phase.phase == crate::dispatch_phase::DISPATCH_QUEUED
            &&& after.same_place(request)
            &&& after.receipt_open == request.receipt_open
            &&& after.pending_token == request.pending_token
            &&& after.prior_delivery_unknown == request.prior_delivery_unknown
            &&& after.dispatch_phase.pending_cleanup == request.dispatch_phase.pending_cleanup
            &&& request.observation matches Some(task) ==> (after.observation matches Some(
                waiting,
            ) && (task.state is Some <==> waiting.state is Some) && (waiting.state matches Some(
                state,
            ) ==> state.event.phase is Queued && state.permit == task.state->0.permit
                && state.event.result == task.state->0.event.result && state.event.delivery
                == task.state->0.event.delivery))
        }),
{
}

/// The higher priority is written first, and among equal ones the earlier arrival.
pub proof fn urgency_goes_before_arrival<S>(first: QueuedRequest<S>, second: QueuedRequest<S>)
    ensures
        first.priority > second.priority ==> first.precedes(second),
        first.priority == second.priority && first.sequence < second.sequence ==> first.precedes(
            second,
        ),
        first.same_place(second) <==> first.priority == second.priority && first.sequence
            == second.sequence,
{
}

/// A write without a clear result makes the delivery unknown, unless it was known
/// before, and nothing else of the task changes.
pub proof fn unclear_writes_are_remembered<S>(task: TaskObservation<S>)
    ensures
        task.state is None ==> remembered(task) == task,
        task.state matches Some(state) ==> (remembered(task).state matches Some(after) && {
            &&& state.event.delivery is NotStarted || state.event.delivery is Unknown
                ==> after.event.delivery is Unknown
            &&& state.event.delivery is Written || state.event.delivery is ResponseClaimed
                ==> after.event.delivery == state.event.delivery
            &&& after.event.phase == state.event.phase
            &&& after.event.result == state.event.result
            &&& after.cause == state.cause && after.permit == state.permit
        }),
        remembered(task).selected_result == task.selected_result,
{
}

} // verus!
