//! Who owns a request between its sender and the writer.
//!
//! Every operation is one atomic step on the phase; the phase decides the race
//! between a sender that gives up, a writer that starts and one that commits.
use vstd::prelude::*;

use crate::clock::{is_past, Instant};
use crate::net_error::NetError;

verus! {

/// The request waits in its queue.
pub const DISPATCH_QUEUED: u8 = 0;

/// A writer owns the request; none of its data was written.
pub const DISPATCH_WRITING: u8 = 1;

/// The request was written in full.
pub const DISPATCH_COMMITTED: u8 = 2;

/// The request ended without being committed.
pub const DISPATCH_FINISHED: u8 = 3;

/// The request was cancelled in its queue.
pub const DISPATCH_CANCELLED_QUEUED: u8 = 4;

/// The request was cancelled before any of its data was written.
pub const DISPATCH_CANCELLED_WRITING: u8 = 5;

/// Some of the request's data was written.
pub const DISPATCH_DATA_STARTED: u8 = 6;

/// The request was cancelled after some of its data was written.
pub const DISPATCH_CANCELLED_DATA_STARTED: u8 = 7;

/// What a cancellation found.
#[derive(Clone, Copy, Debug, PartialEq, Eq, Structural)]
pub enum DispatchCancellation {
    /// The request was queued; the canceller cleans up.
    Queued,
    /// A writer owns the request and cleans up.
    Writing,
    /// The request was already committed, finished or cancelled.
    AlreadyResolved,
}

/// The response that a request waits for, while its writer may still fail.
#[derive(Debug)]
pub struct PendingCleanup {
    /// The caller's identifier of the request.
    pub uuid: String,
    /// Number of the registration, so that a later one is left alone.
    pub token: u64,
}

/// What the table of pending responses answered to a cleanup.
#[derive(Clone, Copy, Debug, PartialEq, Eq, Structural)]
pub struct PendingOutcome {
    /// Whether the registration was still there and was removed.
    pub removed: bool,
    /// Whether a response had claimed it.
    pub claimed: bool,
}

/// The connection that a request's data was written to.
#[derive(Clone, Copy, Debug, PartialEq, Eq, Structural)]
pub struct WriteRetirement {
    /// Whether a connection is bound.
    pub bound: bool,
    /// Whether the bound connection may not be used any more.
    pub retired: bool,
}

/// The ownership of one request.
#[derive(Debug)]
pub struct DispatchPhase {
    /// The phase.
    pub phase: u8,
    /// Whether an earlier attempt may have been delivered.
    pub prior_unknown: bool,
    /// The error that was chosen first.
    pub terminal_error: Option<NetError>,
    /// The connection that the writer uses.
    pub write_retirement: WriteRetirement,
    /// When neither data nor a commit is accepted any more.
    pub response_deadline: Option<Instant>,
    /// The response to clean up when the request fails.
    pub pending_cleanup: Option<PendingCleanup>,
}

/// Whether a writer owns a request in this phase.
pub open spec fn writer_owns(phase: u8) -> bool {
    phase == DISPATCH_WRITING || phase == DISPATCH_DATA_STARTED
}

/// Whether the phase is one of a cancelled request.
pub open spec fn cancelled(phase: u8) -> bool {
    phase == DISPATCH_CANCELLED_QUEUED || phase == DISPATCH_CANCELLED_WRITING || phase
        == DISPATCH_CANCELLED_DATA_STARTED
}

/// The phase after a cancellation.
pub open spec fn after_cancel(phase: u8) -> u8 {
    if phase == DISPATCH_QUEUED {
        DISPATCH_CANCELLED_QUEUED
    } else if phase == DISPATCH_WRITING {
        DISPATCH_CANCELLED_WRITING
    } else if phase == DISPATCH_DATA_STARTED {
        DISPATCH_CANCELLED_DATA_STARTED
    } else {
        phase
    }
}

/// What a cancellation finds in this phase.
pub open spec fn cancellation_of(phase: u8) -> DispatchCancellation {
    if phase == DISPATCH_QUEUED {
        DispatchCancellation::Queued
    } else if writer_owns(phase) {
        DispatchCancellation::Writing
    } else {
        DispatchCancellation::AlreadyResolved
    }
}

/// The error of a request that is cancelled for the reason `requested`.
pub open spec fn cancellation_error(
    phase: u8,
    prior_unknown: bool,
    requested: NetError,
) -> NetError {
    let after = after_cancel(phase);
    if after == DISPATCH_CANCELLED_DATA_STARTED {
        NetError::DeliveryUnknown
    } else if cancelled(after) && prior_unknown {
        NetError::DeliveryUnknown
    } else {
        requested
    }
}

/// Cancels a phase that can still be cancelled. Values that are no phase are
/// left alone.
pub fn cancel_phase(phase: &mut u8) -> (cancellation: DispatchCancellation)
    ensures
        *final(phase) == after_cancel(*old(phase)),
        cancellation == cancellation_of(*old(phase)),
{
    if *phase == DISPATCH_QUEUED {
        *phase = DISPATCH_CANCELLED_QUEUED;
        DispatchCancellation::Queued
    } else if *phase == DISPATCH_WRITING {
        *phase = DISPATCH_CANCELLED_WRITING;
        DispatchCancellation::Writing
    } else if *phase == DISPATCH_DATA_STARTED {
        *phase = DISPATCH_CANCELLED_DATA_STARTED;
        DispatchCancellation::Writing
    } else {
        DispatchCancellation::AlreadyResolved
    }
}

impl WriteRetirement {
    /// The retirement after the data of a request was cancelled in flight.
    pub open spec fn after_retire(self) -> WriteRetirement {
        WriteRetirement { retired: self.retired || self.bound, ..self }
    }
}

impl DispatchPhase {
    /// Whether some of the data may have reached the peer.
    pub open spec fn may_be_delivered(self) -> bool {
        self.phase == DISPATCH_DATA_STARTED || self.phase == DISPATCH_COMMITTED || self.phase
            == DISPATCH_CANCELLED_DATA_STARTED
    }

    /// Whether a writer took the request over and neither gave it back nor
    /// ended it, and nobody cancelled it before its data was started.
    pub open spec fn taken_over(self) -> bool {
        self.phase == DISPATCH_WRITING || self.may_be_delivered()
    }

    /// The request after its sender gave it up.
    pub open spec fn withdrawn(self) -> DispatchPhase {
        DispatchPhase {
            phase: after_cancel(self.phase),
            write_retirement: if after_cancel(self.phase) == DISPATCH_CANCELLED_DATA_STARTED {
                self.write_retirement.after_retire()
            } else {
                self.write_retirement
            },
            ..self
        }
    }

    /// The request after a cancellation for the reason `requested`.
    pub open spec fn cancelled_for(self, requested: NetError) -> DispatchPhase {
        DispatchPhase {
            phase: after_cancel(self.phase),
            terminal_error: match self.terminal_error {
                Some(first) => Some(first),
                None => Some(cancellation_error(self.phase, self.prior_unknown, requested)),
            },
            write_retirement: if after_cancel(self.phase) == DISPATCH_CANCELLED_DATA_STARTED {
                self.write_retirement.after_retire()
            } else {
                self.write_retirement
            },
            ..self
        }
    }

    /// Whether a writer may go on with the request at `now`.
    pub open spec fn may_go_on(self, now: Instant) -> bool {
        writer_owns(self.phase) && !crate::clock::deadline_passed(now, self.response_deadline)
    }

    /// The request after a writer asked to take it from its queue.
    pub open spec fn taken(self) -> DispatchPhase {
        if self.phase == DISPATCH_QUEUED {
            DispatchPhase { phase: DISPATCH_WRITING, ..self }
        } else {
            self
        }
    }

    /// The request after its writer asked to go on to `phase` at `now`.
    pub open spec fn gone_on(self, phase: u8, now: Instant) -> DispatchPhase {
        if crate::clock::deadline_passed(now, self.response_deadline) {
            self.cancelled_for(NetError::TimeoutError)
        } else if writer_owns(self.phase) {
            DispatchPhase { phase, ..self }
        } else {
            self
        }
    }

    /// The request after its writer asked to give it back.
    pub open spec fn given_back(self) -> DispatchPhase {
        if writer_owns(self.phase) {
            DispatchPhase { phase: DISPATCH_QUEUED, ..self }
        } else {
            self
        }
    }

    /// The request once nobody handles it any more.
    pub open spec fn left_alone(self) -> DispatchPhase {
        if self.phase == DISPATCH_QUEUED || writer_owns(self.phase) {
            DispatchPhase { phase: DISPATCH_FINISHED, ..self }
        } else {
            self
        }
    }

    /// A request that was just queued.
    pub fn new() -> (dispatch: Self)
        ensures
            dispatch == (DispatchPhase {
                phase: DISPATCH_QUEUED,
                prior_unknown: false,
                terminal_error: None,
                write_retirement: WriteRetirement { bound: false, retired: false },
                response_deadline: None,
                pending_cleanup: None,
            }),
    {
        DispatchPhase {
            phase: DISPATCH_QUEUED,
            prior_unknown: false,
            terminal_error: None,
            write_retirement: WriteRetirement { bound: false, retired: false },
            response_deadline: None,
            pending_cleanup: None,
        }
    }

    /// Names the response to clean up when the request fails. A second one is
    /// refused and does not replace the first.
    pub fn set_pending_cleanup(&mut self, uuid: String, token: u64) -> (result: Result<
        (),
        NetError,
    >)
        ensures
            match result {
                Ok(()) => {
                    &&& old(self).pending_cleanup is None
                    &&& *final(self) == (DispatchPhase {
                        pending_cleanup: Some(PendingCleanup { uuid, token }),
                        ..*old(self)
                    })
                },
                Err(error) => {
                    &&& error is InternalError
                    &&& old(self).pending_cleanup is Some
                    &&& *final(self) == *old(self)
                },
            },
    {
        if self.pending_cleanup.is_some() {
            return Err(NetError::InternalError);
        }
        self.pending_cleanup = Some(PendingCleanup { uuid, token });
        Ok(())
    }

    /// Forgets the response to clean up. The answer tells whether a response
    /// had claimed the request before it failed: that proves delivery.
    pub fn cleanup_pending(&mut self, outcome: PendingOutcome) -> (delivered: bool)
        ensures
            delivered == (old(self).pending_cleanup is Some && !outcome.removed && outcome.claimed),
            *final(self) == (DispatchPhase { pending_cleanup: None, ..*old(self) }),
    {
        match self.pending_cleanup.take() {
            Some(_) => !outcome.removed && outcome.claimed,
            None => false,
        }
    }

    /// Forgets the response to clean up, because the request was written.
    pub fn disarm_pending_cleanup(&mut self)
        ensures
            *final(self) == (DispatchPhase { pending_cleanup: None, ..*old(self) }),
    {
        self.pending_cleanup = None;
    }

    /// Whether a response has already proved the delivery.
    pub fn take_write_response_claim(&self, claimed: bool) -> (delivered: bool)
        ensures
            delivered == (self.pending_cleanup is Some && claimed),
    {
        self.pending_cleanup.is_some() && claimed
    }

    /// Cancels the request for its sender. Data in flight retires the
    /// connection that it was written to.
    pub fn cancel(&mut self) -> (cancellation: DispatchCancellation)
        ensures
            cancellation == cancellation_of(old(self).phase),
            *final(self) == old(self).withdrawn(),
    {
        let cancellation = cancel_phase(&mut self.phase);
        if self.phase == DISPATCH_CANCELLED_DATA_STARTED {
            self.retire_write();
        }
        cancellation
    }

    /// Cancels the request and chooses its error. The first error that is
    /// chosen stands; a delivery that may have happened goes before the
    /// requested reason.
    pub fn select_cancellation(&mut self, requested: NetError) -> (selected: NetError)
        ensures
            *final(self) == old(self).cancelled_for(requested),
            final(self).terminal_error == Some(selected),
    {
        let _ = cancel_phase(&mut self.phase);
        if self.phase == DISPATCH_CANCELLED_DATA_STARTED {
            self.retire_write();
        }
        let chosen = if self.phase == DISPATCH_CANCELLED_DATA_STARTED {
            NetError::DeliveryUnknown
        } else if self.is_cancelled() && self.prior_unknown {
            NetError::DeliveryUnknown
        } else {
            requested
        };
        self.record_terminal_error(chosen)
    }

    /// Chooses an error, unless one was chosen before.
    pub fn record_terminal_error(&mut self, error: NetError) -> (selected: NetError)
        ensures
            selected == match old(self).terminal_error {
                Some(first) => first,
                None => error,
            },
            *final(self) == (DispatchPhase { terminal_error: Some(selected), ..*old(self) }),
    {
        match self.terminal_error {
            Some(first) => first,
            None => {
                self.terminal_error = Some(error);
                error
            },
        }
    }

    /// The error that was chosen first.
    pub fn selected_error(&self) -> (error: Option<NetError>)
        ensures
            error == self.terminal_error,
    {
        self.terminal_error
    }

    /// Binds the connection that the writer uses. If data was cancelled in
    /// flight the connection is retired at once.
    pub fn bind_write_retirement(&mut self)
        ensures
            *final(self) == (DispatchPhase {
                write_retirement: WriteRetirement {
                    bound: true,
                    retired: old(self).phase == DISPATCH_CANCELLED_DATA_STARTED,
                },
                ..*old(self)
            }),
    {
        self.write_retirement = WriteRetirement {
            bound: true,
            retired: self.phase == DISPATCH_CANCELLED_DATA_STARTED,
        };
    }

    /// Retires the bound connection.
    pub fn retire_write(&mut self)
        ensures
            *final(self) == (DispatchPhase {
                write_retirement: old(self).write_retirement.after_retire(),
                ..*old(self)
            }),
    {
        if self.write_retirement.bound {
            self.write_retirement.retired = true;
        }
    }

    /// Sets when neither data nor a commit is accepted any more.
    pub fn set_response_deadline(&mut self, deadline: Option<Instant>)
        ensures
            *final(self) == (DispatchPhase { response_deadline: deadline, ..*old(self) }),
    {
        self.response_deadline = deadline;
    }

    /// When neither data nor a commit is accepted any more.
    pub fn response_deadline(&self) -> (deadline: Option<Instant>)
        ensures
            deadline == self.response_deadline,
    {
        self.response_deadline
    }

    /// A writer takes the request from its queue, unless it was cancelled.
    pub fn start_writing(&mut self) -> (started: bool)
        ensures
            started == (old(self).phase == DISPATCH_QUEUED),
            *final(self) == old(self).taken(),
    {
        if self.phase == DISPATCH_QUEUED {
            self.phase = DISPATCH_WRITING;
            true
        } else {
            false
        }
    }

    /// Asks to write the next piece of data. At or after the deadline the
    /// request is cancelled instead.
    pub fn start_data_write(&mut self, now: Instant) -> (admitted: bool)
        ensures
            admitted == old(self).may_go_on(now),
            *final(self) == old(self).gone_on(DISPATCH_DATA_STARTED, now),
    {
        if is_past(now, self.response_deadline) {
            let _ = self.select_cancellation(NetError::TimeoutError);
            return false;
        }
        if self.phase == DISPATCH_WRITING || self.phase == DISPATCH_DATA_STARTED {
            self.phase = DISPATCH_DATA_STARTED;
            true
        } else {
            false
        }
    }

    /// Whether some of the data was written.
    pub fn data_write_started(&self) -> (started: bool)
        ensures
            started == self.may_be_delivered(),
    {
        self.phase == DISPATCH_DATA_STARTED || self.phase == DISPATCH_CANCELLED_DATA_STARTED
            || self.phase == DISPATCH_COMMITTED
    }

    /// Publishes that the request was written in full. At or after the
    /// deadline the request is cancelled instead.
    pub fn commit(&mut self, now: Instant) -> (committed: bool)
        ensures
            committed == old(self).may_go_on(now),
            *final(self) == old(self).gone_on(DISPATCH_COMMITTED, now),
    {
        if is_past(now, self.response_deadline) {
            let _ = self.select_cancellation(NetError::TimeoutError);
            return false;
        }
        if self.phase == DISPATCH_WRITING || self.phase == DISPATCH_DATA_STARTED {
            self.phase = DISPATCH_COMMITTED;
            true
        } else {
            false
        }
    }

    /// The writer gives the request back to its queue.
    pub fn requeue(&mut self) -> (requeued: bool)
        ensures
            requeued == writer_owns(old(self).phase),
            *final(self) == old(self).given_back(),
    {
        if self.phase == DISPATCH_WRITING || self.phase == DISPATCH_DATA_STARTED {
            self.phase = DISPATCH_QUEUED;
            true
        } else {
            false
        }
    }

    /// Ends a request that nobody handles any more; a commit and a
    /// cancellation stay what they are.
    pub fn finish(&mut self)
        ensures
            *final(self) == old(self).left_alone(),
    {
        if self.phase == DISPATCH_QUEUED || self.phase == DISPATCH_WRITING || self.phase
            == DISPATCH_DATA_STARTED {
            self.phase = DISPATCH_FINISHED;
        }
    }

    /// Whether the request was cancelled.
    pub fn is_cancelled(&self) -> (cancelled_now: bool)
        ensures
            cancelled_now == cancelled(self.phase),
    {
        self.phase == DISPATCH_CANCELLED_QUEUED || self.phase == DISPATCH_CANCELLED_WRITING
            || self.phase == DISPATCH_CANCELLED_DATA_STARTED
    }

    /// The handle of the request for whoever waits for its response.
    pub fn cancellation_handle(self) -> (handle: DispatchCancellationHandle)
        ensures
            handle.wf(),
            handle == (DispatchCancellationHandle {
                request: Some(self),
                terminal_error: self.terminal_error,
            }),
    {
        let terminal_error = self.terminal_error;
        DispatchCancellationHandle { request: Some(self), terminal_error }
    }

    /// Whether a writer took the request over, so that nobody but the writer
    /// can tell how far it came.
    pub fn writer_took_over(&self) -> (taken: bool)
        ensures
            taken == self.taken_over(),
    {
        self.phase == DISPATCH_WRITING || self.drop_has_unknown_delivery()
    }

    /// Whether dropping the request leaves data in flight.
    pub fn drop_has_unknown_delivery(&self) -> (unknown: bool)
        ensures
            unknown == self.may_be_delivered(),
    {
        self.phase == DISPATCH_DATA_STARTED || self.phase == DISPATCH_COMMITTED || self.phase
            == DISPATCH_CANCELLED_DATA_STARTED
    }
}

/// What is left of a request for whoever waits for its response. It does not
/// keep the request alive: once the writer is gone only the chosen error is
/// left.
#[derive(Debug)]
pub struct DispatchCancellationHandle {
    /// The request, as long as somebody handles it.
    pub request: Option<DispatchPhase>,
    /// The error that was chosen first.
    pub terminal_error: Option<NetError>,
}

impl DispatchCancellationHandle {
    /// The handle and the request agree on the error.
    pub open spec fn wf(self) -> bool {
        self.request matches Some(dispatch) ==> dispatch.terminal_error == self.terminal_error
    }

    /// The handle after a cancellation for the reason `requested`.
    pub open spec fn cancelled_for(self, requested: NetError) -> DispatchCancellationHandle {
        match self.request {
            Some(dispatch) => DispatchCancellationHandle {
                request: Some(dispatch.cancelled_for(requested)),
                terminal_error: dispatch.cancelled_for(requested).terminal_error,
            },
            None => DispatchCancellationHandle {
                request: None,
                terminal_error: match self.terminal_error {
                    Some(first) => Some(first),
                    None => Some(requested),
                },
            },
        }
    }

    /// The handle once nobody handles the request any more.
    pub open spec fn orphaned(self) -> DispatchCancellationHandle {
        DispatchCancellationHandle { request: None, ..self }
    }

    /// Nobody handles the request any more; what was to be cleaned up with it
    /// is not retained.
    pub fn writer_dropped(&mut self) -> (request: Option<DispatchPhase>)
        ensures
            request == old(self).request,
            *final(self) == old(self).orphaned(),
    {
        self.request.take()
    }

    /// Cancels the request, if somebody still handles it, and chooses its
    /// error. Of a request that is gone the first reason that is requested
    /// stands.
    pub fn select_cancellation(&mut self, requested: NetError) -> (selected: NetError)
        requires
            old(self).wf(),
        ensures
            final(self).wf(),
            *final(self) == old(self).cancelled_for(requested),
            final(self).terminal_error == Some(selected),
    {
        match self.request.take() {
            Some(mut dispatch) => {
                let selected = dispatch.select_cancellation(requested);
                self.terminal_error = Some(selected);
                self.request = Some(dispatch);
                selected
            },
            None => self.record_terminal_error(requested),
        }
    }

    /// Chooses an error, unless one was chosen before.
    pub fn record_terminal_error(&mut self, error: NetError) -> (selected: NetError)
        requires
            old(self).wf(),
        ensures
            final(self).wf(),
            selected == match old(self).terminal_error {
                Some(first) => first,
                None => error,
            },
            final(self).terminal_error == Some(selected),
            final(self).request == match old(self).request {
                Some(dispatch) => Some(
                    DispatchPhase { terminal_error: Some(selected), ..dispatch },
                ),
                None => None,
            },
    {
        let selected = match self.terminal_error {
            Some(first) => first,
            None => error,
        };
        self.terminal_error = Some(selected);
        match self.request.take() {
            Some(mut dispatch) => {
                let _ = dispatch.record_terminal_error(selected);
                self.request = Some(dispatch);
            },
            None => {},
        }
        selected
    }

    /// The error that was chosen first.
    pub fn selected_error(&self) -> (error: Option<NetError>)
        ensures
            error == self.terminal_error,
    {
        self.terminal_error
    }
}

/// An error that was chosen stays chosen after the writer is gone, and a reason
/// that is requested only then is recorded as it is. Nothing of the request is
/// retained.
pub proof fn chosen_errors_outlive_the_writer(
    handle: DispatchCancellationHandle,
    first: NetError,
    second: NetError,
)
    requires
        handle.wf(),
    ensures
        handle.orphaned().request is None,
        handle.orphaned().wf(),
        handle.cancelled_for(first).orphaned().cancelled_for(second).terminal_error
            == handle.cancelled_for(first).terminal_error,
        handle.terminal_error is None ==> handle.orphaned().cancelled_for(second).terminal_error
            == Some(second),
        handle.terminal_error is Some ==> handle.orphaned().cancelled_for(second).terminal_error
            == handle.terminal_error,
{
}

/// A cancelled request stays cancelled: no second cancellation, writer,
/// commit, requeue or end finds it in another phase.
pub proof fn cancellation_is_stable(phase: u8)
    requires
        cancelled(phase),
    ensures
        after_cancel(phase) == phase,
        cancellation_of(phase) is AlreadyResolved,
        !writer_owns(phase),
        phase != DISPATCH_QUEUED,
{
}

/// A request that was committed or finished cannot be cancelled any more.
pub proof fn resolved_requests_cannot_be_cancelled(phase: u8)
    requires
        phase == DISPATCH_COMMITTED || phase == DISPATCH_FINISHED,
    ensures
        after_cancel(phase) == phase,
        cancellation_of(phase) is AlreadyResolved,
        !writer_owns(phase),
{
}

/// The first error that is chosen stands, whatever is requested afterwards.
pub proof fn the_first_error_stands(dispatch: DispatchPhase, first: NetError, second: NetError)
    ensures
        dispatch.cancelled_for(first).cancelled_for(second) == dispatch.cancelled_for(first),
        dispatch.terminal_error is Some ==> dispatch.cancelled_for(first).terminal_error
            == dispatch.terminal_error,
{
}

/// Once data was written, no cancellation claims that nothing was delivered.
pub proof fn started_data_is_never_reported_as_unsent(
    dispatch: DispatchPhase,
    requested: NetError,
)
    requires
        dispatch.phase == DISPATCH_DATA_STARTED,
        dispatch.terminal_error is None,
    ensures
        dispatch.cancelled_for(requested).terminal_error == Some(NetError::DeliveryUnknown),
        dispatch.write_retirement.bound ==> dispatch.cancelled_for(
            requested,
        ).write_retirement.retired,
{
}

/// An attempt that may have been delivered is not forgotten when a later
/// attempt is cancelled before it wrote anything, and that does not retire the
/// later attempt's connection.
pub proof fn earlier_uncertainty_survives(dispatch: DispatchPhase, requested: NetError)
    requires
        dispatch.prior_unknown,
        dispatch.phase == DISPATCH_QUEUED || dispatch.phase == DISPATCH_WRITING,
        dispatch.terminal_error is None,
    ensures
        dispatch.cancelled_for(requested).terminal_error == Some(NetError::DeliveryUnknown),
        dispatch.cancelled_for(requested).write_retirement == dispatch.write_retirement,
{
}

/// A cancellation finds a request in its queue, with a writer or resolved, and
/// cancels it exactly in the first two cases. What was written of it decides which
/// cancelled phase it enters, and a resolved request stays what it is.
pub proof fn cancellations_find_the_owner(phase: u8)
    ensures
        after_cancel(DISPATCH_QUEUED) == DISPATCH_CANCELLED_QUEUED && cancellation_of(DISPATCH_QUEUED) is Queued,
        after_cancel(DISPATCH_WRITING) == DISPATCH_CANCELLED_WRITING && cancellation_of(DISPATCH_WRITING) is Writing,
        after_cancel(DISPATCH_DATA_STARTED) == DISPATCH_CANCELLED_DATA_STARTED && cancellation_of(DISPATCH_DATA_STARTED) is Writing,
        phase != DISPATCH_QUEUED && phase != DISPATCH_WRITING && phase != DISPATCH_DATA_STARTED ==> after_cancel(phase) == phase && cancellation_of(
            phase,
        ) is AlreadyResolved,
        writer_owns(phase) <==> phase == DISPATCH_WRITING || phase == DISPATCH_DATA_STARTED,
        cancelled(phase) <==> phase == DISPATCH_CANCELLED_QUEUED || phase == DISPATCH_CANCELLED_WRITING || phase == DISPATCH_CANCELLED_DATA_STARTED,
        cancellation_of(phase) is AlreadyResolved <==> after_cancel(phase) == phase,
        !(cancellation_of(phase) is AlreadyResolved) ==> cancelled(after_cancel(phase)),
{
}

/// Who cancels a request of which nothing was written, and of which no earlier
/// attempt is uncertain, gets the reason that was requested; data in flight makes
/// the delivery uncertain. Only data in flight retires the connection.
pub proof fn cancellations_give_the_reason(dispatch: DispatchPhase, requested: NetError)
    requires
        dispatch.terminal_error is None,
    ensures
        ({
            let after = dispatch.cancelled_for(requested);
            let started = dispatch.phase == DISPATCH_DATA_STARTED || dispatch.phase == DISPATCH_CANCELLED_DATA_STARTED;
            let unstarted = dispatch.phase == DISPATCH_QUEUED || dispatch.phase == DISPATCH_WRITING || dispatch.phase == DISPATCH_CANCELLED_QUEUED
                || dispatch.phase == DISPATCH_CANCELLED_WRITING;
            &&& started ==> after.terminal_error == Some(NetError::DeliveryUnknown)
            &&& unstarted ==> after.terminal_error == Some(
                if dispatch.prior_unknown {
                    NetError::DeliveryUnknown
                } else {
                    requested
                },
            )
            &&& dispatch.phase == DISPATCH_COMMITTED || dispatch.phase == DISPATCH_FINISHED ==> after.terminal_error == Some(
                requested,
            ) && after.phase == dispatch.phase
            &&& after.write_retirement.retired <==> dispatch.write_retirement.retired || (started
                && dispatch.write_retirement.bound)
            &&& after.write_retirement.bound == dispatch.write_retirement.bound
            &&& after.phase == dispatch.withdrawn().phase
            &&& after.write_retirement == dispatch.withdrawn().write_retirement
            &&& dispatch.withdrawn().terminal_error is None
            &&& after.pending_cleanup == dispatch.pending_cleanup
            &&& after.response_deadline == dispatch.response_deadline
            &&& after.prior_unknown == dispatch.prior_unknown
        }),
{
}

/// Data may have reached the peer once some of it was written, whatever came
/// afterwards; a writer has taken a request over even before.
pub proof fn written_data_may_have_arrived(dispatch: DispatchPhase)
    ensures
        dispatch.may_be_delivered() <==> dispatch.phase == DISPATCH_COMMITTED || dispatch.phase == DISPATCH_DATA_STARTED
            || dispatch.phase == DISPATCH_CANCELLED_DATA_STARTED,
        dispatch.taken_over() <==> dispatch.phase == DISPATCH_WRITING || dispatch.may_be_delivered(),
        DISPATCH_QUEUED < DISPATCH_WRITING < DISPATCH_COMMITTED < DISPATCH_FINISHED
            < DISPATCH_CANCELLED_QUEUED < DISPATCH_CANCELLED_WRITING < DISPATCH_DATA_STARTED
            < DISPATCH_CANCELLED_DATA_STARTED,
{
}

/// A request goes its way once: a queued one is taken, written and committed as long
/// as its deadline has not passed, and from its commit on nothing changes it.
pub proof fn requests_go_their_way_once(dispatch: DispatchPhase, now: Instant, requested: NetError)
    requires
        dispatch.phase == DISPATCH_QUEUED,
        dispatch.response_deadline matches Some(deadline) ==> now.nanos < deadline.nanos,
    ensures
        ({
            let taken = dispatch.taken();
            let started = taken.gone_on(DISPATCH_DATA_STARTED, now);
            let committed = started.gone_on(DISPATCH_COMMITTED, now);
            &&& taken.phase == DISPATCH_WRITING && taken.may_go_on(now)
            &&& started.phase == DISPATCH_DATA_STARTED && started.may_go_on(now)
            &&& committed.phase == DISPATCH_COMMITTED && !committed.may_go_on(now)
            &&& committed.terminal_error == dispatch.terminal_error
            &&& committed.taken() == committed
            &&& committed.given_back() == committed
            &&& committed.left_alone() == committed
            &&& committed.cancelled_for(requested).phase == DISPATCH_COMMITTED
            &&& taken.given_back() == dispatch
            &&& started.given_back().phase == DISPATCH_QUEUED
        }),
{
}

/// A request that was cancelled, or that is not with a writer, is neither written nor
/// committed nor given back, and one that was cancelled is not taken or ended either.
pub proof fn cancelled_requests_are_not_written(dispatch: DispatchPhase, now: Instant)
    requires
        dispatch.phase != DISPATCH_WRITING,
        dispatch.phase != DISPATCH_DATA_STARTED,
        dispatch.response_deadline matches Some(deadline) ==> now.nanos < deadline.nanos,
    ensures
        !dispatch.may_go_on(now),
        dispatch.gone_on(DISPATCH_DATA_STARTED, now) == dispatch,
        dispatch.gone_on(DISPATCH_COMMITTED, now) == dispatch,
        dispatch.given_back() == dispatch,
        dispatch.phase != DISPATCH_QUEUED ==> dispatch.taken() == dispatch && dispatch.left_alone()
            == dispatch,
        dispatch.phase == DISPATCH_QUEUED ==> dispatch.left_alone().phase == DISPATCH_FINISHED,
{
}

/// At or after its deadline a request does not go on: it is cancelled as late, or as
/// uncertain if some of its data was written.
pub proof fn late_requests_do_not_go_on(dispatch: DispatchPhase, deadline: Instant, now: Instant)
    requires
        dispatch.phase == DISPATCH_WRITING || dispatch.phase == DISPATCH_DATA_STARTED,
        dispatch.response_deadline == Some(deadline),
        now.nanos >= deadline.nanos,
        dispatch.terminal_error is None,
        !dispatch.prior_unknown,
    ensures
        !dispatch.may_go_on(now),
        ({
            let after = dispatch.gone_on(DISPATCH_COMMITTED, now);
            &&& after == dispatch.gone_on(DISPATCH_DATA_STARTED, now)
            &&& dispatch.phase == DISPATCH_WRITING ==> after.phase == DISPATCH_CANCELLED_WRITING
                && after.terminal_error == Some(NetError::TimeoutError)
            &&& dispatch.phase == DISPATCH_DATA_STARTED ==> after.phase
                == DISPATCH_CANCELLED_DATA_STARTED && after.terminal_error == Some(
                NetError::DeliveryUnknown,
            )
        }),
{
}

} // verus!
