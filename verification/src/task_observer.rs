//! Observation of the end of every send task.
//!
//! A task reserves room for its notification before the client accepts it, so
//! that its end can always be reported, once, to the listener it started with.
use vstd::prelude::*;

use std::sync::Arc;
use tokio::sync::{OwnedSemaphorePermit, Semaphore};

use crate::net_error::NetError;
use crate::permits;
use crate::permits::{
    max_permits, new_semaphore, try_acquire_many, try_acquire_one, AcquireFailure,
};
use crate::task_event::{
    WebSocketTaskDelivery, WebSocketTaskEndCause, WebSocketTaskPhase, WebSocketTaskSuccess,
};

verus! {

/// How much a listener may hold back.
#[derive(Clone, Copy, Debug, PartialEq, Eq, Structural)]
pub struct WebSocketTaskEventOptions {
    /// Notifications that may be outstanding.
    pub max_tasks: usize,
    /// Payload bytes that outstanding notifications may hold.
    pub max_payload_bytes: usize,
    /// Of the notifications, those kept for urgent messages.
    pub urgent_tasks: usize,
    /// Of the bytes, those kept for urgent messages.
    pub urgent_payload_bytes: usize,
}

impl WebSocketTaskEventOptions {
    /// Limits without anything kept for urgent messages.
    pub fn new(max_tasks: usize, max_payload_bytes: usize) -> (options: Self)
        ensures
            options == (WebSocketTaskEventOptions {
                max_tasks,
                max_payload_bytes,
                urgent_tasks: 0,
                urgent_payload_bytes: 0,
            }),
    {
        WebSocketTaskEventOptions {
            max_tasks,
            max_payload_bytes,
            urgent_tasks: 0,
            urgent_payload_bytes: 0,
        }
    }

    /// The same limits with a part kept for urgent messages.
    pub fn with_urgent_reserve(self, urgent_tasks: usize, urgent_payload_bytes: usize) -> (options:
        Self)
        ensures
            options == (WebSocketTaskEventOptions { urgent_tasks, urgent_payload_bytes, ..self }),
    {
        WebSocketTaskEventOptions { urgent_tasks, urgent_payload_bytes, ..self }
    }

    /// Whether the limits can be served: nothing is zero or too large, and
    /// what is kept for urgent messages leaves room for the others.
    pub open spec fn usable(self) -> bool {
        &&& 0 < self.max_tasks <= crate::permits::permit_limit()
        &&& 0 < self.max_payload_bytes <= crate::permits::permit_limit()
        &&& self.max_payload_bytes <= u32::MAX
        &&& (self.urgent_tasks == 0) == (self.urgent_payload_bytes == 0)
        &&& self.urgent_tasks < self.max_tasks
        &&& self.urgent_payload_bytes < self.max_payload_bytes
    }
}

/// One bounded lane of notifications.
#[derive(Debug)]
pub struct CapacityLane {
    /// Grants one permit for each outstanding notification.
    pub tasks: Arc<Semaphore>,
    /// Grants one permit for each byte that outstanding notifications hold.
    pub bytes: Arc<Semaphore>,
    /// Bytes that the lane holds at most.
    pub max_bytes: usize,
}

/// Room that one task has reserved; it is free again when this is dropped.
#[derive(Debug)]
pub struct TaskEventPermit {
    /// Room for the notification.
    pub task_slot: OwnedSemaphorePermit,
    /// Room for its bytes.
    pub byte_slots: OwnedSemaphorePermit,
}

/// The room of one registered listener.
#[derive(Debug)]
pub struct TaskListenerRegistration {
    /// Room of ordinary messages.
    pub ordinary: CapacityLane,
    /// Room that is kept for urgent messages, if any is.
    pub urgent: Option<CapacityLane>,
}

/// Bytes that a payload counts for; an empty one counts for one.
pub open spec fn charged(size: usize) -> int {
    if size == 0 {
        1
    } else {
        size as int
    }
}

impl CapacityLane {
    /// The bytes can be counted, and the lane knows how many there are.
    pub open spec fn wf(self) -> bool {
        &&& permits::semaphore_size(*self.bytes) == self.max_bytes
        &&& self.max_bytes <= u32::MAX
        &&& self.max_bytes <= permits::permit_limit()
    }

    /// Whether the lane was made for so many notifications and bytes.
    pub open spec fn made_for(self, tasks: int, bytes: int) -> bool {
        &&& self.wf()
        &&& permits::semaphore_size(*self.tasks) == tasks
        &&& self.max_bytes == bytes
    }

    fn new(tasks: usize, bytes: usize) -> (lane: Self)
        requires
            tasks <= permits::permit_limit(),
            bytes <= permits::permit_limit(),
            bytes <= u32::MAX,
        ensures
            lane.made_for(tasks as int, bytes as int),
    {
        CapacityLane {
            tasks: new_semaphore(tasks),
            bytes: new_semaphore(bytes),
            max_bytes: bytes,
        }
    }
}

impl TaskEventPermit {
    /// Whether the permit holds room for one notification of `bytes` in `lane`.
    pub open spec fn reserves(self, lane: CapacityLane, bytes: int) -> bool {
        &&& permits::permit_source(self.task_slot) == *lane.tasks
        &&& permits::permit_count(self.task_slot) == 1
        &&& permits::permit_source(self.byte_slots) == *lane.bytes
        &&& permits::permit_count(self.byte_slots) == bytes
    }
}

/// Divides the limits into the lanes of ordinary and urgent messages.
pub fn capacity_lanes(options: WebSocketTaskEventOptions) -> (lanes: Result<
    TaskListenerRegistration,
    NetError,
>)
    ensures
        match lanes {
            Ok(registration) => options.usable() && registration.serves(options),
            Err(error) => !options.usable() && error is ConfigError,
        },
{
    let limit: usize = max_permits();
    if options.max_tasks == 0 || options.max_tasks > limit || options.max_payload_bytes == 0
        || options.max_payload_bytes > limit || options.max_payload_bytes > u32::MAX as usize || (
    options.urgent_tasks == 0) != (options.urgent_payload_bytes == 0) {
        return Err(NetError::ConfigError);
    }
    if options.urgent_tasks >= options.max_tasks || options.urgent_payload_bytes
        >= options.max_payload_bytes {
        return Err(NetError::ConfigError);
    }
    let tasks: usize = options.max_tasks - options.urgent_tasks;
    let bytes: usize = options.max_payload_bytes - options.urgent_payload_bytes;
    let urgent = if options.urgent_tasks > 0 {
        Some(CapacityLane::new(options.urgent_tasks, options.urgent_payload_bytes))
    } else {
        None
    };
    Ok(TaskListenerRegistration { ordinary: CapacityLane::new(tasks, bytes), urgent })
}

/// Bytes to reserve in a lane for a payload of `size` bytes.
pub fn checked_payload_size(lane: &CapacityLane, size: usize) -> (bytes: Result<u32, NetError>)
    ensures
        match bytes {
            Ok(bytes) => bytes == charged(size) && bytes <= lane.max_bytes,
            Err(error) => error is QueueItemTooLarge && (charged(size) > lane.max_bytes || charged(
                size,
            ) > u32::MAX),
        },
{
    let bytes: usize = if size == 0 {
        1
    } else {
        size
    };
    if bytes > lane.max_bytes || bytes > u32::MAX as usize {
        return Err(NetError::QueueItemTooLarge);
    }
    Ok(bytes as u32)
}

/// The error of room that was not granted.
pub fn map_try_capacity_error(failure: AcquireFailure) -> (error: NetError)
    ensures
        error == match failure {
            AcquireFailure::Closed => NetError::QueueClosed,
            AcquireFailure::NoPermits => NetError::QueueFull,
        },
{
    match failure {
        AcquireFailure::Closed => NetError::QueueClosed,
        AcquireFailure::NoPermits => NetError::QueueFull,
    }
}

/// The reservation of a task that has room for its notification, once it asked
/// for the bytes. Without them the notification's room is given back.
pub fn join_permits(
    task_slot: OwnedSemaphorePermit,
    bytes: Result<OwnedSemaphorePermit, AcquireFailure>,
) -> (reserved: Result<TaskEventPermit, NetError>)
    ensures
        reserved == match bytes {
            Ok(byte_slots) => Ok::<TaskEventPermit, NetError>(
                TaskEventPermit { task_slot, byte_slots },
            ),
            Err(AcquireFailure::Closed) => Err::<TaskEventPermit, NetError>(NetError::QueueClosed),
            Err(AcquireFailure::NoPermits) => Err::<TaskEventPermit, NetError>(
                NetError::QueueFull,
            ),
        },
{
    match bytes {
        Ok(byte_slots) => Ok(TaskEventPermit { task_slot, byte_slots }),
        Err(failure) => Err(map_try_capacity_error(failure)),
    }
}

/// What a wait for room has found so far.
#[derive(Debug)]
pub enum Room {
    /// Some of it is still missing.
    Missing,
    /// All of it.
    Found(TaskEventPermit),
    /// The lane grants nothing any more.
    Closed,
}

/// What a wait for room learns in one look.
#[derive(Debug)]
pub enum ReservePoll {
    /// The wait is over.
    Ready(Result<TaskEventPermit, NetError>),
    /// The wait goes on.
    Pending,
}

/// Why a wait for room is over without it, if it is.
pub open spec fn wait_refusal(
    shutdown: bool,
    admission_cancelled: bool,
    deadline_elapsed: bool,
) -> Option<NetError> {
    if shutdown {
        Some(NetError::Cancelled)
    } else if admission_cancelled {
        Some(NetError::ConnectionClosed)
    } else if deadline_elapsed {
        Some(NetError::TimeoutError)
    } else {
        None
    }
}

/// Shutdown, the end of the connection and the deadline end a wait for room, each
/// with its own error and in this order, and nothing else does.
pub proof fn waits_for_room_end_in_order(
    shutdown: bool,
    admission_cancelled: bool,
    deadline_elapsed: bool,
)
    ensures
        ({
            let refusal = wait_refusal(shutdown, admission_cancelled, deadline_elapsed);
            &&& refusal is None <==> !shutdown && !admission_cancelled && !deadline_elapsed
            &&& shutdown ==> refusal == Some(NetError::Cancelled)
            &&& !shutdown && admission_cancelled ==> refusal == Some(NetError::ConnectionClosed)
            &&& !shutdown && !admission_cancelled && deadline_elapsed ==> refusal == Some(
                NetError::TimeoutError,
            )
        }),
{
}

impl TaskListenerRegistration {
    /// Both lanes are consistent.
    pub open spec fn wf(self) -> bool {
        self.ordinary.wf() && (self.urgent matches Some(lane) ==> lane.wf())
    }

    /// Whether the lanes are those of the given limits: what is kept for urgent
    /// messages has a lane of its own.
    pub open spec fn serves(self, options: WebSocketTaskEventOptions) -> bool {
        &&& self.ordinary.made_for(
            options.max_tasks - options.urgent_tasks,
            options.max_payload_bytes - options.urgent_payload_bytes,
        )
        &&& self.urgent is Some <==> options.urgent_tasks > 0
        &&& self.urgent matches Some(lane) ==> lane.made_for(
            options.urgent_tasks as int,
            options.urgent_payload_bytes as int,
        )
    }

    /// The lane of messages of that urgency.
    pub open spec fn lane_of(self, urgent: bool) -> CapacityLane {
        match self.urgent {
            Some(lane) if urgent => lane,
            _ => self.ordinary,
        }
    }

    /// The lane of messages of that urgency.
    pub fn lane(&self, urgent: bool) -> (lane: &CapacityLane)
        ensures
            *lane == self.lane_of(urgent),
    {
        match &self.urgent {
            Some(lane) => if urgent {
                lane
            } else {
                &self.ordinary
            },
            None => &self.ordinary,
        }
    }

    /// Reserves room at once or not at all, in the lane of the message's
    /// urgency. A payload that the lane could never hold is refused as such;
    /// whether there is room for another depends on what is outstanding.
    pub fn try_reserve(&self, size: usize, urgent: bool) -> (reserved: Result<
        TaskEventPermit,
        NetError,
    >)
        requires
            self.wf(),
        ensures
            match reserved {
                Ok(permit) => {
                    &&& charged(size) <= self.lane_of(urgent).max_bytes
                    &&& permit.reserves(self.lane_of(urgent), charged(size))
                },
                Err(error) => if charged(size) > self.lane_of(urgent).max_bytes {
                    error is QueueItemTooLarge
                } else {
                    error is QueueFull || error is QueueClosed
                },
            },
    {
        let lane = self.lane(urgent);
        let bytes: u32 = match checked_payload_size(lane, size) {
            Ok(bytes) => bytes,
            Err(error) => {
                return Err(error);
            },
        };
        match try_acquire_one(&lane.tasks) {
            Ok(task_slot) => join_permits(task_slot, try_acquire_many(&lane.bytes, bytes)),
            Err(failure) => Err(map_try_capacity_error(failure)),
        }
    }

    /// Looks once whether a wait for room is over. A payload that the lane
    /// could never hold is not waited for. Shutdown goes before the end of the
    /// connection, that before the deadline, and all three before room that was
    /// found; what was found is then given back.
    pub fn reserve(
        &self,
        size: usize,
        urgent: bool,
        shutdown: bool,
        admission_cancelled: bool,
        deadline_elapsed: bool,
        room: Room,
    ) -> (poll: ReservePoll)
        requires
            self.wf(),
        ensures
            poll == if charged(size) > self.lane_of(urgent).max_bytes {
                ReservePoll::Ready(Err(NetError::QueueItemTooLarge))
            } else {
                match wait_refusal(shutdown, admission_cancelled, deadline_elapsed) {
                    Some(error) => ReservePoll::Ready(Err(error)),
                    None => match room {
                        Room::Missing => ReservePoll::Pending,
                        Room::Found(permit) => ReservePoll::Ready(Ok(permit)),
                        Room::Closed => ReservePoll::Ready(Err(NetError::QueueClosed)),
                    },
                }
            },
    {
        match checked_payload_size(self.lane(urgent), size) {
            Ok(_) => {},
            Err(error) => {
                return ReservePoll::Ready(Err(error));
            },
        }
        if shutdown {
            ReservePoll::Ready(Err(NetError::Cancelled))
        } else if admission_cancelled {
            ReservePoll::Ready(Err(NetError::ConnectionClosed))
        } else if deadline_elapsed {
            ReservePoll::Ready(Err(NetError::TimeoutError))
        } else {
            match room {
                Room::Missing => ReservePoll::Pending,
                Room::Found(permit) => ReservePoll::Ready(Ok(permit)),
                Room::Closed => ReservePoll::Ready(Err(NetError::QueueClosed)),
            }
        }
    }
}

/// Looks once more at a wait that found room: a cancellation that came together
/// with the room goes first, and the room is given back. A deadline that passed
/// meanwhile does not count any more.
pub fn confirm_reservation(
    permit: TaskEventPermit,
    shutdown: bool,
    admission_cancelled: bool,
) -> (reserved: Result<TaskEventPermit, NetError>)
    ensures
        reserved == match wait_refusal(shutdown, admission_cancelled, false) {
            Some(error) => Err::<TaskEventPermit, NetError>(error),
            None => Ok::<TaskEventPermit, NetError>(permit),
        },
{
    if shutdown {
        Err(NetError::Cancelled)
    } else if admission_cancelled {
        Err(NetError::ConnectionClosed)
    } else {
        Ok(permit)
    }
}

/// Ordinary messages never take room that is kept for urgent ones: they have a
/// lane of their own, the two lanes make up the limits, and neither is empty.
/// Without such room all messages share one lane.
pub proof fn ordinary_messages_leave_the_urgent_reserve(
    registration: TaskListenerRegistration,
    options: WebSocketTaskEventOptions,
)
    requires
        options.usable(),
        registration.serves(options),
    ensures
        registration.wf(),
        registration.lane_of(false) == registration.ordinary,
        options.urgent_tasks == 0 ==> registration.lane_of(true) == registration.lane_of(false),
        options.urgent_tasks > 0 ==> ({
            let ordinary = registration.lane_of(false);
            let urgent = registration.lane_of(true);
            &&& Some(urgent) == registration.urgent
            &&& ordinary.max_bytes + urgent.max_bytes == options.max_payload_bytes
            &&& permits::semaphore_size(*ordinary.tasks) + permits::semaphore_size(*urgent.tasks)
                == options.max_tasks
            &&& urgent.max_bytes == options.urgent_payload_bytes
            &&& permits::semaphore_size(*urgent.tasks) == options.urgent_tasks
        }),
        registration.lane_of(false).max_bytes > 0,
        registration.lane_of(true).max_bytes > 0,
{
}

/// The registration of task listeners of one client. Registrations are known
/// by number; a number is never used twice.
#[derive(Clone, Copy, Debug, PartialEq, Eq, Structural)]
pub struct TaskObserverStore {
    /// Number of the client.
    pub instance_id: u64,
    /// Whether the client has shut down.
    pub closed: bool,
    /// Number of the current registration.
    pub registration: Option<u64>,
    /// Number of the next registration.
    pub next_registration: u64,
}

impl TaskObserverStore {
    /// A store without a listener.
    pub fn new(instance_id: u64) -> (store: Self)
        ensures
            store == (TaskObserverStore {
                instance_id,
                closed: false,
                registration: None,
                next_registration: 1,
            }),
    {
        TaskObserverStore { instance_id, closed: false, registration: None, next_registration: 1 }
    }

    /// Checks a registration before a thread is started for it.
    pub fn prepare_registration(&self, options: WebSocketTaskEventOptions) -> (prepared: Result<
        TaskListenerRegistration,
        NetError,
    >)
        ensures
            match prepared {
                Ok(registration) => !self.closed && options.usable() && registration.serves(
                    options,
                ),
                Err(error) => if self.closed {
                    error is EngineDropped
                } else {
                    !options.usable() && error is ConfigError
                },
            },
    {
        if self.closed {
            return Err(NetError::EngineDropped);
        }
        capacity_lanes(options)
    }

    /// Makes a prepared registration the current one, once its thread runs. A
    /// thread that could not be started leaves the current registration alone.
    pub fn register(&mut self, thread_started: bool) -> (registered: Result<u64, NetError>)
        requires
            old(self).next_registration < u64::MAX,
        ensures
            match registered {
                Ok(number) => {
                    &&& thread_started && !old(self).closed
                    &&& number == old(self).next_registration
                    &&& *final(self) == (TaskObserverStore {
                        registration: Some(number),
                        next_registration: (number + 1) as u64,
                        ..*old(self)
                    })
                },
                Err(error) => {
                    &&& *final(self) == *old(self)
                    &&& error == if !thread_started {
                        NetError::IOError
                    } else {
                        NetError::EngineDropped
                    }
                    &&& !thread_started || old(self).closed
                },
            },
    {
        if !thread_started {
            return Err(NetError::IOError);
        }
        if self.closed {
            return Err(NetError::EngineDropped);
        }
        let number: u64 = self.next_registration;
        self.registration = Some(number);
        self.next_registration = number + 1;
        Ok(number)
    }

    /// Forgets the current registration.
    pub fn unregister(&mut self)
        ensures
            *final(self) == (TaskObserverStore { registration: None, ..*old(self) }),
    {
        self.registration = None;
    }

    /// Refuses every registration from now on. Room that tasks have reserved
    /// stays with them.
    pub fn close(&mut self)
        ensures
            *final(self) == (TaskObserverStore {
                closed: true,
                registration: None,
                ..*old(self)
            }),
    {
        self.closed = true;
        self.registration = None;
    }

    /// The current registration, for a new task.
    pub fn snapshot(&self) -> (snapshot: Result<Option<u64>, NetError>)
        ensures
            snapshot == if self.closed {
                Err::<Option<u64>, NetError>(NetError::EngineDropped)
            } else {
                Ok::<Option<u64>, NetError>(self.registration)
            },
    {
        if self.closed {
            return Err(NetError::EngineDropped);
        }
        Ok(self.registration)
    }
}

/// The end of one send task, as its listener is told.
#[derive(Debug)]
pub struct WebSocketTaskEvent<S> {
    /// Number of the client.
    pub client_instance_id: u64,
    /// Number of the task.
    pub task_id: u64,
    /// The caller's identifier of the request.
    pub request_id: Option<String>,
    /// What was sent.
    pub source: S,
    /// Whether it was sent as urgent.
    pub is_urgent: bool,
    /// Connection cycle of the last writer.
    pub connection_generation: Option<u64>,
    /// The caller's identifier of the session.
    pub session_context_id: Option<u64>,
    /// How far it came.
    pub phase: WebSocketTaskPhase,
    /// What is known of its delivery.
    pub delivery: WebSocketTaskDelivery,
    /// Why it ended.
    pub cause: WebSocketTaskEndCause,
    /// How it ended.
    pub result: Result<WebSocketTaskSuccess, NetError>,
}

/// A task that has not ended.
#[derive(Debug)]
pub struct ObservationState<S> {
    /// What its listener would be told.
    pub event: WebSocketTaskEvent<S>,
    /// The cause that was announced first.
    pub cause: Option<WebSocketTaskEndCause>,
    /// Room of the notification.
    pub permit: TaskEventPermit,
}

/// A notification together with the room that it holds until it is delivered.
#[derive(Debug)]
pub struct DispatchedEvent<S> {
    /// The notification.
    pub event: WebSocketTaskEvent<S>,
    /// Its room.
    pub permit: TaskEventPermit,
}

/// One observed send task.
#[derive(Debug)]
pub struct TaskObservation<S> {
    /// The task, until it ends.
    pub state: Option<ObservationState<S>>,
    /// The result that it ended with.
    pub selected_result: Option<Result<WebSocketTaskSuccess, NetError>>,
}

/// The cause of an end with `result`.
pub open spec fn end_cause(
    announced: Option<WebSocketTaskEndCause>,
    result: Result<WebSocketTaskSuccess, NetError>,
) -> WebSocketTaskEndCause {
    match result {
        Ok(_) => WebSocketTaskEndCause::Completed,
        Err(error) => match announced {
            Some(cause) => cause,
            None => match error {
                NetError::Cancelled => WebSocketTaskEndCause::SendCancelled,
                NetError::EngineDropped => WebSocketTaskEndCause::EngineDropped,
                _ => WebSocketTaskEndCause::Failure,
            },
        },
    }
}

/// What is known of the delivery after an end with `result`.
pub open spec fn end_delivery(
    known: WebSocketTaskDelivery,
    result: Result<WebSocketTaskSuccess, NetError>,
) -> WebSocketTaskDelivery {
    match result {
        Ok(WebSocketTaskSuccess::Written) => WebSocketTaskDelivery::Written,
        Ok(WebSocketTaskSuccess::ResponseClaimed) => WebSocketTaskDelivery::ResponseClaimed,
        Err(NetError::DeliveryUnknown) => WebSocketTaskDelivery::Unknown,
        Err(_) => known,
    }
}

impl<S> ObservationState<S> {
    /// The notification of an end with `result`.
    pub open spec fn ended_with(
        self,
        result: Result<WebSocketTaskSuccess, NetError>,
    ) -> DispatchedEvent<S> {
        DispatchedEvent {
            event: WebSocketTaskEvent {
                cause: end_cause(self.cause, result),
                delivery: end_delivery(self.event.delivery, result),
                result,
                ..self.event
            },
            permit: self.permit,
        }
    }

    /// Turns the task into the notification of its end.
    pub fn finish(self, result: Result<WebSocketTaskSuccess, NetError>) -> (dispatched:
        DispatchedEvent<S>)
        ensures
            dispatched == self.ended_with(result),
    {
        let mut event = self.event;
        event.result = result;
        event.cause = match result {
            Ok(_) => WebSocketTaskEndCause::Completed,
            Err(error) => match self.cause {
                Some(cause) => cause,
                None => match error {
                    NetError::Cancelled => WebSocketTaskEndCause::SendCancelled,
                    NetError::EngineDropped => WebSocketTaskEndCause::EngineDropped,
                    _ => WebSocketTaskEndCause::Failure,
                },
            },
        };
        match result {
            Ok(WebSocketTaskSuccess::Written) => {
                event.delivery = WebSocketTaskDelivery::Written;
            },
            Ok(WebSocketTaskSuccess::ResponseClaimed) => {
                event.delivery = WebSocketTaskDelivery::ResponseClaimed;
            },
            Err(NetError::DeliveryUnknown) => {
                event.delivery = WebSocketTaskDelivery::Unknown;
            },
            Err(_) => {},
        }
        DispatchedEvent { event, permit: self.permit }
    }
}

impl<S> TaskObservation<S> {
    /// A task has a result exactly when it has ended.
    pub open spec fn wf(self) -> bool {
        self.state is None <==> self.selected_result is Some
    }

    /// The task with other facts, if it has not ended.
    pub open spec fn marked(self, event: WebSocketTaskEvent<S>) -> TaskObservation<S> {
        match self.state {
            Some(state) => TaskObservation {
                state: Some(ObservationState { event, ..state }),
                ..self
            },
            None => self,
        }
    }

    /// The task once it is in a queue.
    pub open spec fn queued(self) -> TaskObservation<S> {
        self.marked(
            WebSocketTaskEvent { phase: WebSocketTaskPhase::Queued, ..self.state->0.event },
        )
    }

    /// The task once a writer of connection cycle `generation` took it.
    pub open spec fn with_writer(self, generation: u64) -> TaskObservation<S> {
        self.marked(
            WebSocketTaskEvent {
                phase: WebSocketTaskPhase::Writing,
                connection_generation: Some(generation),
                ..self.state->0.event
            },
        )
    }

    /// The task once its message was written in full.
    pub open spec fn delivered(self) -> TaskObservation<S> {
        self.marked(
            WebSocketTaskEvent {
                phase: WebSocketTaskPhase::AwaitingResponse,
                delivery: WebSocketTaskDelivery::Written,
                ..self.state->0.event
            },
        )
    }

    /// Whether the task still waits for room.
    pub open spec fn waits_for_room(self) -> bool {
        self.state matches Some(state) && state.event.phase is WaitingForCapacity
    }

    /// The task after an end with `result`.
    pub open spec fn ended(self, result: Result<WebSocketTaskSuccess, NetError>) -> TaskObservation<
        S,
    > {
        match self.state {
            Some(_) => TaskObservation { state: None, selected_result: Some(result) },
            None => self,
        }
    }

    /// The task with an announced cause; the first announcement counts.
    pub open spec fn with_cause(self, cause: WebSocketTaskEndCause) -> TaskObservation<S> {
        match self.state {
            Some(state) => TaskObservation {
                state: Some(
                    ObservationState {
                        cause: match state.cause {
                            Some(first) => Some(first),
                            None => Some(cause),
                        },
                        ..state
                    },
                ),
                ..self
            },
            None => self,
        }
    }

    /// The notification of an end with `result`, if the task has not ended.
    pub open spec fn notification(
        self,
        result: Result<WebSocketTaskSuccess, NetError>,
    ) -> Option<DispatchedEvent<S>> {
        match self.state {
            Some(state) => Some(state.ended_with(result)),
            None => None,
        }
    }

    /// Observes a new task that waits for room in a queue.
    pub fn new(
        instance_id: u64,
        task_id: u64,
        request_id: Option<String>,
        source: S,
        is_urgent: bool,
        session_context_id: Option<u64>,
        permit: TaskEventPermit,
    ) -> (observation: Self)
        ensures
            observation.wf(),
            observation == (TaskObservation {
                state: Some(
                    ObservationState {
                        event: WebSocketTaskEvent {
                            client_instance_id: instance_id,
                            task_id,
                            request_id,
                            source,
                            is_urgent,
                            connection_generation: None,
                            session_context_id,
                            phase: WebSocketTaskPhase::WaitingForCapacity,
                            delivery: WebSocketTaskDelivery::NotStarted,
                            cause: WebSocketTaskEndCause::EngineDropped,
                            result: Err::<WebSocketTaskSuccess, NetError>(NetError::EngineDropped),
                        },
                        cause: None,
                        permit,
                    },
                ),
                selected_result: None,
            }),
    {
        let event = WebSocketTaskEvent {
            client_instance_id: instance_id,
            task_id,
            request_id,
            source,
            is_urgent,
            connection_generation: None,
            session_context_id,
            phase: WebSocketTaskPhase::WaitingForCapacity,
            delivery: WebSocketTaskDelivery::NotStarted,
            cause: WebSocketTaskEndCause::EngineDropped,
            result: Err(NetError::EngineDropped),
        };
        TaskObservation {
            state: Some(ObservationState { event, cause: None, permit }),
            selected_result: None,
        }
    }

    /// The task was queued.
    pub fn mark_queued(&mut self)
        ensures
            *final(self) == old(self).queued(),
    {
        if let Some(mut state) = self.state.take() {
            state.event.phase = WebSocketTaskPhase::Queued;
            self.state = Some(state);
        }
    }

    /// A writer of connection cycle `generation` took the task.
    pub fn mark_writing(&mut self, generation: u64)
        ensures
            *final(self) == old(self).with_writer(generation),
    {
        if let Some(mut state) = self.state.take() {
            state.event.phase = WebSocketTaskPhase::Writing;
            state.event.connection_generation = Some(generation);
            self.state = Some(state);
        }
    }

    /// The writer gave the task back to its queue.
    pub fn mark_requeued(&mut self)
        ensures
            *final(self) == old(self).queued(),
    {
        self.mark_queued();
    }

    /// The message was written in full.
    pub fn mark_written(&mut self)
        ensures
            *final(self) == old(self).delivered(),
    {
        if let Some(mut state) = self.state.take() {
            state.event.phase = WebSocketTaskPhase::AwaitingResponse;
            state.event.delivery = WebSocketTaskDelivery::Written;
            self.state = Some(state);
        }
    }

    /// A write ended without a clear result; a delivery that is known stays
    /// known.
    pub fn remember_unknown(&mut self)
        ensures
            *final(self) == old(self).marked(
                WebSocketTaskEvent {
                    delivery: if old(self).state->0.event.delivery is Written || old(
                        self,
                    ).state->0.event.delivery is ResponseClaimed {
                        old(self).state->0.event.delivery
                    } else {
                        WebSocketTaskDelivery::Unknown
                    },
                    ..old(self).state->0.event
                },
            ),
    {
        if let Some(mut state) = self.state.take() {
            if state.event.delivery != WebSocketTaskDelivery::Written && state.event.delivery
                != WebSocketTaskDelivery::ResponseClaimed {
                state.event.delivery = WebSocketTaskDelivery::Unknown;
            }
            self.state = Some(state);
        }
    }

    /// Announces why the task will end; the first announcement counts.
    pub fn set_cause(&mut self, cause: WebSocketTaskEndCause)
        ensures
            *final(self) == old(self).with_cause(cause),
    {
        if let Some(mut state) = self.state.take() {
            if state.cause.is_none() {
                state.cause = Some(cause);
            }
            self.state = Some(state);
        }
    }

    /// Ends the task; only the first end counts and is notified.
    pub fn finish(&mut self, result: Result<WebSocketTaskSuccess, NetError>) -> (dispatched: Option<
        DispatchedEvent<S>,
    >)
        ensures
            dispatched == old(self).notification(result),
            *final(self) == old(self).ended(result),
    {
        match self.state.take() {
            Some(state) => {
                self.selected_result = Some(result);
                Some(state.finish(result))
            },
            None => None,
        }
    }

    /// Ends the task if it still waits for room; a queued task belongs to its
    /// queue.
    pub fn finish_if_waiting(&mut self, error: NetError) -> (dispatched: Option<DispatchedEvent<S>>)
        ensures
            ({
                let waiting = old(self).waits_for_room();
                &&& dispatched == if waiting {
                    old(self).notification(Err(error))
                } else {
                    None
                }
                &&& *final(self) == if waiting {
                    old(self).ended(Err(error))
                } else {
                    *old(self)
                }
            }),
    {
        match self.state.take() {
            Some(state) => {
                if state.event.phase == WebSocketTaskPhase::WaitingForCapacity {
                    self.selected_result = Some(Err(error));
                    Some(state.finish(Err(error)))
                } else {
                    self.state = Some(state);
                    None
                }
            },
            None => None,
        }
    }

    /// Ends a task that is dropped without a result.
    pub fn abandon(&mut self) -> (dispatched: Option<DispatchedEvent<S>>)
        ensures
            dispatched == old(self).notification(Err(NetError::EngineDropped)),
            *final(self) == old(self).ended(Err(NetError::EngineDropped)),
    {
        self.finish(Err(NetError::EngineDropped))
    }

    /// Whether the task has ended.
    pub fn is_finished(&self) -> (finished: bool)
        ensures
            finished == self.state is None,
    {
        self.state.is_none()
    }

    /// The result that the task ended with.
    pub fn selected_result(&self) -> (result: Option<Result<WebSocketTaskSuccess, NetError>>)
        ensures
            result == self.selected_result,
    {
        self.selected_result
    }
}

/// The first end of a task stands: a later one changes nothing and is not
/// notified.
pub proof fn the_first_end_stands<S>(
    task: TaskObservation<S>,
    first: Result<WebSocketTaskSuccess, NetError>,
    second: Result<WebSocketTaskSuccess, NetError>,
)
    requires
        task.wf(),
    ensures
        task.ended(first).wf(),
        task.ended(first).ended(second) == task.ended(first),
        task.ended(first).notification(second) is None,
        task.state is Some ==> task.notification(first) is Some
            && task.ended(first).selected_result == Some(first),
{
}

/// A notification keeps what was sent, who sent it and the room it reserved.
pub proof fn notifications_keep_their_identity<S>(
    task: TaskObservation<S>,
    result: Result<WebSocketTaskSuccess, NetError>,
)
    ensures
        task.notification(result) matches Some(dispatched) ==> {
            let event = task.state->0.event;
            &&& dispatched.event.source == event.source
            &&& dispatched.event.task_id == event.task_id
            &&& dispatched.event.client_instance_id == event.client_instance_id
            &&& dispatched.event.request_id == event.request_id
            &&& dispatched.event.result == result
            &&& dispatched.permit == task.state->0.permit
        },
        task.state matches Some(state) ==> task.notification(result) == Some(
            state.ended_with(result),
        ),
        task.state is None ==> task.notification(result) is None,
{
}

/// The listener is told why and how a task ended: a success as completed, a failure
/// with the cause that was announced first, or else with the one of its error.
pub proof fn ends_are_explained<S>(
    state: ObservationState<S>,
    success: WebSocketTaskSuccess,
    error: NetError,
)
    ensures
        ({
            let succeeded = state.ended_with(Ok(success)).event;
            let failed = state.ended_with(Err(error)).event;
            &&& succeeded.result == Ok::<WebSocketTaskSuccess, NetError>(success)
            &&& succeeded.cause is Completed
            &&& success is Written ==> succeeded.delivery is Written
            &&& success is ResponseClaimed ==> succeeded.delivery is ResponseClaimed
            &&& failed.result == Err::<WebSocketTaskSuccess, NetError>(error)
            &&& state.cause matches Some(announced) ==> failed.cause == announced
            &&& state.cause is None && error is Cancelled ==> failed.cause is SendCancelled
            &&& state.cause is None && error is EngineDropped ==> failed.cause is EngineDropped
            &&& state.cause is None && !(error is Cancelled) && !(error is EngineDropped)
                ==> failed.cause is Failure
            &&& error is DeliveryUnknown ==> failed.delivery is Unknown
            &&& !(error is DeliveryUnknown) ==> failed.delivery == state.event.delivery
            &&& failed.phase == state.event.phase && succeeded.phase == state.event.phase
            &&& failed.connection_generation == state.event.connection_generation
            &&& failed.session_context_id == state.event.session_context_id
            &&& failed.is_urgent == state.event.is_urgent
        }),
{
}

/// The first cause that is announced stands, and announcing one does not end the
/// task or change what is known of it.
pub proof fn the_first_cause_stands<S>(
    task: TaskObservation<S>,
    first: WebSocketTaskEndCause,
    second: WebSocketTaskEndCause,
)
    ensures
        task.with_cause(first).with_cause(second) == task.with_cause(first),
        task.state matches Some(state) ==> (task.with_cause(first).state matches Some(after) && {
            &&& after.event == state.event
            &&& after.permit == state.permit
            &&& state.cause is None ==> after.cause == Some(first)
            &&& state.cause is Some ==> after.cause == state.cause
        }),
        task.state is None ==> task.with_cause(first) == task,
        task.with_cause(first).selected_result == task.selected_result,
{
}

/// A task that has ended is not marked any more, and marking one that has not
/// keeps its room and its cause.
pub proof fn marks_leave_the_rest<S>(task: TaskObservation<S>, event: WebSocketTaskEvent<S>)
    ensures
        task.state is None ==> task.marked(event) == task,
        task.state matches Some(state) ==> (task.marked(event).state matches Some(after)
            && after.event == event && after.cause == state.cause && after.permit == state.permit),
        task.marked(event).selected_result == task.selected_result,
{
}

/// A payload counts for its bytes, and an empty one for one, so that every
/// notification holds room.
pub proof fn every_notification_holds_room(size: usize)
    ensures
        charged(size) >= 1,
        size > 0 ==> charged(size) == size,
{
}

/// Limits are usable exactly if there is room to divide: nothing is zero, what is
/// kept for urgent messages is kept of both or of neither, and something is left
/// for the others.
pub proof fn usable_limits_leave_room(options: WebSocketTaskEventOptions)
    ensures
        options.usable() ==> options.max_tasks > 0 && options.max_payload_bytes > 0
            && options.max_payload_bytes <= u32::MAX,
        options.usable() && options.urgent_tasks > 0 ==> options.urgent_payload_bytes > 0,
        options.usable() && options.urgent_payload_bytes > 0 ==> options.urgent_tasks > 0,
        options.usable() ==> options.urgent_tasks < options.max_tasks
            && options.urgent_payload_bytes < options.max_payload_bytes,
        0 < options.max_tasks <= 65535 && 0 < options.max_payload_bytes <= 65535
            && options.urgent_tasks == 0 && options.urgent_payload_bytes == 0 ==> options.usable(),
        0 < options.urgent_tasks < options.max_tasks <= 65535 && 0 < options.urgent_payload_bytes
            < options.max_payload_bytes <= 65535 ==> options.usable(),
{
}

/// A permit holds what it was asked for: room for one notification and for all of
/// its bytes, in the lane that it was asked of.
pub proof fn permits_hold_what_was_asked_for(
    permit: TaskEventPermit,
    lane: CapacityLane,
    bytes: int,
)
    requires
        permit.reserves(lane, bytes),
    ensures
        permits::permit_count(permit.task_slot) == 1,
        permits::permit_count(permit.byte_slots) == bytes,
        permits::permit_source(permit.task_slot) == *lane.tasks,
        permits::permit_source(permit.byte_slots) == *lane.bytes,
{
}

/// A task is observed as far as it came: queued, with the writer of a connection
/// cycle, and delivered, each known until the next; an end tells the last of them.
pub proof fn tasks_are_observed_as_far_as_they_came<S>(
    task: TaskObservation<S>,
    generation: u64,
    error: NetError,
)
    requires
        task.state is Some,
        !(error is DeliveryUnknown),
    ensures
        ({
            let queued = task.queued();
            let writing = queued.with_writer(generation);
            let delivered = writing.delivered();
            &&& queued.state matches Some(state) && state.event.phase is Queued
                && state.event.delivery == task.state->0.event.delivery && state.event.source
                == task.state->0.event.source
            &&& writing.state matches Some(state) && state.event.phase is Writing
                && state.event.connection_generation == Some(generation)
            &&& delivered.state matches Some(state) && state.event.phase is AwaitingResponse
                && state.event.delivery is Written && state.event.connection_generation == Some(
                generation,
            )
            &&& delivered.notification(Err(error)) matches Some(told) && told.event.phase
                is AwaitingResponse && told.event.delivery is Written && told.event.result
                == Err::<WebSocketTaskSuccess, NetError>(error)
            &&& !queued.waits_for_room() && !writing.waits_for_room()
            &&& task.waits_for_room() <==> task.state->0.event.phase is WaitingForCapacity
        }),
{
}

} // verus!
