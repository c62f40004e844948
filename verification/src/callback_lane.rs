//! The lanes that run the caller's callbacks.
use vstd::prelude::*;

use crate::connection_status::ConnectionStatus;

verus! {

/// What arrives in a callback lane.
#[derive(Clone, Copy, Debug, PartialEq, Eq, Structural)]
pub enum CallbackEvent {
    /// A message for a data listener.
    Data {
        /// The listener that was registered when the message arrived.
        listener: Option<u64>,
        /// Connection cycle of the message.
        generation: u64,
        /// Bytes that the message holds of the budget.
        bytes: usize,
    },
    /// A request to report when everything before it is done.
    DataDrain,
    /// A change of the status.
    Status {
        /// The status at that time.
        status: ConnectionStatus,
        /// Whether somebody waits for its delivery.
        awaited: bool,
    },
}

/// What the data lane waits for.
#[derive(Clone, Copy, Debug, PartialEq, Eq, Structural)]
pub enum LaneWait {
    /// The end of a running callback.
    Completion,
    /// The next event.
    Event,
    /// The next event or the end of a running callback; an event goes first.
    EventFirst,
}

/// What the data lane asks for.
#[derive(Clone, Copy, Debug, PartialEq, Eq, Structural)]
pub enum LaneAction {
    /// Start the listener with the message.
    Start {
        /// The listener.
        listener: u64,
        /// Connection cycle of the message.
        generation: u64,
        /// Bytes that the message holds.
        bytes: usize,
    },
    /// Give back the bytes of a message that no listener takes.
    Release {
        /// The bytes.
        bytes: usize,
    },
    /// Give back the bytes and report that a callback could not be started,
    /// unless the client shuts down first.
    ReportFailure {
        /// Connection cycle of the message.
        generation: u64,
        /// Bytes that the message held.
        bytes: usize,
        /// Whether the report is sent.
        send: bool,
    },
    /// Tell whoever waits for the event that it was delivered.
    Acknowledge,
    /// Wait for all running callbacks, then tell whoever waits and stop.
    DrainAndAcknowledge,
    /// Wait for all running callbacks, then stop.
    DrainAndStop,
    /// Nothing is left to do.
    Idle,
}

/// The lane of data callbacks.
#[derive(Clone, Copy, Debug, PartialEq, Eq, Structural)]
pub struct DataCallbackLane {
    /// Callbacks that may run at once.
    pub max_concurrency: usize,
    /// Callbacks that run.
    pub in_flight: usize,
    /// Bytes that running callbacks hold.
    pub held_bytes: usize,
    /// Whether the lane takes no further events.
    pub stopped: bool,
}

/// What an event in the data lane leads to.
pub open spec fn lane_action(event: Option<CallbackEvent>) -> LaneAction {
    match event {
        None => LaneAction::DrainAndStop,
        Some(CallbackEvent::Data { listener, generation, bytes }) => match listener {
            Some(listener) => LaneAction::Start { listener, generation, bytes },
            None => LaneAction::Release { bytes },
        },
        Some(CallbackEvent::DataDrain) => LaneAction::DrainAndAcknowledge,
        Some(CallbackEvent::Status { status, awaited }) => if awaited {
            LaneAction::Acknowledge
        } else {
            LaneAction::Idle
        },
    }
}

impl DataCallbackLane {
    /// Never more callbacks run than are allowed, and idle lanes hold nothing.
    pub open spec fn wf(self) -> bool {
        &&& self.max_concurrency > 0
        &&& self.in_flight <= self.max_concurrency
        &&& self.in_flight == 0 ==> self.held_bytes == 0
    }

    /// What the lane waits for.
    pub open spec fn awaited(self) -> LaneWait {
        if self.in_flight >= self.max_concurrency {
            LaneWait::Completion
        } else if self.in_flight == 0 {
            LaneWait::Event
        } else {
            LaneWait::EventFirst
        }
    }

    /// A lane in which nothing runs.
    pub fn new(max_concurrency: usize) -> (lane: Self)
        requires
            max_concurrency > 0,
        ensures
            lane == (DataCallbackLane {
                max_concurrency,
                in_flight: 0,
                held_bytes: 0,
                stopped: false,
            }),
            lane.wf(),
    {
        DataCallbackLane { max_concurrency, in_flight: 0, held_bytes: 0, stopped: false }
    }

    /// What to wait for. No event is taken while the lane is full.
    pub fn next_wait(&self) -> (wait: LaneWait)
        ensures
            wait == self.awaited(),
    {
        if self.in_flight >= self.max_concurrency {
            LaneWait::Completion
        } else if self.in_flight == 0 {
            LaneWait::Event
        } else {
            LaneWait::EventFirst
        }
    }

    /// Takes in the next event, or the end of the lane. An event of another
    /// lane is acknowledged and otherwise ignored.
    pub fn on_event(&mut self, event: Option<CallbackEvent>) -> (action: LaneAction)
        ensures
            action == lane_action(event),
            *final(self) == (DataCallbackLane {
                stopped: old(self).stopped || action is DrainAndStop
                    || action is DrainAndAcknowledge,
                ..*old(self)
            }),
    {
        match event {
            None => {
                self.stopped = true;
                LaneAction::DrainAndStop
            },
            Some(CallbackEvent::Data { listener, generation, bytes }) => match listener {
                Some(listener) => LaneAction::Start { listener, generation, bytes },
                None => LaneAction::Release { bytes },
            },
            Some(CallbackEvent::DataDrain) => {
                self.stopped = true;
                LaneAction::DrainAndAcknowledge
            },
            Some(CallbackEvent::Status { status: _, awaited }) => if awaited {
                LaneAction::Acknowledge
            } else {
                LaneAction::Idle
            },
        }
    }

    /// Takes in whether a callback could be started. One that runs holds its
    /// bytes until it ends; one that could not be started gives them back and
    /// is reported once, unless the client shuts down.
    pub fn on_started(&mut self, started: bool, generation: u64, bytes: usize, shutdown: bool) -> (
        action: LaneAction)
        requires
            old(self).wf(),
            old(self).in_flight < old(self).max_concurrency,
            old(self).held_bytes + bytes <= usize::MAX,
        ensures
            final(self).wf(),
            *final(self) == if started {
                DataCallbackLane {
                    in_flight: (old(self).in_flight + 1) as usize,
                    held_bytes: (old(self).held_bytes + bytes) as usize,
                    ..*old(self)
                }
            } else {
                *old(self)
            },
            action == if started {
                LaneAction::Idle
            } else {
                LaneAction::ReportFailure { generation, bytes, send: !shutdown }
            },
    {
        if started {
            self.in_flight = self.in_flight + 1;
            self.held_bytes = self.held_bytes + bytes;
            LaneAction::Idle
        } else {
            LaneAction::ReportFailure { generation, bytes, send: !shutdown }
        }
    }

    /// A running callback that held `bytes` ended; its bytes are free again.
    pub fn on_completed(&mut self, bytes: usize) -> (action: LaneAction)
        requires
            old(self).wf(),
            old(self).in_flight > 0,
            bytes <= old(self).held_bytes,
            old(self).in_flight == 1 ==> bytes == old(self).held_bytes,
        ensures
            final(self).wf(),
            *final(self) == (DataCallbackLane {
                in_flight: (old(self).in_flight - 1) as usize,
                held_bytes: (old(self).held_bytes - bytes) as usize,
                ..*old(self)
            }),
            action == (LaneAction::Release { bytes }),
    {
        self.in_flight = self.in_flight - 1;
        self.held_bytes = self.held_bytes - bytes;
        LaneAction::Release { bytes }
    }
}

/// A lane takes an event only where another callback may start; a lane of one
/// runs its callbacks strictly one after the other.
pub proof fn full_lanes_take_no_event(lane: DataCallbackLane)
    requires
        lane.wf(),
    ensures
        !(lane.awaited() is Completion) ==> lane.in_flight < lane.max_concurrency,
        lane.max_concurrency == 1 && !(lane.awaited() is Completion) ==> lane.in_flight == 0,
{
}

/// The registration of a status listener.
#[derive(Clone, Copy, Debug, PartialEq, Eq, Structural)]
pub struct StatusRegistration {
    /// The listener.
    pub listener: u64,
    /// Whether it was replaced or removed.
    pub retired: bool,
    /// Whether its first call has ended.
    pub initial_done: bool,
}

/// What the status lane does about an event.
#[derive(Clone, Copy, Debug, PartialEq, Eq, Structural)]
pub enum StatusTurn {
    /// No listener is registered; the event is done.
    Skip,
    /// The registration is gone; look again.
    Retry,
    /// The first call of the listener still runs; wait for its end or for the
    /// registration to be retired.
    Wait,
    /// Call the listener with the status.
    Run {
        /// The listener.
        listener: u64,
        /// The status that it is told.
        status: ConnectionStatus,
    },
}

/// What the status lane does about an event with the status `at_event`.
pub open spec fn status_turn(
    registration: Option<StatusRegistration>,
    current: Option<ConnectionStatus>,
    at_event: ConnectionStatus,
) -> StatusTurn {
    match registration {
        None => StatusTurn::Skip,
        Some(found) => if found.retired {
            StatusTurn::Retry
        } else if !found.initial_done {
            StatusTurn::Wait
        } else {
            StatusTurn::Run {
                listener: found.listener,
                status: match current {
                    Some(latest) => latest,
                    None => at_event,
                },
            }
        },
    }
}

/// Decides what the status lane does about an event. The first call of a
/// listener ends before any later one starts, and later calls are told the
/// latest status; the status of the event serves if that cannot be read.
pub fn next_status_turn(
    registration: Option<StatusRegistration>,
    current: Option<ConnectionStatus>,
    at_event: ConnectionStatus,
) -> (turn: StatusTurn)
    ensures
        turn == status_turn(registration, current, at_event),
{
    match registration {
        None => StatusTurn::Skip,
        Some(found) => {
            if found.retired {
                return StatusTurn::Retry;
            }
            if !found.initial_done {
                return StatusTurn::Wait;
            }
            let status = match current {
                Some(latest) => latest,
                None => at_event,
            };
            StatusTurn::Run { listener: found.listener, status }
        },
    }
}

/// Whether the status lane acknowledges an event at its end: a status that
/// somebody waits for, and a drain that came to the wrong lane.
pub fn status_event_is_acknowledged(event: &CallbackEvent) -> (acknowledged: bool)
    ensures
        acknowledged == match event {
            CallbackEvent::Status { status, awaited } => *awaited,
            CallbackEvent::DataDrain => true,
            CallbackEvent::Data { listener, generation, bytes } => false,
        },
{
    match event {
        CallbackEvent::Status { status: _, awaited } => *awaited,
        CallbackEvent::DataDrain => true,
        CallbackEvent::Data { listener: _, generation: _, bytes: _ } => false,
    }
}

/// No listener is called before its first call has ended or after it was
/// replaced, and every call is told the latest status that can be read.
pub proof fn status_calls_are_in_order(
    registration: Option<StatusRegistration>,
    latest: ConnectionStatus,
    at_event: ConnectionStatus,
)
    ensures
        status_turn(registration, Some(latest), at_event) matches StatusTurn::Run {
            listener,
            status,
        } ==> {
            &&& registration matches Some(found) && found.initial_done && !found.retired
                && found.listener == listener
            &&& status == latest
        },
{
}

/// A message for a listener starts that listener with all that belongs to it; one
/// without a listener gives its bytes back; a drain and the end of the lane wait
/// for what runs.
pub proof fn messages_start_their_listener(
    listener: u64,
    generation: u64,
    bytes: usize,
    status: ConnectionStatus,
)
    ensures
        lane_action(Some(CallbackEvent::Data { listener: Some(listener), generation, bytes })) == (
        LaneAction::Start { listener, generation, bytes }),
        lane_action(Some(CallbackEvent::Data { listener: None, generation, bytes })) == (
        LaneAction::Release { bytes }),
        lane_action(Some(CallbackEvent::DataDrain)) is DrainAndAcknowledge,
        lane_action(None) is DrainAndStop,
        lane_action(Some(CallbackEvent::Status { status, awaited: true })) is Acknowledge,
        lane_action(Some(CallbackEvent::Status { status, awaited: false })) is Idle,
{
}

/// A lane takes events as long as another callback may start, and looks after
/// running ones as long as there are any.
pub proof fn lanes_take_events_while_there_is_room(lane: DataCallbackLane)
    requires
        lane.max_concurrency > 0,
    ensures
        lane.in_flight < lane.max_concurrency <==> !(lane.awaited() is Completion),
        lane.in_flight == 0 <==> lane.awaited() is Event,
        0 < lane.in_flight < lane.max_concurrency <==> lane.awaited() is EventFirst,
{
}

/// A listener whose first call has ended is called for every event, with the
/// latest status or, if that cannot be read, with the one of the event. One whose
/// first call still runs is waited for, a retired one is looked for again, and
/// without a listener there is nothing to do.
pub proof fn registered_listeners_are_called(
    found: StatusRegistration,
    current: Option<ConnectionStatus>,
    at_event: ConnectionStatus,
)
    ensures
        status_turn(None, current, at_event) is Skip,
        found.retired ==> status_turn(Some(found), current, at_event) is Retry,
        !found.retired && !found.initial_done ==> status_turn(Some(found), current, at_event)
            is Wait,
        !found.retired && found.initial_done ==> status_turn(Some(found), current, at_event) == (
        StatusTurn::Run {
            listener: found.listener,
            status: match current {
                Some(latest) => latest,
                None => at_event,
            },
        }),
{
}

} // verus!
