//! Hints of the operating system that the network should be looked at again.
//!
//! Hints never wait: while one is pending, further ones are folded into it.
use vstd::prelude::*;

use tokio::sync::mpsc;

verus! {

/// What became of a hint.
#[derive(Clone, Copy, Debug, PartialEq, Eq, Structural)]
pub enum TriggerOutcome {
    /// It is pending.
    Queued,
    /// It was folded into the pending one.
    Coalesced,
    /// Nobody looks any more.
    Closed,
}

/// What the monitor receives.
#[derive(Clone, Copy, Debug, PartialEq, Eq, Structural)]
pub enum RefreshTriggerEvent {
    /// The network should be looked at.
    Notified,
    /// No hint can come any more.
    ChannelClosed,
}

/// How a refresh ended.
#[derive(Clone, Copy, Debug, PartialEq, Eq, Structural)]
pub enum RefreshWorkOutcome {
    /// It was requested.
    Requested,
    /// It could not be requested.
    RequestFailed,
    /// The monitor was stopped.
    Stopped,
}

/// How many hints may be pending: one, which stands for all that follow.
pub const TRIGGER_CAPACITY: usize = 1;

/// What became of a message that was offered to a channel.
#[derive(Clone, Copy, Debug, PartialEq, Eq, Structural)]
pub enum Submission {
    /// It is in the channel.
    Accepted,
    /// The channel was full.
    Full,
    /// Nobody receives any more.
    Closed,
}

/// Declares `tokio::sync::mpsc::Sender`, one of the ends that messages enter a
/// bounded channel through.
#[verifier::external_type_specification]
#[verifier::external_body]
#[verifier::reject_recursive_types(T)]
pub struct ExSender<T>(mpsc::Sender<T>);

/// Declares `tokio::sync::mpsc::Receiver`, the end that messages leave a
/// bounded channel through.
#[verifier::external_type_specification]
#[verifier::external_body]
#[verifier::reject_recursive_types(T)]
pub struct ExReceiver<T>(mpsc::Receiver<T>);

/// How many messages the channel of a sender holds at most.
pub uninterp spec fn channel_capacity(sender: mpsc::Sender<()>) -> nat;

/// Calls `tokio::sync::mpsc::channel`, which makes an empty channel that holds
/// at most the given number of messages. It panics without room for a message,
/// and above the largest number of permits of a semaphore.
#[verifier::external_body]
fn open_channel(capacity: usize) -> (ends: (mpsc::Sender<()>, mpsc::Receiver<()>))
    requires
        0 < capacity <= crate::permits::permit_limit(),
    ensures
        channel_capacity(ends.0) == capacity,
{
    mpsc::channel(capacity)
}

/// Calls `tokio::sync::mpsc::Sender::try_send`, which puts a message into the
/// channel without waiting, or tells why it did not. Which of them happens
/// depends on the other ends of the channel and is left unsaid.
#[verifier::external_body]
fn offer(sender: &mpsc::Sender<()>) -> (submission: Submission) {
    match sender.try_send(()) {
        Ok(()) => Submission::Accepted,
        Err(mpsc::error::TrySendError::Full(())) => Submission::Full,
        Err(mpsc::error::TrySendError::Closed(())) => Submission::Closed,
    }
}

/// Calls `tokio::sync::mpsc::Sender::clone`, which makes another end of the same
/// channel.
#[verifier::external_body]
fn another_end(sender: &mpsc::Sender<()>) -> (other: mpsc::Sender<()>)
    ensures
        channel_capacity(other) == channel_capacity(*sender),
{
    sender.clone()
}

/// The end that hints of the operating system come through.
#[derive(Debug)]
pub struct RefreshTrigger {
    /// Where hints enter.
    pub sender: mpsc::Sender<()>,
}

/// The end that the monitor receives hints at.
#[derive(Debug)]
pub struct RefreshTriggerReceiver {
    /// Where hints leave.
    pub receiver: mpsc::Receiver<()>,
    /// Whether the end of the hints was reported.
    pub closed: bool,
}

/// Opens the way of hints from the operating system to the monitor.
pub fn channel() -> (ends: (RefreshTrigger, RefreshTriggerReceiver))
    ensures
        channel_capacity(ends.0.sender) == TRIGGER_CAPACITY,
        !ends.1.closed,
{
    let (sender, receiver) = open_channel(TRIGGER_CAPACITY);
    (RefreshTrigger { sender }, RefreshTriggerReceiver { receiver, closed: false })
}

/// What became of a hint that was offered: in a full channel one is already
/// pending, which stands for this one too.
pub fn trigger_outcome(submission: Submission) -> (outcome: TriggerOutcome)
    ensures
        outcome == match submission {
            Submission::Accepted => TriggerOutcome::Queued,
            Submission::Full => TriggerOutcome::Coalesced,
            Submission::Closed => TriggerOutcome::Closed,
        },
{
    match submission {
        Submission::Accepted => TriggerOutcome::Queued,
        Submission::Full => TriggerOutcome::Coalesced,
        Submission::Closed => TriggerOutcome::Closed,
    }
}

impl Clone for RefreshTrigger {
    fn clone(&self) -> (other: Self)
        ensures
            channel_capacity(other.sender) == channel_capacity(self.sender),
    {
        RefreshTrigger { sender: another_end(&self.sender) }
    }
}

impl RefreshTrigger {
    /// Passes on a hint without ever waiting. What becomes of it depends on
    /// what is pending and on whether the monitor still receives.
    pub fn notify(&self) -> (outcome: TriggerOutcome) {
        trigger_outcome(offer(&self.sender))
    }
}

impl RefreshTriggerReceiver {
    /// What the monitor is told when the channel gave `message`, if anything:
    /// `None` for a channel that gives nothing any more.
    pub open spec fn event_of(self, message: Option<()>) -> Option<RefreshTriggerEvent> {
        if self.closed {
            None
        } else {
            match message {
                Some(_) => Some(RefreshTriggerEvent::Notified),
                None => Some(RefreshTriggerEvent::ChannelClosed),
            }
        }
    }

    /// Whether the end of the hints is reported by then.
    pub open spec fn closed_after(self, message: Option<()>) -> bool {
        self.closed || message is None
    }

    /// Takes in what the channel gave. The end of the hints is reported once;
    /// from then on there is nothing to report, and nobody need ask.
    pub fn recv(&mut self, message: Option<()>) -> (event: Option<RefreshTriggerEvent>)
        ensures
            event == old(self).event_of(message),
            *final(self) == (RefreshTriggerReceiver {
                closed: old(self).closed_after(message),
                ..*old(self)
            }),
    {
        if self.closed {
            return None;
        }
        match message {
            Some(()) => Some(RefreshTriggerEvent::Notified),
            None => {
                self.closed = true;
                Some(RefreshTriggerEvent::ChannelClosed)
            },
        }
    }
}

/// Looks whether a refresh is over, given whether the monitor was told to stop
/// and what became of the request. Stopping goes first; a request that fails
/// says nothing of the network.
pub fn request_refresh_or_stop<E>(stop: bool, request: Option<Result<(), E>>) -> (outcome: Option<
    RefreshWorkOutcome,
>)
    ensures
        outcome == if stop {
            Some(RefreshWorkOutcome::Stopped)
        } else {
            match request {
                Some(Ok(_)) => Some(RefreshWorkOutcome::Requested),
                Some(Err(_)) => Some(RefreshWorkOutcome::RequestFailed),
                None => None,
            }
        },
{
    if stop {
        return Some(RefreshWorkOutcome::Stopped);
    }
    match request {
        Some(Ok(())) => Some(RefreshWorkOutcome::Requested),
        Some(Err(_)) => Some(RefreshWorkOutcome::RequestFailed),
        None => None,
    }
}

/// The hints of one platform.
#[derive(Debug)]
pub struct PlatformNetworkMonitor {
    /// Whether a source of the operating system runs.
    pub native: bool,
    /// Its hints, on a platform that has such a source.
    pub changes: Option<RefreshTriggerReceiver>,
}

impl PlatformNetworkMonitor {
    /// The hints of a source that was started, or could not be.
    pub fn from_native(started: bool, changes: RefreshTriggerReceiver) -> (monitor: Self)
        ensures
            monitor == (PlatformNetworkMonitor { native: started, changes: Some(changes) }),
    {
        PlatformNetworkMonitor { native: started, changes: Some(changes) }
    }

    /// A platform without a source of its own.
    pub fn without_native() -> (monitor: Self)
        ensures
            monitor == (PlatformNetworkMonitor { native: false, changes: None }),
    {
        PlatformNetworkMonitor { native: false, changes: None }
    }

    /// Takes in what the channel of hints gave: a hint to look at the network,
    /// or that no hint will come any more, which is told once. A platform
    /// without a source has nothing to tell.
    pub fn changed(&mut self, message: Option<()>) -> (hint: Option<bool>)
        ensures
            hint == match old(self).changes {
                Some(changes) => match changes.event_of(message) {
                    Some(RefreshTriggerEvent::Notified) => Some(true),
                    Some(RefreshTriggerEvent::ChannelClosed) => Some(false),
                    None => None,
                },
                None => None,
            },
            *final(self) == (PlatformNetworkMonitor {
                changes: match old(self).changes {
                    Some(changes) => Some(
                        RefreshTriggerReceiver {
                            closed: changes.closed_after(message),
                            ..changes
                        },
                    ),
                    None => None,
                },
                ..*old(self)
            }),
    {
        match self.changes.take() {
            Some(mut changes) => {
                let event = changes.recv(message);
                self.changes = Some(changes);
                match event {
                    Some(RefreshTriggerEvent::Notified) => Some(true),
                    Some(RefreshTriggerEvent::ChannelClosed) => Some(false),
                    None => None,
                }
            },
            None => None,
        }
    }
}

/// Every hint that the channel gives is passed on until it ends, the end is
/// reported once, and nothing is reported after it.
pub proof fn the_end_is_reported_once(
    receiver: RefreshTriggerReceiver,
    message: Option<()>,
    later: Option<()>,
)
    ensures
        !receiver.closed ==> receiver.event_of(message) is Some,
        receiver.event_of(message) == Some(RefreshTriggerEvent::ChannelClosed) ==> !receiver.closed
            && receiver.closed_after(message),
        receiver.closed_after(message) ==> (RefreshTriggerReceiver {
            closed: true,
            ..receiver
        }).event_of(later) is None,
        receiver.closed_after(message) <==> receiver.event_of(message) != Some(
            RefreshTriggerEvent::Notified,
        ),
{
}

} // verus!
