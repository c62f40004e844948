//! Keeps a retired connection from touching its socket.
use vstd::prelude::*;

use crate::network_status::NetworkStatusSnapshot;

verus! {

/// What an operation on a connection may do.
#[derive(Clone, Copy, Debug, PartialEq, Eq, Structural)]
pub enum IoVerdict {
    /// Go on with the socket.
    Proceed,
    /// Wait without touching the socket.
    Suspend,
    /// Fail without touching the socket.
    Fail(IoFault),
}

/// Why a connection may not be used any more. Each is reported as an aborted
/// connection.
#[derive(Clone, Copy, Debug, PartialEq, Eq, Structural)]
pub enum IoFault {
    /// Data of a cancelled request was in flight.
    WriteRetired,
    /// The request scope of the session was cancelled.
    RequestScopeCancelled,
    /// The network was lost.
    NetworkUnavailable,
}

/// What decides whether a connection may be used.
#[derive(Clone, Copy, Debug, PartialEq, Eq, Structural)]
pub struct NetworkEpoch {
    /// The network epoch in which the connection was made.
    pub loss_epoch: u64,
    /// The latest observation of the network, if it is observed.
    pub network: Option<NetworkStatusSnapshot>,
    /// Whether the bound request scope is cancelled.
    pub scope_cancelled: bool,
    /// Whether the connection was retired by a cancelled write.
    pub write_retired: bool,
}

impl IoFault {
    /// The message of the fault.
    pub open spec fn text(self) -> Seq<char> {
        match self {
            IoFault::WriteRetired => "websocket_write_retired"@,
            IoFault::RequestScopeCancelled => "request_scope_cancelled"@,
            IoFault::NetworkUnavailable => "network_unavailable"@,
        }
    }

    /// The message of the fault.
    pub fn message(&self) -> (message: &'static str)
        ensures
            message@ == self.text(),
    {
        match self {
            IoFault::WriteRetired => "websocket_write_retired",
            IoFault::RequestScopeCancelled => "request_scope_cancelled",
            IoFault::NetworkUnavailable => "network_unavailable",
        }
    }
}

impl NetworkEpoch {
    /// Whether the connection cannot be trusted any more.
    pub open spec fn invalid(self) -> bool {
        self.scope_cancelled || (self.network matches Some(snapshot) && snapshot.invalidates(
            self.loss_epoch,
        ))
    }

    /// What a write may do.
    pub open spec fn write_verdict(self) -> IoVerdict {
        if self.write_retired {
            IoVerdict::Fail(IoFault::WriteRetired)
        } else if self.invalid() {
            IoVerdict::Fail(self.fault())
        } else {
            IoVerdict::Proceed
        }
    }

    /// What a read may do.
    pub open spec fn read_verdict(self) -> IoVerdict {
        if self.write_retired {
            IoVerdict::Suspend
        } else if self.invalid() {
            IoVerdict::Fail(self.fault())
        } else {
            IoVerdict::Proceed
        }
    }

    /// Why the connection cannot be trusted any more.
    pub open spec fn fault(self) -> IoFault {
        if self.scope_cancelled {
            IoFault::RequestScopeCancelled
        } else {
            IoFault::NetworkUnavailable
        }
    }

    /// Whether the connection cannot be trusted any more.
    pub fn is_invalid(&self) -> (invalid: bool)
        ensures
            invalid == self.invalid(),
    {
        if self.scope_cancelled {
            return true;
        }
        match self.network {
            Some(snapshot) => snapshot.is_invalid_for(self.loss_epoch),
            None => false,
        }
    }

    fn error(&self) -> (fault: IoFault)
        ensures
            fault == self.fault(),
    {
        if self.scope_cancelled {
            IoFault::RequestScopeCancelled
        } else {
            IoFault::NetworkUnavailable
        }
    }

    /// Decides about getting ready, sending, flushing and closing. Each asks
    /// anew, so that nothing is written after readiness was granted.
    pub fn check_write(&self) -> (verdict: IoVerdict)
        ensures
            verdict == self.write_verdict(),
    {
        if self.write_retired {
            return IoVerdict::Fail(IoFault::WriteRetired);
        }
        if self.is_invalid() {
            return IoVerdict::Fail(self.error());
        }
        IoVerdict::Proceed
    }

    /// Decides about reading, which may also flush control frames. A retired
    /// connection is left alone without an error, because an accepted response
    /// may still be claimed.
    pub fn check_read(&self) -> (verdict: IoVerdict)
        ensures
            verdict == self.read_verdict(),
    {
        if self.write_retired {
            return IoVerdict::Suspend;
        }
        if self.is_invalid() {
            return IoVerdict::Fail(self.error());
        }
        IoVerdict::Proceed
    }
}

/// A connection of an epoch that is over never touches its socket again, even
/// if the network is back.
pub proof fn old_epochs_never_touch_the_socket(guard: NetworkEpoch, snapshot: NetworkStatusSnapshot)
    requires
        guard.network == Some(snapshot),
        snapshot.loss_epoch != guard.loss_epoch,
    ensures
        !(guard.write_verdict() is Proceed),
        !(guard.read_verdict() is Proceed),
{
}

/// Without evidence of a loss a connection stays usable: an unknown status and
/// an unobserved network hold nothing back.
pub proof fn unknown_networks_hold_nothing_back(guard: NetworkEpoch)
    requires
        !guard.write_retired,
        !guard.scope_cancelled,
        guard.network matches Some(snapshot) ==> snapshot.loss_epoch == guard.loss_epoch
            && snapshot.status is None,
    ensures
        guard.write_verdict() is Proceed,
        guard.read_verdict() is Proceed,
{
}

/// A connection is used exactly as long as nothing speaks against it. A retired
/// one fails to write and is left alone by readers; one whose scope was cancelled
/// or whose network was lost fails both, for that reason.
pub proof fn usable_connections_proceed(guard: NetworkEpoch)
    ensures
        ({
            let lost = guard.network matches Some(snapshot) && (snapshot.loss_epoch
                != guard.loss_epoch || snapshot.status == Some(
                crate::network_status::NetworkStatus::Unavailable,
            ));
            &&& guard.write_verdict() is Proceed <==> !guard.write_retired
                && !guard.scope_cancelled && !lost
            &&& guard.read_verdict() is Proceed <==> guard.write_verdict() is Proceed
            &&& guard.write_retired ==> guard.write_verdict() == IoVerdict::Fail(
                IoFault::WriteRetired,
            ) && guard.read_verdict() is Suspend
            &&& !guard.write_retired && guard.scope_cancelled ==> guard.write_verdict()
                == IoVerdict::Fail(IoFault::RequestScopeCancelled)
            &&& !guard.write_retired && !guard.scope_cancelled && lost ==> guard.write_verdict()
                == IoVerdict::Fail(IoFault::NetworkUnavailable)
            &&& !guard.write_retired ==> guard.read_verdict() == guard.write_verdict()
        }),
{
}

} // verus!
