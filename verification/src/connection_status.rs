//! The lifecycle of a connection as its owner sees it.
use vstd::prelude::*;

verus! {

/// The lifecycle state of a client.
#[derive(Clone, Copy, Debug, PartialEq, Eq, Structural)]
pub enum ConnectionStatus {
    /// No connection was requested.
    Idle,
    /// The first connection is being established.
    Connecting,
    /// A connection is established.
    Connected,
    /// A lost connection is being replaced.
    Reconnecting,
    /// The connection ended and is not being replaced.
    Disconnected,
    /// The connection is being closed.
    Closing,
    /// The client has shut down for good.
    Closed,
}

impl ConnectionStatus {
    /// Whether a connection attempt is in progress.
    pub open spec fn is_establishing(self) -> bool {
        self is Connecting || self is Reconnecting
    }

    /// Whether an explicit connection request must be refused as a duplicate.
    pub open spec fn is_occupied(self) -> bool {
        self.is_establishing() || self is Connected || self is Closing
    }

    /// Whether a connection attempt is in progress.
    pub fn establishing(&self) -> (establishing: bool)
        ensures
            establishing == self.is_establishing(),
    {
        matches!(self, ConnectionStatus::Connecting | ConnectionStatus::Reconnecting)
    }

    /// Whether an explicit connection request must be refused as a duplicate.
    pub fn occupied(&self) -> (occupied: bool)
        ensures
            occupied == self.is_occupied(),
    {
        matches!(
            self,
            ConnectionStatus::Connecting | ConnectionStatus::Connected
                | ConnectionStatus::Reconnecting | ConnectionStatus::Closing
        )
    }
}

/// The edges of the lifecycle.
pub open spec fn transition_edge(from: ConnectionStatus, to: ConnectionStatus) -> bool {
    match from {
        ConnectionStatus::Idle => to is Connecting || to is Closing,
        ConnectionStatus::Connecting => to is Connected || to is Disconnected || to is Closing,
        ConnectionStatus::Connected => to is Reconnecting || to is Disconnected || to is Closing,
        ConnectionStatus::Reconnecting => to is Connected || to is Disconnected || to is Closing,
        ConnectionStatus::Disconnected => to is Connecting || to is Reconnecting || to is Closing,
        ConnectionStatus::Closing => to is Idle || to is Closed,
        ConnectionStatus::Closed => false,
    }
}

/// The status after a request to enter `to`.
pub open spec fn status_after(from: ConnectionStatus, to: ConnectionStatus) -> ConnectionStatus {
    if transition_edge(from, to) {
        to
    } else {
        from
    }
}

/// Whether the lifecycle has an edge from `from` to `to`.
pub fn connection_status_transition_allowed(from: ConnectionStatus, to: ConnectionStatus) -> (
    allowed: bool)
    ensures
        allowed == transition_edge(from, to),
{
    match from {
        ConnectionStatus::Idle => matches!(
            to,
            ConnectionStatus::Connecting | ConnectionStatus::Closing
        ),
        ConnectionStatus::Connecting => matches!(
            to,
            ConnectionStatus::Connected | ConnectionStatus::Disconnected | ConnectionStatus::Closing
        ),
        ConnectionStatus::Connected => matches!(
            to,
            ConnectionStatus::Reconnecting | ConnectionStatus::Disconnected
                | ConnectionStatus::Closing
        ),
        ConnectionStatus::Reconnecting => matches!(
            to,
            ConnectionStatus::Connected | ConnectionStatus::Disconnected | ConnectionStatus::Closing
        ),
        ConnectionStatus::Disconnected => matches!(
            to,
            ConnectionStatus::Connecting | ConnectionStatus::Reconnecting
                | ConnectionStatus::Closing
        ),
        ConnectionStatus::Closing => matches!(to, ConnectionStatus::Idle | ConnectionStatus::Closed),
        ConnectionStatus::Closed => false,
    }
}

/// `Closed` is terminal: no request leaves it.
pub proof fn closed_is_terminal(to: ConnectionStatus)
    ensures
        !transition_edge(ConnectionStatus::Closed, to),
        status_after(ConnectionStatus::Closed, to) is Closed,
{
}

/// `Closed` is entered only through `Closing`, and `Closing` leads only to `Idle` or `Closed`.
pub proof fn closing_guards_the_end(from: ConnectionStatus, to: ConnectionStatus)
    requires
        transition_edge(from, to),
    ensures
        to is Closed ==> from is Closing,
        to is Idle ==> from is Closing,
        from is Closing ==> to is Idle || to is Closed,
{
}

/// `Connected` is entered only while an attempt is in progress.
pub proof fn connected_follows_an_attempt(from: ConnectionStatus, to: ConnectionStatus)
    requires
        transition_edge(from, to),
        to is Connected,
    ensures
        from.is_establishing(),
{
}

/// No edge leads from a status to itself.
pub proof fn edges_change_the_status(from: ConnectionStatus, to: ConnectionStatus)
    requires
        transition_edge(from, to),
    ensures
        from != to,
{
}

/// Every way that a connection goes is open: an attempt begins from rest, succeeds
/// or fails, a connection is lost or replaced, whatever is not closed yet can be
/// closed, and a closing client comes to rest or to its end.
pub proof fn the_lifecycle_leads_on(status: ConnectionStatus)
    ensures
        transition_edge(ConnectionStatus::Idle, ConnectionStatus::Connecting),
        transition_edge(ConnectionStatus::Disconnected, ConnectionStatus::Connecting),
        transition_edge(ConnectionStatus::Disconnected, ConnectionStatus::Reconnecting),
        transition_edge(ConnectionStatus::Connected, ConnectionStatus::Reconnecting),
        transition_edge(ConnectionStatus::Connected, ConnectionStatus::Disconnected),
        status is Connecting || status is Reconnecting ==> transition_edge(
            status,
            ConnectionStatus::Connected,
        ) && transition_edge(status, ConnectionStatus::Disconnected),
        transition_edge(status, ConnectionStatus::Closing) <==> !(status is Closing
            || status is Closed),
        transition_edge(ConnectionStatus::Closing, ConnectionStatus::Idle),
        transition_edge(ConnectionStatus::Closing, ConnectionStatus::Closed),
{
}

/// An attempt begins only from rest or from a connection that it replaces, and
/// only an attempt or a connection can come to be disconnected.
pub proof fn attempts_begin_from_rest(from: ConnectionStatus)
    ensures
        transition_edge(from, ConnectionStatus::Connecting) <==> from is Idle
            || from is Disconnected,
        transition_edge(from, ConnectionStatus::Reconnecting) <==> from is Connected
            || from is Disconnected,
        transition_edge(from, ConnectionStatus::Disconnected) <==> from is Connecting
            || from is Connected || from is Reconnecting,
        from.is_establishing() <==> from is Connecting || from is Reconnecting,
        from.is_occupied() <==> !(from is Idle || from is Disconnected || from is Closed),
{
}

} // verus!
