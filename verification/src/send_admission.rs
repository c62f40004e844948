//! Which connection or session a send belongs to.
//!
//! A send takes a lease before it looks at the client's status. The lease ends
//! with the connection or the session that it was taken in, so a send that
//! looks too late cannot slip into the next one.
use vstd::prelude::*;

use crate::clock::{duration_fits_instant, Duration, Instant};
use crate::connection_status::ConnectionStatus;
use crate::net_error::NetError;
use crate::network_status::NetworkStatusSnapshot;

verus! {

/// What happens to a send without a connection.
#[derive(Clone, Copy, Debug, PartialEq, Eq, Structural)]
pub enum DisconnectedTaskPolicy {
    /// It is refused.
    Reject,
    /// It waits for the next connection of its session.
    WaitForReconnect,
}

/// How one message is sent.
#[derive(Clone, Copy, Debug, PartialEq, Eq, Structural)]
pub struct WSRequestConfig {
    /// How often a failed write is repeated.
    pub send_retry_count: u32,
    /// Whether the message may arrive more than once.
    pub idempotent: bool,
    /// How long the message may wait for room, if that is bounded.
    pub enqueue_timeout: Option<Duration>,
    /// How long one write may take.
    pub write_timeout: Duration,
    /// How long the response may take.
    pub response_timeout: Duration,
    /// What happens without a connection.
    pub disconnected_policy: DisconnectedTaskPolicy,
    /// Whether a response is expected.
    pub expect_response: bool,
}

/// The right to send in one connection or session.
#[derive(Clone, Copy, Debug, PartialEq, Eq, Structural)]
pub struct SendLease {
    /// Whether the lease is one of the connection or of the session.
    pub policy: DisconnectedTaskPolicy,
    /// Number of the session.
    pub session: u64,
    /// Number of the connection.
    pub connection: u64,
    /// The network epoch in which the connection was made.
    pub network_loss_epoch: u64,
}

/// The current session and connection.
#[derive(Clone, Copy, Debug, PartialEq, Eq, Structural)]
pub struct SendAdmission {
    /// Number of the session.
    pub session: u64,
    /// Whether the session lasts.
    pub session_open: bool,
    /// Number of the connection.
    pub connection: u64,
    /// Whether the connection lasts.
    pub connection_open: bool,
    /// The network epoch in which the connection was made.
    pub network_loss_epoch: u64,
}

impl WSRequestConfig {
    /// Whether every deadline can be expressed and repetition is harmless.
    pub open spec fn usable(self, now: Instant) -> bool {
        &&& self.send_retry_count > 0 ==> self.idempotent
        &&& self.enqueue_timeout matches Some(timeout) ==> now.plus(timeout) is Some
        &&& now.plus(self.write_timeout) is Some
        &&& now.plus(self.response_timeout) is Some
    }

    /// Whether the configuration can be used: only messages that may arrive
    /// twice are repeated, and every deadline can be expressed.
    pub fn is_usable(&self, now: Instant) -> (usable: bool)
        ensures
            usable == self.usable(now),
    {
        if self.send_retry_count > 0 && !self.idempotent {
            return false;
        }
        if let Some(timeout) = self.enqueue_timeout {
            if !duration_fits_instant(now, timeout) {
                return false;
            }
        }
        duration_fits_instant(now, self.write_timeout) && duration_fits_instant(
            now,
            self.response_timeout,
        )
    }
}

impl SendAdmission {
    /// Whether a lease has ended.
    pub open spec fn revoked(self, lease: SendLease) -> bool {
        match lease.policy {
            DisconnectedTaskPolicy::Reject => !self.connection_open || self.connection
                != lease.connection,
            DisconnectedTaskPolicy::WaitForReconnect => !self.session_open || self.session
                != lease.session,
        }
    }

    /// A lease taken now.
    pub open spec fn leased(self, policy: DisconnectedTaskPolicy) -> SendLease {
        SendLease {
            policy,
            session: self.session,
            connection: self.connection,
            network_loss_epoch: self.network_loss_epoch,
        }
    }

    /// The admission once a new session began.
    pub open spec fn session_begun(self) -> SendAdmission {
        SendAdmission {
            session: (self.session + 1) as u64,
            session_open: true,
            connection_open: false,
            ..self
        }
    }

    /// The admission once a new connection was made.
    pub open spec fn connected(self, network_loss_epoch: u64) -> SendAdmission {
        SendAdmission {
            connection: (self.connection + 1) as u64,
            connection_open: true,
            network_loss_epoch,
            ..self
        }
    }

    /// The admission once the connection ended.
    pub open spec fn disconnected(self) -> SendAdmission {
        SendAdmission { connection_open: false, ..self }
    }

    /// The admission once the session ended.
    pub open spec fn session_over(self) -> SendAdmission {
        SendAdmission { session_open: false, connection_open: false, ..self }
    }

    /// No session and no connection yet.
    pub fn new() -> (admission: Self)
        ensures
            admission == (SendAdmission {
                session: 0,
                session_open: false,
                connection: 0,
                connection_open: false,
                network_loss_epoch: 0,
            }),
    {
        SendAdmission {
            session: 0,
            session_open: false,
            connection: 0,
            connection_open: false,
            network_loss_epoch: 0,
        }
    }

    /// Begins a session; leases of the one before end.
    pub fn begin_session(&mut self)
        requires
            old(self).session < u64::MAX,
        ensures
            *final(self) == old(self).session_begun(),
    {
        self.session = self.session + 1;
        self.session_open = true;
        self.connection_open = false;
    }

    /// Admits sends to a new connection, which was made in the given network
    /// epoch; leases of the connection before end.
    pub fn connection_succeeded_with_network_epoch(&mut self, network_loss_epoch: u64)
        requires
            old(self).connection < u64::MAX,
        ensures
            *final(self) == old(self).connected(network_loss_epoch),
    {
        self.connection = self.connection + 1;
        self.connection_open = true;
        self.network_loss_epoch = network_loss_epoch;
    }

    /// Ends the connection but not its session.
    pub fn connection_ended(&mut self)
        ensures
            *final(self) == old(self).disconnected(),
    {
        self.connection_open = false;
    }

    /// Ends the session and its connection.
    pub fn end_session(&mut self)
        ensures
            *final(self) == old(self).session_over(),
    {
        self.session_open = false;
        self.connection_open = false;
    }

    /// Takes a lease of the connection, or of the session for a send that
    /// waits for the next connection.
    pub fn lease_observed(&self, policy: DisconnectedTaskPolicy) -> (lease: SendLease)
        ensures
            lease == self.leased(policy),
    {
        SendLease {
            policy,
            session: self.session,
            connection: self.connection,
            network_loss_epoch: self.network_loss_epoch,
        }
    }

    /// Whether a lease has ended.
    pub fn is_revoked(&self, lease: SendLease) -> (revoked: bool)
        ensures
            revoked == self.revoked(lease),
    {
        match lease.policy {
            DisconnectedTaskPolicy::Reject => !self.connection_open || self.connection
                != lease.connection,
            DisconnectedTaskPolicy::WaitForReconnect => !self.session_open || self.session
                != lease.session,
        }
    }
}

/// Why a send that holds `lease` is refused, if it is.
pub open spec fn refusal(
    admission: SendAdmission,
    lease: SendLease,
    status: ConnectionStatus,
    network: Option<NetworkStatusSnapshot>,
) -> Option<NetError> {
    let waits = (status is Connecting || status is Reconnecting)
        && lease.policy is WaitForReconnect;
    if status is Connected || waits {
        if admission.revoked(lease) {
            Some(NetError::ConnectionClosed)
        } else if lease.policy is Reject && (network matches Some(snapshot) && snapshot.invalidates(
            lease.network_loss_epoch,
        )) {
            Some(NetError::NetworkError)
        } else {
            None
        }
    } else {
        match status {
            ConnectionStatus::Closing => Some(NetError::ConnectionClosing),
            ConnectionStatus::Closed => Some(NetError::EngineDropped),
            _ => Some(NetError::SocketNotOpened),
        }
    }
}

/// Decides whether a send that holds `lease` may proceed. A connection that
/// the observed network has already invalidated takes no send that would not
/// outlive it, whatever the published status says.
pub fn check_lease(
    admission: &SendAdmission,
    lease: SendLease,
    status: ConnectionStatus,
    network: Option<NetworkStatusSnapshot>,
) -> (result: Result<(), NetError>)
    ensures
        result == match refusal(*admission, lease, status, network) {
            Some(error) => Err::<(), NetError>(error),
            None => Ok::<(), NetError>(()),
        },
{
    let waits = (status == ConnectionStatus::Connecting || status
        == ConnectionStatus::Reconnecting) && lease.policy
        == DisconnectedTaskPolicy::WaitForReconnect;
    if status == ConnectionStatus::Connected || waits {
        if admission.is_revoked(lease) {
            return Err(NetError::ConnectionClosed);
        }
        if lease.policy == DisconnectedTaskPolicy::Reject {
            if let Some(snapshot) = network {
                if snapshot.is_invalid_for(lease.network_loss_epoch) {
                    return Err(NetError::NetworkError);
                }
            }
        }
        return Ok(());
    }
    match status {
        ConnectionStatus::Closing => Err(NetError::ConnectionClosing),
        ConnectionStatus::Closed => Err(NetError::EngineDropped),
        _ => Err(NetError::SocketNotOpened),
    }
}

/// A send that would be refused without a connection never outlives the
/// connection that it saw: neither its end nor its replacement.
pub proof fn rejecting_leases_end_with_their_connection(
    admission: SendAdmission,
    network_loss_epoch: u64,
)
    requires
        admission.connection < u64::MAX,
    ensures
        ({
            let lease = admission.leased(DisconnectedTaskPolicy::Reject);
            &&& admission.disconnected().revoked(lease)
            &&& admission.connected(network_loss_epoch).revoked(lease)
            &&& admission.session_over().revoked(lease)
            &&& admission.session_begun().revoked(lease)
        }),
{
}

/// A send that waits for a reconnect outlives connections, and ends with its
/// session.
pub proof fn waiting_leases_end_with_their_session(
    admission: SendAdmission,
    network_loss_epoch: u64,
)
    requires
        admission.session_open,
        admission.session < u64::MAX,
    ensures
        ({
            let lease = admission.leased(DisconnectedTaskPolicy::WaitForReconnect);
            &&& !admission.revoked(lease)
            &&& !admission.disconnected().revoked(lease)
            &&& !admission.connected(network_loss_epoch).revoked(lease)
            &&& admission.session_over().revoked(lease)
            &&& admission.session_begun().revoked(lease)
        }),
{
}

/// A lease that ended stays ended, whatever follows.
pub proof fn ended_leases_stay_ended(
    admission: SendAdmission,
    lease: SendLease,
    network_loss_epoch: u64,
)
    requires
        lease.session <= admission.session < u64::MAX,
        lease.connection <= admission.connection < u64::MAX,
        admission.revoked(lease),
    ensures
        admission.session_begun().revoked(lease),
        admission.connected(network_loss_epoch).revoked(lease),
        admission.disconnected().revoked(lease),
        admission.session_over().revoked(lease),
{
}

/// No send that would be refused without a connection is let through while the
/// observed network is unavailable, or was since the connection was made.
pub proof fn observed_losses_stop_sends(
    admission: SendAdmission,
    lease: SendLease,
    status: ConnectionStatus,
    snapshot: NetworkStatusSnapshot,
)
    requires
        lease.policy is Reject,
        snapshot.invalidates(lease.network_loss_epoch),
    ensures
        refusal(admission, lease, status, Some(snapshot)) is Some,
{
}

/// A send is let through exactly if its connection or session is there: one that
/// does not wait needs the connection that it saw, which the network must not
/// speak against; one that waits needs its session and an attempt or a connection.
/// A refusal names the reason.
pub proof fn sends_are_let_through_to_what_is_there(
    admission: SendAdmission,
    lease: SendLease,
    status: ConnectionStatus,
    network: Option<NetworkStatusSnapshot>,
)
    ensures
        ({
            let refused = refusal(admission, lease, status, network);
            let waits = lease.policy is WaitForReconnect;
            let same = if waits {
                admission.session_open && admission.session == lease.session
            } else {
                admission.connection_open && admission.connection == lease.connection
            };
            let lost = network matches Some(snapshot) && (snapshot.loss_epoch
                != lease.network_loss_epoch || snapshot.status == Some(
                crate::network_status::NetworkStatus::Unavailable,
            ));
            let served = status is Connected || (waits && (status is Connecting
                || status is Reconnecting));
            &&& refused is None <==> served && same && (waits || !lost)
            &&& status is Closing ==> refused == Some(NetError::ConnectionClosing)
            &&& status is Closed ==> refused == Some(NetError::EngineDropped)
            &&& !served && !(status is Closing) && !(status is Closed) ==> refused == Some(
                NetError::SocketNotOpened,
            )
            &&& served && !same ==> refused == Some(NetError::ConnectionClosed)
            &&& served && same && !waits && lost ==> refused == Some(NetError::NetworkError)
        }),
{
}

/// A lease that is taken now lasts now: it names the session and the connection of
/// this moment.
pub proof fn fresh_leases_last(admission: SendAdmission)
    ensures
        ({
            let one = admission.leased(DisconnectedTaskPolicy::Reject);
            let other = admission.leased(DisconnectedTaskPolicy::WaitForReconnect);
            &&& one.policy is Reject && other.policy is WaitForReconnect
            &&& admission.revoked(one) <==> !admission.connection_open
            &&& admission.revoked(other) <==> !admission.session_open
            &&& one.network_loss_epoch == admission.network_loss_epoch
            &&& one.session == admission.session && one.connection == admission.connection
            &&& other.session == admission.session
        }),
{
}

/// A new connection lets sends through to it, a new session lets waiting sends in,
/// and the end of either stops exactly its own.
pub proof fn admission_follows_the_connection(admission: SendAdmission, network_loss_epoch: u64)
    requires
        admission.connection < u64::MAX,
        admission.session < u64::MAX,
    ensures
        ({
            let made = admission.connected(network_loss_epoch);
            let begun = admission.session_begun();
            &&& made.connection_open && made.connection != admission.connection
            &&& made.network_loss_epoch == network_loss_epoch
            &&& made.session == admission.session && made.session_open == admission.session_open
            &&& begun.session_open && begun.session != admission.session
            &&& !begun.connection_open
            &&& !admission.disconnected().connection_open
            &&& admission.disconnected().session_open == admission.session_open
            &&& admission.disconnected().session == admission.session
            &&& !admission.session_over().session_open
            &&& !admission.session_over().connection_open
        }),
{
}

/// A configuration is usable exactly if it repeats only what may arrive twice and
/// if the clock can express each of its deadlines.
pub proof fn usable_configurations_are_harmless(config: WSRequestConfig, now: Instant)
    ensures
        config.usable(now) <==> {
            let last = crate::clock::MAX_INSTANT_NANOS;
            &&& config.idempotent || config.send_retry_count == 0
            &&& now.nanos + config.write_timeout.nanos <= last
            &&& now.nanos + config.response_timeout.nanos <= last
            &&& config.enqueue_timeout is None || now.nanos + config.enqueue_timeout->0.nanos
                <= last
        },
{
}

} // verus!
