//! Local network reachability and the internal observation of it.
use vstd::prelude::*;

verus! {

/// Whether the local network can be used.
#[derive(Clone, Copy, Debug, PartialEq, Eq, Structural)]
pub enum NetworkStatus {
    /// A usable route exists.
    Available,
    /// No usable route exists.
    Unavailable,
}

/// One observation of the local network.
#[derive(Clone, Copy, Debug, PartialEq, Eq, Structural)]
pub struct NetworkStatusSnapshot {
    /// Number of the observation.
    pub revision: u64,
    /// Number of times that the network was lost so far.
    pub loss_epoch: u64,
    /// The observed status; nothing while no monitor observes the network.
    pub status: Option<NetworkStatus>,
}

impl NetworkStatusSnapshot {
    /// Whether the network is known to be unusable.
    pub open spec fn offline(self) -> bool {
        self.status == Some(NetworkStatus::Unavailable)
    }

    /// Whether a connection made in `epoch` can no longer be trusted.
    pub open spec fn invalidates(self, epoch: u64) -> bool {
        self.loss_epoch != epoch || self.offline()
    }

    /// Whether the network is known to be unusable.
    pub fn is_offline(&self) -> (offline: bool)
        ensures
            offline == self.offline(),
    {
        match self.status {
            Some(NetworkStatus::Unavailable) => true,
            _ => false,
        }
    }

    /// Whether a connection made in `epoch` can no longer be trusted.
    pub fn is_invalid_for(&self, epoch: u64) -> (invalid: bool)
        ensures
            invalid == self.invalidates(epoch),
    {
        self.loss_epoch != epoch || self.is_offline()
    }
}

/// A network counts as lost only on evidence: if it is known to be unavailable, or
/// was since the connection was made. An unknown status is no evidence.
pub proof fn only_evidence_invalidates(snapshot: NetworkStatusSnapshot, epoch: u64)
    ensures
        snapshot.offline() <==> snapshot.status == Some(NetworkStatus::Unavailable),
        snapshot.loss_epoch != epoch ==> snapshot.invalidates(epoch),
        snapshot.status == Some(NetworkStatus::Unavailable) ==> snapshot.invalidates(epoch),
        snapshot.loss_epoch == epoch && snapshot.status != Some(NetworkStatus::Unavailable)
            ==> !snapshot.invalidates(epoch),
{
}

} // verus!
