//! The observation of the local network that connections follow.
//!
//! At most one monitor publishes at a time. Its observation is forgotten with
//! it, and forgetting is no loss of the network.
use vstd::prelude::*;

use crate::net_error::NetError;
use crate::network_status::{NetworkStatus, NetworkStatusSnapshot};

verus! {

/// The right of one monitor to publish.
#[derive(Clone, Copy, Debug, PartialEq, Eq, Structural)]
pub struct NetworkStatusPublisher {
    /// Number of the monitor.
    pub generation: u64,
}

/// The latest observation and who may replace it.
#[derive(Clone, Copy, Debug, PartialEq, Eq, Structural)]
pub struct NetworkStatusSource {
    /// The latest observation.
    pub snapshot: NetworkStatusSnapshot,
    /// Number of the current monitor.
    pub generation: u64,
    /// Whether the current monitor still observes.
    pub observing: bool,
}

/// Whether an observation is the beginning of a loss.
pub open spec fn is_loss(before: Option<NetworkStatus>, after: Option<NetworkStatus>) -> bool {
    after == Some(NetworkStatus::Unavailable) && before != Some(NetworkStatus::Unavailable)
}

/// The snapshot after an observation.
pub open spec fn observed(
    snapshot: NetworkStatusSnapshot,
    status: Option<NetworkStatus>,
) -> NetworkStatusSnapshot {
    NetworkStatusSnapshot {
        revision: (snapshot.revision + 1) as u64,
        loss_epoch: if is_loss(snapshot.status, status) {
            (snapshot.loss_epoch + 1) as u64
        } else {
            snapshot.loss_epoch
        },
        status,
    }
}

impl NetworkStatusSource {
    /// Whether a monitor may publish.
    pub open spec fn admits(self, publisher: NetworkStatusPublisher) -> bool {
        self.observing && self.generation == publisher.generation
    }

    /// Whether another observation can be numbered.
    pub open spec fn has_numbers(self) -> bool {
        self.snapshot.revision < u64::MAX && self.snapshot.loss_epoch < u64::MAX
    }

    /// The source after a monitor published an observation.
    pub open spec fn published(
        self,
        publisher: NetworkStatusPublisher,
        status: Option<NetworkStatus>,
    ) -> NetworkStatusSource {
        if self.admits(publisher) && self.has_numbers() {
            NetworkStatusSource { snapshot: observed(self.snapshot, status), ..self }
        } else {
            self
        }
    }

    /// The source once a monitor ended.
    pub open spec fn completed(self, publisher: NetworkStatusPublisher) -> NetworkStatusSource {
        if self.admits(publisher) {
            NetworkStatusSource {
                snapshot: NetworkStatusSnapshot {
                    revision: if self.snapshot.revision < u64::MAX {
                        (self.snapshot.revision + 1) as u64
                    } else {
                        self.snapshot.revision
                    },
                    status: None,
                    ..self.snapshot
                },
                observing: false,
                ..self
            }
        } else {
            self
        }
    }

    /// Nothing is known of the network.
    pub fn new() -> (source: Self)
        ensures
            source == (NetworkStatusSource {
                snapshot: NetworkStatusSnapshot { revision: 0, loss_epoch: 0, status: None },
                generation: 0,
                observing: false,
            }),
    {
        NetworkStatusSource {
            snapshot: NetworkStatusSnapshot { revision: 0, loss_epoch: 0, status: None },
            generation: 0,
            observing: false,
        }
    }

    /// The latest observation.
    pub fn subscribe(&self) -> (snapshot: NetworkStatusSnapshot)
        ensures
            snapshot == self.snapshot,
    {
        self.snapshot
    }

    /// Lets a new monitor publish, in place of the one before.
    pub fn begin_generation(&mut self) -> (publisher: Result<NetworkStatusPublisher, NetError>)
        ensures
            match publisher {
                Ok(publisher) => {
                    &&& publisher.generation == old(self).generation + 1
                    &&& *final(self) == (NetworkStatusSource {
                        generation: publisher.generation,
                        observing: true,
                        ..*old(self)
                    })
                },
                Err(error) => {
                    &&& error is InternalError
                    &&& old(self).generation == u64::MAX
                    &&& *final(self) == *old(self)
                },
            },
    {
        match self.generation.checked_add(1) {
            Some(generation) => {
                self.generation = generation;
                self.observing = true;
                Ok(NetworkStatusPublisher { generation })
            },
            None => Err(NetError::InternalError),
        }
    }

    /// Publishes an observation. One of a monitor that was replaced or has
    /// ended changes nothing. Every change to unavailable begins a new epoch.
    pub fn publish(
        &mut self,
        publisher: NetworkStatusPublisher,
        status: Option<NetworkStatus>,
    ) -> (result: Result<(), NetError>)
        ensures
            *final(self) == old(self).published(publisher, status),
            result == if old(self).admits(publisher) && !old(self).has_numbers() {
                Err::<(), NetError>(NetError::InternalError)
            } else {
                Ok::<(), NetError>(())
            },
    {
        if !self.observing || self.generation != publisher.generation {
            return Ok(());
        }
        if self.snapshot.revision == u64::MAX || self.snapshot.loss_epoch == u64::MAX {
            return Err(NetError::InternalError);
        }
        let was_lost = self.snapshot.is_offline();
        let is_lost = match status {
            Some(NetworkStatus::Unavailable) => true,
            _ => false,
        };
        self.snapshot.revision = self.snapshot.revision + 1;
        if is_lost && !was_lost {
            self.snapshot.loss_epoch = self.snapshot.loss_epoch + 1;
        }
        self.snapshot.status = status;
        Ok(())
    }

    /// Ends a monitor: what it observed is forgotten, and it publishes nothing
    /// any more. The end of a monitor that was replaced changes nothing.
    pub fn complete(&mut self, publisher: NetworkStatusPublisher)
        ensures
            *final(self) == old(self).completed(publisher),
    {
        if self.observing && self.generation == publisher.generation {
            self.observing = false;
            self.snapshot.status = None;
            if self.snapshot.revision < u64::MAX {
                self.snapshot.revision = self.snapshot.revision + 1;
            }
        }
    }
}

/// A monitor that ended stays silent, and its end is no loss.
pub proof fn ended_monitors_are_silent(
    source: NetworkStatusSource,
    publisher: NetworkStatusPublisher,
)
    ensures
        !source.completed(publisher).admits(publisher),
        source.completed(publisher).completed(publisher) == source.completed(publisher),
        source.completed(publisher).snapshot.loss_epoch == source.snapshot.loss_epoch,
        source.admits(publisher) ==> source.completed(publisher).snapshot.status is None,
{
}

/// Two observations of an unavailable network in a row are one loss; with an
/// available network between them they are two.
pub proof fn losses_are_counted_once(snapshot: NetworkStatusSnapshot)
    requires
        snapshot.status == Some(NetworkStatus::Available),
        snapshot.revision < u64::MAX - 4,
        snapshot.loss_epoch < u64::MAX - 4,
    ensures
        ({
            let lost = observed(snapshot, Some(NetworkStatus::Unavailable));
            let again = observed(lost, Some(NetworkStatus::Unavailable));
            let back = observed(again, Some(NetworkStatus::Available));
            let twice = observed(back, Some(NetworkStatus::Unavailable));
            &&& lost.loss_epoch == snapshot.loss_epoch + 1
            &&& again.loss_epoch == lost.loss_epoch
            &&& back.loss_epoch == lost.loss_epoch
            &&& twice.loss_epoch == lost.loss_epoch + 1
        }),
{
}

/// A connection made before a loss stays invalid for every later observation.
pub proof fn losses_are_never_forgotten(
    snapshot: NetworkStatusSnapshot,
    status: Option<NetworkStatus>,
    epoch: u64,
)
    requires
        epoch < snapshot.loss_epoch < u64::MAX,
        snapshot.revision < u64::MAX,
    ensures
        observed(snapshot, status).loss_epoch >= snapshot.loss_epoch,
        observed(snapshot, status).invalidates(epoch),
{
}

/// Each observation is numbered and becomes the latest; it counts as a loss exactly
/// if the network is unavailable now and was not known to be so before.
pub proof fn observations_replace_each_other(
    snapshot: NetworkStatusSnapshot,
    status: Option<NetworkStatus>,
)
    requires
        snapshot.revision < u64::MAX,
        snapshot.loss_epoch < u64::MAX,
    ensures
        ({
            let after = observed(snapshot, status);
            let lost = status == Some(NetworkStatus::Unavailable) && snapshot.status != Some(
                NetworkStatus::Unavailable,
            );
            &&& after.revision == snapshot.revision + 1
            &&& after.status == status
            &&& lost ==> after.loss_epoch == snapshot.loss_epoch + 1
            &&& !lost ==> after.loss_epoch == snapshot.loss_epoch
        }),
{
}

/// Only the current monitor publishes, as long as it observes; its end is numbered
/// and leaves nothing known, and the end of any other changes nothing.
pub proof fn only_the_current_monitor_counts(
    source: NetworkStatusSource,
    publisher: NetworkStatusPublisher,
)
    ensures
        source.admits(publisher) <==> source.observing && source.generation
            == publisher.generation,
        !source.admits(publisher) ==> source.completed(publisher) == source,
        source.admits(publisher) ==> ({
            let after = source.completed(publisher);
            &&& !after.observing
            &&& after.generation == source.generation
            &&& after.snapshot.status is None
            &&& after.snapshot.loss_epoch == source.snapshot.loss_epoch
            &&& source.snapshot.revision < u64::MAX ==> after.snapshot.revision
                == source.snapshot.revision + 1
            &&& source.snapshot.revision == u64::MAX ==> after.snapshot.revision == u64::MAX
        }),
        source.has_numbers() <==> source.snapshot.revision < u64::MAX
            && source.snapshot.loss_epoch < u64::MAX,
{
}

/// What the current monitor publishes is what connections observe; what any other
/// publishes, or one that has ended, is not.
pub proof fn publications_are_observed(
    source: NetworkStatusSource,
    publisher: NetworkStatusPublisher,
    status: Option<NetworkStatus>,
)
    requires
        source.snapshot.revision < u64::MAX,
        source.snapshot.loss_epoch < u64::MAX,
    ensures
        source.observing && source.generation == publisher.generation ==> ({
            let after = source.published(publisher, status);
            after.snapshot.status == status && after.snapshot.revision == source.snapshot.revision
                + 1 && after.observing && after.generation == source.generation
        }),
        !source.observing || source.generation != publisher.generation ==> source.published(
            publisher,
            status,
        ) == source,
        source.completed(publisher).published(publisher, status) == source.completed(publisher),
{
}

} // verus!
