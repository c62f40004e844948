//! Holds connection attempts back while the network is unavailable.
use vstd::prelude::*;

use crate::clock::{is_past, Duration, Instant};
use crate::net_error::NetError;
use crate::network_status::NetworkStatusSnapshot;

verus! {

/// The end of a connection cycle whose policy limits it to `max_elapsed`; none
/// without a limit. A limit that the clock cannot express is refused.
pub fn cycle_deadline(started_at: Instant, max_elapsed: Option<Duration>) -> (deadline: Result<
    Option<Instant>,
    NetError,
>)
    ensures
        deadline == match max_elapsed {
            None => Ok::<Option<Instant>, NetError>(None),
            Some(limit) => match started_at.plus(limit) {
                Some(end) => Ok::<Option<Instant>, NetError>(Some(end)),
                None => Err::<Option<Instant>, NetError>(NetError::ConfigError),
            },
        },
{
    match max_elapsed {
        None => Ok(None),
        Some(limit) => match started_at.checked_add(limit) {
            Some(end) => Ok(Some(end)),
            None => Err(NetError::ConfigError),
        },
    }
}

/// What the network gate decides for an attempt that is about to start.
#[derive(Clone, Copy, Debug, PartialEq, Eq)]
pub enum GateDecision {
    /// The attempt may start, in the given epoch if the network is observed.
    Proceed(Option<u64>),
    /// The attempt waits for a change of the network.
    Sleep {
        /// When waiting ends without an attempt.
        until: Instant,
    },
    /// The connection cycle ends.
    Fail(NetError),
}

/// Why a wait for the network ended.
#[derive(Clone, Copy, Debug, PartialEq, Eq, Structural)]
pub enum GateWake {
    /// The end of the cycle was reached.
    DeadlineElapsed,
    /// A new observation is there.
    Changed,
    /// No further observation will come.
    SourceClosed,
}

/// How an attempt stands that the network gate watches.
#[derive(Clone, Copy, Debug, PartialEq, Eq, Structural)]
pub enum GateRun {
    /// The network was lost: the attempt ends with a network error.
    Interrupted,
    /// The attempt has its own result.
    Completed,
    /// The attempt goes on.
    Pending,
}

/// The network gate of one connection cycle.
#[derive(Clone, Copy, Debug, PartialEq, Eq, Structural)]
pub struct NetworkGate {
    /// Whether the network was observed when the cycle began.
    pub enabled: bool,
    /// Whether observations still come.
    pub receiving: bool,
    /// Whether the network was back when it interrupted the last attempt.
    pub recovered_during_attempt: bool,
}

/// What the network gate decides at `now` with the latest observation `snapshot`.
pub open spec fn gate_decision(
    gate: NetworkGate,
    snapshot: NetworkStatusSnapshot,
    deadline: Option<Instant>,
    now: Instant,
) -> GateDecision {
    if gate.enabled && crate::clock::deadline_passed(now, deadline) {
        GateDecision::Fail(NetError::RetryExhausted)
    } else if !gate.receiving {
        GateDecision::Proceed(None)
    } else if !snapshot.offline() {
        GateDecision::Proceed(Some(snapshot.loss_epoch))
    } else {
        match deadline {
            None => GateDecision::Fail(NetError::ConfigError),
            Some(until) => if now.reached(until) {
                GateDecision::Fail(NetError::RetryExhausted)
            } else {
                GateDecision::Sleep { until }
            },
        }
    }
}

impl NetworkGate {
    /// Observations come only to a gate that was made for them.
    pub open spec fn wf(self) -> bool {
        self.receiving ==> self.enabled
    }

    /// Whether an attempt of `epoch` is interrupted by `snapshot`.
    pub open spec fn interrupts(self, epoch: Option<u64>, snapshot: NetworkStatusSnapshot) -> bool {
        self.receiving && (epoch matches Some(made_in) && snapshot.invalidates(made_in))
    }

    /// The network gate of a new connection cycle.
    pub fn new(observed: bool) -> (gate: Self)
        ensures
            gate == (NetworkGate {
                enabled: observed,
                receiving: observed,
                recovered_during_attempt: false,
            }),
            gate.wf(),
    {
        NetworkGate { enabled: observed, receiving: observed, recovered_during_attempt: false }
    }

    /// Decides whether an attempt may start.
    ///
    /// A cycle whose end was reached makes no further attempt. While the
    /// network is known to be unavailable the attempt waits, which needs a
    /// finite budget; an unknown status does not hold it back.
    pub fn wait_available(
        &self,
        snapshot: &NetworkStatusSnapshot,
        deadline: Option<Instant>,
        now: Instant,
    ) -> (decision: GateDecision)
        ensures
            decision == gate_decision(*self, *snapshot, deadline, now),
    {
        if self.enabled && is_past(now, deadline) {
            return GateDecision::Fail(NetError::RetryExhausted);
        }
        if !self.receiving {
            return GateDecision::Proceed(None);
        }
        if !snapshot.is_offline() {
            return GateDecision::Proceed(Some(snapshot.loss_epoch));
        }
        match deadline {
            None => GateDecision::Fail(NetError::ConfigError),
            Some(until) => if now.has_reached(until) {
                GateDecision::Fail(NetError::RetryExhausted)
            } else {
                GateDecision::Sleep { until }
            },
        }
    }

    /// Takes in why a wait ended; at the end of the cycle it failed. A source
    /// that closed supplies no evidence any more and holds nothing back.
    pub fn wake(&mut self, wake: GateWake) -> (result: Result<(), NetError>)
        ensures
            *final(self) == (NetworkGate {
                receiving: old(self).receiving && !(wake is SourceClosed),
                ..*old(self)
            }),
            result == if wake is DeadlineElapsed {
                Err::<(), NetError>(NetError::RetryExhausted)
            } else {
                Ok::<(), NetError>(())
            },
    {
        match wake {
            GateWake::DeadlineElapsed => Err(NetError::RetryExhausted),
            GateWake::Changed => Ok(()),
            GateWake::SourceClosed => {
                self.receiving = false;
                Ok(())
            },
        }
    }

    /// Watches an attempt of `epoch`. A loss of the network goes before the
    /// attempt's own result, even if the network is already back.
    pub fn run(
        &mut self,
        epoch: Option<u64>,
        snapshot: &NetworkStatusSnapshot,
        operation_ready: bool,
    ) -> (run: GateRun)
        ensures
            run == if old(self).interrupts(epoch, *snapshot) {
                GateRun::Interrupted
            } else if operation_ready {
                GateRun::Completed
            } else {
                GateRun::Pending
            },
            *final(self) == if old(self).interrupts(epoch, *snapshot) {
                NetworkGate { recovered_during_attempt: !snapshot.offline(), ..*old(self) }
            } else {
                *old(self)
            },
    {
        if self.interrupted(epoch, snapshot) {
            GateRun::Interrupted
        } else if operation_ready {
            GateRun::Completed
        } else {
            GateRun::Pending
        }
    }

    /// Whether an attempt of `epoch` is interrupted, and if so whether the
    /// network is already back.
    fn interrupted(&mut self, epoch: Option<u64>, snapshot: &NetworkStatusSnapshot) -> (interrupted:
        bool)
        ensures
            interrupted == old(self).interrupts(epoch, *snapshot),
            *final(self) == if interrupted {
                NetworkGate { recovered_during_attempt: !snapshot.offline(), ..*old(self) }
            } else {
                *old(self)
            },
    {
        match epoch {
            None => false,
            Some(made_in) => if self.receiving && snapshot.is_invalid_for(made_in) {
                self.recovered_during_attempt = !snapshot.is_offline();
                true
            } else {
                false
            },
        }
    }

    /// Plans the wait before a repetition: none right after a recovery,
    /// otherwise until `delay` has passed or the cycle ends.
    pub fn backoff(&mut self, delay: Duration, cycle_end: Option<Instant>, now: Instant) -> (plan:
        Result<Option<Instant>, NetError>)
        ensures
            plan == backoff_plan(*old(self), delay, cycle_end, now),
            *final(self) == (NetworkGate { recovered_during_attempt: false, ..*old(self) }),
    {
        if self.recovered_during_attempt {
            self.recovered_during_attempt = false;
            return Ok(None);
        }
        match now.checked_add(delay) {
            None => Err(NetError::ConfigError),
            Some(delay_end) => match cycle_end {
                None => Ok(Some(delay_end)),
                Some(end) => if end.nanos <= delay_end.nanos {
                    Ok(Some(end))
                } else {
                    Ok(Some(delay_end))
                },
            },
        }
    }
}

/// The wait before a repetition.
pub open spec fn backoff_plan(
    gate: NetworkGate,
    delay: Duration,
    cycle_end: Option<Instant>,
    now: Instant,
) -> Result<Option<Instant>, NetError> {
    if gate.recovered_during_attempt {
        Ok(None)
    } else {
        match now.plus(delay) {
            None => Err(NetError::ConfigError),
            Some(delay_end) => match cycle_end {
                Some(end) if end.nanos <= delay_end.nanos => Ok(Some(end)),
                _ => Ok(Some(delay_end)),
            },
        }
    }
}

/// An observed network that is known to be unavailable never lets an attempt
/// start.
pub proof fn offline_gate_is_closed(
    gate: NetworkGate,
    snapshot: NetworkStatusSnapshot,
    deadline: Option<Instant>,
    now: Instant,
)
    requires
        gate.receiving,
        snapshot.offline(),
    ensures
        !(gate_decision(gate, snapshot, deadline, now) is Proceed),
{
}

/// A cycle that observes the network makes no attempt at or after its end.
pub proof fn ended_cycle_makes_no_attempt(
    gate: NetworkGate,
    snapshot: NetworkStatusSnapshot,
    deadline: Instant,
    now: Instant,
)
    requires
        gate.enabled,
        now.reached(deadline),
    ensures
        gate_decision(gate, snapshot, Some(deadline), now) == GateDecision::Fail(
            NetError::RetryExhausted,
        ),
{
}

/// Neither a wait for the network nor a backoff extends beyond the cycle.
pub proof fn waits_end_with_the_cycle(
    gate: NetworkGate,
    snapshot: NetworkStatusSnapshot,
    delay: Duration,
    end: Instant,
    now: Instant,
)
    ensures
        gate_decision(gate, snapshot, Some(end), now) matches GateDecision::Sleep { until }
            ==> until.nanos <= end.nanos,
        backoff_plan(gate, delay, Some(end), now) matches Ok(Some(until)) ==> until.nanos
            <= end.nanos,
{
}

/// An attempt that the network gate let start is interrupted by every later loss.
pub proof fn every_later_loss_interrupts(
    gate: NetworkGate,
    first: NetworkStatusSnapshot,
    later: NetworkStatusSnapshot,
    deadline: Option<Instant>,
    now: Instant,
)
    requires
        gate.receiving,
        later.loss_epoch > first.loss_epoch || later.offline(),
    ensures
        gate_decision(gate, first, deadline, now) matches GateDecision::Proceed(epoch)
            ==> gate.interrupts(epoch, later),
{
}

/// An attempt may start as soon as nothing holds it back: at once without an
/// observed network, and with one that is not known to be unavailable in the epoch
/// that was observed. Otherwise it waits until the end of the cycle, which there
/// has to be.
pub proof fn attempts_start_unless_held_back(
    gate: NetworkGate,
    snapshot: NetworkStatusSnapshot,
    deadline: Option<Instant>,
    now: Instant,
)
    requires
        gate.receiving ==> gate.enabled,
    ensures
        ({
            let decision = gate_decision(gate, snapshot, deadline, now);
            let over = deadline matches Some(end) && now.nanos >= end.nanos;
            let lost = snapshot.status == Some(crate::network_status::NetworkStatus::Unavailable);
            &&& !gate.enabled ==> decision == GateDecision::Proceed(None)
            &&& gate.enabled && over ==> decision == GateDecision::Fail(NetError::RetryExhausted)
            &&& gate.enabled && !over && !gate.receiving ==> decision == GateDecision::Proceed(None)
            &&& gate.receiving && !over && !lost ==> decision == GateDecision::Proceed(
                Some(snapshot.loss_epoch),
            )
            &&& gate.receiving && !over && lost ==> match deadline {
                Some(until) => decision == (GateDecision::Sleep { until }),
                None => decision == GateDecision::Fail(NetError::ConfigError),
            }
        }),
{
}

/// A repetition follows a recovered network at once; otherwise it waits for the
/// drawn time, or until the cycle ends if that is earlier.
pub proof fn backoffs_last_as_long_as_drawn(
    gate: NetworkGate,
    delay: Duration,
    cycle_end: Option<Instant>,
    now: Instant,
)
    requires
        now.nanos + delay.nanos <= crate::clock::MAX_INSTANT_NANOS,
    ensures
        ({
            let plan = backoff_plan(gate, delay, cycle_end, now);
            &&& gate.recovered_during_attempt ==> plan == Ok::<Option<Instant>, NetError>(None)
            &&& !gate.recovered_during_attempt ==> (plan matches Ok(Some(until)) && {
                &&& until.nanos == now.nanos + delay.nanos || cycle_end == Some(until)
                &&& until.nanos <= now.nanos + delay.nanos
                &&& cycle_end matches Some(end) ==> until.nanos <= end.nanos
            })
        }),
{
}

/// An attempt is interrupted exactly if it was made in an observed epoch and the
/// observation speaks against that.
pub proof fn only_observed_losses_interrupt(
    gate: NetworkGate,
    epoch: u64,
    snapshot: NetworkStatusSnapshot,
)
    ensures
        !gate.interrupts(None, snapshot),
        !gate.receiving ==> !gate.interrupts(Some(epoch), snapshot),
        gate.receiving ==> (gate.interrupts(Some(epoch), snapshot) <==> snapshot.loss_epoch != epoch
            || snapshot.status == Some(crate::network_status::NetworkStatus::Unavailable)),
{
}

/// A wait whose end the clock cannot express is a configuration error.
pub proof fn inexpressible_backoffs_are_refused(
    gate: NetworkGate,
    delay: Duration,
    cycle_end: Option<Instant>,
    now: Instant,
)
    requires
        now.nanos + delay.nanos > crate::clock::MAX_INSTANT_NANOS,
        !gate.recovered_during_attempt,
    ensures
        backoff_plan(gate, delay, cycle_end, now) == Err::<Option<Instant>, NetError>(
            NetError::ConfigError,
        ),
{
}

} // verus!
