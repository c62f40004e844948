//! One connection cycle: attempts, waits between them and their end.
use vstd::prelude::*;

use crate::clock::{is_past, Duration, Instant};
use crate::connection_failure::{
    WebSocketConnectStage, WebSocketConnectionFailure, WebSocketTerminationReason,
};
use crate::net_error::NetError;
use crate::network_gate::{cycle_deadline, GateDecision, GateWake, NetworkGate};
use crate::network_status::NetworkStatusSnapshot;
use crate::reconnect::ReconnectPolicy;
use crate::retry::{full_jitter_delay, retry_allowed, JitterState};

verus! {

/// Why a handshake request could not be built.
#[derive(Clone, Copy, Debug, PartialEq, Eq)]
pub enum ConnectAttemptError {
    /// The request itself is at fault.
    Build(NetError),
    /// The header provider did not answer within the attempt.
    ProviderTimedOut,
}

/// Where a cycle stands.
#[derive(Clone, Copy, Debug, PartialEq, Eq)]
pub enum CyclePhase {
    /// The cycle cannot run: the clock cannot express its limit.
    Inexpressible,
    /// The next attempt has not been planned yet.
    Planning,
    /// The wait before a repetition runs.
    BackingOff,
    /// The attempt waits for the network.
    Waiting,
    /// The attempt runs.
    Attempting {
        /// The network epoch in which it started, if it is observed.
        epoch: Option<u64>,
    },
    /// The established connection is being handed to the worker.
    Publishing,
    /// The cycle is over.
    Ended,
}

/// What a cycle learns.
#[derive(Clone, Copy, Debug, PartialEq, Eq)]
pub enum CycleEvent {
    /// The cycle goes on: it begins, or the wait before a repetition ended.
    Continue,
    /// The wait for the network ended.
    Woke(GateWake),
    /// The attempt opened a connection.
    Opened,
    /// The connection was handed to the worker, with the given result.
    Published(Result<(), NetError>),
    /// The attempt failed.
    Failed(WebSocketConnectionFailure),
    /// Whoever started the cycle wants nothing more of it.
    Cancelled,
}

/// What a cycle asks for.
#[derive(Clone, Copy, Debug, PartialEq, Eq)]
pub enum CycleAction {
    /// Wait, unless a hint or a change of the network comes first.
    Backoff {
        /// When waiting ends.
        until: Instant,
    },
    /// Wait for a change of the network.
    AwaitNetwork {
        /// When waiting ends without an attempt.
        until: Instant,
    },
    /// Make an attempt.
    Attempt {
        /// The network epoch that it belongs to, if it is observed.
        epoch: Option<u64>,
        /// When the attempt has to be complete.
        deadline: Instant,
    },
    /// Hand the connection to the worker.
    Publish {
        /// Number of the cycle.
        generation: u64,
        /// The network epoch in which the connection was made, if it is
        /// observed. Only then does the worker answer.
        epoch: Option<u64>,
    },
    /// The worker has the connection; nothing is left to do.
    Finish {
        /// Number of the cycle.
        generation: u64,
    },
    /// Report the failure of the cycle.
    Fail {
        /// Number of the cycle.
        generation: u64,
        /// What failed.
        failure: WebSocketConnectionFailure,
        /// How the cycle ended.
        reason: WebSocketTerminationReason,
    },
    /// Report nothing: whoever cancelled the cycle does the rest.
    Stop,
    /// The event does not belong to the phase.
    Ignore,
}

/// The state of one connection cycle.
#[derive(Clone, Copy, Debug, PartialEq, Eq)]
pub struct ConnectCycle {
    /// Number of the cycle, which its end carries.
    pub generation: u64,
    /// When attempts are repeated.
    pub policy: ReconnectPolicy,
    /// Whether the network is observed.
    pub observes_network: bool,
    /// When the cycle began.
    pub started_at: Instant,
    /// When the cycle ends, if the policy limits it.
    pub cycle_end: Option<Instant>,
    /// Holds attempts back while the network is unavailable.
    pub gate: NetworkGate,
    /// Number of the current attempt, from zero.
    pub attempt: usize,
    /// Where the cycle stands.
    pub phase: CyclePhase,
}

/// The end of a cycle for a reason of its own.
pub open spec fn local_end(generation: u64, error: NetError) -> CycleAction {
    CycleAction::Fail {
        generation,
        failure: WebSocketConnectionFailure {
            error,
            stage: WebSocketConnectStage::EventDelivery,
            http_status: None,
            retryable: false,
        },
        reason: local_reason(error),
    }
}

/// Only the expiry of the cycle's own budget counts as exhausted.
pub open spec fn local_reason(error: NetError) -> WebSocketTerminationReason {
    if error is RetryExhausted {
        WebSocketTerminationReason::RetryExhausted
    } else {
        WebSocketTerminationReason::ConnectFailed
    }
}

/// The failure and the reason of a cycle that ends for a reason of its own.
/// Only the expiry of the cycle's own budget counts as exhausted; the error of
/// a provider keeps its class.
pub fn local_cycle_failure(error: NetError) -> (end: (
    WebSocketConnectionFailure,
    WebSocketTerminationReason,
))
    ensures
        end.0 == (WebSocketConnectionFailure {
            error,
            stage: WebSocketConnectStage::EventDelivery,
            http_status: None,
            retryable: false,
        }),
        end.1 == local_reason(error),
{
    let reason = if error == NetError::RetryExhausted {
        WebSocketTerminationReason::RetryExhausted
    } else {
        WebSocketTerminationReason::ConnectFailed
    };
    (
        WebSocketConnectionFailure::new(error, WebSocketConnectStage::EventDelivery, None, false),
        reason,
    )
}

/// The failure of an attempt that was interrupted from inside the client.
pub open spec fn interruption(error: NetError) -> WebSocketConnectionFailure {
    WebSocketConnectionFailure {
        error,
        stage: WebSocketConnectStage::EventDelivery,
        http_status: None,
        retryable: error is NetworkError,
    }
}

/// The failure of an attempt that was interrupted from inside the client; only
/// a loss of the network is worth another attempt.
pub fn network_interruption_failure(error: NetError) -> (failure: WebSocketConnectionFailure)
    ensures
        failure == interruption(error),
{
    WebSocketConnectionFailure::new(
        error,
        WebSocketConnectStage::EventDelivery,
        None,
        error == NetError::NetworkError,
    )
}

/// The failure of an attempt whose request could not be built.
pub fn request_failure(error: ConnectAttemptError) -> (failure: WebSocketConnectionFailure)
    ensures
        failure == match error {
            ConnectAttemptError::Build(cause) => crate::connection_failure::plain_failure(
                cause,
                WebSocketConnectStage::RequestBuild,
                false,
            ),
            ConnectAttemptError::ProviderTimedOut => crate::connection_failure::plain_failure(
                NetError::TimeoutError,
                WebSocketConnectStage::Provider,
                false,
            ),
        },
{
    match error {
        ConnectAttemptError::Build(cause) => WebSocketConnectionFailure::new(
            cause,
            WebSocketConnectStage::RequestBuild,
            None,
            false,
        ),
        ConnectAttemptError::ProviderTimedOut => WebSocketConnectionFailure::new(
            NetError::TimeoutError,
            WebSocketConnectStage::Provider,
            None,
            false,
        ),
    }
}

/// What became of handing an established connection to the worker.
pub open spec fn publication(
    network_loss_epoch: Option<u64>,
    sent: bool,
    answer: Option<Result<(), NetError>>,
) -> Result<(), NetError> {
    if !sent {
        Err(NetError::EngineDropped)
    } else if network_loss_epoch is None {
        Ok(())
    } else {
        match answer {
            Some(answered) => answered,
            None => Err(NetError::EngineDropped),
        }
    }
}

/// What became of handing an established connection to the worker: the worker
/// must be there, and it must accept a connection of an observed network.
pub fn publish_connected(
    network_loss_epoch: Option<u64>,
    sent: bool,
    answer: Option<Result<(), NetError>>,
) -> (result: Result<(), NetError>)
    ensures
        result == publication(network_loss_epoch, sent, answer),
{
    if !sent {
        return Err(NetError::EngineDropped);
    }
    if network_loss_epoch.is_some() {
        match answer {
            Some(answered) => answered,
            None => Err(NetError::EngineDropped),
        }
    } else {
        Ok(())
    }
}

impl ConnectCycle {
    /// The number of the attempt never exceeds what the policy grants.
    pub open spec fn wf(self) -> bool {
        &&& self.gate.wf()
        &&& self.gate.enabled == self.observes_network
        &&& self.attempt > 0 ==> self.policy.enabled && self.attempt <= self.policy.max_retries
    }

    /// The cycle after its end.
    pub open spec fn ended(self) -> ConnectCycle {
        ConnectCycle { phase: CyclePhase::Ended, ..self }
    }

    /// The end that bounds waits: only observed cycles have one.
    pub open spec fn waiting_end(self) -> Option<Instant> {
        if self.observes_network {
            self.cycle_end
        } else {
            None
        }
    }

    /// The attempt starts, waits for the network or ends the cycle.
    pub open spec fn enter_attempt(self, snapshot: NetworkStatusSnapshot, now: Instant) -> (
        ConnectCycle,
        CycleAction,
    ) {
        match crate::network_gate::gate_decision(self.gate, snapshot, self.cycle_end, now) {
            GateDecision::Fail(error) => (self.ended(), local_end(self.generation, error)),
            GateDecision::Sleep { until } => (
                ConnectCycle { phase: CyclePhase::Waiting, ..self },
                CycleAction::AwaitNetwork { until },
            ),
            GateDecision::Proceed(epoch) => match now.plus(self.policy.handshake_timeout) {
                None => (self.ended(), local_end(self.generation, NetError::ConfigError)),
                Some(deadline) => (
                    ConnectCycle { phase: CyclePhase::Attempting { epoch }, ..self },
                    CycleAction::Attempt { epoch, deadline },
                ),
            },
        }
    }

    /// The wait before a repetition is over.
    pub open spec fn leave_backoff(self, snapshot: NetworkStatusSnapshot, now: Instant) -> (
        ConnectCycle,
        CycleAction,
    ) {
        if self.observes_network && crate::clock::deadline_passed(now, self.cycle_end) {
            (self.ended(), local_end(self.generation, NetError::RetryExhausted))
        } else {
            self.enter_attempt(snapshot, now)
        }
    }

    /// A repetition is planned with the given wait.
    pub open spec fn enter_backoff(
        self,
        delay: Duration,
        snapshot: NetworkStatusSnapshot,
        now: Instant,
    ) -> (ConnectCycle, CycleAction) {
        let calm = ConnectCycle {
            gate: NetworkGate { recovered_during_attempt: false, ..self.gate },
            ..self
        };
        match crate::network_gate::backoff_plan(self.gate, delay, self.waiting_end(), now) {
            Err(error) => (calm.ended(), local_end(self.generation, error)),
            Ok(Some(until)) => (
                ConnectCycle { phase: CyclePhase::BackingOff, ..calm },
                CycleAction::Backoff { until },
            ),
            Ok(None) => calm.leave_backoff(snapshot, now),
        }
    }

    /// The attempt failed.
    pub open spec fn fail_attempt(
        self,
        failure: WebSocketConnectionFailure,
        delay: Duration,
        snapshot: NetworkStatusSnapshot,
        now: Instant,
    ) -> (ConnectCycle, CycleAction) {
        if self.may_retry(failure, now) {
            ConnectCycle { attempt: (self.attempt + 1) as usize, ..self }.enter_backoff(
                delay,
                snapshot,
                now,
            )
        } else {
            (
                self.ended(),
                CycleAction::Fail {
                    generation: self.generation,
                    failure,
                    reason: if failure.retryable && self.policy.enabled {
                        WebSocketTerminationReason::RetryExhausted
                    } else {
                        WebSocketTerminationReason::ConnectFailed
                    },
                },
            )
        }
    }

    /// Whether another attempt follows the failure.
    pub open spec fn may_retry(self, failure: WebSocketConnectionFailure, now: Instant) -> bool {
        failure.retryable && crate::retry::allows_retry(
            self.policy,
            self.attempt,
            elapsed(self.started_at, now),
        )
    }

    /// Whether the clock can express the limit of the cycle.
    pub open spec fn expressible(policy: ReconnectPolicy, started_at: Instant) -> bool {
        policy.max_elapsed matches Some(limit) ==> started_at.plus(limit) is Some
    }

    /// Begins the cycle of number `generation` at `started_at`. A limit that
    /// the clock cannot express ends it with its first step, unless it is
    /// cancelled before.
    pub fn begin(
        generation: u64,
        policy: ReconnectPolicy,
        observes_network: bool,
        started_at: Instant,
    ) -> (cycle: Self)
        ensures
            cycle.wf(),
            cycle == (ConnectCycle {
                generation,
                policy,
                observes_network,
                started_at,
                cycle_end: match policy.max_elapsed {
                    Some(limit) => started_at.plus(limit),
                    None => None,
                },
                gate: NetworkGate {
                    enabled: observes_network,
                    receiving: observes_network,
                    recovered_during_attempt: false,
                },
                attempt: 0,
                phase: if Self::expressible(policy, started_at) {
                    CyclePhase::Planning
                } else {
                    CyclePhase::Inexpressible
                },
            }),
    {
        let (cycle_end, phase) = match cycle_deadline(started_at, policy.max_elapsed) {
            Ok(cycle_end) => (cycle_end, CyclePhase::Planning),
            Err(_) => (None, CyclePhase::Inexpressible),
        };
        ConnectCycle {
            generation,
            policy,
            observes_network,
            started_at,
            cycle_end,
            gate: NetworkGate::new(observes_network),
            attempt: 0,
            phase,
        }
    }

    fn end(&mut self, error: NetError) -> (action: CycleAction)
        ensures
            *final(self) == old(self).ended(),
            action == local_end(old(self).generation, error),
    {
        self.phase = CyclePhase::Ended;
        let (failure, reason) = local_cycle_failure(error);
        CycleAction::Fail { generation: self.generation, failure, reason }
    }

    fn enter(&mut self, snapshot: &NetworkStatusSnapshot, now: Instant) -> (action: CycleAction)
        ensures
            (*final(self), action) == old(self).enter_attempt(*snapshot, now),
    {
        match self.gate.wait_available(snapshot, self.cycle_end, now) {
            GateDecision::Fail(error) => self.end(error),
            GateDecision::Sleep { until } => {
                self.phase = CyclePhase::Waiting;
                CycleAction::AwaitNetwork { until }
            },
            GateDecision::Proceed(epoch) => match now.checked_add(self.policy.handshake_timeout) {
                None => self.end(NetError::ConfigError),
                Some(deadline) => {
                    self.phase = CyclePhase::Attempting { epoch };
                    CycleAction::Attempt { epoch, deadline }
                },
            },
        }
    }

    fn leave(&mut self, snapshot: &NetworkStatusSnapshot, now: Instant) -> (action: CycleAction)
        ensures
            (*final(self), action) == old(self).leave_backoff(*snapshot, now),
    {
        if self.observes_network && is_past(now, self.cycle_end) {
            self.end(NetError::RetryExhausted)
        } else {
            self.enter(snapshot, now)
        }
    }

    fn give_up_or_retry(
        &mut self,
        failure: WebSocketConnectionFailure,
        snapshot: &NetworkStatusSnapshot,
        jitter: &mut JitterState,
        now: Instant,
    ) -> (action: CycleAction)
        requires
            old(self).wf(),
        ensures
            final(self).wf(),
            (*final(self), action) == old(self).fail_attempt(
                failure,
                drawn_delay(*old(self), old(jitter).value),
                *snapshot,
                now,
            ),
            final(jitter).value == if old(self).redraws(failure, now) {
                crate::retry::xorshift(old(jitter).value)
            } else {
                old(jitter).value
            },
    {
        proof {
            drawn_delay_is_exact(*self, jitter.value);
        }
        if failure.retryable && retry_allowed(
            &self.policy,
            self.attempt,
            now.since(self.started_at),
        ) {
            self.attempt = self.attempt + 1;
            let delay = full_jitter_delay(&self.policy, self.attempt, jitter);
            let bound = if self.observes_network {
                self.cycle_end
            } else {
                None
            };
            match self.gate.backoff(delay, bound, now) {
                Err(error) => self.end(error),
                Ok(Some(until)) => {
                    self.phase = CyclePhase::BackingOff;
                    CycleAction::Backoff { until }
                },
                Ok(None) => self.leave(snapshot, now),
            }
        } else {
            self.phase = CyclePhase::Ended;
            let reason = if failure.retryable && self.policy.enabled {
                WebSocketTerminationReason::RetryExhausted
            } else {
                WebSocketTerminationReason::ConnectFailed
            };
            CycleAction::Fail { generation: self.generation, failure, reason }
        }
    }

    /// Takes the cycle one step further.
    ///
    /// The first attempt is made at once. A failed attempt is repeated after a
    /// jittered wait if both the failure and the policy allow it, and so is one
    /// whose connection the worker refuses because the network was lost. While
    /// the network is unavailable attempts wait for it. Every cycle ends with
    /// one established connection or one failure, under the number that it was
    /// begun with; a cycle that is cancelled ends without reporting anything.
    pub fn connect_with_retry(
        &mut self,
        event: CycleEvent,
        snapshot: &NetworkStatusSnapshot,
        jitter: &mut JitterState,
        now: Instant,
    ) -> (action: CycleAction)
        requires
            old(self).wf(),
        ensures
            final(self).wf(),
            (*final(self), action) == next_step(
                *old(self),
                event,
                drawn_delay(*old(self), old(jitter).value),
                *snapshot,
                now,
            ),
            final(jitter).value == if old(self).draws(event, now) {
                crate::retry::xorshift(old(jitter).value)
            } else {
                old(jitter).value
            },
    {
        match (self.phase, event) {
            (CyclePhase::Ended, _) => CycleAction::Ignore,
            (_, CycleEvent::Cancelled) => {
                self.phase = CyclePhase::Ended;
                CycleAction::Stop
            },
            (CyclePhase::Inexpressible, CycleEvent::Continue) => self.end(NetError::ConfigError),
            (CyclePhase::Planning, CycleEvent::Continue) => self.enter(snapshot, now),
            (CyclePhase::BackingOff, CycleEvent::Continue) => self.leave(snapshot, now),
            (CyclePhase::Waiting, CycleEvent::Woke(wake)) => match self.gate.wake(wake) {
                Err(error) => self.end(error),
                Ok(()) => self.enter(snapshot, now),
            },
            (CyclePhase::Attempting { epoch }, CycleEvent::Opened) => {
                self.phase = CyclePhase::Publishing;
                CycleAction::Publish { generation: self.generation, epoch }
            },
            (CyclePhase::Attempting { epoch: _ }, CycleEvent::Failed(failure)) => {
                self.give_up_or_retry(failure, snapshot, jitter, now)
            },
            (CyclePhase::Publishing, CycleEvent::Published(Ok(()))) => {
                self.phase = CyclePhase::Ended;
                CycleAction::Finish { generation: self.generation }
            },
            (CyclePhase::Publishing, CycleEvent::Published(Err(error))) => {
                let failure = network_interruption_failure(error);
                self.give_up_or_retry(failure, snapshot, jitter, now)
            },
            _ => CycleAction::Ignore,
        }
    }

    /// The failure of the attempt that the event reports, if it reports one.
    pub open spec fn reported_failure(self, event: CycleEvent) -> Option<WebSocketConnectionFailure> {
        match (self.phase, event) {
            (CyclePhase::Attempting { epoch }, CycleEvent::Failed(failure)) => Some(failure),
            (CyclePhase::Publishing, CycleEvent::Published(Err(error))) => Some(
                interruption(error),
            ),
            _ => None,
        }
    }

    /// Whether the failure makes the cycle draw a wait.
    pub open spec fn redraws(self, failure: WebSocketConnectionFailure, now: Instant) -> bool {
        self.may_retry(failure, now) && crate::retry::backoff_cap(
            self.policy,
            (self.attempt + 1) as usize,
        ) != 0
    }

    /// Whether the event makes the cycle draw a wait.
    pub open spec fn draws(self, event: CycleEvent, now: Instant) -> bool {
        self.reported_failure(event) matches Some(failure) && self.redraws(failure, now)
    }
}

/// The time between two points; none if the second is earlier.
pub open spec fn elapsed(from: Instant, to: Instant) -> Duration {
    Duration {
        nanos: if to.nanos >= from.nanos {
            (to.nanos - from.nanos) as u128
        } else {
            0
        },
    }
}

/// The wait before the repetition that would follow the current attempt.
pub open spec fn drawn_delay(cycle: ConnectCycle, seed: u64) -> Duration {
    let cap = crate::retry::backoff_cap(cycle.policy, (cycle.attempt + 1) as usize);
    if cap == 0 {
        Duration { nanos: 0 }
    } else {
        Duration { nanos: crate::retry::jitter_nanos(cap, crate::retry::xorshift(seed)) as u128 }
    }
}

proof fn drawn_delay_is_exact(cycle: ConnectCycle, seed: u64)
    ensures
        ({
            let cap = crate::retry::backoff_cap(cycle.policy, (cycle.attempt + 1) as usize);
            cap != 0 ==> drawn_delay(cycle, seed).nanos == crate::retry::jitter_nanos(
                cap,
                crate::retry::xorshift(seed),
            )
        }),
{
    let attempt = (cycle.attempt + 1) as usize;
    let cap = crate::retry::backoff_cap(cycle.policy, attempt);
    vstd::arithmetic::mul::lemma_mul_nonnegative(
        cycle.policy.initial_delay.nanos as int,
        vstd::arithmetic::power2::pow2(crate::retry::backoff_shift(attempt)) as int,
    );
    assert(0 <= cap <= u64::MAX);
    let random = crate::retry::xorshift(seed) as int;
    if cap == u64::MAX {
        vstd::arithmetic::div_mod::lemma_mod_bound(random, cap);
    } else if cap != 0 {
        vstd::arithmetic::div_mod::lemma_mod_bound(random, cap + 1);
    }
}

/// One step of a cycle; `delay` is the wait before a repetition, should one
/// be planned.
pub open spec fn next_step(
    cycle: ConnectCycle,
    event: CycleEvent,
    delay: Duration,
    snapshot: NetworkStatusSnapshot,
    now: Instant,
) -> (ConnectCycle, CycleAction) {
    match (cycle.phase, event) {
        (CyclePhase::Ended, _) => (cycle, CycleAction::Ignore),
        (_, CycleEvent::Cancelled) => (cycle.ended(), CycleAction::Stop),
        (CyclePhase::Inexpressible, CycleEvent::Continue) => (
            cycle.ended(),
            local_end(cycle.generation, NetError::ConfigError),
        ),
        (CyclePhase::Planning, CycleEvent::Continue) => cycle.enter_attempt(snapshot, now),
        (CyclePhase::BackingOff, CycleEvent::Continue) => cycle.leave_backoff(snapshot, now),
        (CyclePhase::Waiting, CycleEvent::Woke(wake)) => {
            let woken = ConnectCycle {
                gate: NetworkGate {
                    receiving: cycle.gate.receiving && !(wake is SourceClosed),
                    ..cycle.gate
                },
                ..cycle
            };
            if wake is DeadlineElapsed {
                (woken.ended(), local_end(cycle.generation, NetError::RetryExhausted))
            } else {
                woken.enter_attempt(snapshot, now)
            }
        },
        (CyclePhase::Attempting { epoch }, CycleEvent::Opened) => (
            ConnectCycle { phase: CyclePhase::Publishing, ..cycle },
            CycleAction::Publish { generation: cycle.generation, epoch },
        ),
        (CyclePhase::Attempting { epoch }, CycleEvent::Failed(failure)) => cycle.fail_attempt(
            failure,
            delay,
            snapshot,
            now,
        ),
        (CyclePhase::Publishing, CycleEvent::Published(result)) => match result {
            Ok(()) => (
                cycle.ended(),
                CycleAction::Finish { generation: cycle.generation },
            ),
            Err(error) => cycle.fail_attempt(interruption(error), delay, snapshot, now),
        },
        _ => (cycle, CycleAction::Ignore),
    }
}

/// No cycle makes more attempts than the first and the granted repetitions:
/// the number of an attempt only grows, by one for each failure, and never
/// exceeds the number of repetitions.
pub proof fn attempts_are_limited(
    cycle: ConnectCycle,
    event: CycleEvent,
    delay: Duration,
    snapshot: NetworkStatusSnapshot,
    now: Instant,
)
    requires
        cycle.wf(),
    ensures
        ({
            let after = next_step(cycle, event, delay, snapshot, now).0;
            &&& after.wf()
            &&& after.attempt == cycle.attempt || after.attempt == cycle.attempt + 1
            &&& after.attempt <= cycle.policy.max_retries || after.attempt == 0
            &&& after.attempt > cycle.attempt ==> cycle.reported_failure(event) is Some
            &&& after.policy == cycle.policy
        }),
{
}

/// A cycle ends once, with success, with one failure or cancelled, and stays
/// ended.
pub proof fn cycles_end_once(
    cycle: ConnectCycle,
    event: CycleEvent,
    delay: Duration,
    snapshot: NetworkStatusSnapshot,
    now: Instant,
)
    ensures
        ({
            let (after, action) = next_step(cycle, event, delay, snapshot, now);
            &&& cycle.phase is Ended ==> after == cycle && action is Ignore
            &&& !(cycle.phase is Ended) ==> (after.phase is Ended <==> action is Finish
                || action is Fail || action is Stop)
        }),
{
}

/// A cycle that is cancelled ends at once, whatever it waits for, and reports
/// neither a connection nor a failure; only cancelling ends it that way.
pub proof fn cancelled_cycles_report_nothing(
    cycle: ConnectCycle,
    event: CycleEvent,
    delay: Duration,
    snapshot: NetworkStatusSnapshot,
    now: Instant,
)
    ensures
        next_step(cycle, CycleEvent::Cancelled, delay, snapshot, now) == if cycle.phase is Ended {
            (cycle, CycleAction::Ignore)
        } else {
            (cycle.ended(), CycleAction::Stop)
        },
        next_step(cycle, event, delay, snapshot, now).1 is Stop ==> event is Cancelled,
{
}

/// Whatever a cycle reports carries the number that it was begun with.
pub proof fn cycles_keep_their_number(
    cycle: ConnectCycle,
    event: CycleEvent,
    delay: Duration,
    snapshot: NetworkStatusSnapshot,
    now: Instant,
)
    ensures
        ({
            let (after, action) = next_step(cycle, event, delay, snapshot, now);
            &&& after.generation == cycle.generation
            &&& match action {
                CycleAction::Publish { generation, epoch } => generation == cycle.generation,
                CycleAction::Finish { generation } => generation == cycle.generation,
                CycleAction::Fail { generation, failure, reason } => generation
                    == cycle.generation,
                _ => true,
            }
        }),
{
}

/// A connection is handed to the worker once for each attempt that opened one.
/// Without an observed network the worker is not asked whether it takes it, so
/// a connection that was delivered ends the cycle.
pub proof fn opened_connections_are_published_once(
    cycle: ConnectCycle,
    event: CycleEvent,
    delay: Duration,
    snapshot: NetworkStatusSnapshot,
    now: Instant,
)
    requires
        cycle.wf(),
    ensures
        ({
            let (after, action) = next_step(cycle, event, delay, snapshot, now);
            &&& action is Publish <==> cycle.phase is Attempting && event is Opened
            &&& action is Publish <==> !(cycle.phase is Publishing) && after.phase is Publishing
            &&& cycle.phase is Publishing && event == CycleEvent::Published(
                Ok(()),
            ) ==> action is Finish
            &&& !cycle.observes_network ==> (action matches CycleAction::Attempt {
                epoch,
                deadline,
            } ==> epoch is None)
        }),
{
}

/// What a cycle meets in one step.
pub struct CycleStep {
    /// What it learns.
    pub event: CycleEvent,
    /// The wait before a repetition, should one be planned.
    pub delay: Duration,
    /// The latest observation of the network.
    pub snapshot: NetworkStatusSnapshot,
    /// When the step is taken.
    pub now: Instant,
}

/// A cycle after the given steps.
pub open spec fn after_steps(cycle: ConnectCycle, steps: Seq<CycleStep>) -> ConnectCycle
    decreases steps.len(),
{
    if steps.len() == 0 {
        cycle
    } else {
        let step = steps.last();
        next_step(
            after_steps(cycle, steps.drop_last()),
            step.event,
            step.delay,
            step.snapshot,
            step.now,
        ).0
    }
}

/// What the last of the given steps asks for.
pub open spec fn last_action(cycle: ConnectCycle, steps: Seq<CycleStep>) -> CycleAction {
    let step = steps.last();
    next_step(
        after_steps(cycle, steps.drop_last()),
        step.event,
        step.delay,
        step.snapshot,
        step.now,
    ).1
}

/// How many connections and failures the given steps report as the end.
pub open spec fn reports(cycle: ConnectCycle, steps: Seq<CycleStep>) -> nat
    decreases steps.len(),
{
    if steps.len() == 0 {
        0
    } else {
        let action = last_action(cycle, steps);
        reports(cycle, steps.drop_last()) + if action is Finish || action is Fail {
            1nat
        } else {
            0nat
        }
    }
}

/// How many attempts the given steps ask for.
pub open spec fn attempts(cycle: ConnectCycle, steps: Seq<CycleStep>) -> nat
    decreases steps.len(),
{
    if steps.len() == 0 {
        0
    } else {
        attempts(cycle, steps.drop_last()) + if last_action(cycle, steps) is Attempt {
            1nat
        } else {
            0nat
        }
    }
}

/// A cycle that is never cancelled reports its end exactly once, when it is
/// over and not before. Cancelling it adds no report, and one that is cancelled
/// before its first step reports nothing at all. No cycle asks for more
/// attempts than the first and the granted repetitions.
pub proof fn cycles_report_once(cycle: ConnectCycle, steps: Seq<CycleStep>)
    requires
        cycle.wf(),
        cycle.attempt == 0,
        cycle.phase is Planning || cycle.phase is Inexpressible,
    ensures
        after_steps(cycle, steps).generation == cycle.generation,
        reports(cycle, steps) <= 1,
        !(after_steps(cycle, steps).phase is Ended) ==> reports(cycle, steps) == 0,
        (forall|i: int| 0 <= i < steps.len() ==> !((#[trigger] steps[i]).event is Cancelled))
            ==> reports(cycle, steps) == if after_steps(cycle, steps).phase is Ended {
            1nat
        } else {
            0nat
        },
        steps.len() > 0 && steps[0].event is Cancelled ==> reports(cycle, steps) == 0,
        attempts(cycle, steps) <= 1 + cycle.policy.max_retries,
        !cycle.policy.enabled ==> attempts(cycle, steps) <= 1,
{
    histories_stay_in_bounds(cycle, steps);
}

proof fn histories_stay_in_bounds(cycle: ConnectCycle, steps: Seq<CycleStep>)
    requires
        cycle.wf(),
        cycle.attempt == 0,
        cycle.phase is Planning || cycle.phase is Inexpressible,
    ensures
        ({
            let now = after_steps(cycle, steps);
            let made = attempts(cycle, steps);
            &&& now.wf()
            &&& now.generation == cycle.generation
            &&& now.policy == cycle.policy
            &&& now.phase is Attempting || now.phase is Publishing || now.phase is Ended
                ==> made <= now.attempt + 1
            &&& !(now.phase is Attempting || now.phase is Publishing || now.phase is Ended)
                ==> made <= now.attempt
            &&& reports(cycle, steps) <= 1
            &&& !(now.phase is Ended) ==> reports(cycle, steps) == 0
            &&& (forall|i: int|
                0 <= i < steps.len() ==> !((#[trigger] steps[i]).event is Cancelled))
                && now.phase is Ended ==> reports(cycle, steps) == 1
            &&& steps.len() > 0 && steps[0].event is Cancelled ==> now.phase is Ended && reports(
                cycle,
                steps,
            ) == 0
        }),
    decreases steps.len(),
{
    if steps.len() > 0 {
        let rest = steps.drop_last();
        histories_stay_in_bounds(cycle, rest);
        assert(forall|i: int| 0 <= i < rest.len() ==> #[trigger] rest[i] == steps[i]);
        assert(steps.last() == steps[steps.len() - 1]);
        if forall|i: int| 0 <= i < steps.len() ==> !((#[trigger] steps[i]).event is Cancelled) {
            assert(forall|i: int|
                0 <= i < rest.len() ==> !((#[trigger] rest[i]).event is Cancelled));
        }
        if rest.len() == 0 {
            assert(after_steps(cycle, rest) == cycle);
        } else {
            assert(rest[0] == steps[0]);
        }
    }
}

/// How many events the given steps hand to the worker: opened connections and
/// the failure of the cycle.
pub open spec fn sent_events(cycle: ConnectCycle, steps: Seq<CycleStep>) -> nat
    decreases steps.len(),
{
    if steps.len() == 0 {
        0
    } else {
        let action = last_action(cycle, steps);
        sent_events(cycle, steps.drop_last()) + if action is Publish || action is Fail {
            1nat
        } else {
            0nat
        }
    }
}

/// While the worker takes every connection that it is handed, as it does
/// unless the network is observed, a cycle that is never cancelled hands it
/// exactly one event: a connection or the failure. A cycle that is cancelled
/// before its first step hands it none.
pub proof fn taken_cycles_send_one_event(cycle: ConnectCycle, steps: Seq<CycleStep>)
    requires
        cycle.wf(),
        cycle.attempt == 0,
        cycle.phase is Planning || cycle.phase is Inexpressible,
        forall|i: int|
            0 <= i < steps.len() ==> ((#[trigger] steps[i]).event matches CycleEvent::Published(
                result,
            ) ==> result is Ok),
    ensures
        sent_events(cycle, steps) <= 1,
        (forall|i: int| 0 <= i < steps.len() ==> !((#[trigger] steps[i]).event is Cancelled))
            && after_steps(cycle, steps).phase is Ended ==> sent_events(cycle, steps) == 1,
        steps.len() > 0 && steps[0].event is Cancelled ==> sent_events(cycle, steps) == 0,
{
    taken_histories_stay_in_bounds(cycle, steps);
}

proof fn taken_histories_stay_in_bounds(cycle: ConnectCycle, steps: Seq<CycleStep>)
    requires
        cycle.wf(),
        cycle.attempt == 0,
        cycle.phase is Planning || cycle.phase is Inexpressible,
        forall|i: int|
            0 <= i < steps.len() ==> ((#[trigger] steps[i]).event matches CycleEvent::Published(
                result,
            ) ==> result is Ok),
    ensures
        ({
            let now = after_steps(cycle, steps);
            let sent = sent_events(cycle, steps);
            &&& sent <= 1
            &&& now.phase is Publishing ==> sent == 1
            &&& !(now.phase is Publishing || now.phase is Ended) ==> sent == 0
            &&& (forall|i: int|
                0 <= i < steps.len() ==> !((#[trigger] steps[i]).event is Cancelled))
                && now.phase is Ended ==> sent == 1
            &&& steps.len() > 0 && steps[0].event is Cancelled ==> now.phase is Ended && sent == 0
        }),
    decreases steps.len(),
{
    if steps.len() > 0 {
        let rest = steps.drop_last();
        assert(forall|i: int| 0 <= i < rest.len() ==> #[trigger] rest[i] == steps[i]);
        assert(steps.last() == steps[steps.len() - 1]);
        taken_histories_stay_in_bounds(cycle, rest);
        if forall|i: int| 0 <= i < steps.len() ==> !((#[trigger] steps[i]).event is Cancelled) {
            assert(forall|i: int|
                0 <= i < rest.len() ==> !((#[trigger] rest[i]).event is Cancelled));
        }
        if rest.len() == 0 {
            assert(after_steps(cycle, rest) == cycle);
        } else {
            assert(rest[0] == steps[0]);
        }
    }
}

/// A failure that no repetition can mend is reported as it is, and the cycle
/// makes no further attempt.
pub proof fn permanent_failures_end_the_cycle(
    cycle: ConnectCycle,
    failure: WebSocketConnectionFailure,
    delay: Duration,
    snapshot: NetworkStatusSnapshot,
    now: Instant,
)
    requires
        cycle.phase is Attempting,
        !failure.retryable,
    ensures
        next_step(cycle, CycleEvent::Failed(failure), delay, snapshot, now) == (
            cycle.ended(),
            CycleAction::Fail {
                generation: cycle.generation,
                failure,
                reason: WebSocketTerminationReason::ConnectFailed,
            },
        ),
{
}

/// A failed attempt is repeated as long as the failure is worth it and the policy
/// grants it, after the drawn wait, or at once after the network recovered.
/// Otherwise the cycle ends with that very failure, as exhausted exactly if
/// repetitions had been possible.
pub proof fn failures_are_repeated_or_reported(
    cycle: ConnectCycle,
    failure: WebSocketConnectionFailure,
    delay: Duration,
    snapshot: NetworkStatusSnapshot,
    now: Instant,
)
    requires
        cycle.phase is Attempting,
        now.nanos >= cycle.started_at.nanos,
        now.nanos + delay.nanos <= crate::clock::MAX_INSTANT_NANOS,
    ensures
        ({
            let (after, action) = next_step(
                cycle,
                CycleEvent::Failed(failure),
                delay,
                snapshot,
                now,
            );
            let in_time = match cycle.policy.max_elapsed {
                Some(limit) => now.nanos - cycle.started_at.nanos < limit.nanos,
                None => true,
            };
            let granted = failure.retryable && cycle.policy.enabled && cycle.attempt
                < cycle.policy.max_retries && in_time;
            let bound = if cycle.observes_network {
                cycle.cycle_end
            } else {
                None
            };
            &&& !granted ==> {
                &&& after.phase is Ended
                &&& after.attempt == cycle.attempt
                &&& action == CycleAction::Fail {
                    generation: cycle.generation,
                    failure,
                    reason: if failure.retryable && cycle.policy.enabled {
                        WebSocketTerminationReason::RetryExhausted
                    } else {
                        WebSocketTerminationReason::ConnectFailed
                    },
                }
            }
            &&& granted ==> after.attempt == cycle.attempt + 1
            &&& granted && !cycle.gate.recovered_during_attempt ==> {
                &&& after.phase is BackingOff
                &&& action matches CycleAction::Backoff { until } && {
                    &&& until.nanos == now.nanos + delay.nanos || bound == Some(until)
                    &&& until.nanos <= now.nanos + delay.nanos
                    &&& bound matches Some(end) ==> until.nanos <= end.nanos
                }
            }
            &&& granted && cycle.gate.recovered_during_attempt ==> !(action is Backoff)
                && !after.gate.recovered_during_attempt
        }),
{
}

/// A connection that the worker takes ends the cycle. One that it refuses because
/// the network was lost counts as a failed attempt that is worth another; every
/// other refusal ends the cycle with its error.
pub proof fn refused_connections_are_repeated_only_for_the_network(
    cycle: ConnectCycle,
    error: NetError,
    delay: Duration,
    snapshot: NetworkStatusSnapshot,
    now: Instant,
)
    requires
        cycle.phase is Publishing,
    ensures
        ({
            let taken = next_step(cycle, CycleEvent::Published(Ok(())), delay, snapshot, now);
            let refused = next_step(cycle, CycleEvent::Published(Err(error)), delay, snapshot, now);
            let failure = WebSocketConnectionFailure {
                error,
                stage: WebSocketConnectStage::EventDelivery,
                http_status: None,
                retryable: error is NetworkError,
            };
            let failed = next_step(
                ConnectCycle { phase: CyclePhase::Attempting { epoch: None }, ..cycle },
                CycleEvent::Failed(failure),
                delay,
                snapshot,
                now,
            );
            &&& taken.1 == CycleAction::Finish { generation: cycle.generation }
            &&& taken.0.phase is Ended
            &&& !(error is NetworkError) ==> refused.1 == CycleAction::Fail {
                generation: cycle.generation,
                failure,
                reason: WebSocketTerminationReason::ConnectFailed,
            }
            &&& refused.1 == failed.1
            &&& refused.0.attempt == failed.0.attempt
        }),
{
}

/// The first attempt is made at once, and one after a wait when that is over,
/// unless the network holds it back: it has the time of one handshake and belongs
/// to the epoch that was observed. A limit that the clock cannot express ends the
/// cycle as a configuration error.
pub proof fn attempts_are_made_when_due(
    cycle: ConnectCycle,
    delay: Duration,
    snapshot: NetworkStatusSnapshot,
    now: Instant,
)
    requires
        cycle.wf(),
        now.nanos + cycle.policy.handshake_timeout.nanos <= crate::clock::MAX_INSTANT_NANOS,
    ensures
        ({
            let (after, action) = next_step(cycle, CycleEvent::Continue, delay, snapshot, now);
            let due = cycle.phase is Planning || cycle.phase is BackingOff;
            let over = cycle.cycle_end matches Some(end) && now.nanos >= end.nanos;
            let lost = snapshot.status == Some(crate::network_status::NetworkStatus::Unavailable);
            let watched = cycle.gate.receiving;
            &&& cycle.phase is Inexpressible ==> action == (CycleAction::Fail {
                generation: cycle.generation,
                failure: WebSocketConnectionFailure {
                    error: NetError::ConfigError,
                    stage: WebSocketConnectStage::EventDelivery,
                    http_status: None,
                    retryable: false,
                },
                reason: WebSocketTerminationReason::ConnectFailed,
            })
            &&& due && (!cycle.observes_network || !over) && !(watched && lost) ==> {
                &&& action matches CycleAction::Attempt { epoch, deadline } && {
                    &&& deadline.nanos == now.nanos + cycle.policy.handshake_timeout.nanos
                    &&& epoch == if watched {
                        Some(snapshot.loss_epoch)
                    } else {
                        None
                    }
                    &&& after.phase == (CyclePhase::Attempting { epoch })
                }
            }
            &&& due && cycle.observes_network && over ==> action == (CycleAction::Fail {
                generation: cycle.generation,
                failure: WebSocketConnectionFailure {
                    error: NetError::RetryExhausted,
                    stage: WebSocketConnectStage::EventDelivery,
                    http_status: None,
                    retryable: false,
                },
                reason: WebSocketTerminationReason::RetryExhausted,
            })
            &&& due && !over && watched && lost ==> match cycle.cycle_end {
                Some(until) => action == (CycleAction::AwaitNetwork { until })
                    && after.phase is Waiting,
                None => action is Fail,
            }
        }),
{
}

/// A wait for the network ends with the cycle as exhausted; any other change
/// looks at the network again, and a source that closed holds nothing back.
pub proof fn waits_for_the_network_end(
    cycle: ConnectCycle,
    wake: GateWake,
    delay: Duration,
    snapshot: NetworkStatusSnapshot,
    now: Instant,
)
    requires
        cycle.wf(),
        cycle.phase is Waiting,
        now.nanos + cycle.policy.handshake_timeout.nanos <= crate::clock::MAX_INSTANT_NANOS,
        cycle.cycle_end matches Some(end) ==> now.nanos < end.nanos,
    ensures
        ({
            let (after, action) = next_step(cycle, CycleEvent::Woke(wake), delay, snapshot, now);
            let lost = snapshot.status == Some(crate::network_status::NetworkStatus::Unavailable);
            &&& wake is DeadlineElapsed ==> action == (CycleAction::Fail {
                generation: cycle.generation,
                failure: WebSocketConnectionFailure {
                    error: NetError::RetryExhausted,
                    stage: WebSocketConnectStage::EventDelivery,
                    http_status: None,
                    retryable: false,
                },
                reason: WebSocketTerminationReason::RetryExhausted,
            })
            &&& wake is Changed && !lost ==> action is Attempt
            &&& wake is Changed && lost && cycle.gate.receiving ==> !(action is Attempt)
            &&& wake is SourceClosed ==> action is Attempt && !after.gate.receiving
        }),
{
}

/// A connection that was opened is handed on with the epoch of its attempt.
pub proof fn opened_connections_keep_their_epoch(
    cycle: ConnectCycle,
    delay: Duration,
    snapshot: NetworkStatusSnapshot,
    now: Instant,
)
    ensures
        cycle.phase matches CyclePhase::Attempting { epoch } ==> next_step(
            cycle,
            CycleEvent::Opened,
            delay,
            snapshot,
            now,
        ).1 == (CycleAction::Publish { generation: cycle.generation, epoch }),
{
}

/// The wait before a repetition is drawn for that repetition: the first from at
/// most the initial delay, and each from the bound that belongs to it.
pub proof fn waits_are_drawn_for_their_repetition(cycle: ConnectCycle, seed: u64)
    requires
        cycle.attempt < usize::MAX,
    ensures
        ({
            let wait = drawn_delay(cycle, seed).nanos;
            let bound = crate::retry::backoff_cap(cycle.policy, (cycle.attempt + 1) as usize);
            let random = crate::retry::xorshift(seed);
            &&& wait <= bound
            &&& wait <= cycle.policy.max_delay.nanos
            &&& cycle.attempt == 0 ==> wait <= cycle.policy.initial_delay.nanos
            &&& random < bound ==> wait == random
        }),
{
    let attempt = (cycle.attempt + 1) as usize;
    let bound = crate::retry::backoff_cap(cycle.policy, attempt);
    let random = crate::retry::xorshift(seed);
    drawn_delay_is_exact(cycle, seed);
    crate::retry::backoff_doubles_until_the_longest_delay(cycle.policy, 1);
    if attempt < usize::MAX {
        crate::retry::backoff_doubles_until_the_longest_delay(cycle.policy, attempt);
    } else {
        crate::retry::backoff_doubles_until_the_longest_delay(
            cycle.policy,
            (usize::MAX - 1) as usize,
        );
    }
    if bound > 0 {
        crate::retry::every_wait_up_to_the_bound_can_be_drawn(bound, random);
    }
}

/// A wait is drawn for every repetition that is granted and that may wait at all, and
/// for nothing else, so that no two waits of a cycle come from one value.
pub proof fn every_repetition_draws_its_own_wait(
    cycle: ConnectCycle,
    event: CycleEvent,
    failure: WebSocketConnectionFailure,
    now: Instant,
)
    requires
        now.nanos >= cycle.started_at.nanos,
    ensures
        ({
            let in_time = match cycle.policy.max_elapsed {
                Some(limit) => now.nanos - cycle.started_at.nanos < limit.nanos,
                None => true,
            };
            let granted = failure.retryable && cycle.policy.enabled && cycle.attempt
                < cycle.policy.max_retries && in_time;
            let waits = crate::retry::backoff_cap(cycle.policy, (cycle.attempt + 1) as usize) > 0;
            &&& cycle.phase is Attempting && waits ==> (cycle.draws(
                CycleEvent::Failed(failure),
                now,
            ) <==> granted)
            &&& cycle.draws(event, now) ==> event is Failed || event is Published
        }),
{
    let attempt = (cycle.attempt + 1) as usize;
    if 1 <= attempt < usize::MAX {
        crate::retry::backoff_doubles_until_the_longest_delay(cycle.policy, attempt);
    }
}

/// A connection counts as handed on exactly if the worker got it and, where the
/// network is observed, took it; what the worker answers is passed on.
pub proof fn publications_need_the_worker(
    epoch: u64,
    network_loss_epoch: Option<u64>,
    answer: Option<Result<(), NetError>>,
    answered: Result<(), NetError>,
)
    ensures
        publication(network_loss_epoch, false, answer) == Err::<(), NetError>(
            NetError::EngineDropped,
        ),
        publication(None, true, answer) == Ok::<(), NetError>(()),
        publication(Some(epoch), true, Some(answered)) == answered,
        publication(Some(epoch), true, None) == Err::<(), NetError>(NetError::EngineDropped),
{
}

/// An attempt whose end the clock cannot express is not made: it ends the cycle as a
/// configuration error, and so does a wait that the clock cannot express.
pub proof fn inexpressible_times_end_the_cycle(
    cycle: ConnectCycle,
    failure: WebSocketConnectionFailure,
    delay: Duration,
    snapshot: NetworkStatusSnapshot,
    now: Instant,
)
    requires
        !cycle.observes_network && !cycle.gate.enabled && !cycle.gate.receiving,
        !cycle.gate.recovered_during_attempt,
    ensures
        ({
            let ended = CycleAction::Fail {
                generation: cycle.generation,
                failure: WebSocketConnectionFailure {
                    error: NetError::ConfigError,
                    stage: WebSocketConnectStage::EventDelivery,
                    http_status: None,
                    retryable: false,
                },
                reason: WebSocketTerminationReason::ConnectFailed,
            };
            let last = crate::clock::MAX_INSTANT_NANOS;
            &&& cycle.phase is Planning && now.nanos + cycle.policy.handshake_timeout.nanos > last
                ==> next_step(cycle, CycleEvent::Continue, delay, snapshot, now).1 == ended
            &&& cycle.phase is Attempting && now.nanos + delay.nanos > last && failure.retryable
                && cycle.policy.enabled && cycle.attempt < cycle.policy.max_retries
                && cycle.policy.max_elapsed is None ==> next_step(
                cycle,
                CycleEvent::Failed(failure),
                delay,
                snapshot,
                now,
            ).1 == ended
        }),
{
}

} // verus!
