//! Heartbeat of one connection: at most one probe is outstanding.
use vstd::prelude::*;

use crate::clock::{is_past, Duration, Instant};

verus! {

/// What the writer does on a tick of the heartbeat.
#[derive(Debug)]
pub enum HeartbeatTick {
    /// No probe is outstanding: send this payload as a ping.
    SendProbe(Vec<u8>),
    /// A probe is being written or awaits its pong.
    Waiting,
    /// The pong of a written probe is overdue.
    TimedOut,
}

/// How far a probe came.
#[derive(Clone, Copy, Debug, PartialEq, Eq, Structural)]
pub enum ProbePhase {
    /// It is being written; no deadline runs yet.
    Sending,
    /// It was written and its pong is awaited.
    AwaitingPong {
        /// When it was written.
        sent_at: Instant,
    },
}

/// A probe that was not answered yet.
#[derive(Debug)]
pub struct OutstandingProbe {
    /// The payload that its pong repeats.
    pub payload: Vec<u8>,
    /// Time that its pong may take.
    pub pong_timeout: Duration,
    /// How far it came.
    pub phase: ProbePhase,
}

/// The heartbeat of one connection.
#[derive(Debug)]
pub struct HeartbeatState {
    /// Connection cycle of the connection.
    pub generation: u64,
    /// Number of the next probe; never zero.
    pub next_sequence: u64,
    /// The probe that was not answered yet.
    pub outstanding: Option<OutstandingProbe>,
}

/// The bytes of a number, most significant first.
pub open spec fn big_endian(number: u64) -> Seq<u8> {
    seq![
        ((number >> 56) & 0xff) as u8,
        ((number >> 48) & 0xff) as u8,
        ((number >> 40) & 0xff) as u8,
        ((number >> 32) & 0xff) as u8,
        ((number >> 24) & 0xff) as u8,
        ((number >> 16) & 0xff) as u8,
        ((number >> 8) & 0xff) as u8,
        (number & 0xff) as u8,
    ]
}

/// The payload of probe `sequence` of connection cycle `generation`.
pub open spec fn probe_payload(generation: u64, sequence: u64) -> Seq<u8> {
    big_endian(generation) + big_endian(sequence)
}

/// The number of the probe after probe `sequence`; zero is skipped.
pub open spec fn sequence_after(sequence: u64) -> u64 {
    if sequence == u64::MAX {
        1
    } else {
        (sequence + 1) as u64
    }
}

fn push_big_endian(bytes: &mut Vec<u8>, number: u64)
    ensures
        final(bytes)@ == old(bytes)@ + big_endian(number),
{
    bytes.push(((number >> 56) & 0xff) as u8);
    bytes.push(((number >> 48) & 0xff) as u8);
    bytes.push(((number >> 40) & 0xff) as u8);
    bytes.push(((number >> 32) & 0xff) as u8);
    bytes.push(((number >> 24) & 0xff) as u8);
    bytes.push(((number >> 16) & 0xff) as u8);
    bytes.push(((number >> 8) & 0xff) as u8);
    bytes.push((number & 0xff) as u8);
    assert(bytes@ =~= old(bytes)@ + big_endian(number));
}

/// The payload of probe `sequence` of connection cycle `generation`.
pub fn heartbeat_payload(generation: u64, sequence: u64) -> (payload: Vec<u8>)
    ensures
        payload@ == probe_payload(generation, sequence),
{
    let mut payload: Vec<u8> = Vec::new();
    push_big_endian(&mut payload, generation);
    push_big_endian(&mut payload, sequence);
    assert(payload@ =~= probe_payload(generation, sequence));
    payload
}

fn same_bytes(left: &Vec<u8>, right: &[u8]) -> (same: bool)
    ensures
        same == (left@ == right@),
{
    if left.len() != right.len() {
        return false;
    }
    let mut i: usize = 0;
    while i < left.len()
        invariant
            i <= left.len() == right.len(),
            forall|j: int| 0 <= j < i ==> left@[j] == right@[j],
        decreases left.len() - i,
    {
        if left[i] != right[i] {
            return false;
        }
        i = i + 1;
    }
    assert(left@ =~= right@);
    true
}

impl OutstandingProbe {
    /// Whether the pong of the probe is overdue at `now`.
    pub open spec fn overdue(self, now: Instant) -> bool {
        self.phase matches ProbePhase::AwaitingPong { sent_at } && crate::connect_cycle::elapsed(
            sent_at,
            now,
        ).nanos >= self.pong_timeout.nanos
    }

    /// Whether a pong with `payload` answers the probe at `now`.
    pub open spec fn answered_by(self, payload: Seq<u8>, now: Instant) -> bool {
        &&& self.payload@ == payload
        &&& match self.phase {
            ProbePhase::Sending => true,
            ProbePhase::AwaitingPong { sent_at } => sent_at.plus(self.pong_timeout) matches Some(
                deadline,
            ) && !now.reached(deadline),
        }
    }
}

impl HeartbeatState {
    /// When the pong of the outstanding probe is overdue; a deadline that the
    /// clock cannot express has already passed.
    pub open spec fn deadline(self) -> Option<Instant> {
        match self.outstanding {
            Some(probe) => match probe.phase {
                ProbePhase::Sending => None,
                ProbePhase::AwaitingPong { sent_at } => match sent_at.plus(probe.pong_timeout) {
                    Some(deadline) => Some(deadline),
                    None => Some(sent_at),
                },
            },
            None => None,
        }
    }

    /// The heartbeat without an outstanding probe.
    pub open spec fn cleared(self) -> HeartbeatState {
        HeartbeatState { outstanding: None, ..self }
    }

    /// Whether the outstanding probe has this payload and is still being written.
    pub open spec fn writes(self, payload: Seq<u8>) -> bool {
        self.outstanding matches Some(probe) && probe.payload@ == payload && probe.phase is Sending
    }

    /// The heartbeat once a payload was written.
    pub open spec fn written(self, payload: Seq<u8>, sent_at: Instant) -> HeartbeatState {
        if self.writes(payload) {
            HeartbeatState {
                outstanding: Some(
                    OutstandingProbe {
                        phase: ProbePhase::AwaitingPong { sent_at },
                        ..self.outstanding->0
                    },
                ),
                ..self
            }
        } else {
            self
        }
    }

    /// Whether a pong answers the outstanding probe.
    pub open spec fn accepts(self, payload: Seq<u8>, now: Instant) -> bool {
        self.outstanding matches Some(probe) && probe.answered_by(payload, now)
    }

    /// The heartbeat once a pong came.
    pub open spec fn answered(self, payload: Seq<u8>, now: Instant) -> HeartbeatState {
        if self.accepts(payload, now) {
            self.cleared()
        } else {
            self
        }
    }

    /// The heartbeat once writing a payload failed.
    pub open spec fn abandoned(self, payload: Seq<u8>) -> HeartbeatState {
        if self.outstanding matches Some(probe) && probe.payload@ == payload {
            self.cleared()
        } else {
            self
        }
    }

    /// The heartbeat of a new connection.
    pub fn new(generation: u64) -> (state: Self)
        ensures
            state == (HeartbeatState { generation, next_sequence: 1, outstanding: None }),
    {
        HeartbeatState { generation, next_sequence: 1, outstanding: None }
    }

    /// Decides on a tick. A second probe is never created while one is
    /// outstanding.
    pub fn on_tick(&mut self, now: Instant, pong_timeout: Duration) -> (tick: HeartbeatTick)
        ensures
            match old(self).outstanding {
                Some(probe) => {
                    &&& *final(self) == *old(self)
                    &&& tick == if probe.overdue(now) {
                        HeartbeatTick::TimedOut
                    } else {
                        HeartbeatTick::Waiting
                    }
                },
                None => {
                    &&& tick matches HeartbeatTick::SendProbe(sent) && sent@ == probe_payload(
                        old(self).generation,
                        old(self).next_sequence,
                    )
                    &&& final(self).generation == old(self).generation
                    &&& final(self).next_sequence == sequence_after(old(self).next_sequence)
                    &&& (final(self).outstanding matches Some(probe) && probe.payload@
                        == probe_payload(old(self).generation, old(self).next_sequence)
                        && probe.pong_timeout == pong_timeout && probe.phase is Sending)
                },
            },
            tick is SendProbe <==> old(self).outstanding is None,
            final(self).outstanding is Some,
            tick is TimedOut ==> (old(self).outstanding matches Some(probe)
                && probe.phase is AwaitingPong),
    {
        match &self.outstanding {
            Some(probe) => {
                match probe.phase {
                    ProbePhase::Sending => HeartbeatTick::Waiting,
                    ProbePhase::AwaitingPong { sent_at } => if now.since(sent_at).nanos
                        >= probe.pong_timeout.nanos {
                        HeartbeatTick::TimedOut
                    } else {
                        HeartbeatTick::Waiting
                    },
                }
            },
            None => {
                let sequence: u64 = self.next_sequence;
                let next: u64 = sequence.wrapping_add(1);
                self.next_sequence = if next == 0 {
                    1
                } else {
                    next
                };
                self.outstanding = Some(
                    OutstandingProbe {
                        payload: heartbeat_payload(self.generation, sequence),
                        pong_timeout,
                        phase: ProbePhase::Sending,
                    },
                );
                HeartbeatTick::SendProbe(heartbeat_payload(self.generation, sequence))
            },
        }
    }

    /// Starts the deadline of the probe, if it is still the one being written.
    pub fn mark_sent(&mut self, payload: &[u8], sent_at: Instant) -> (started: bool)
        ensures
            started == old(self).writes(payload@),
            *final(self) == old(self).written(payload@, sent_at),
    {
        match self.outstanding.take() {
            Some(mut probe) => {
                let started = same_bytes(&probe.payload, payload) && probe.phase
                    == ProbePhase::Sending;
                if started {
                    probe.phase = ProbePhase::AwaitingPong { sent_at };
                }
                self.outstanding = Some(probe);
                started
            },
            None => false,
        }
    }

    /// Clears the probe for a pong that repeats its payload in time.
    pub fn acknowledge_pong(&mut self, payload: &[u8], now: Instant) -> (accepted: bool)
        ensures
            accepted == old(self).accepts(payload@, now),
            *final(self) == old(self).answered(payload@, now),
    {
        let accepted = match &self.outstanding {
            Some(probe) => same_bytes(&probe.payload, payload) && match probe.phase {
                ProbePhase::Sending => true,
                ProbePhase::AwaitingPong { sent_at } => match sent_at.checked_add(
                    probe.pong_timeout,
                ) {
                    Some(deadline) => !now.has_reached(deadline),
                    None => false,
                },
            },
            None => false,
        };
        if accepted {
            self.outstanding = None;
        }
        accepted
    }

    /// Clears a probe whose write failed or was cancelled.
    pub fn abandon_probe(&mut self, payload: &[u8])
        ensures
            *final(self) == old(self).abandoned(payload@),
    {
        let matched = match &self.outstanding {
            Some(probe) => same_bytes(&probe.payload, payload),
            None => false,
        };
        if matched {
            self.outstanding = None;
        }
    }

    /// When the pong of the outstanding probe is overdue.
    pub fn pong_deadline(&self) -> (deadline: Option<Instant>)
        ensures
            deadline == self.deadline(),
    {
        match &self.outstanding {
            Some(probe) => match probe.phase {
                ProbePhase::Sending => None,
                ProbePhase::AwaitingPong { sent_at } => match sent_at.checked_add(
                    probe.pong_timeout,
                ) {
                    Some(deadline) => Some(deadline),
                    None => Some(sent_at),
                },
            },
            None => None,
        }
    }

    /// Whether the pong of the outstanding probe is overdue.
    pub fn is_timed_out(&self, now: Instant) -> (timed_out: bool)
        ensures
            timed_out == crate::clock::deadline_passed(now, self.deadline()),
    {
        is_past(now, self.pong_deadline())
    }
}

proof fn big_endian_is_injective(first: u64, second: u64)
    requires
        big_endian(first) == big_endian(second),
    ensures
        first == second,
{
    let left = big_endian(first);
    let right = big_endian(second);
    assert(left[0] == right[0] && left[1] == right[1] && left[2] == right[2] && left[3] == right[3]
        && left[4] == right[4] && left[5] == right[5] && left[6] == right[6] && left[7]
        == right[7]);
    assert(first == second) by (bit_vector)
        requires
            ((first >> 56) & 0xff) as u8 == ((second >> 56) & 0xff) as u8,
            ((first >> 48) & 0xff) as u8 == ((second >> 48) & 0xff) as u8,
            ((first >> 40) & 0xff) as u8 == ((second >> 40) & 0xff) as u8,
            ((first >> 32) & 0xff) as u8 == ((second >> 32) & 0xff) as u8,
            ((first >> 24) & 0xff) as u8 == ((second >> 24) & 0xff) as u8,
            ((first >> 16) & 0xff) as u8 == ((second >> 16) & 0xff) as u8,
            ((first >> 8) & 0xff) as u8 == ((second >> 8) & 0xff) as u8,
            (first & 0xff) as u8 == (second & 0xff) as u8,
    ;
}

/// Payloads are unique: probes of different connection cycles or of different
/// numbers never share one, so that a pong answers one probe only.
pub proof fn payloads_are_unique(
    first_generation: u64,
    first_sequence: u64,
    second_generation: u64,
    second_sequence: u64,
)
    requires
        probe_payload(first_generation, first_sequence) == probe_payload(
            second_generation,
            second_sequence,
        ),
    ensures
        first_generation == second_generation,
        first_sequence == second_sequence,
{
    let left = probe_payload(first_generation, first_sequence);
    let right = probe_payload(second_generation, second_sequence);
    assert(big_endian(first_generation) =~= left.subrange(0, 8));
    assert(big_endian(second_generation) =~= right.subrange(0, 8));
    assert(big_endian(first_sequence) =~= left.subrange(8, 16));
    assert(big_endian(second_sequence) =~= right.subrange(8, 16));
    big_endian_is_injective(first_generation, second_generation);
    big_endian_is_injective(first_sequence, second_sequence);
}

/// A probe whose deadline can be expressed is overdue or can still be answered
/// by its pong, never both: a pong at or after the deadline does not revive
/// the connection.
pub proof fn late_pongs_do_not_count(probe: OutstandingProbe, now: Instant)
    requires
        probe.phase matches ProbePhase::AwaitingPong { sent_at } && sent_at.plus(
            probe.pong_timeout,
        ) is Some && now.nanos >= sent_at.nanos,
    ensures
        probe.overdue(now) <==> !probe.answered_by(probe.payload@, now),
{
}

/// No deadline runs before the probe was written.
pub proof fn unsent_probes_do_not_time_out(state: HeartbeatState, now: Instant)
    requires
        state.outstanding matches Some(probe) && probe.phase is Sending,
    ensures
        state.deadline() is None,
        !state.outstanding->0.overdue(now),
{
}

/// A written probe is overdue from the end of its time on and not before; until
/// then its own pong answers it, and no other pong ever does.
pub proof fn pongs_have_the_whole_time(
    probe: OutstandingProbe,
    sent_at: Instant,
    payload: Seq<u8>,
    now: Instant,
)
    requires
        probe.phase == (ProbePhase::AwaitingPong { sent_at }),
        sent_at.nanos + probe.pong_timeout.nanos <= crate::clock::MAX_INSTANT_NANOS,
    ensures
        ({
            let end = sent_at.nanos + probe.pong_timeout.nanos;
            &&& now.nanos >= sent_at.nanos ==> (probe.overdue(now) <==> now.nanos >= end)
            &&& probe.answered_by(payload, now) <==> payload == probe.payload@ && now.nanos < end
            &&& (HeartbeatState {
                generation: 0,
                next_sequence: 1,
                outstanding: Some(probe),
            }).deadline() == Some(Instant { nanos: end as u128 })
        }),
{
}

/// A pong may overtake the report that its probe was written: it answers the probe
/// all the same, and clears it and nothing else.
pub proof fn early_pongs_count(state: HeartbeatState, payload: Seq<u8>, now: Instant)
    requires
        state.outstanding matches Some(probe) && probe.phase is Sending,
    ensures
        state.outstanding->0.answered_by(payload, now) <==> payload
            == state.outstanding->0.payload@,
        state.cleared().outstanding is None,
        state.cleared().generation == state.generation,
        state.cleared().next_sequence == state.next_sequence,
        state.cleared().deadline() is None,
{
}

/// Probes are numbered one after the other, and zero is never a number.
pub proof fn probes_are_numbered_in_order(sequence: u64)
    ensures
        sequence < u64::MAX ==> sequence_after(sequence) == sequence + 1,
        sequence_after(sequence) != 0,
        sequence_after(sequence) != sequence,
{
}

/// A payload has sixteen bytes: the connection cycle and the number of the probe,
/// each with its least significant byte last.
pub proof fn payloads_hold_cycle_and_number(generation: u64, sequence: u64)
    ensures
        probe_payload(generation, sequence).len() == 16,
        probe_payload(generation, sequence)[7] == generation % 256,
        probe_payload(generation, sequence)[15] == sequence % 256,
        probe_payload(generation, sequence)[0] == generation / 72057594037927936,
        probe_payload(generation, sequence)[8] == sequence / 72057594037927936,
{
    assert((generation & 0xff) as u8 == generation % 256) by (bit_vector);
    assert((sequence & 0xff) as u8 == sequence % 256) by (bit_vector);
    assert(((generation >> 56) & 0xff) as u8 == generation / 72057594037927936) by (bit_vector);
    assert(((sequence >> 56) & 0xff) as u8 == sequence / 72057594037927936) by (bit_vector);
}

/// A probe that was written waits for its pong from then on: in time its own pong
/// clears it, while another payload, another report that it was written, and a pong
/// that is too late leave it as it is.
pub proof fn written_probes_wait_for_their_pong(
    state: HeartbeatState,
    other: Seq<u8>,
    sent_at: Instant,
    now: Instant,
)
    requires
        state.outstanding matches Some(probe) && probe.phase is Sending && probe.payload@ != other
            && sent_at.nanos + probe.pong_timeout.nanos <= crate::clock::MAX_INSTANT_NANOS,
    ensures
        ({
            let probe = state.outstanding->0;
            let waiting = state.written(probe.payload@, sent_at);
            let end = sent_at.nanos + probe.pong_timeout.nanos;
            &&& waiting.deadline() == Some(Instant { nanos: end as u128 })
            &&& waiting.outstanding matches Some(sent) && sent.payload@ == probe.payload@
            &&& now.nanos < end ==> waiting.answered(probe.payload@, now).outstanding is None
            &&& now.nanos >= end ==> waiting.answered(probe.payload@, now) == waiting
            &&& waiting.answered(other, now) == waiting
            &&& waiting.written(probe.payload@, now) == waiting
            &&& state.written(other, sent_at) == state
            &&& state.abandoned(probe.payload@).outstanding is None
            &&& state.abandoned(other) == state
            &&& waiting.generation == state.generation && waiting.next_sequence
                == state.next_sequence
        }),
{
}

/// Without a probe nothing is written, answered or abandoned.
pub proof fn pongs_without_a_probe_change_nothing(
    state: HeartbeatState,
    payload: Seq<u8>,
    now: Instant,
)
    requires
        state.outstanding is None,
    ensures
        state.written(payload, now) == state,
        state.answered(payload, now) == state,
        !state.accepts(payload, now),
        state.abandoned(payload) == state,
        state.deadline() is None,
{
}

} // verus!
