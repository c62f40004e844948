//! Exponential backoff with full jitter.
use vstd::prelude::*;

use crate::clock::Duration;
use crate::reconnect::ReconnectPolicy;

verus! {

/// The largest number of doublings of the initial delay.
pub const MAX_BACKOFF_SHIFT: usize = 31;

/// State of the pseudo-random sequence that spreads reconnects in time. It
/// offers no cryptographic strength.
#[derive(Clone, Copy, Debug, PartialEq, Eq, Structural)]
pub struct JitterState {
    /// The last value of the sequence.
    pub value: u64,
}

/// The value after `value` in the sequence.
pub open spec fn xorshift(value: u64) -> u64 {
    let first = value ^ (value << 13);
    let second = first ^ (first >> 7);
    second ^ (second << 17)
}

impl JitterState {
    /// The start of the sequence.
    pub fn new() -> (state: Self)
        ensures
            state.value == 0x9e3779b97f4a7c15u64,
    {
        JitterState { value: 0x9e37_79b9_7f4a_7c15 }
    }

    /// Advances the sequence and returns its next value.
    pub fn next_jitter_random(&mut self) -> (random: u64)
        ensures
            random == xorshift(old(self).value),
            final(self).value == random,
    {
        let mut next: u64 = self.value;
        next = next ^ (next << 13);
        next = next ^ (next >> 7);
        next = next ^ (next << 17);
        self.value = next;
        next
    }
}

/// A sequence that does not start at zero never reaches zero, where it would
/// stay for good.
pub proof fn jitter_never_stalls(value: u64)
    requires
        value != 0,
    ensures
        xorshift(value) != 0,
{
    let first = value ^ (value << 13);
    let second = first ^ (first >> 7);
    assert(value != 0 ==> value ^ (value << 13) != 0) by (bit_vector);
    assert(first != 0 ==> first ^ (first >> 7) != 0) by (bit_vector);
    assert(second != 0 ==> second ^ (second << 17) != 0) by (bit_vector);
}

/// Whether another attempt may follow the failed attempt number `attempt`,
/// counted from zero, `elapsed` after the cycle began.
pub open spec fn allows_retry(policy: ReconnectPolicy, attempt: usize, elapsed: Duration) -> bool {
    &&& policy.enabled
    &&& attempt < policy.max_retries
    &&& policy.max_elapsed matches Some(limit) ==> elapsed.nanos < limit.nanos
}

/// Whether another attempt may follow the failed attempt number `attempt`.
pub fn retry_allowed(policy: &ReconnectPolicy, attempt: usize, elapsed: Duration) -> (allowed: bool)
    ensures
        allowed == allows_retry(*policy, attempt, elapsed),
{
    if !policy.enabled || attempt >= policy.max_retries {
        return false;
    }
    match policy.max_elapsed {
        None => true,
        Some(limit) => elapsed.nanos < limit.nanos,
    }
}

/// Number of doublings of the initial delay before repetition `attempt`.
pub open spec fn backoff_shift(attempt: usize) -> nat {
    if attempt == 0 {
        0
    } else if attempt - 1 > MAX_BACKOFF_SHIFT {
        MAX_BACKOFF_SHIFT as nat
    } else {
        (attempt - 1) as nat
    }
}

/// Upper bound of the wait before repetition `attempt`, in nanoseconds: the
/// initial delay doubled with each repetition, up to the longest delay.
pub open spec fn backoff_cap(policy: ReconnectPolicy, attempt: usize) -> int {
    let grown = policy.initial_delay.nanos * vstd::arithmetic::power2::pow2(backoff_shift(attempt));
    let cap = if grown <= policy.max_delay.nanos && grown <= crate::clock::MAX_DURATION_NANOS {
        grown
    } else {
        policy.max_delay.nanos as int
    };
    if cap > u64::MAX {
        u64::MAX as int
    } else {
        cap
    }
}

/// The wait that `random` stands for, in nanoseconds.
pub open spec fn jitter_nanos(cap: int, random: u64) -> int {
    if cap == u64::MAX {
        random as int % cap
    } else {
        random as int % (cap + 1)
    }
}

fn doublings(shift: usize) -> (factor: u32)
    requires
        shift <= MAX_BACKOFF_SHIFT,
    ensures
        factor == vstd::arithmetic::power2::pow2(shift as nat),
{
    let mut factor: u32 = 1;
    let mut done: usize = 0;
    proof {
        vstd::arithmetic::power2::lemma2_to64();
    }
    while done < shift
        invariant
            done <= shift <= MAX_BACKOFF_SHIFT,
            factor == vstd::arithmetic::power2::pow2(done as nat),
        decreases shift - done,
    {
        proof {
            vstd::arithmetic::power2::lemma2_to64();
            vstd::arithmetic::power2::lemma_pow2_unfold((done + 1) as nat);
            assert(vstd::arithmetic::power2::pow2((done + 1) as nat) == 2 * vstd::arithmetic::power2::pow2(done as nat));
            vstd::arithmetic::power2::lemma_pow2_strictly_increases(done as nat, 31);
        }
        factor = factor * 2;
        done = done + 1;
    }
    factor
}

/// Draws the wait before repetition `attempt`: any length up to the bound of
/// that repetition. No value is drawn for an empty bound.
pub fn full_jitter_delay(policy: &ReconnectPolicy, attempt: usize, jitter: &mut JitterState) -> (
    delay: Duration)
    ensures
        ({
            let cap = backoff_cap(*policy, attempt);
            if cap == 0 {
                delay.nanos == 0 && *final(jitter) == *old(jitter)
            } else {
                &&& delay.nanos == jitter_nanos(cap, xorshift(old(jitter).value))
                &&& final(jitter).value == xorshift(old(jitter).value)
            }
        }),
        delay.nanos <= backoff_cap(*policy, attempt),
        delay.nanos <= policy.max_delay.nanos,
        attempt <= 1 ==> delay.nanos <= policy.initial_delay.nanos,
{
    proof {
        backoff_doubles_until_the_longest_delay(*policy, 1);
    }
    let earlier: usize = attempt.saturating_sub(1);
    let shift: usize = if earlier > MAX_BACKOFF_SHIFT {
        MAX_BACKOFF_SHIFT
    } else {
        earlier
    };
    let factor: u32 = doublings(shift);
    proof {
        assert(policy.initial_delay.nanos * factor == policy.initial_delay.nanos * vstd::arithmetic::power2::pow2(
            backoff_shift(attempt),
        ));
    }
    let cap = match policy.initial_delay.checked_mul(factor) {
        Some(grown) => grown.shorter(policy.max_delay),
        None => policy.max_delay,
    };
    let cap_nanos: u64 = if cap.nanos > u64::MAX as u128 {
        u64::MAX
    } else {
        cap.nanos as u64
    };
    assert(cap_nanos == backoff_cap(*policy, attempt));
    if cap_nanos == 0 {
        return Duration::zero();
    }
    let random: u64 = jitter.next_jitter_random();
    let modulus: u64 = cap_nanos.saturating_add(1);
    Duration::from_nanos(random % modulus)
}

/// The bound of a wait never exceeds the longest delay of the policy and
/// never shrinks from one repetition to the next.
pub proof fn backoff_is_bounded_and_grows(policy: ReconnectPolicy, attempt: usize)
    requires
        attempt < usize::MAX,
        policy.initial_delay.nanos <= policy.max_delay.nanos,
        policy.max_delay.nanos <= crate::clock::MAX_DURATION_NANOS,
    ensures
        0 <= backoff_cap(policy, attempt) <= policy.max_delay.nanos,
        backoff_cap(policy, attempt) <= backoff_cap(policy, (attempt + 1) as usize),
{
    let now = backoff_shift(attempt);
    let next = backoff_shift((attempt + 1) as usize);
    if now < next {
        vstd::arithmetic::power2::lemma_pow2_strictly_increases(now, next);
    }
    vstd::arithmetic::mul::lemma_mul_inequality(
        vstd::arithmetic::power2::pow2(now) as int,
        vstd::arithmetic::power2::pow2(next) as int,
        policy.initial_delay.nanos as int,
    );
    vstd::arithmetic::mul::lemma_mul_is_commutative(
        vstd::arithmetic::power2::pow2(now) as int,
        policy.initial_delay.nanos as int,
    );
    vstd::arithmetic::mul::lemma_mul_is_commutative(
        vstd::arithmetic::power2::pow2(next) as int,
        policy.initial_delay.nanos as int,
    );
    vstd::arithmetic::mul::lemma_mul_nonnegative(
        policy.initial_delay.nanos as int,
        vstd::arithmetic::power2::pow2(now) as int,
    );
}

/// The bound doubles: the first repetition waits for the initial delay at most,
/// and each of the following up to the last doubling for twice as long as the
/// one before, until the longest delay is reached. From then on, and after the
/// last doubling, it stays.
pub proof fn backoff_doubles_until_the_longest_delay(policy: ReconnectPolicy, attempt: usize)
    requires
        1 <= attempt < usize::MAX,
    ensures
        ({
            let longest = if policy.max_delay.nanos > u64::MAX {
                u64::MAX as int
            } else {
                policy.max_delay.nanos as int
            };
            let bound = backoff_cap(policy, attempt);
            let next = backoff_cap(policy, (attempt + 1) as usize);
            &&& backoff_cap(policy, 0) == backoff_cap(policy, 1)
            &&& backoff_cap(policy, 1) == if policy.initial_delay.nanos <= longest {
                policy.initial_delay.nanos as int
            } else {
                longest
            }
            &&& attempt <= 31 ==> next == if 2 * bound <= longest {
                2 * bound
            } else {
                longest
            }
            &&& attempt <= 31 && 0 < bound < longest ==> next > bound
            &&& attempt >= 32 ==> next == bound
            &&& 0 <= bound <= longest
        }),
{
    let initial = policy.initial_delay.nanos as int;
    let shift = backoff_shift(attempt);
    let factor = vstd::arithmetic::power2::pow2(shift) as int;
    vstd::arithmetic::power2::lemma2_to64();
    vstd::arithmetic::power2::lemma_pow2_pos(shift);
    vstd::arithmetic::mul::lemma_mul_nonnegative(initial, factor);
    assert(initial * 1 == initial);
    if attempt <= 31 {
        vstd::arithmetic::power2::lemma_pow2_unfold((shift + 1) as nat);
        assert(initial * (2 * factor) == 2 * (initial * factor)) by (nonlinear_arith);
    }
    assert(initial > 0 && factor > 0 ==> initial * factor > 0) by (nonlinear_arith);
}

/// Full jitter: every wait up to the bound can be drawn, no other can, and the
/// random values are spread over them evenly.
pub proof fn every_wait_up_to_the_bound_can_be_drawn(cap: int, random: u64)
    requires
        0 < cap <= u64::MAX,
    ensures
        0 <= jitter_nanos(cap, random) <= cap,
        random <= cap && cap < u64::MAX ==> jitter_nanos(cap, random) == random,
        random < cap ==> jitter_nanos(cap, random) == random,
        random + cap + 1 <= u64::MAX ==> jitter_nanos(cap, (random + cap + 1) as u64)
            == jitter_nanos(cap, random),
{
    let modulus = if cap == u64::MAX {
        cap
    } else {
        cap + 1
    };
    vstd::arithmetic::div_mod::lemma_mod_bound(random as int, modulus);
    if random < modulus {
        vstd::arithmetic::div_mod::lemma_small_mod(random as nat, modulus as nat);
    }
    if random + cap + 1 <= u64::MAX {
        vstd::arithmetic::div_mod::lemma_mod_add_multiples_vanish(random as int, modulus);
    }
}

/// Different values of the sequence have different successors, so that clients
/// that were spread apart stay apart.
pub proof fn jitter_keeps_clients_apart(first: u64, second: u64)
    requires
        first != second,
    ensures
        xorshift(first) != xorshift(second),
{
    let a = first ^ (first << 13);
    let b = second ^ (second << 13);
    let c = a ^ (a >> 7);
    let d = b ^ (b >> 7);
    assert(first != second ==> first ^ (first << 13) != second ^ (second << 13)) by (bit_vector);
    assert(a != b ==> a ^ (a >> 7) != b ^ (b >> 7)) by (bit_vector);
    assert(c != d ==> c ^ (c << 17) != d ^ (d << 17)) by (bit_vector);
}

/// Repetitions are granted as long as there are any left and the time of the
/// cycle is not over, and never afterwards or without a policy that wants them.
pub proof fn repetitions_are_granted_within_the_limits(
    policy: ReconnectPolicy,
    attempt: usize,
    elapsed: Duration,
)
    ensures
        !policy.enabled ==> !allows_retry(policy, attempt, elapsed),
        attempt >= policy.max_retries ==> !allows_retry(policy, attempt, elapsed),
        policy.max_elapsed matches Some(limit) ==> (elapsed.nanos >= limit.nanos ==> !allows_retry(
            policy,
            attempt,
            elapsed,
        )),
        policy.enabled && attempt < policy.max_retries && policy.max_elapsed is None
            ==> allows_retry(policy, attempt, elapsed),
        policy.enabled && attempt < policy.max_retries && (policy.max_elapsed matches Some(limit)
            && elapsed.nanos < limit.nanos) ==> allows_retry(policy, attempt, elapsed),
{
}

} // verus!
