//! The reconnect policy.
use vstd::prelude::*;

use crate::clock::{duration_fits_instant, Duration, Instant};

verus! {

/// When and how often a failed connection attempt is repeated.
#[derive(Clone, Copy, Debug, PartialEq, Eq, Structural)]
pub struct ReconnectPolicy {
    /// Whether attempts are repeated at all.
    pub enabled: bool,
    /// Upper bound of the wait before the first repetition.
    pub initial_delay: Duration,
    /// Upper bound of every wait.
    pub max_delay: Duration,
    /// Number of repetitions after the first attempt.
    pub max_retries: usize,
    /// Time that one attempt may take.
    pub handshake_timeout: Duration,
    /// Time after whose end no repetition starts.
    pub max_elapsed: Option<Duration>,
}

impl ReconnectPolicy {
    /// Whether the clock can express the end of an attempt and of a cycle that
    /// begin now.
    pub open spec fn expressible(self, now: Instant) -> bool {
        &&& now.plus(self.handshake_timeout) is Some
        &&& self.max_elapsed matches Some(limit) ==> now.plus(limit) is Some
    }

    /// Whether connections can be made by the policy. Whether it is sound in
    /// itself is for its owner to say.
    pub open spec fn valid(self, sound: bool, now: Instant) -> bool {
        sound && self.expressible(now)
    }

    /// Whether connections can be made by the policy: it has to be sound in
    /// itself, and every deadline must be one that the clock can express.
    pub fn is_valid(&self, sound: bool, now: Instant) -> (valid: bool)
        ensures
            valid == self.valid(sound, now),
    {
        if !sound || !duration_fits_instant(now, self.handshake_timeout) {
            return false;
        }
        match self.max_elapsed {
            Some(limit) => duration_fits_instant(now, limit),
            None => true,
        }
    }
}

/// A policy that is sound is valid exactly if the clock can express the end of an
/// attempt and, if there is one, the end of the cycle; an unsound one never is.
pub proof fn valid_policies_can_be_followed(policy: ReconnectPolicy, sound: bool, now: Instant)
    ensures
        policy.valid(sound, now) <==> {
            let last = crate::clock::MAX_INSTANT_NANOS;
            &&& sound
            &&& now.nanos + policy.handshake_timeout.nanos <= last
            &&& policy.max_elapsed is None || now.nanos + policy.max_elapsed->0.nanos <= last
        },
{
}

} // verus!
