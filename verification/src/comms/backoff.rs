//! Policies that space out repeated connect attempts.

use crate::comms::connection_manager::config::Delay;
use vstd::prelude::*;

verus! {

/// A policy that says how long to wait after a number of failed attempts.
pub trait Backoff {
    /// The delay that the policy prescribes after `attempts` failed attempts.
    spec fn delay_for(&self, attempts: usize) -> Delay;

    fn calculate_backoff(&self, attempts: usize) -> (delay: Delay)
        ensures
            delay == self.delay_for(attempts),
    ;
}

/// The same delay after every attempt.
#[derive(Clone, Copy, Debug)]
pub struct ConstantBackoff {
    pub delay: Delay,
}

impl ConstantBackoff {
    pub fn new(delay: Delay) -> (backoff: ConstantBackoff)
        ensures
            backoff.delay == delay,
    {
        ConstantBackoff { delay }
    }
}

impl Backoff for ConstantBackoff {
    open spec fn delay_for(&self, attempts: usize) -> Delay {
        self.delay
    }

    fn calculate_backoff(&self, attempts: usize) -> (delay: Delay) {
        self.delay
    }
}

/// The largest exponent that the exponential policy raises two to.
pub const MAX_BACKOFF_EXPONENT: usize = 32;

/// Two to the power of `exponent`.
pub open spec fn pow2(exponent: nat) -> nat
    decreases exponent,
{
    if exponent == 0 {
        1
    } else {
        2 * pow2((exponent - 1) as nat)
    }
}

/// The delay of the exponential policy in milliseconds: nothing after at
/// most one attempt, then `factor * (2^attempts - 1)`, with the exponent
/// capped at `MAX_BACKOFF_EXPONENT` and the product at the largest `u64`.
pub open spec fn exponential_delay_millis(factor_millis: u64, attempts: usize) -> nat {
    if attempts <= 1 {
        0
    } else {
        let exponent = if attempts < MAX_BACKOFF_EXPONENT {
            attempts
        } else {
            MAX_BACKOFF_EXPONENT
        };
        let product = factor_millis * (pow2(exponent as nat) - 1);
        if product > u64::MAX {
            u64::MAX as nat
        } else {
            product as nat
        }
    }
}

/// A delay that doubles with every attempt.
#[derive(Clone, Copy, Debug)]
pub struct ExponentialBackoff {
    pub factor_millis: u64,
}

impl ExponentialBackoff {
    pub fn new(factor_millis: u64) -> (backoff: ExponentialBackoff)
        ensures
            backoff.factor_millis == factor_millis,
    {
        ExponentialBackoff { factor_millis }
    }
}

impl Backoff for ExponentialBackoff {
    open spec fn delay_for(&self, attempts: usize) -> Delay {
        Delay { millis: exponential_delay_millis(self.factor_millis, attempts) as u64 }
    }

    fn calculate_backoff(&self, attempts: usize) -> (delay: Delay) {
        if attempts <= 1 {
            return Delay { millis: 0 };
        }
        let exponent = if attempts < MAX_BACKOFF_EXPONENT {
            attempts
        } else {
            MAX_BACKOFF_EXPONENT
        };
        let mut power: u64 = 1;
        let mut i: usize = 0;
        while i < exponent
            invariant
                i <= exponent <= MAX_BACKOFF_EXPONENT,
                power == pow2(i as nat),
                1 <= power <= 0x1_0000_0000u64,
                i < 32 ==> power <= 0x8000_0000u64,
            decreases exponent - i,
        {
            proof {
                lemma_pow2_bound(i as nat);
            }
            power = power * 2;
            i += 1;
            proof {
                lemma_pow2_bound(i as nat);
            }
        }
        let multiplier: u64 = power - 1;
        match self.factor_millis.checked_mul(multiplier) {
            Some(product) => Delay { millis: product },
            None => Delay { millis: u64::MAX },
        }
    }
}

/// Two to the power of at most 32 fits in 33 bits, and grows with the exponent.
pub proof fn lemma_pow2_bound(exponent: nat)
    requires
        exponent <= 32,
    ensures
        1 <= pow2(exponent) <= 0x1_0000_0000,
        exponent < 32 ==> pow2(exponent) <= 0x8000_0000,
    decreases exponent,
{
    reveal_with_fuel(pow2, 34);
}

} // verus!
