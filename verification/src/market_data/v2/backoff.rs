//! How long to wait before connecting again.
//!
//! The wait doubles with every failure in a row, from a quarter of a second
//! up to sixteen seconds, and starts over once a connection streams.
use vstd::arithmetic::power2::{lemma2_to64, lemma_pow2_strictly_increases, pow2};
use vstd::bits::lemma_u64_shl_is_mul;
use vstd::prelude::*;

verus! {

/// The wait after the first failure, in milliseconds.
pub const BASE_DELAY_MS: u64 = 250;

/// The number of failures after which the wait no longer grows.
pub const MAX_DOUBLINGS: u32 = 6;

/// The longest wait, in milliseconds.
pub const MAX_DELAY_MS: u64 = 16000;

/// The wait, in milliseconds, when `attempt` failures in a row came before:
/// `250 * 2^min(attempt, 6)`.
pub open spec fn backoff_delay(attempt: nat) -> nat {
    250 * pow2(
        if attempt < 6 {
            attempt
        } else {
            6
        },
    )
}

/// The failure count after one more failure. It stops at the largest `u32`,
/// far beyond the point where the wait no longer grows.
pub open spec fn next_attempt(attempt: nat) -> nat {
    if attempt < u32::MAX {
        attempt + 1
    } else {
        attempt
    }
}

/// The wait never shrinks from one failure to the next.
pub proof fn lemma_backoff_monotone(a: nat, b: nat)
    requires
        a <= b,
    ensures
        backoff_delay(a) <= backoff_delay(b),
{
    let ka: nat = if a < 6 { a } else { 6 };
    let kb: nat = if b < 6 { b } else { 6 };
    if ka < kb {
        lemma_pow2_strictly_increases(ka, kb);
    }
    assert(pow2(ka) <= pow2(kb));
    assert(250 * pow2(ka) <= 250 * pow2(kb)) by (nonlinear_arith)
        requires
            pow2(ka) <= pow2(kb),
    ;
}

/// The wait lies between a quarter of a second and sixteen seconds, doubles
/// up to the sixth failure in a row and stays at sixteen seconds from then on.
pub proof fn lemma_backoff_shape(a: nat)
    ensures
        250 <= backoff_delay(a) <= 16000,
        a < 6 ==> backoff_delay(a + 1) == 2 * backoff_delay(a),
        a >= 6 ==> backoff_delay(a) == 16000,
        backoff_delay(0) == 250,
{
    lemma2_to64();
}

/// The waits of the first eight failures in a row.
pub proof fn lemma_backoff_first_eight()
    ensures
        backoff_delay(0) == 250,
        backoff_delay(1) == 500,
        backoff_delay(2) == 1000,
        backoff_delay(3) == 2000,
        backoff_delay(4) == 4000,
        backoff_delay(5) == 8000,
        backoff_delay(6) == 16000,
        backoff_delay(7) == 16000,
{
    lemma2_to64();
}

/// The wait, in milliseconds, when `attempt` failures in a row came before.
pub fn backoff_ms(attempt: u32) -> (r: u64)
    ensures
        r == backoff_delay(attempt as nat),
        BASE_DELAY_MS <= r <= MAX_DELAY_MS,
{
    let k: u32 = if attempt < MAX_DOUBLINGS {
        attempt
    } else {
        MAX_DOUBLINGS
    };
    proof {
        lemma2_to64();
        lemma_u64_shl_is_mul(BASE_DELAY_MS, k as u64);
    }
    BASE_DELAY_MS << k
}

/// The failure count after one more failure.
pub fn count_failure(attempt: u32) -> (r: u32)
    ensures
        r == next_attempt(attempt as nat),
{
    if attempt < u32::MAX {
        attempt + 1
    } else {
        attempt
    }
}

} // verus!
