//! Randomness for step probabilities.
//!
//! Step triggers with a probability below one draw from a xorshift generator
//! whose state is a `u64`; the conversion of the state to a number in [0, 1)
//! is floating point and happens in the application.

use vstd::prelude::*;

verus! {

/// Types that can be drawn at random.
pub trait Random: Sized {
    fn random() -> Self;
}

/// Draws a value of type `T` at random.
pub fn random<T: Random>() -> T {
    T::random()
}

/// Initial state of the generator.
pub const RNG_SEED: u64 = 0x1234_5678_9abc_def0u64;

/// One step of the xorshift generator: `x ^= x << 13; x ^= x >> 7;
/// x ^= x << 17`, shifts dropping the bits that leave the 64-bit word.
pub open spec fn spec_xorshift(x: u64) -> u64 {
    let a = x ^ ((x << 13u64) as u64);
    let b = a ^ (a >> 7u64);
    b ^ ((b << 17u64) as u64)
}

/// The generator state that follows `state`.
pub fn next_random_state(state: u64) -> (next: u64)
    ensures
        next == spec_xorshift(state),
{
    let mut x = state;
    x = x ^ (x << 13u64);
    x = x ^ (x >> 7u64);
    x = x ^ (x << 17u64);
    x
}

/// The generator never reaches state zero from a nonzero state, so it never
/// gets stuck: xorshift is a bijection on 64-bit words that fixes zero.
pub proof fn lemma_xorshift_nonzero(x: u64)
    requires
        x != 0,
    ensures
        spec_xorshift(x) != 0,
{
    let a = x ^ ((x << 13u64) as u64);
    assert(x != 0 ==> x ^ ((x << 13u64) as u64) != 0) by (bit_vector);
    let b = a ^ (a >> 7u64);
    assert(a != 0 ==> a ^ (a >> 7u64) != 0) by (bit_vector);
    assert(b != 0 ==> b ^ ((b << 17u64) as u64) != 0) by (bit_vector);
}

/// Most ratchet repeats a step plays.
pub const MAX_RATCHET: u8 = 8;

/// How many times a step with the given ratchet setting fires: once for a
/// setting of 0 or 1, otherwise the setting, at most eight.
pub open spec fn spec_ratchet_count(ratchet: u8) -> nat {
    if ratchet <= 1 {
        1
    } else if ratchet > MAX_RATCHET {
        MAX_RATCHET as nat
    } else {
        ratchet as nat
    }
}

/// Number of ratchet repeats of a step; the application spaces them by the
/// step's ratchet spacing (a fraction of a step, floating point).
pub fn ratchet_count(ratchet: u8) -> (n: usize)
    ensures
        n == spec_ratchet_count(ratchet),
        1 <= n <= 8,
{
    if ratchet <= 1 {
        1
    } else if ratchet > MAX_RATCHET {
        MAX_RATCHET as usize
    } else {
        ratchet as usize
    }
}

} // verus!
