//! Hammer excitation support: the exciter's xorshift noise source.

use vstd::prelude::*;

verus! {

/// One xorshift32 round (shifts 13, 17, 5).
pub open spec fn xorshift32_spec(x: u32) -> u32 {
    let a = x ^ (x << 13u32);
    let b = a ^ (a >> 17u32);
    b ^ (b << 5u32)
}

/// Advances the exciter's noise generator: returns the xorshift32 output
/// for `state` and the next state, which is that output except that a zero
/// output is replaced by 1 so the generator can never get stuck at zero.
pub fn next_noise_state(state: u32) -> (r: (u32, u32))
    ensures
        r.0 == xorshift32_spec(state),
        r.1 == (if r.0 == 0 { 1u32 } else { r.0 }),
{
    let mut x = state;
    x = x ^ (x << 13u32);
    x = x ^ (x >> 17u32);
    x = x ^ (x << 5u32);
    let next = if x > 1 { x } else { 1 };
    (x, next)
}

/// xorshift32 maps every non-zero state to a non-zero state, so a generator
/// seeded with a non-zero value keeps producing its own sequence and never
/// needs the zero guard.
pub proof fn lemma_xorshift_keeps_nonzero(x: u32)
    ensures
        x != 0 ==> xorshift32_spec(x) != 0,
{
    let a = x ^ (x << 13u32);
    let b = a ^ (a >> 17u32);
    let c = b ^ (b << 5u32);
    assert(x != 0 ==> a != 0) by (bit_vector)
        requires
            a == x ^ (x << 13u32),
    ;
    assert(a != 0 ==> b != 0) by (bit_vector)
        requires
            b == a ^ (a >> 17u32),
    ;
    assert(b != 0 ==> c != 0) by (bit_vector)
        requires
            c == b ^ (b << 5u32),
    ;
}

/// Shortest hammer contact, in samples.
pub const HAMMER_MIN_CONTACT_SAMPLES: u32 = 8;

/// Longest hammer contact, in samples.
pub const HAMMER_MAX_CONTACT_SAMPLES: u32 = 256;

/// The hammer's contact length in samples: the requested length held to
/// `HAMMER_MIN_CONTACT_SAMPLES..=HAMMER_MAX_CONTACT_SAMPLES`.
pub fn hammer_contact_samples(requested: u32) -> (r: u32)
    ensures
        r == (if requested < HAMMER_MIN_CONTACT_SAMPLES {
            HAMMER_MIN_CONTACT_SAMPLES
        } else if requested > HAMMER_MAX_CONTACT_SAMPLES {
            HAMMER_MAX_CONTACT_SAMPLES
        } else {
            requested
        }),
{
    if requested < HAMMER_MIN_CONTACT_SAMPLES {
        HAMMER_MIN_CONTACT_SAMPLES
    } else if requested > HAMMER_MAX_CONTACT_SAMPLES {
        HAMMER_MAX_CONTACT_SAMPLES
    } else {
        requested
    }
}

} // verus!
