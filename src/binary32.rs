use crate::estimate::Estimate;
use vstd::arithmetic::div_mod::lemma_small_mod;
use vstd::prelude::*;

verus! {

/// The magic constant of the 32-bit estimate.
pub const MAGIC_32: u32 = 0x5f37_5a86;

/// The sign bit of a binary32 bit pattern is set (negative zero and NaNs with
/// the sign bit included).
pub open spec fn sign_negative_32(bits: u32) -> bool {
    bits >= 0x8000_0000
}

/// The biased exponent field, bits 23 to 30.
pub open spec fn exponent_32(bits: u32) -> u32 {
    bits / 0x80_0000 % 0x100
}

/// The fraction field, bits 0 to 22.
pub open spec fn fraction_32(bits: u32) -> u32 {
    bits % 0x80_0000
}

/// The bits encode a NaN.
pub open spec fn is_nan_32(bits: u32) -> bool {
    exponent_32(bits) == 0xff && fraction_32(bits) != 0
}

/// The bits encode an infinity of either sign.
pub open spec fn is_infinite_32(bits: u32) -> bool {
    exponent_32(bits) == 0xff && fraction_32(bits) == 0
}

/// The bits encode a normal number: neither zero, subnormal, infinite nor NaN.
pub open spec fn is_normal_32(bits: u32) -> bool {
    exponent_32(bits) != 0 && exponent_32(bits) != 0xff
}

/// The bits encode a positive normal number, the domain of the estimate.
pub open spec fn is_positive_normal_32(bits: u32) -> bool {
    !sign_negative_32(bits) && is_normal_32(bits)
}

/// The integer step of the estimate, `MAGIC_32 - (bits >> 1)`, taken modulo
/// 2^32 as the unguarded bit hack computes it.
pub open spec fn seed_of_32(bits: u32) -> u32 {
    ((MAGIC_32 - bits / 2) % 0x1_0000_0000) as u32
}

/// The first estimate of the inverse square root of the float whose bits are
/// `bits`, with no check on the input. For an input whose sign bit is clear the
/// subtraction never wraps.
pub fn seed_32(bits: u32) -> (r: u32)
    ensures
        r == seed_of_32(bits),
        bits < 0x8000_0000 ==> r == MAGIC_32 - bits / 2,
{
    let half = bits >> 1;
    assert(half == bits / 2) by (bit_vector)
        requires
            half == bits >> 1,
    ;
    MAGIC_32.wrapping_sub(half)
}

/// The edge-case policy of the 32-bit approximation: a negative input or a
/// NaN gives NaN, positive infinity gives zero, positive zero or a positive
/// subnormal gives positive infinity, and a positive normal input gets the
/// estimate.
pub open spec fn estimate_of_32(bits: u32) -> Estimate<u32> {
    if sign_negative_32(bits) || is_nan_32(bits) {
        Estimate::NotANumber
    } else if is_infinite_32(bits) {
        Estimate::Zero
    } else if !is_normal_32(bits) {
        Estimate::Infinity
    } else {
        Estimate::Seed(seed_of_32(bits))
    }
}

/// The checked first step of the 32-bit approximation for the float whose bits
/// are `bits`.
pub fn estimate_32(bits: u32) -> (r: Estimate<u32>)
    ensures
        r == estimate_of_32(bits),
{
    let exponent = (bits >> 23) & 0xff;
    let fraction = bits & 0x7f_ffff;
    assert({
        &&& exponent == bits / 0x80_0000 % 0x100
        &&& fraction == bits % 0x80_0000
        &&& (bits >> 31 == 1) == (bits >= 0x8000_0000)
    }) by (bit_vector)
        requires
            exponent == (bits >> 23) & 0xff,
            fraction == bits & 0x7f_ffff,
    ;
    if bits >> 31 == 1 {
        Estimate::NotANumber
    } else if exponent == 0xff {
        if fraction != 0 {
            Estimate::NotANumber
        } else {
            Estimate::Zero
        }
    } else if exponent == 0 {
        Estimate::Infinity
    } else {
        Estimate::Seed(seed_32(bits))
    }
}

/// An input with the sign bit clear has an estimate that needs no wrapping.
proof fn lemma_seed_exact_32(bits: u32)
    requires
        !sign_negative_32(bits),
    ensures
        seed_of_32(bits) == MAGIC_32 - bits / 2,
{
    lemma_small_mod((MAGIC_32 - bits / 2) as nat, 0x1_0000_0000);
}

/// With the checks left out, a positive normal input gets the same estimate as
/// with them: the checks are transparent on the domain of the approximation.
pub proof fn lemma_checks_transparent_32(bits: u32)
    requires
        is_positive_normal_32(bits),
    ensures
        estimate_of_32(bits) == Estimate::Seed(seed_of_32(bits)),
        seed_of_32(bits) == MAGIC_32 - bits / 2,
{
    lemma_seed_exact_32(bits);
}

/// Every NaN input, whatever its sign and payload, gives NaN.
pub proof fn lemma_nan_gives_nan_32(bits: u32)
    requires
        is_nan_32(bits),
    ensures
        estimate_of_32(bits) == Estimate::<u32>::NotANumber,
{
}

/// Every input with the sign bit set gives NaN: negative numbers, negative zero
/// and negative infinity.
pub proof fn lemma_negative_gives_nan_32(bits: u32)
    requires
        sign_negative_32(bits),
    ensures
        estimate_of_32(bits) == Estimate::<u32>::NotANumber,
{
}

/// The estimate of a positive normal input is itself a positive normal float,
/// so the Newton step that refines it never starts from a sentinel.
pub proof fn lemma_seed_is_positive_normal_32(bits: u32)
    requires
        is_positive_normal_32(bits),
    ensures
        is_positive_normal_32(seed_of_32(bits)),
{
    lemma_seed_exact_32(bits);
    let s = seed_of_32(bits);
    assert({
        &&& bits < 0x8000_0000
        &&& bits / 0x80_0000 % 0x100 != 0
        &&& bits / 0x80_0000 % 0x100 != 0xff
        &&& s == 0x5f37_5a86 - bits / 2
    } ==> {
        &&& s < 0x8000_0000
        &&& s / 0x80_0000 % 0x100 != 0
        &&& s / 0x80_0000 % 0x100 != 0xff
    }) by (bit_vector);
}

/// The estimate halves and negates the input's exponent: for a positive normal
/// input with biased exponent `e`, the estimate's biased exponent is
/// `190 - e / 2` or one less, the exponent of the inverse square root.
pub proof fn lemma_seed_exponent_32(bits: u32)
    requires
        is_positive_normal_32(bits),
    ensures
        190 - exponent_32(bits) / 2 <= exponent_32(seed_of_32(bits)) + 1,
        exponent_32(seed_of_32(bits)) <= 190 - exponent_32(bits) / 2,
{
    lemma_seed_exact_32(bits);
    let s = seed_of_32(bits);
    let e = exponent_32(bits);
    let f = exponent_32(s);
    assert({
        &&& bits < 0x8000_0000
        &&& e == bits / 0x80_0000 % 0x100
        &&& e != 0
        &&& e != 0xff
        &&& s == 0x5f37_5a86 - bits / 2
        &&& f == s / 0x80_0000 % 0x100
    } ==> {
        &&& 190 - e / 2 <= f + 1
        &&& f <= 190 - e / 2
    }) by (bit_vector);
}

} // verus!
