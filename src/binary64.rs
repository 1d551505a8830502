use crate::estimate::Estimate;
use vstd::arithmetic::div_mod::lemma_small_mod;
use vstd::prelude::*;

verus! {

/// The magic constant of the 64-bit estimate.
pub const MAGIC_64: u64 = 0x5fe6_ec85_e7de_30da;

/// The sign bit of a binary64 bit pattern is set (negative zero and NaNs with
/// the sign bit included).
pub open spec fn sign_negative_64(bits: u64) -> bool {
    bits >= 0x8000_0000_0000_0000
}

/// The biased exponent field, bits 52 to 62.
pub open spec fn exponent_64(bits: u64) -> u64 {
    bits / 0x10_0000_0000_0000 % 0x800
}

/// The fraction field, bits 0 to 51.
pub open spec fn fraction_64(bits: u64) -> u64 {
    bits % 0x10_0000_0000_0000
}

/// The bits encode a NaN.
pub open spec fn is_nan_64(bits: u64) -> bool {
    exponent_64(bits) == 0x7ff && fraction_64(bits) != 0
}

/// The bits encode an infinity of either sign.
pub open spec fn is_infinite_64(bits: u64) -> bool {
    exponent_64(bits) == 0x7ff && fraction_64(bits) == 0
}

/// The bits encode a normal number: neither zero, subnormal, infinite nor NaN.
pub open spec fn is_normal_64(bits: u64) -> bool {
    exponent_64(bits) != 0 && exponent_64(bits) != 0x7ff
}

/// The bits encode a positive normal number, the domain of the estimate.
pub open spec fn is_positive_normal_64(bits: u64) -> bool {
    !sign_negative_64(bits) && is_normal_64(bits)
}

/// The integer step of the estimate, `MAGIC_64 - (bits >> 1)`, taken modulo
/// 2^64 as the unguarded bit hack computes it.
pub open spec fn seed_of_64(bits: u64) -> u64 {
    ((MAGIC_64 - bits / 2) % 0x1_0000_0000_0000_0000) as u64
}

/// The first estimate of the inverse square root of the float whose bits are
/// `bits`, with no check on the input. For an input whose sign bit is clear the
/// subtraction never wraps.
pub fn seed_64(bits: u64) -> (r: u64)
    ensures
        r == seed_of_64(bits),
        bits < 0x8000_0000_0000_0000 ==> r == MAGIC_64 - bits / 2,
{
    let half = bits >> 1;
    assert(half == bits / 2) by (bit_vector)
        requires
            half == bits >> 1,
    ;
    MAGIC_64.wrapping_sub(half)
}

/// The edge-case policy of the 64-bit approximation: a negative input or a
/// NaN gives NaN, positive infinity gives zero, positive zero or a positive
/// subnormal gives positive infinity, and a positive normal input gets the
/// estimate.
pub open spec fn estimate_of_64(bits: u64) -> Estimate<u64> {
    if sign_negative_64(bits) || is_nan_64(bits) {
        Estimate::NotANumber
    } else if is_infinite_64(bits) {
        Estimate::Zero
    } else if !is_normal_64(bits) {
        Estimate::Infinity
    } else {
        Estimate::Seed(seed_of_64(bits))
    }
}

/// The checked first step of the 64-bit approximation for the float whose bits
/// are `bits`.
pub fn estimate_64(bits: u64) -> (r: Estimate<u64>)
    ensures
        r == estimate_of_64(bits),
{
    let exponent = (bits >> 52) & 0x7ff;
    let fraction = bits & 0xf_ffff_ffff_ffff;
    assert({
        &&& exponent == bits / 0x10_0000_0000_0000 % 0x800
        &&& fraction == bits % 0x10_0000_0000_0000
        &&& (bits >> 63 == 1) == (bits >= 0x8000_0000_0000_0000)
    }) by (bit_vector)
        requires
            exponent == (bits >> 52) & 0x7ff,
            fraction == bits & 0xf_ffff_ffff_ffff,
    ;
    if bits >> 63 == 1 {
        Estimate::NotANumber
    } else if exponent == 0x7ff {
        if fraction != 0 {
            Estimate::NotANumber
        } else {
            Estimate::Zero
        }
    } else if exponent == 0 {
        Estimate::Infinity
    } else {
        Estimate::Seed(seed_64(bits))
    }
}

/// An input with the sign bit clear has an estimate that needs no wrapping.
proof fn lemma_seed_exact_64(bits: u64)
    requires
        !sign_negative_64(bits),
    ensures
        seed_of_64(bits) == MAGIC_64 - bits / 2,
{
    lemma_small_mod((MAGIC_64 - bits / 2) as nat, 0x1_0000_0000_0000_0000);
}

/// With the checks left out, a positive normal input gets the same estimate as
/// with them: the checks are transparent on the domain of the approximation.
pub proof fn lemma_checks_transparent_64(bits: u64)
    requires
        is_positive_normal_64(bits),
    ensures
        estimate_of_64(bits) == Estimate::Seed(seed_of_64(bits)),
        seed_of_64(bits) == MAGIC_64 - bits / 2,
{
    lemma_seed_exact_64(bits);
}

/// Every NaN input, whatever its sign and payload, gives NaN.
pub proof fn lemma_nan_gives_nan_64(bits: u64)
    requires
        is_nan_64(bits),
    ensures
        estimate_of_64(bits) == Estimate::<u64>::NotANumber,
{
}

/// Every input with the sign bit set gives NaN: negative numbers, negative zero
/// and negative infinity.
pub proof fn lemma_negative_gives_nan_64(bits: u64)
    requires
        sign_negative_64(bits),
    ensures
        estimate_of_64(bits) == Estimate::<u64>::NotANumber,
{
}

/// The estimate of a positive normal input is itself a positive normal float,
/// so the Newton step that refines it never starts from a sentinel.
pub proof fn lemma_seed_is_positive_normal_64(bits: u64)
    requires
        is_positive_normal_64(bits),
    ensures
        is_positive_normal_64(seed_of_64(bits)),
{
    lemma_seed_exact_64(bits);
    let s = seed_of_64(bits);
    assert({
        &&& bits < 0x8000_0000_0000_0000
        &&& bits / 0x10_0000_0000_0000 % 0x800 != 0
        &&& bits / 0x10_0000_0000_0000 % 0x800 != 0x7ff
        &&& s == 0x5fe6_ec85_e7de_30da - bits / 2
    } ==> {
        &&& s < 0x8000_0000_0000_0000
        &&& s / 0x10_0000_0000_0000 % 0x800 != 0
        &&& s / 0x10_0000_0000_0000 % 0x800 != 0x7ff
    }) by (bit_vector);
}

/// The estimate halves and negates the input's exponent: for a positive normal
/// input with biased exponent `e`, the estimate's biased exponent is
/// `1534 - e / 2` or one less, the exponent of the inverse square root.
pub proof fn lemma_seed_exponent_64(bits: u64)
    requires
        is_positive_normal_64(bits),
    ensures
        1534 - exponent_64(bits) / 2 <= exponent_64(seed_of_64(bits)) + 1,
        exponent_64(seed_of_64(bits)) <= 1534 - exponent_64(bits) / 2,
{
    lemma_seed_exact_64(bits);
    let s = seed_of_64(bits);
    let e = exponent_64(bits);
    let f = exponent_64(s);
    assert({
        &&& bits < 0x8000_0000_0000_0000
        &&& e == bits / 0x10_0000_0000_0000 % 0x800
        &&& e != 0
        &&& e != 0x7ff
        &&& s == 0x5fe6_ec85_e7de_30da - bits / 2
        &&& f == s / 0x10_0000_0000_0000 % 0x800
    } ==> {
        &&& 1534 - e / 2 <= f + 1
        &&& f <= 1534 - e / 2
    }) by (bit_vector);
}

} // verus!
