use vstd::prelude::*;

verus! {

/// Largest magnitude of a binary exponent that the formatter hands to the approximators.
pub const LOG_RANGE: i64 = 1100;

/// ⌊x · 78913 / 2^18⌋: an approximation of ⌊x · log₁₀ 2⌋.
pub open spec fn log10_pow2_spec(x: int) -> int {
    (x * 78913) / 262144
}

proof fn lemma_shr18(y: i64)
    ensures
        (y >> 18u64) as int == y as int / 262144,
{
    assert(y == ((y >> 18u64) as int) * 262144 + (y & 0x3ffff)) by (bit_vector);
    assert(0 <= (y & 0x3ffff) < 262144) by (bit_vector);
}

/// Returns ⌊x · log₁₀ 2⌋, computed as `(x · 78913) >> 18`.
pub fn log10_pow2(x: i64) -> (r: i64)
    requires
        -LOG_RANGE <= x <= LOG_RANGE,
    ensures
        r as int == log10_pow2_spec(x as int),
{
    let y: i64 = x * 78913;
    proof { lemma_shr18(y); }
    y >> 18
}

/// ⌊x · 108853 / 2^15⌋: an approximation of ⌊x · log₂ 10⌋.
pub open spec fn log2_pow10_spec(x: int) -> int {
    (x * 108853) / 32768
}

/// ⌊(x · 631305 - 261663) / 2^21⌋: an approximation of ⌊log₁₀ (3/4 · 2^x)⌋.
pub open spec fn skewed_spec(x: int) -> int {
    (x * 631305 - 261663) / 2097152
}

proof fn lemma_shr15(y: i64)
    ensures
        (y >> 15u64) as int == y as int / 32768,
{
    assert(y == ((y >> 15u64) as int) * 32768 + (y & 0x7fff)) by (bit_vector);
    assert(0 <= (y & 0x7fff) < 32768) by (bit_vector);
}

proof fn lemma_shr21(y: i64)
    ensures
        (y >> 21u64) as int == y as int / 2097152,
{
    assert(y == ((y >> 21u64) as int) * 2097152 + (y & 0x1fffff)) by (bit_vector);
    assert(0 <= (y & 0x1fffff) < 2097152) by (bit_vector);
}

/// Returns ⌊x · log₂ 10⌋, computed as `(x · 108853) >> 15`.
pub fn log2_pow10(x: i64) -> (r: i64)
    requires
        -LOG_RANGE <= x <= LOG_RANGE,
    ensures
        r as int == log2_pow10_spec(x as int),
{
    let y: i64 = x * 108853;
    proof {
        lemma_shr15(y);
    }
    y >> 15
}

/// Returns the skewed footprint of `2^x` at an exact power of two,
/// ⌊log₁₀ (3/4 · 2^x)⌋ = ⌊x · log₁₀ 2 - log₁₀ 4/3⌋, computed as `(x · 631305 - 261663) >> 21`.
pub fn skewed(x: i64) -> (r: i64)
    requires
        -LOG_RANGE <= x <= LOG_RANGE,
    ensures
        r as int == skewed_spec(x as int),
{
    let y: i64 = x * 631305 - 261663;
    proof {
        lemma_shr21(y);
    }
    y >> 21
}

} // verus!
