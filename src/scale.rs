use crate::pow10::{POW10_LEN, POW10_MAX, POW10_MIN, POW10_TAB};
use crate::render::bool2;
use crate::unrounded::Unrounded;
use vstd::arithmetic::div_mod::*;
use vstd::arithmetic::mul::*;
use vstd::arithmetic::power2::*;
use vstd::bits::*;
use vstd::prelude::*;

verus! {

/// 2^64.
pub open spec fn two64() -> int {
    0x1_0000_0000_0000_0000int
}

/// A 128-bit mantissa `hi · 2^64 - lo`.
#[derive(Clone, Copy)]
pub struct PmHiLo {
    pub hi: u64,
    pub lo: u64,
}

/// The scaling constants for one pair of binary and decimal exponents: the mantissa of the
/// power of ten and the right shift that follows the multiplication.
#[derive(Clone, Copy)]
pub struct Scaler {
    pub pm: PmHiLo,
    pub s: i64,
}

/// Sets the sticky bit of `q` when `b` holds.
pub open spec fn with_sticky(q: int, b: bool) -> int {
    if b && q % 2 == 0 {
        q + 1
    } else {
        q
    }
}

/// The unrounded value that scaling `x` by the mantissa `hi · 2^64 - lo` and the shift `s`
/// yields: the high word of `x · hi`, less a borrow from `x · lo` when the bits that the
/// shift drops are all zero, shifted right by `s`, with the sticky bit set unless the
/// product is within one unit of exact.
#[verifier::opaque]
pub open spec fn uscale_spec(x: int, hi: int, lo: int, s: nat) -> int {
    let top = (x * hi) / two64();
    let mid = (x * hi) % two64();
    if top % (pow2(s) as int) == 0 {
        let mid2 = (x * lo) / two64();
        let top2 = if mid < mid2 {
            top - 1
        } else {
            top
        };
        with_sticky(top2 / (pow2(s) as int), (mid - mid2) % two64() > 1)
    } else {
        with_sticky(top / (pow2(s) as int), true)
    }
}

/// The value `hi · 2^64 - lo` of a 128-bit mantissa.
pub open spec fn mantissa_value(pm: PmHiLo) -> int {
    pm.hi * two64() - pm.lo
}

/// `w / 2^k` truncated, with the lowest bit set when the truncation lost anything: the
/// unrounded form of `w / 2^(k+2)`.
pub open spec fn round_to_odd(w: int, k: nat) -> int {
    with_sticky(w / pow2(k) as int, w % pow2(k) as int != 0)
}

/// `u` is the unrounded form of `x · mantissa_value(pm) / 2^(130 + s)` whenever the bits that
/// the shift `s` drops from the high word of `x · pm.hi` are not all zero.
#[verifier::opaque]
pub open spec fn exact_when_lossy(x: int, pm: PmHiLo, s: nat, u: int) -> bool {
    ((x * pm.hi) / two64()) % (pow2(s) as int) != 0 ==> u == round_to_odd(
        x * mantissa_value(pm),
        128 + s,
    )
}

/// When the bits that the shift drops from the high word are not all zero, the scaled value
/// is exact: it is `x · (hi · 2^64 - lo) / 2^(128 + s)` in unrounded form.
pub proof fn lemma_uscale_inexact(x: u64, hi: u64, lo: u64, s: nat)
    requires
        s <= 63,
        ((x * hi) / two64()) % (pow2(s) as int) != 0,
    ensures
        uscale_spec(x as int, hi as int, lo as int, s) == round_to_odd(
            x * (hi * two64() - lo),
            128 + s,
        ),
        (x * (hi * two64() - lo)) % (pow2(128 + s) as int) != 0,
{
    reveal(uscale_spec);
    let t = two64();
    let ps = pow2(s) as int;
    let p128 = pow2(128) as int;
    lemma_pow2_pos(s);
    lemma2_to64();
    lemma_pow2_adds(64, 64);
    assert(pow2(64) == t);
    assert(p128 == t * t);
    lemma_pow2_adds(128, s);
    let k = pow2(128 + s) as int;
    assert(k == p128 * ps);
    let prod = x * hi;
    let top = prod / t;
    let mid = prod % t;
    lemma_fundamental_div_mod(prod, t);
    let q = top / ps;
    let r = top % ps;
    lemma_fundamental_div_mod(top, ps);
    assert(1 <= r < ps);
    let xl = x * lo;
    assert(0 <= xl < p128) by {
        lemma_mul_strict_inequality(lo as int, t, x as int);
        lemma_mul_inequality(x as int, t, t);
        lemma_mul_is_commutative(lo as int, x as int);
        lemma_mul_is_commutative(x as int, t);
    }
    let w = x * (hi * t - lo);
    let rr = r * p128 + mid * t - xl;
    assert(w == q * k + rr) by (nonlinear_arith)
        requires
            w == x * (hi * t - lo),
            prod == x * hi,
            xl == x * lo,
            prod == t * top + mid,
            top == ps * q + r,
            k == p128 * ps,
            p128 == t * t,
            rr == r * p128 + mid * t - xl,
    ;
    assert(0 < rr < k) by (nonlinear_arith)
        requires
            1 <= r < ps,
            0 <= mid < t,
            0 <= xl < p128,
            rr == r * p128 + mid * t - xl,
            k == p128 * ps,
            p128 == t * t,
            t > 0,
    ;
    lemma_fundamental_div_mod_converse(w, k, q, rr);
}

/// Returns the full product of `x` and `y` as its high and low words.
pub fn mul64(x: u64, y: u64) -> (r: (u64, u64))
    ensures
        r.0 * two64() + r.1 == x * y,
        r.0 == (x * y) / two64(),
        r.1 == (x * y) % two64(),
{
    proof {
        vstd::arithmetic::mul::lemma_mul_upper_bound(x as int, u64::MAX as int, y as int, u64::MAX as int);
    }
    let product = (x as u128) * (y as u128);
    proof {
        assert(product >> 64u128 == product / 0x1_0000_0000_0000_0000u128) by (bit_vector);
        assert(product as u64 == product % 0x1_0000_0000_0000_0000u128) by (bit_vector);
    }
    ((product >> 64) as u64, product as u64)
}

/// Returns the scaling constants for the binary exponent `e` and the decimal exponent `p`;
/// `lp` must be `log2_pow10(p)`.
pub fn prescale(e: i64, p: i64, lp: i64) -> (r: Scaler)
    requires
        POW10_MIN <= p <= POW10_MAX,
        -2000 <= e <= 2000,
        -2000 <= lp <= 2000,
    ensures
        r.pm.hi == POW10_TAB@[p - POW10_MIN].0,
        r.pm.lo == POW10_TAB@[p - POW10_MIN].1,
        r.s == -(e + lp + 3),
{
    let (hi, lo) = POW10_TAB[(p - POW10_MIN) as usize];
    Scaler { pm: PmHiLo { hi, lo }, s: -(e + lp + 3) }
}

/// Returns the unrounded value of `x · 2^e · 10^p` for the scaler `c` that `prescale` gave for
/// `e` and `p`.
pub fn uscale(x: u64, c: Scaler) -> (r: Unrounded)
    requires
        0 <= c.s <= 63,
        x * c.pm.hi >= two64(),
    ensures
        r.0 == uscale_spec(x as int, c.pm.hi as int, c.pm.lo as int, c.s as nat),
        exact_when_lossy(x as int, c.pm, c.s as nat, r.0 as int),
{
    proof {
        reveal(exact_when_lossy);
        if ((x * c.pm.hi) / two64()) % (pow2(c.s as nat) as int) != 0 {
            lemma_uscale_inexact(x, c.pm.hi, c.pm.lo, c.s as nat);
        }
    }
    let (mut hi, mid) = mul64(x, c.pm.hi);
    let mut sticky = 1u64;
    let sh = (c.s & 63) as u64;
    proof {
        reveal(uscale_spec);
        let s = c.s;
        assert(s & 63 == s) by (bit_vector)
            requires
                0 <= s <= 63,
        ;
        lemma_u64_low_bits_mask_is_mod(hi, sh as nat);
        lemma_u64_pow2_no_overflow(sh as nat);
        lemma_u64_shl_is_mul(1, sh);
        lemma_low_bits_mask_values();
        assert(low_bits_mask(sh as nat) == pow2(sh as nat) - 1) by {
            reveal(low_bits_mask);
        }
        lemma_u64_shr_is_div(hi, sh);
        lemma_pow2_pos(sh as nat);
    }
    let top = hi;
    if (hi & ((1 << sh) - 1)) == 0 {
        let (mid2, _) = mul64(x, c.pm.lo);
        sticky = bool2(mid.wrapping_sub(mid2) > 1);
        hi -= bool2(mid < mid2);
        proof {
            lemma_u64_shr_is_div(hi, sh);
        }
    }
    let q = hi >> sh;
    proof {
        assert(q | 1u64 == if q % 2 == 0 { (q + 1) as u64 } else { q }) by (bit_vector);
        assert(q | 0u64 == q) by (bit_vector);
    }
    Unrounded(q | sticky)
}

} // verus!
