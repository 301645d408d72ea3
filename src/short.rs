use crate::logs::{
    log10_pow2,
    log10_pow2_spec,
    log2_pow10,
    log2_pow10_spec,
    skewed,
    skewed_spec,
};
use crate::pow10::{lemma_pow10_entry_normalized, lemma_pow10_entry_tight, POW10_MAX, POW10_MIN, POW10_TAB};
use crate::scale::{prescale, two64, uscale, uscale_spec, Scaler};
use crate::trim::trim_zeros;
use crate::unrounded::{ceil_spec, floor_spec, round_spec};
use vstd::arithmetic::div_mod::*;
use vstd::arithmetic::mul::*;
use vstd::arithmetic::power2::*;
use vstd::bits::*;
use vstd::prelude::*;
use vstd::std_specs::bits::*;

verus! {

/// Number of bits below the 53-bit significand in a left-justified 64-bit mantissa.
pub const SHIFT: u64 = 64 - 53;

/// Binary exponent given to the smallest subnormal before normalization: -(1074 + 11).
pub const MIN_EXP: i64 = -1085;

/// The 52-bit fraction field of the binary64 encoding `b`.
pub open spec fn frac_field(b: u64) -> int {
    b as int % 0x10_0000_0000_0000
}

/// The 11-bit biased exponent field of the binary64 encoding `b`.
pub open spec fn exp_field(b: u64) -> int {
    (b as int / 0x10_0000_0000_0000) % 2048
}

/// `b` encodes a finite value: neither an infinity nor a NaN.
pub open spec fn is_finite_bits(b: u64) -> bool {
    exp_field(b) != 2047
}

/// `b` encodes +0.0 or -0.0.
pub open spec fn is_zero_bits(b: u64) -> bool {
    exp_field(b) == 0 && frac_field(b) == 0
}

/// `b` has its sign bit set.
pub open spec fn is_negative_bits(b: u64) -> bool {
    b >= 0x8000_0000_0000_0000u64
}

/// The integer significand of the value that `b` encodes.
pub open spec fn significand(b: u64) -> int {
    if exp_field(b) == 0 {
        frac_field(b)
    } else {
        frac_field(b) + 0x10_0000_0000_0000
    }
}

/// The binary exponent of the value that `b` encodes: its magnitude is
/// `significand(b) · 2^binary_exponent(b)`.
pub open spec fn binary_exponent(b: u64) -> int {
    if exp_field(b) == 0 {
        -1074
    } else {
        exp_field(b) - 1075
    }
}

/// How far `unpack64` shifts the significand of `b` to the left.
pub open spec fn norm_shift(b: u64) -> int {
    if exp_field(b) == 0 {
        11 + u64_leading_zeros((frac_field(b) * 2048) as u64)
    } else {
        11
    }
}

/// The left-justified mantissa of `b` and its binary exponent.
pub open spec fn unpacked(b: u64) -> (int, int) {
    (
        significand(b) * pow2(norm_shift(b) as nat) as int,
        binary_exponent(b) - norm_shift(b),
    )
}

/// Returns `(m, e)` with `m` the significand of `b` shifted left until its top bit is set, and
/// `e` the binary exponent that goes with it: the magnitude of `b` is `m · 2^e`.
pub fn unpack64(b: u64) -> (r: (u64, i64))
    requires
        is_finite_bits(b),
        !is_zero_bits(b),
    ensures
        r.0 >= 0x8000_0000_0000_0000u64,
        11 <= binary_exponent(b) - r.1 <= 63,
        r.0 == significand(b) * pow2((binary_exponent(b) - r.1) as nat),
        exp_field(b) != 0 ==> r.1 == binary_exponent(b) - 11,
        exp_field(b) == 0 ==> r.1 <= MIN_EXP,
        (r.0 as int, r.1 as int) == unpacked(b),
{
    proof {
        assert(1u64 << 52u64 == 0x10_0000_0000_0000u64) by (bit_vector);
        assert(1u64 << 11u64 == 2048u64) by (bit_vector);
        assert(1u64 << 63u64 == 0x8000_0000_0000_0000u64) by (bit_vector);
        assert((1u64 << 11u64) - 1 == 0x7ff);
    }
    let frac = b & ((1u64 << 52u64) - 1);
    let mut m: u64 = (1u64 << 63u64) | (frac << SHIFT);
    let mut e = ((b >> 52u64) & ((1u64 << SHIFT) - 1)) as i64;
    proof {
        assert(b & 0xf_ffff_ffff_ffffu64 == b % 0x10_0000_0000_0000) by (bit_vector);
        assert((b >> 52u64) & 0x7ffu64 == (b / 0x10_0000_0000_0000) % 2048) by (bit_vector);
        assert((1u64 << 63u64) | ((frac) << 11u64) == (frac << 11u64) + 0x8000_0000_0000_0000u64)
            by (bit_vector)
            requires
                frac == b & 0xf_ffff_ffff_ffffu64,
        ;
        lemma2_to64();
        lemma_u64_shl_is_mul(frac, 11);
    }
    assert(m == frac * 2048 + 0x8000_0000_0000_0000u64);
    if e == 0 {
        m &= !(1 << 63);
        assert(m == frac * 2048) by {
            let m0: u64 = ((frac << 11u64) + 0x8000_0000_0000_0000u64) as u64;
            assert((m0 & !(1u64 << 63u64)) == frac << 11u64) by (bit_vector)
                requires
                    frac == b & 0xf_ffff_ffff_ffffu64,
                    m0 == ((frac << 11u64) + 0x8000_0000_0000_0000u64) as u64,
                    frac << 11u64 < 0x8000_0000_0000_0000u64,
            ;
        }
        e = MIN_EXP;
        let s = m.leading_zeros();
        proof {
            axiom_u64_leading_zeros(m);
            let m1 = m;
            let sh = s as u64;
            assert(m1 != 0);
            assert(1 <= sh <= 52) by (bit_vector)
                requires
                    m1 >> ((64 - sh) as u64) == 0 || sh == 0,
                    (m1 >> ((63 - sh) as u64)) & 1u64 != 0u64 || sh == 64,
                    m1 < 0x8000_0000_0000_0000u64,
                    m1 >= 2048,
                    sh <= 64,
            ;
            lemma_u64_shr_is_div(m1, (64 - sh) as u64);
            lemma_u64_shr_is_div(m1, (63 - sh) as u64);
            lemma_pow2_pos((64 - sh) as nat);
            lemma_pow2_pos((63 - sh) as nat);
            assert(m1 >> ((63 - sh) as u64) >= 1) by (bit_vector)
                requires
                    (m1 >> ((63 - sh) as u64)) & 1u64 != 0u64,
            ;
            lemma_fundamental_div_mod(m1 as int, pow2((64 - sh) as nat) as int);
            lemma_fundamental_div_mod(m1 as int, pow2((63 - sh) as nat) as int);
            assert(m1 < pow2((64 - sh) as nat));
            lemma_mul_inequality(1, m1 as int / pow2((63 - sh) as nat) as int, pow2((63 - sh) as nat) as int);
            assert(m1 >= pow2((63 - sh) as nat));
            lemma_pow2_adds((64 - sh) as nat, sh as nat);
            lemma_pow2_adds((63 - sh) as nat, sh as nat);
            lemma_mul_strict_inequality(m1 as int, pow2((64 - sh) as nat) as int, pow2(sh as nat) as int);
            lemma_mul_inequality(pow2((63 - sh) as nat) as int, m1 as int, pow2(sh as nat) as int);
            lemma2_to64_rest();
            assert(pow2(64) == 0x1_0000_0000_0000_0000int);
            assert(pow2(63) == 0x8000_0000_0000_0000int);
            assert(m1 * pow2(sh as nat) < pow2(64));
            lemma_u64_shl_is_mul(m1, sh);
            assert(m1 << sh >= 0x8000_0000_0000_0000u64);
            lemma_pow2_adds(11, sh as nat);
            lemma_mul_is_associative(frac as int, pow2(11) as int, pow2(sh as nat) as int);
            assert((m1 << sh) == frac * pow2((11 + sh) as nat));
        }
        return (m << s, e - s as i64);
    }
    proof {
        assert(pow2(11) == 2048);
        assert(binary_exponent(b) - ((e - 1) + MIN_EXP) == 11);
        assert(m == (frac + 0x10_0000_0000_0000) * 2048);
    }
    (m, (e - 1) + MIN_EXP)
}

/// `x · 10^q` with the trailing zeros of `x` moved into the exponent.
pub open spec fn strip_zeros(x: nat, q: int) -> (int, int)
    decreases x,
{
    if x > 0 && x % 10 == 0 {
        strip_zeros(x / 10, q + 1)
    } else {
        (x as int, q)
    }
}

/// For the mantissa `m` and exponent `e`: the negated decimal exponent `p` of the scaling, the
/// number `z` of bits below the unit in the last place of `m`, and the mantissas of the lower
/// and upper ends of the interval of values that round to `m · 2^e`.
pub open spec fn scaling(m: int, e: int) -> (int, int, int, int) {
    if m == 0x8000_0000_0000_0000int && e > MIN_EXP {
        (-skewed_spec(e + 11), 11, m - 512, m + 1024)
    } else {
        let z = if e < MIN_EXP {
            11 + (MIN_EXP - e)
        } else {
            11
        };
        (
            -log10_pow2_spec(e + z),
            z,
            m - pow2((z - 1) as nat) as int,
            m + pow2((z - 1) as nat) as int,
        )
    }
}

/// The shift that `prescale` gives for the exponents `e` and `p`.
pub open spec fn scale_shift(e: int, p: int) -> int {
    -(e + log2_pow10_spec(p) + 3)
}

/// The unrounded value of `x · 2^e · 10^p`, as `uscale` computes it from the table.
pub open spec fn scaled(x: int, e: int, p: int) -> int {
    let entry = POW10_TAB@[p - POW10_MIN];
    uscale_spec(x, entry.0 as int, entry.1 as int, scale_shift(e, p) as nat)
}

/// The least and the greatest decimal mantissas at the scale `10^-p` whose values round to
/// `m · 2^e`; ties at the ends go to the even mantissa.
#[verifier::opaque]
pub open spec fn digit_interval(m: int, e: int) -> (int, int) {
    let (p, z, lo, hi) = scaling(m, e);
    let odd = (m / pow2(z as nat) as int) % 2;
    (ceil_spec(scaled(lo, e, p) + odd), floor_spec(scaled(hi, e, p) - odd))
}

/// The selection between the ends `dmin`, `dmax` of the digit interval at the scale `10^-p`
/// and the rounded mantissa `mid`.
pub open spec fn select_spec(dmin: int, dmax: int, p: int, mid: int) -> (int, int) {
    if (dmax / 10) * 10 >= dmin {
        strip_zeros((dmax / 10) as nat, 1 - p)
    } else if dmin < dmax {
        (mid, -p)
    } else {
        (dmin, -p)
    }
}

/// The decimal mantissa and exponent chosen for `m · 2^e`: one digit less than the scale
/// when a multiple of ten lies in the interval, with its trailing zeros removed; else the
/// lower end if the interval holds one mantissa, else `m · 2^e` rounded at the scale.
#[verifier::opaque]
pub open spec fn short_of(m: int, e: int) -> (int, int) {
    let (p, z, lo, hi) = scaling(m, e);
    let (dmin, dmax) = digit_interval(m, e);
    select_spec(dmin, dmax, p, round_spec(scaled(m, e, p)))
}

/// Unless `m · 2^e` had to be rounded at the scale, or the interval is empty, the chosen
/// mantissa `d` does not end in a zero.
pub open spec fn no_trailing_zero_when_chosen(m: int, e: int, d: int) -> bool {
    let (dmin, dmax) = digit_interval(m, e);
    ((dmax / 10) * 10 >= dmin || dmin == dmax) ==> d % 10 != 0
}

/// The shortest decimal `d · 10^q` that `short` gives for the finite non-zero value `b`.
pub open spec fn short_spec(b: u64) -> (int, int) {
    short_of(unpacked(b).0, unpacked(b).1)
}

/// The decimal exponents that the two estimates give stay in the table, and the shift that
/// follows stays close to the number of spare bits.
proof fn lemma_log_ranges(x: int)
    requires
        -1074 <= x <= 971,
    ensures
        POW10_MIN <= -log10_pow2_spec(x) <= POW10_MAX,
        -1 <= x + log2_pow10_spec(-log10_pow2_spec(x)) <= 3,
        x >= -1073 ==> POW10_MIN <= -skewed_spec(x) <= POW10_MAX,
        x >= -1073 ==> -1 <= x + log2_pow10_spec(-skewed_spec(x)) <= 3,
{
}

/// Bounds on the unrounded product of a mantissa of at least 2^62 and a normalized table
/// entry.
proof fn lemma_uscale_bounds(x: int, hi: int, lo: int, s: nat)
    requires
        0x4000_0000_0000_0000int <= x < 0x1_0000_0000_0000_0000int,
        0x8000_0000_0000_0000int <= hi < 0x1_0000_0000_0000_0000int,
        0 <= lo < 0x1_0000_0000_0000_0000int,
        5 <= s <= 58,
    ensures
        7 <= uscale_spec(x, hi, lo, s) <= 0x800_0000_0000_0000int,
{
    reveal(uscale_spec);
    let t = two64();
    let top = (x * hi) / t;
    lemma_mul_inequality(0x4000_0000_0000_0000int, x, hi);
    lemma_mul_inequality(0x8000_0000_0000_0000int, hi, 0x4000_0000_0000_0000int);
    lemma_mul_is_commutative(x, hi);
    lemma_mul_strict_inequality(x, t, hi);
    lemma_mul_strict_inequality(hi, t, t);
    lemma_mul_is_commutative(hi, t);
    assert(x * hi < t * t);
    lemma_div_is_ordered(0x2000_0000_0000_0000_0000_0000_0000_0000int, x * hi, t);
    lemma_div_by_multiple_is_strongly_ordered(x * hi, t * t, t, t);
    lemma_div_multiples_vanish(t, t);
    assert(0x2000_0000_0000_0000int <= top < t);
    lemma_pow2_pos(s);
    lemma2_to64();
    lemma_pow2_strictly_increases(s, 59);
    lemma_pow2_adds((64 - s) as nat, s);
    lemma_pow2_subtracts(5, s);
    let ps = pow2(s) as int;
    assert(ps >= 32) by {
        if s > 5 {
            lemma_pow2_strictly_increases(5, s);
        }
    }
    assert(ps <= 0x400_0000_0000_0000int) by {
        lemma2_to64_rest();
        if s < 58 {
            lemma_pow2_strictly_increases(s, 58);
        }
    }
    assert((top - 1) / ps >= 7) by {
        lemma_div_is_ordered(0x1c00_0000_0000_0000int, top - 1, ps);
        lemma_div_is_ordered_by_denominator(0x1c00_0000_0000_0000int, ps, 0x400_0000_0000_0000int);
    }
    assert(top / ps < 0x800_0000_0000_0000int) by {
        lemma_div_is_ordered_by_denominator(top, 32, ps);
        lemma_div_is_ordered(top, t - 1, 32);
    }
    lemma_div_is_ordered(top - 1, top, ps);
}

/// The unrounded product is at most `5/16 · 2^60 + 1` when the shift is at least six bits, or
/// when the product of the mantissa and the high word is below `5/8 · 2^128`.
proof fn lemma_scaled_small(x: int, hi: int, lo: int, s: nat)
    requires
        0 <= x < 0x1_0000_0000_0000_0000int,
        0 <= hi < 0x1_0000_0000_0000_0000int,
        0 <= lo < 0x1_0000_0000_0000_0000int,
        5 <= s <= 63,
        s >= 6 || x * hi < 0xa000_0000_0000_0000int * 0x1_0000_0000_0000_0000int,
    ensures
        uscale_spec(x, hi, lo, s) <= 0x500_0000_0000_0001int,
{
    reveal(uscale_spec);
    let t = two64();
    let top = (x * hi) / t;
    assert(x * hi < t * t) by (nonlinear_arith)
        requires
            0 <= x < t,
            0 <= hi < t,
    ;
    lemma_div_by_multiple_is_strongly_ordered(x * hi, t * t, t, t);
    lemma_div_multiples_vanish(t, t);
    assert(0 <= top < t) by {
        lemma_div_pos_is_pos(x * hi, t);
    }
    lemma_pow2_pos(s);
    lemma2_to64();
    let ps = pow2(s) as int;
    if s >= 6 {
        if s > 6 {
            lemma_pow2_strictly_increases(6, s);
        }
        lemma_div_is_ordered_by_denominator(top, 64, ps);
        lemma_div_is_ordered(top, t - 1, 64);
    } else {
        lemma_div_by_multiple_is_strongly_ordered(x * hi, 0xa000_0000_0000_0000int * t, 0xa000_0000_0000_0000int, t);
        lemma_div_multiples_vanish(0xa000_0000_0000_0000int, t);
        lemma_mul_is_commutative(0xa000_0000_0000_0000int, t);
        assert(top < 0xa000_0000_0000_0000int);
        lemma_div_is_ordered(top, 0x9fff_ffff_ffff_ffffint, 32);
    }
    assert(top / ps <= 0x500_0000_0000_0000int);
    lemma_div_is_ordered(top - 1, top, ps);
}

/// Bounds on the three scaled ends: the products reach 2^64, and the unrounded values
/// lie between 7 and `5/16 · 2^60 + 1`.
proof fn lemma_scale_facts(min: int, m: int, max: int, p: int, s: nat, skew: bool)
    requires
        0x4000_0000_0000_0000int <= min <= m < max < 0x1_0000_0000_0000_0000int,
        skew ==> max <= 0x8000_0000_0000_0400int,
        POW10_MIN <= p <= POW10_MAX,
        5 <= s <= 58,
        s == 5 && !skew ==> -log10_pow2_spec(3 - log2_pow10_spec(p)) == p,
    ensures
        ({
            let entry = POW10_TAB@[p - POW10_MIN];
            let h = entry.0 as int;
            let l = entry.1 as int;
            &&& min * h >= two64()
            &&& 7 <= uscale_spec(min, h, l, s) <= 0x500_0000_0000_0001int
            &&& 7 <= uscale_spec(m, h, l, s) <= 0x500_0000_0000_0001int
            &&& 7 <= uscale_spec(max, h, l, s) <= 0x500_0000_0000_0001int
        }),
{
    let entry = POW10_TAB@[p - POW10_MIN];
    let h = entry.0 as int;
    let l = entry.1 as int;
    lemma_pow10_entry_normalized(p - POW10_MIN);
    lemma_uscale_bounds(min, h, l, s);
    lemma_uscale_bounds(max, h, l, s);
    lemma_uscale_bounds(m, h, l, s);
    let big = 0xa000_0000_0000_0000int;
    let t = 0x1_0000_0000_0000_0000int;
    if s == 5 {
        if !skew {
            lemma_pow10_entry_tight(p - POW10_MIN);
            assert(h < big);
            assert forall|y: int| 0 <= y < t implies #[trigger] (y * h) < big * t by {
                assert(y * h < big * t) by (nonlinear_arith)
                    requires
                        0 <= y < t,
                        0 <= h < big,
                ;
            }
        } else {
            assert forall|y: int| 0 <= y <= max implies #[trigger] (y * h) < big * t by {
                assert(y * h < big * t) by (nonlinear_arith)
                    requires
                        0 <= y < big,
                        0 <= h < t,
                ;
            }
        }
        assert(min * h < big * t);
        assert(max * h < big * t);
        assert(m * h < big * t);
    }
    lemma_scaled_small(min, h, l, s);
    lemma_scaled_small(max, h, l, s);
    lemma_scaled_small(m, h, l, s);
    lemma_mul_inequality(0x4000_0000_0000_0000int, min, h);
    lemma_mul_inequality(0x8000_0000_0000_0000int, h, 0x4000_0000_0000_0000int);
}

/// `strip_zeros` finds the mantissa without trailing zeros.
proof fn lemma_strip_zeros(x: nat, q: int, y: nat, k: nat)
    requires
        y * crate::math::pow10(k) == x,
        y % 10 != 0,
    ensures
        strip_zeros(x, q) == (y as int, q + k),
    decreases k,
{
    if k == 0 {
        assert(crate::math::pow10(0) == 1);
        lemma_mul_basics(y as int);
        assert(y == x);
    } else {
        let w = y * crate::math::pow10((k - 1) as nat);
        assert(x == w * 10) by {
            lemma_mul_is_associative(y as int, crate::math::pow10((k - 1) as nat) as int, 10);
            lemma_mul_is_commutative(crate::math::pow10((k - 1) as nat) as int, 10);
        }
        assert(y > 0);
        crate::math::lemma_pow10_pos((k - 1) as nat);
        lemma_mul_inequality(1, y as int, crate::math::pow10((k - 1) as nat) as int);
        lemma_mod_multiples_basic(w as int, 10);
        lemma_div_multiples_vanish(w as int, 10);
        lemma_mul_is_commutative(w as int, 10);
        lemma_strip_zeros(w, q + 1, y, (k - 1) as nat);
        assert(x > 0 && x % 10 == 0);
        assert(x / 10 == w);
        assert(strip_zeros(x, q) == strip_zeros(w, q + 1));
    }
}

/// A multiple of `2^z` below `2^64` leaves room for half a unit of `2^z` above it.
proof fn lemma_room_above(m: int, sig: int, z: nat)
    requires
        1 <= z <= 63,
        m == sig * pow2(z) as int,
        0 <= m < 0x1_0000_0000_0000_0000int,
    ensures
        m + pow2((z - 1) as nat) < 0x1_0000_0000_0000_0000int,
        m % pow2(z) as int == 0,
{
    lemma_pow2_pos(z);
    lemma2_to64_rest();
    lemma_pow2_adds((64 - z) as nat, z);
    let t = pow2((64 - z) as nat) as int;
    let pz = pow2(z) as int;
    assert(t * pz == 0x1_0000_0000_0000_0000int);
    if sig >= t {
        lemma_mul_inequality(t, sig, pz);
    }
    assert(sig <= t - 1);
    lemma_mul_inequality(sig, t - 1, pz);
    lemma_mul_is_distributive_sub_other_way(pz, t, 1);
    lemma_pow2_adds((z - 1) as nat, 1);
    assert(pow2(1) == 2) by {
        lemma2_to64();
    }
    lemma_mod_multiples_basic(sig, pz);
}

/// Computes the shortest decimal `d · 10^q` that rounds back to the finite non-zero value
/// `b`, and returns `(d, q)`.
#[verifier::rlimit(50)]
pub fn short(b: u64) -> (r: (u64, i64))
    requires
        is_finite_bits(b),
        !is_zero_bits(b),
    ensures
        (r.0 as int, r.1 as int) == short_spec(b),
        1 <= r.0 <= 0x140_0000_0000_0001u64,
        -400 <= r.1 <= 400,
        no_trailing_zero_when_chosen(unpacked(b).0, unpacked(b).1, r.0 as int),
{
    let (m, e) = unpack64(b);
    let ghost zb = binary_exponent(b) - e;
    proof {
        assert(1u64 << 63u64 == 0x8000_0000_0000_0000u64) by (bit_vector);
        lemma_room_above(m as int, significand(b), zb as nat);
    }

    let p: i64;
    let min: u64;
    let mut z: i64 = 11;  // extra zero bits at bottom of m; 11 for 53-bit m
    if m == 1u64 << 63u64 && e > MIN_EXP {
        proof {
            lemma_log_ranges(e + 11);
            assert(1u64 << 9u64 == 512u64) by (bit_vector);
            assert(1u64 << 10u64 == 1024u64) by (bit_vector);
        }
        p = -skewed(e + z);
        min = m - (1u64 << ((z - 2) as u64));  // min = m - 1/4 * 2**(e+z)
    } else {
        if e < MIN_EXP {
            z = 11 + (MIN_EXP - e);
        }
        proof {
            lemma_log_ranges(e + z);
            lemma_u64_shl_is_mul(1, (z - 1) as u64);
            lemma2_to64_rest();
            if z - 1 < 62 {
                lemma_pow2_strictly_increases((z - 1) as nat, 62);
            }
            assert(pow2((z - 1) as nat) <= 0x4000_0000_0000_0000int);
        }
        p = -log10_pow2(e + z);
        min = m - (1u64 << ((z - 1) as u64));  // min = m - 1/2 * 2**(e+z)
    }
    assert(z == zb);
    proof {
        lemma_u64_shl_is_mul(1, (z - 1) as u64);
        lemma_u64_shr_is_div(m, z as u64);
    }
    let max = m + (1u64 << ((z - 1) as u64));  // max = m + 1/2 * 2**(e+z)
    proof {
        let q = m >> (z as u64);
        assert(q & 1u64 == q % 2) by (bit_vector);
    }
    let odd = ((m >> (z as u64)) & 1) as i64;

    let lp = log2_pow10(p);
    let pre = prescale(e, p, lp);
    let ghost s = pre.s as nat;
    proof {
        assert(0 <= p - POW10_MIN < 617);
        assert(5 <= pre.s <= 58);
        let skew = m == 0x8000_0000_0000_0000u64 && e > MIN_EXP;
        lemma_pow2_pos((z - 1) as nat);
        assert(min < m && m < max);
        assert(s == 5 && !skew ==> -log10_pow2_spec(3 - log2_pow10_spec(p as int)) == p);
        lemma_scale_facts(min as int, m as int, max as int, p as int, s, skew);
    }
    proof {
        let h = pre.pm.hi as int;
        lemma_mul_inequality(min as int, m as int, h);
        lemma_mul_inequality(min as int, max as int, h);
    }
    let umin = uscale(min, pre);
    let umax = uscale(max, pre);
    let dmin = umin.nudge(odd).ceil();
    let dmax = umax.nudge(-odd).floor();
    let ghost (gp, gz, glo, ghi) = scaling(m as int, e as int);
    assert(gz == z);
    assert(gp == p);
    assert(glo == min);
    assert(ghi == max);
    assert((dmin as int, dmax as int) == digit_interval(m as int, e as int)) by {
        reveal(digit_interval);
    }

    let r = select(dmin, dmax, p, m, pre);
    proof {
        reveal(short_of);
    }
    r
}

/// Picks the digits from the digit interval `[dmin, dmax]` at the scale `10^-p`: one digit
/// less when a multiple of ten lies in the interval, else `dmin`, or `m` rounded when the
/// interval holds more than one mantissa.
fn select(dmin: u64, dmax: u64, p: i64, m: u64, pre: Scaler) -> (r: (u64, i64))
    requires
        2 <= dmin <= 0x140_0000_0000_0001u64,
        1 <= dmax <= 0x140_0000_0000_0001u64,
        POW10_MIN <= p <= POW10_MAX,
        0 <= pre.s <= 63,
        m * pre.pm.hi >= two64(),
        4 <= uscale_spec(m as int, pre.pm.hi as int, pre.pm.lo as int, pre.s as nat)
            <= 0x500_0000_0000_0001int,
    ensures
        (r.0 as int, r.1 as int) == select_spec(
            dmin as int,
            dmax as int,
            p as int,
            round_spec(uscale_spec(m as int, pre.pm.hi as int, pre.pm.lo as int, pre.s as nat)),
        ),
        1 <= r.0 <= 0x140_0000_0000_0001u64,
        -400 <= r.1 <= 400,
        ((dmax / 10) * 10 >= dmin || dmin == dmax) ==> r.0 % 10 != 0,
{
    let mut d = dmax / 10;
    if d * 10 >= dmin {
        proof {
            crate::math::lemma_pow10_values();
        }
        let r = trim_zeros(d, -(p - 1));
        proof {
            lemma_strip_zeros(d as nat, 1 - p, r.0 as nat, (r.1 - (1 - p)) as nat);
            if r.0 == 0 {
                assert(r.0 * crate::math::pow10((r.1 - (1 - p)) as nat) == 0);
            }
            crate::math::lemma_pow10_pos((r.1 - (1 - p)) as nat);
            lemma_mul_inequality(1, crate::math::pow10((r.1 - (1 - p)) as nat) as int, r.0 as int);
            lemma_mul_is_commutative(r.0 as int, crate::math::pow10((r.1 - (1 - p)) as nat) as int);
        }
        return r;
    }
    d = dmin;
    if d < dmax {
        d = uscale(m, pre).round();
    }
    (d, -p)
}

} // verus!
