use crate::logs::{log10_pow2, log10_pow2_spec};
use crate::math::{
    decimal_digits,
    digit_at,
    lemma_digit_ascii,
    lemma_digit_of_mod,
    lemma_digit_shift,
    lemma_digit_zero,
    lemma_div_pow10_adds,
    lemma_num_digits_bounds,
    lemma_pow10_adds,
    lemma_pow10_pos,
    lemma_pow10_values,
    lemma_two_digits,
    num_digits,
    pow10,
};
use vstd::arithmetic::div_mod::*;
use vstd::arithmetic::mul::*;
use vstd::arithmetic::power2::*;
use vstd::bits::*;
use vstd::prelude::*;
use vstd::std_specs::bits::*;

verus! {

/// The two-digit renderings of 00 to 99, concatenated.
pub const I2A: [u8; 200] = [
    48, 48, 48, 49, 48, 50, 48, 51, 48, 52, 48, 53, 48, 54, 48, 55, 48, 56, 48, 57,
    49, 48, 49, 49, 49, 50, 49, 51, 49, 52, 49, 53, 49, 54, 49, 55, 49, 56, 49, 57,
    50, 48, 50, 49, 50, 50, 50, 51, 50, 52, 50, 53, 50, 54, 50, 55, 50, 56, 50, 57,
    51, 48, 51, 49, 51, 50, 51, 51, 51, 52, 51, 53, 51, 54, 51, 55, 51, 56, 51, 57,
    52, 48, 52, 49, 52, 50, 52, 51, 52, 52, 52, 53, 52, 54, 52, 55, 52, 56, 52, 57,
    53, 48, 53, 49, 53, 50, 53, 51, 53, 52, 53, 53, 53, 54, 53, 55, 53, 56, 53, 57,
    54, 48, 54, 49, 54, 50, 54, 51, 54, 52, 54, 53, 54, 54, 54, 55, 54, 56, 54, 57,
    55, 48, 55, 49, 55, 50, 55, 51, 55, 52, 55, 53, 55, 54, 55, 55, 55, 56, 55, 57,
    56, 48, 56, 49, 56, 50, 56, 51, 56, 52, 56, 53, 56, 54, 56, 55, 56, 56, 56, 57,
    57, 48, 57, 49, 57, 50, 57, 51, 57, 52, 57, 53, 57, 54, 57, 55, 57, 56, 57, 57,
];

/// `U64_POW10[k]` is 10^k.
pub const U64_POW10: [u64; 20] = [
    1,
    10,
    100,
    1000,
    10000,
    100000,
    1000000,
    10000000,
    100000000,
    1000000000,
    10000000000,
    100000000000,
    1000000000000,
    10000000000000,
    100000000000000,
    1000000000000000,
    10000000000000000,
    100000000000000000,
    1000000000000000000,
    10000000000000000000,
];

/// Each pair of `I2A` spells its index in two decimal digits.
pub proof fn lemma_i2a(k: int)
    requires
        0 <= k < 100,
    ensures
        I2A@[2 * k] == 48 + k / 10,
        I2A@[2 * k + 1] == 48 + k % 10,
{
    assert(forall|i: int|
        0 <= i < 200 ==> #[trigger] I2A@[i] == 48 + if i % 2 == 0 {
            (i / 2) / 10
        } else {
            (i / 2) % 10
        });
}

/// The table holds the powers of ten.
pub proof fn lemma_u64_pow10()
    ensures
        forall|k: int| 0 <= k < 20 ==> #[trigger] U64_POW10@[k] as nat == pow10(k as nat),
{
    lemma_pow10_values();
}

/// The eight digits that a group of four pairs writes are the eight low digits of `v`.
proof fn lemma_group8(v: nat)
    ensures
        ({
            let x3210 = v % 100000000;
            let x32 = x3210 / 10000;
            let x10 = x3210 % 10000;
            &&& 48 + (x10 % 100) % 10 == digit_at(v, 0)
            &&& 48 + (x10 % 100) / 10 == digit_at(v, 1)
            &&& 48 + (x10 / 100) % 10 == digit_at(v, 2)
            &&& 48 + (x10 / 100) / 10 == digit_at(v, 3)
            &&& 48 + (x32 % 100) % 10 == digit_at(v, 4)
            &&& 48 + (x32 % 100) / 10 == digit_at(v, 5)
            &&& 48 + (x32 / 100) % 10 == digit_at(v, 6)
            &&& 48 + (x32 / 100) / 10 == digit_at(v, 7)
        }),
{
    lemma_pow10_values();
    let x3210 = v % 100000000;
    let x32 = x3210 / 10000;
    assert(x32 < 10000);
    assert forall|j: nat| j < 8 implies #[trigger] digit_at(x3210, j) == digit_at(v, j) by {
        lemma_digit_of_mod(v, 8, j);
    }
    assert forall|j: nat| j < 4 implies #[trigger] digit_at(x32, j) == digit_at(v, 4 + j) by {
        lemma_digit_shift(x3210, 4, j);
    }
    lemma_group4(x3210);
    lemma_group4(x32);
    assert(x32 % 10000 == x32);
    assert(x3210 % 10000 == v % 100000000 % 10000);
}

/// The four digits that two pairs write are the four low digits of `v`.
proof fn lemma_group4(v: nat)
    ensures
        ({
            let x10 = v % 10000;
            &&& 48 + (x10 % 100) % 10 == digit_at(v, 0)
            &&& 48 + (x10 % 100) / 10 == digit_at(v, 1)
            &&& 48 + (x10 / 100) % 10 == digit_at(v, 2)
            &&& 48 + (x10 / 100) / 10 == digit_at(v, 3)
        }),
{
    lemma_pow10_values();
    let x10 = v % 10000;
    assert forall|j: nat| j < 4 implies #[trigger] digit_at(x10, j) == digit_at(v, j) by {
        lemma_digit_of_mod(v, 4, j);
    }
    lemma_group2(x10);
    assert forall|j: nat| j < 2 implies #[trigger] digit_at(x10 / 100, j) == digit_at(x10, 2 + j) by {
        lemma_digit_shift(x10, 2, j);
    }
    lemma_two_digits(x10 / 100);
}

/// The two digits that one pair writes are the two low digits of `v`.
proof fn lemma_group2(v: nat)
    ensures
        48 + (v % 100) % 10 == digit_at(v, 0),
        48 + (v % 100) / 10 == digit_at(v, 1),
{
    lemma_pow10_values();
    lemma_digit_of_mod(v, 2, 0);
    lemma_digit_of_mod(v, 2, 1);
    lemma_two_digits(v % 100);
}

/// Length of the output buffer: a sign, up to 17 significand digits and a point, `e`, an
/// exponent sign and three exponent digits.
pub const BUF_LEN: usize = 24;

/// Writes the two digits of `k < 100` at `a[pos]` and `a[pos + 1]`, taken from `I2A`.
fn put_pair(a: &mut [u8; BUF_LEN], pos: usize, k: u32)
    requires
        pos + 1 < BUF_LEN,
        k < 100,
    ensures
        final(a)@ == old(a)@.update(pos as int, digit_at(k as nat, 1)).update(
            pos + 1,
            digit_at(k as nat, 0),
        ),
{
    proof {
        lemma_i2a(k as int);
        lemma_two_digits(k as nat);
    }
    a[pos] = I2A[(k * 2) as usize];
    a[pos + 1] = I2A[(k * 2) as usize + 1];
}

/// Writes the decimal digits of `u` into `a[start..end]`, right-aligned: position `end - 1`
/// receives the last digit, and the positions before the first digit of `u` receive `'0'`.
#[verifier::rlimit(100)]
pub fn format_base10(a: &mut [u8; BUF_LEN], start: usize, end: usize, u: u64)
    requires
        start <= end <= BUF_LEN,
        u < pow10((end - start) as nat),
    ensures
        forall|i: int|
            0 <= i < BUF_LEN && !(start <= i < end) ==> #[trigger] final(a)@[i] == old(a)@[i],
        forall|i: int|
            start <= i < end ==> #[trigger] final(a)@[i] == digit_at(u as nat, (end - 1 - i) as nat),
{
    let ghost u0 = u as nat;
    let ghost a0 = a@;
    let mut u = u;
    let mut nd: usize = end - start;
    proof {
        lemma_pow10_values();
        assert(u0 / pow10(0) == u0);
    }
    while nd >= 8
        invariant
            start <= end <= BUF_LEN,
            nd <= end - start,
            u as nat == u0 / pow10((end - start - nd) as nat),
            u < pow10(nd as nat),
            forall|i: int|
                0 <= i < BUF_LEN && !(start <= i < end) ==> #[trigger] a@[i] == a0[i],
            a0.len() == BUF_LEN,
            forall|i: int|
                start + nd <= i < end ==> #[trigger] a@[i] == digit_at(u0, (end - 1 - i) as nat),
        decreases nd,
    {
        // Format last 8 digits (4 pairs).
        let ghost v = u as nat;
        let ghost k = (end - start - nd) as nat;
        let ghost top = start + nd;
        proof {
            lemma_group8(v);
            lemma_pow10_small();
            lemma_digit_run(u0, k, v, 8);
        }
        let x3210 = (u % 100_000_000) as u32;
        u /= 100_000_000;
        let (x32, x10) = (x3210 / 10000, x3210 % 10000);
        assert(x3210 as nat == v % 100000000);
        put_pair(a, start + nd - 2, x10 % 100);
        put_pair(a, start + nd - 4, x10 / 100);
        put_pair(a, start + nd - 6, x32 % 100);
        put_pair(a, start + nd - 8, x32 / 100);
        nd -= 8;
        proof {
            lemma_two_digits((x10 % 100) as nat);
            lemma_two_digits((x10 / 100) as nat);
            lemma_two_digits((x32 % 100) as nat);
            lemma_two_digits((x32 / 100) as nat);
            assert(a@[top - 1] == digit_at(v, 0));
            assert(a@[top - 2] == digit_at(v, 1));
            assert(a@[top - 3] == digit_at(v, 2));
            assert(a@[top - 4] == digit_at(v, 3));
            assert(a@[top - 5] == digit_at(v, 4));
            assert(a@[top - 6] == digit_at(v, 5));
            assert(a@[top - 7] == digit_at(v, 6));
            assert(a@[top - 8] == digit_at(v, 7));
            assert forall|t: nat| t < 8 implies a@[top - 1 - t] == #[trigger] digit_at(v, t) by {
                assert(t == 0 || t == 1 || t == 2 || t == 3 || t == 4 || t == 5 || t == 6 || t == 7);
            }
            lemma_window_extend(a@, u0, v, start as int, end as int, nd as int, 8, k);
            lemma_div_pow10_adds(u0, k, 8);
            lemma_pow10_adds(nd as nat, 8);
            lemma_div_below_pow10(v, nd as nat, 8);
        }
    }
    let ghost k = (end - start - nd) as nat;
    let ghost v = u as nat;
    proof {
        lemma_digit_run(u0, k, v, nd as nat);
    }
    let mut x = u as u32;
    let ghost shift: nat = 0;
    assert(v < pow10(nd as nat));
    if nd >= 4 {
        // Format last 4 digits (2 pairs).
        let ghost w = x as nat;
        let ghost top = start + nd;
        proof {
            lemma_group4(w);
        }
        let x10 = x % 10000;
        x /= 10000;
        put_pair(a, start + nd - 2, x10 % 100);
        put_pair(a, start + nd - 4, x10 / 100);
        nd -= 4;
        proof {
            lemma_two_digits((x10 % 100) as nat);
            lemma_two_digits((x10 / 100) as nat);
            assert forall|t: nat| t < 4 implies a@[top - 1 - t] == #[trigger] digit_at(v, t) by {}
            lemma_window_extend(a@, u0, v, start as int, end as int, nd as int, 4, k);
            lemma_pow10_small();
            lemma_div_below_pow10(v, nd as nat, 4);
        }
        proof {
            shift = 4;
        }
    }
    // Here x holds v / 10^shift, and the digits below position shift of v are written.
    assert(x as nat == v / pow10(shift)) by {
        lemma_pow10_small();
    }
    if nd >= 2 {
        // Format last 2 digits.
        let ghost w = x as nat;
        let ghost top = start + nd;
        let ghost kk = k + shift;
        proof {
            lemma_group2(w);
            lemma_div_pow10_adds(u0, k, shift);
            lemma_digit_run(u0, kk, w, 2);
        }
        let x0 = x % 100;
        x /= 100;
        put_pair(a, start + nd - 2, x0);
        nd -= 2;
        proof {
            lemma_two_digits(x0 as nat);
            assert(a@[top - 1] == digit_at(w, 0));
            assert(a@[top - 2] == digit_at(w, 1));
            assert forall|t: nat| t < 2 implies a@[top - 1 - t] == #[trigger] digit_at(w, t) by {
                assert(t == 0 || t == 1);
            }
            lemma_window_extend(a@, u0, w, start as int, end as int, nd as int, 2, kk);
            lemma_pow10_small();
            lemma_div_pow10_adds(v, shift, 2);
            lemma_pow10_adds(shift, 2);
            lemma_div_below_pow10(w, nd as nat, 2);
        }
        proof {
            shift = shift + 2;
        }
    }
    assert(x < pow10(nd as nat));
    assert(x as nat == u0 / pow10(k + shift)) by {
        lemma_div_pow10_adds(u0, k, shift);
    }
    if nd > 0 {
        // Format final digit.
        proof {
            lemma_pow10_small();
            assert(pow10(1) == 10);
            lemma_digit_zero(x as nat);
            lemma_digit_shift(u0, k + shift, 0);
        }
        a[start] = 48 + x as u8;
    }
}

/// Extends a window of digits of `u0` by the `n` low digits of `v = u0 / 10^k`, written just
/// before it.
proof fn lemma_window_extend(
    a: Seq<u8>,
    u0: nat,
    v: nat,
    start: int,
    end: int,
    nd: int,
    n: int,
    k: nat,
)
    requires
        0 <= start,
        0 <= nd,
        0 <= n,
        start + nd + n <= end <= a.len(),
        v == u0 / pow10(k),
        k == end - start - (nd + n),
        forall|t: nat| t < n ==> a[start + nd + n - 1 - t] == #[trigger] digit_at(v, t),
        forall|i: int|
            start + nd + n <= i < end ==> #[trigger] a[i] == digit_at(u0, (end - 1 - i) as nat),
    ensures
        forall|i: int|
            start + nd <= i < end ==> #[trigger] a[i] == digit_at(u0, (end - 1 - i) as nat),
{
    assert forall|i: int| start + nd <= i < end implies #[trigger] a[i] == digit_at(
        u0,
        (end - 1 - i) as nat,
    ) by {
        if i < start + nd + n {
            let t = (start + nd + n - 1 - i) as nat;
            assert(a[start + nd + n - 1 - t] == digit_at(v, t));
            lemma_digit_shift(u0, k, t);
        }
    }
}

/// Small powers of ten used by the digit groups.
proof fn lemma_pow10_small()
    ensures
        pow10(2) == 100,
        pow10(4) == 10000,
        pow10(8) == 100000000,
{
    reveal_with_fuel(pow10, 9);
}

/// The low `n` digits of `v = u / 10^k` are the digits `k..k+n` of `u`.
proof fn lemma_digit_run(u: nat, k: nat, v: nat, n: nat)
    requires
        v == u / pow10(k),
    ensures
        forall|j: nat| j < n ==> #[trigger] digit_at(v, j) == digit_at(u, k + j),
{
    assert forall|j: nat| j < n implies #[trigger] digit_at(v, j) == digit_at(u, k + j) by {
        lemma_digit_shift(u, k, j);
    }
}

/// A number below 10^(n+m) divided by 10^m is below 10^n.
proof fn lemma_div_below_pow10(v: nat, n: nat, m: nat)
    requires
        v < pow10(n + m),
    ensures
        v / pow10(m) < pow10(n),
{
    lemma_pow10_pos(m);
    lemma_pow10_pos(n);
    lemma_pow10_adds(n, m);
    lemma_div_by_multiple_is_strongly_ordered(v as int, pow10(n + m) as int, pow10(n) as int, pow10(m) as int);
    lemma_div_multiples_vanish(pow10(n) as int, pow10(m) as int);
    lemma_mul_is_commutative(pow10(n) as int, pow10(m) as int);
}

/// Converts a boolean to 1 or 0.
pub fn bool2(b: bool) -> (r: u64)
    ensures
        r == if b {
            1u64
        } else {
            0u64
        },
{
    b as u64
}

/// A number of `bits` significant bits has `log10_pow2(bits)` or one more decimal digits.
proof fn lemma_digit_count_bits(bits: int)
    requires
        1 <= bits <= 64,
    ensures
        pow2(bits as nat) <= pow10((log10_pow2_spec(bits) + 1) as nat),
        log10_pow2_spec(bits) >= 1 ==> pow10((log10_pow2_spec(bits) - 1) as nat) <= pow2(
            (bits - 1) as nat,
        ),
        0 <= log10_pow2_spec(bits) <= 19,
{
    lemma2_to64();
    lemma2_to64_rest();
    lemma_pow10_values();
    assert(bits == 1 || bits == 2 || bits == 3 || bits == 4 || bits == 5 || bits == 6 || bits == 7 || bits == 8 || bits == 9 || bits == 10 || bits == 11 || bits == 12 || bits == 13 || bits == 14 || bits == 15 || bits == 16 || bits == 17 || bits == 18 || bits == 19 || bits == 20 || bits == 21 || bits == 22 || bits == 23 || bits == 24 || bits == 25 || bits == 26 || bits == 27 || bits == 28 || bits == 29 || bits == 30 || bits == 31 || bits == 32 || bits == 33 || bits == 34 || bits == 35 || bits == 36 || bits == 37 || bits == 38 || bits == 39 || bits == 40 || bits == 41 || bits == 42 || bits == 43 || bits == 44 || bits == 45 || bits == 46 || bits == 47 || bits == 48 || bits == 49 || bits == 50 || bits == 51 || bits == 52 || bits == 53 || bits == 54 || bits == 55 || bits == 56 || bits == 57 || bits == 58 || bits == 59 || bits == 60 || bits == 61 || bits == 62 || bits == 63 || bits == 64);
}

/// Returns the number of decimal digits of `d`.
pub fn digits(d: u64) -> (r: usize)
    requires
        d > 0,
    ensures
        r as nat == num_digits(d as nat),
{
    let lz = d.leading_zeros();
    let bits = 64 - lz as i64;
    proof {
        axiom_u64_leading_zeros(d);
        lemma_digit_count_bits(bits as int);
        lemma2_to64();
        lemma2_to64_rest();
        let b = bits as u64;
        lemma_u64_shr_is_div(d, (b - 1) as u64);
        assert(d >> ((b - 1) as u64) >= 1) by (bit_vector)
            requires
                (d >> ((63 - lz) as u64)) & 1u64 != 0u64,
                b == 64 - lz,
                1 <= b <= 64,
        ;
        let lo = pow2((b - 1) as nat) as int;
        lemma_pow2_pos((b - 1) as nat);
        lemma_fundamental_div_mod(d as int, lo);
        lemma_mul_inequality(1, d as int / lo, lo);
        assert(d >= lo);
        if b < 64 {
            lemma_u64_shr_is_div(d, b);
            assert(d >> ((64 - lz) as u64) == 0);
            assert(d >> b == 0);
            let hi = pow2(b as nat) as int;
            lemma_pow2_pos(b as nat);
            lemma_fundamental_div_mod(d as int, hi);
            assert(d < hi);
        }
        assert(d < pow2(b as nat));
        lemma_u64_pow10();
    }
    let nd = log10_pow2(bits);
    let r = nd as usize + bool2(d >= U64_POW10[nd as usize]) as usize;
    proof {
        let n = nd as nat;
        if d >= U64_POW10[nd as int] {
            lemma_num_digits_bounds(d as nat, n + 1);
        } else {
            lemma_pow10_values();
            lemma_num_digits_bounds(d as nat, n);
        }
    }
    r
}

/// The first digit of `d`, then a point and the other digits if there are any.
pub open spec fn mantissa_bytes(d: nat) -> Seq<u8> {
    let ds = decimal_digits(d);
    if ds.len() > 1 {
        seq![ds[0], 46u8] + ds.subrange(1, ds.len() as int)
    } else {
        ds
    }
}

/// `e`, the sign of `x`, and the magnitude of `x` in two digits, or three from 100 on.
#[verifier::opaque]
pub open spec fn exponent_bytes(x: int) -> Seq<u8> {
    let a: nat = if x < 0 {
        (-x) as nat
    } else {
        x as nat
    };
    let sign: u8 = if x < 0 {
        45u8
    } else {
        43u8
    };
    seq![101u8, sign] + if a < 100 {
        seq![digit_at(a, 1), digit_at(a, 0)]
    } else {
        seq![digit_at(a, 2), digit_at(a, 1), digit_at(a, 0)]
    }
}

/// `d · 10^p` in scientific notation: the first digit of `d`, then a point and the other
/// digits if there are any, then the exponent of the first digit.
#[verifier::opaque]
pub open spec fn sci_bytes(d: nat, p: int) -> Seq<u8> {
    let ds = decimal_digits(d);
    let nd = ds.len();
    let mant = if nd > 1 {
        seq![ds[0], 46u8] + ds.subrange(1, nd as int)
    } else {
        ds
    };
    mant + exponent_bytes(p + nd - 1)
}

/// `sci_bytes` is the mantissa followed by the exponent.
pub proof fn lemma_sci_parts(d: nat, p: int)
    ensures
        sci_bytes(d, p) == mantissa_bytes(d) + exponent_bytes(p + num_digits(d) - 1),
{
    reveal(sci_bytes);
}

/// The bytes of `exponent_bytes(x)` one by one.
pub proof fn lemma_exponent_parts(x: int)
    ensures
        ({
            let a: nat = if x < 0 {
                (-x) as nat
            } else {
                x as nat
            };
            let t = exponent_bytes(x);
            &&& t[0] == 101u8
            &&& t[1] == if x < 0 {
                45u8
            } else {
                43u8
            }
            &&& a < 100 ==> t.len() == 4 && t[2] == digit_at(a, 1) && t[3] == digit_at(a, 0)
            &&& a >= 100 ==> t.len() == 5 && t[2] == digit_at(a, 2) && t[3] == digit_at(a, 1)
                && t[4] == digit_at(a, 0)
        }),
{
    reveal(exponent_bytes);
}

/// Formats `d · 10^p` in scientific notation into `s` from position `start` on, and returns the
/// number of bytes written. `nd` must be the number of digits of `d`.
#[verifier::rlimit(100)]
pub fn fmt(s: &mut [u8; BUF_LEN], start: usize, d: u64, p: i64, nd: usize) -> (n: usize)
    requires
        nd == num_digits(d as nat),
        start + nd + 6 <= BUF_LEN,
        -1000 < p + nd - 1 < 1000,
    ensures
        start + n <= BUF_LEN,
        n == sci_bytes(d as nat, p as int).len(),
        final(s)@.subrange(start as int, start + n) == sci_bytes(d as nat, p as int),
        forall|i: int| 0 <= i < start ==> #[trigger] final(s)@[i] == old(s)@[i],
{
    let ghost ds = decimal_digits(d as nat);
    let mut p = p;
    // Put digits into s, leaving room for decimal point.
    proof {
        lemma_digits_fit(d as nat);
    }
    format_base10(s, start + 1, start + 1 + nd, d);
    p += (nd - 1) as i64;
    let ghost x = p as int;
    assert forall|i: int| 0 <= i < nd implies s@[start + 1 + i] == #[trigger] ds[i] by {
        assert(s@[start + 1 + i] == digit_at(d as nat, (start + 1 + nd - 1 - (start + 1 + i)) as nat));
    }

    // Move first digit up and insert decimal point.
    s[start] = s[start + 1];
    let mut n = nd;
    if n > 1 {
        s[start + 1] = 46;
        n += 1;
    }
    let ghost mant = if nd > 1 {
        seq![ds[0], 46u8] + ds.subrange(1, nd as int)
    } else {
        ds
    };
    assert(s@.subrange(start as int, start + n) =~= mant) by {
        if nd > 1 {
            assert forall|i: int| 2 <= i < n implies s@[start + i] == #[trigger] mant[i] by {
                assert(mant[i] == ds[i - 1]);
                assert(s@[start + 1 + (i - 1)] == ds[i - 1]);
            }
        }
    }

    // Add 2- or 3-digit exponent.
    let ghost before = s@;
    let ghost eb = exponent_bytes(x);
    proof {
        lemma_sci_parts(d as nat, x - nd + 1);
        lemma_exponent_parts(x);
        assert(mant == mantissa_bytes(d as nat));
    }
    s[start + n] = 101;
    if p < 0 {
        s[start + n + 1] = 45;
        p = -p;
    } else {
        s[start + n + 1] = 43;
    }
    let ghost a = p as nat;
    if p < 100 {
        proof {
            lemma_i2a(p as int);
            lemma_two_digits(a);
        }
        s[start + n + 2] = I2A[(p * 2) as usize];
        s[start + n + 3] = I2A[(p * 2 + 1) as usize];
        proof {
            let w = s@.subrange(start as int, start + n + 4);
            assert forall|i: int| 0 <= i < n + 4 implies w[i] == #[trigger] (mant + eb)[i] by {
                if i < n {
                    assert(w[i] == before[start + i]);
                    assert(before.subrange(start as int, start + n)[i] == mant[i]);
                }
            }
            assert(w =~= mant + eb);
        }
        return n + 4;
    }
    proof {
        lemma_i2a((p % 100) as int);
        lemma_three_digits(a);
    }
    s[start + n + 2] = 48 + (p / 100) as u8;
    s[start + n + 3] = I2A[((p % 100) * 2) as usize];
    s[start + n + 4] = I2A[((p % 100) * 2 + 1) as usize];
    proof {
        let w = s@.subrange(start as int, start + n + 5);
        assert forall|i: int| 0 <= i < n + 5 implies w[i] == #[trigger] (mant + eb)[i] by {
            if i < n {
                assert(w[i] == before[start + i]);
                assert(before.subrange(start as int, start + n)[i] == mant[i]);
            }
        }
        assert(w =~= mant + eb);
    }
    n + 5
}

/// A number with `num_digits(d)` digits is below `10^num_digits(d)`.
proof fn lemma_digits_fit(d: nat)
    ensures
        d < pow10(num_digits(d)),
    decreases d,
{
    if d >= 10 {
        lemma_digits_fit(d / 10);
    }
    reveal_with_fuel(pow10, 2);
}

/// The three digits of a number from 100 to 999.
proof fn lemma_three_digits(a: nat)
    requires
        100 <= a < 1000,
    ensures
        digit_at(a, 2) == 48 + a / 100,
        digit_at(a, 1) == 48 + (a % 100) / 10,
        digit_at(a, 0) == 48 + (a % 100) % 10,
{
    lemma_pow10_small();
    lemma_digit_of_mod(a, 2, 0);
    lemma_digit_of_mod(a, 2, 1);
    lemma_two_digits(a % 100);
    lemma_digit_shift(a, 2, 0);
    lemma_digit_zero(a / 100);
}

/// Every byte of the scientific notation is ASCII.
pub proof fn lemma_sci_ascii(d: nat, p: int)
    ensures
        forall|i: int| 0 <= i < sci_bytes(d, p).len() ==> #[trigger] sci_bytes(d, p)[i] < 128,
{
    reveal(sci_bytes);
    reveal(exponent_bytes);
    let ds = decimal_digits(d);
    assert forall|i: int| 0 <= i < ds.len() implies #[trigger] ds[i] < 128 by {
        lemma_digit_ascii(d, (num_digits(d) - 1 - i) as nat);
    }
    let x = p + ds.len() - 1;
    let a: nat = if x < 0 {
        (-x) as nat
    } else {
        x as nat
    };
    lemma_digit_ascii(a, 0);
    lemma_digit_ascii(a, 1);
    lemma_digit_ascii(a, 2);
    let s = sci_bytes(d, p);
    assert forall|i: int| 0 <= i < s.len() implies #[trigger] s[i] < 128 by {
        let nd = ds.len() as int;
        let mant = if nd > 1 {
            seq![ds[0], 46u8] + ds.subrange(1, nd)
        } else {
            ds
        };
        if i < mant.len() {
            if nd > 1 && i >= 2 {
                assert(mant[i] == ds[i - 1]);
            }
        }
    }
}

} // verus!
