use crate::math::{lemma_pow10_adds, lemma_pow10_pos, lemma_pow10_values, pow10};
use vstd::arithmetic::div_mod::*;
use vstd::arithmetic::mul::*;
use vstd::bits::*;
use vstd::prelude::*;

verus! {

/// 2^64, the modulus of wrapping `u64` arithmetic.
pub open spec fn modulus() -> int {
    0x1_0000_0000_0000_0000int
}

/// Rotates the bits of `y` right by `k`, for `0 < k < 64`.
pub fn rotate_right(y: u64, k: u64) -> (r: u64)
    requires
        0 < k < 64,
    ensures
        r == (y >> k) | (y << ((64 - k) as u64)),
{
    (y >> k) | (y << (64 - k))
}

/// A rotation by `k` of a value whose low `k` bits are zero is a plain division by
/// `two = 2^k`; otherwise the rotated value reaches `top = 2^(64-k)`.
proof fn lemma_rotate_cases(y: u64, k: u64, two: u64, top: u64)
    requires
        (k == 1 && two == 2 && top == 0x8000_0000_0000_0000u64) || (k == 2 && two == 4 && top
            == 0x4000_0000_0000_0000u64) || (k == 4 && two == 16 && top == 0x1000_0000_0000_0000u64)
            || (k == 8 && two == 256 && top == 0x0100_0000_0000_0000u64),
    ensures
        y % two == 0 ==> (y >> k) | (y << ((64 - k) as u64)) == y / two,
        y % two != 0 ==> (y >> k) | (y << ((64 - k) as u64)) >= top,
{
    if k == 1 {
        assert(y % 2 == 0 ==> (y >> 1u64) | (y << 63u64) == y / 2) by (bit_vector);
        assert(y % 2 != 0 ==> (y >> 1u64) | (y << 63u64) >= 0x8000_0000_0000_0000u64)
            by (bit_vector);
    } else if k == 2 {
        assert(y % 4 == 0 ==> (y >> 2u64) | (y << 62u64) == y / 4) by (bit_vector);
        assert(y % 4 != 0 ==> (y >> 2u64) | (y << 62u64) >= 0x4000_0000_0000_0000u64)
            by (bit_vector);
    } else if k == 4 {
        assert(y % 16 == 0 ==> (y >> 4u64) | (y << 60u64) == y / 16) by (bit_vector);
        assert(y % 16 != 0 ==> (y >> 4u64) | (y << 60u64) >= 0x1000_0000_0000_0000u64)
            by (bit_vector);
    } else {
        assert(y % 256 == 0 ==> (y >> 8u64) | (y << 56u64) == y / 256) by (bit_vector);
        assert(y % 256 != 0 ==> (y >> 8u64) | (y << 56u64) >= 0x0100_0000_0000_0000u64)
            by (bit_vector);
    }
}

/// Multiplying a multiple of `ten = q · two` by the inverse of `q` divides it by `q`.
proof fn lemma_inverse_divides(x: int, ten: int, two: int, q: int, inv: int, c: int)
    requires
        ten == q * two,
        ten > 0,
        q > 0,
        two > 0,
        q * inv == 1 + c * modulus(),
        c >= 0,
        x % ten == 0,
        0 <= x < modulus(),
    ensures
        (x * inv) % modulus() == two * (x / ten),
{
    let t = x / ten;
    lemma_fundamental_div_mod(x, ten);
    assert(x == ten * t);
    assert(x * inv == t * two + (t * two * c) * modulus()) by (nonlinear_arith)
        requires
            x == ten * t,
            ten == q * two,
            q * inv == 1 + c * modulus(),
    ;
    assert(t >= 0) by {
        lemma_div_pos_is_pos(x, ten);
    }
    assert(0 <= t * two < modulus()) by (nonlinear_arith)
        requires
            x == ten * t,
            ten == q * two,
            q > 0,
            two > 0,
            t >= 0,
            x < modulus(),
    ;
    lemma_mod_multiples_vanish(t * two * c, t * two, modulus());
    lemma_mul_is_commutative(modulus(), t * two * c);
    lemma_small_mod((t * two) as nat, modulus() as nat);
}

/// Conversely, when `(x · inv) mod 2^64` is `two · d` with `ten · d` in range, `x = ten · d`.
proof fn lemma_inverse_exact(x: int, d: int, ten: int, two: int, q: int, inv: int, c: int)
    requires
        ten == q * two,
        ten > 0,
        q > 0,
        two > 0,
        q * inv == 1 + c * modulus(),
        c >= 0,
        inv >= 0,
        (x * inv) % modulus() == two * d,
        0 <= ten * d < modulus(),
        d >= 0,
        0 <= x < modulus(),
    ensures
        x == ten * d,
{
    let big = x * inv;
    let qq = big / modulus();
    lemma_fundamental_div_mod(big, modulus());
    assert(big == modulus() * qq + two * d);
    assert(x - ten * d == modulus() * (q * qq - x * c)) by (nonlinear_arith)
        requires
            big == x * inv,
            big == modulus() * qq + two * d,
            ten == q * two,
            q * inv == 1 + c * modulus(),
    ;
    let w = q * qq - x * c;
    if w > 0 {
        lemma_mul_inequality(1, w, modulus());
    } else if w < 0 {
        lemma_mul_inequality(w, -1, modulus());
    }
}

/// The divisibility test of one cut: rotating `x · inv` right by `k` gives at most
/// `u64::MAX / ten` exactly when `ten = 10^k` divides `x`, and then gives `x / ten`.
proof fn lemma_cut(x: u64, k: u64, two: u64, top: u64, ten: u64, q: int, inv: u64, c: int)
    requires
        (k == 1 && two == 2 && top == 0x8000_0000_0000_0000u64) || (k == 2 && two == 4 && top
            == 0x4000_0000_0000_0000u64) || (k == 4 && two == 16 && top == 0x1000_0000_0000_0000u64)
            || (k == 8 && two == 256 && top == 0x0100_0000_0000_0000u64),
        ten == q * two,
        ten > 0,
        q > 0,
        q * inv == 1 + c * modulus(),
        c >= 0,
        top > u64::MAX / ten,
    ensures
        ({
            let y = ((x as int * inv as int) % modulus()) as u64;
            let d = (y >> k) | (y << ((64 - k) as u64));
            &&& (d <= u64::MAX / ten) == (x % ten == 0)
            &&& x % ten == 0 ==> d == x / ten
        }),
{
    let y = ((x as int * inv as int) % modulus()) as u64;
    assert(y as int == (x as int * inv as int) % modulus());
    lemma_rotate_cases(y, k, two, top);
    let d = (y >> k) | (y << ((64 - k) as u64));
    if x % ten == 0 {
        lemma_inverse_divides(x as int, ten as int, two as int, q, inv as int, c);
        assert(y == two * (x / ten));
        lemma_mod_multiples_basic((x / ten) as int, two as int);
        lemma_mul_is_commutative((x / ten) as int, two as int);
        lemma_div_multiples_vanish((x / ten) as int, two as int);
        assert(d == x / ten);
        lemma_div_is_ordered(x as int, u64::MAX as int, ten as int);
    } else if d <= u64::MAX / ten {
        assert(y % two == 0);
        let e = y / two;
        lemma_fundamental_div_mod(y as int, two as int);
        assert(y == two * e);
        assert(ten * e <= ten * (u64::MAX / ten)) by {
            lemma_mul_inequality(e as int, (u64::MAX / ten) as int, ten as int);
            lemma_mul_is_commutative(e as int, ten as int);
            lemma_mul_is_commutative((u64::MAX / ten) as int, ten as int);
        }
        lemma_fundamental_div_mod(u64::MAX as int, ten as int);
        lemma_inverse_exact(x as int, e as int, ten as int, two as int, q, inv as int, c);
        lemma_mod_multiples_basic(e as int, ten as int);
        lemma_mul_is_commutative(e as int, ten as int);
    }
}

/// If `10^a` divides `y` but `10^(a+b)` does not, then `10^b` does not divide `y / 10^a`.
proof fn lemma_strip(y: nat, a: nat, b: nat)
    requires
        y % pow10(a + b) != 0,
        y % pow10(a) == 0,
    ensures
        (y / pow10(a)) % pow10(b) != 0,
{
    lemma_pow10_pos(a);
    lemma_pow10_pos(b);
    lemma_pow10_adds(a, b);
    let w = y / pow10(a);
    lemma_fundamental_div_mod(y as int, pow10(a) as int);
    if w % pow10(b) == 0 {
        let v = w / pow10(b);
        lemma_fundamental_div_mod(w as int, pow10(b) as int);
        assert(y == pow10(a + b) * v) by {
            lemma_mul_is_associative(pow10(a) as int, pow10(b) as int, v as int);
        }
        lemma_pow10_pos(a + b);
        lemma_mod_multiples_basic(v as int, pow10(a + b) as int);
        lemma_mul_is_commutative(v as int, pow10(a + b) as int);
    }
}

/// Cutting `k` zeros keeps the value `x · 10^e`.
proof fn lemma_cut_keeps(x: nat, k: nat, e: nat)
    requires
        x % pow10(k) == 0,
    ensures
        (x / pow10(k)) * pow10(e + k) == x * pow10(e),
{
    lemma_pow10_pos(k);
    lemma_pow10_adds(e, k);
    lemma_fundamental_div_mod(x as int, pow10(k) as int);
    let w = x / pow10(k);
    assert(x == pow10(k) * w);
    lemma_mul_is_associative(w as int, pow10(e) as int, pow10(k) as int);
    lemma_mul_is_commutative(w as int, pow10(k) as int);
    lemma_mul_is_associative(pow10(k) as int, w as int, pow10(e) as int);
    lemma_mul_is_commutative(pow10(e) as int, pow10(k) as int);
    lemma_mul_is_associative(w as int, pow10(k) as int, pow10(e) as int);
}

/// Inverse of 5^8 modulo 2^64.
pub const INV5P8: u64 = 0xc767074b22e90e21;

/// Inverse of 5^4 modulo 2^64.
pub const INV5P4: u64 = 0xd288ce703afb7e91;

/// Inverse of 5^2 modulo 2^64.
pub const INV5P2: u64 = 0x8f5c28f5c28f5c29;

/// Inverse of 5 modulo 2^64.
pub const INV5: u64 = 0xcccccccccccccccd;

/// Removes trailing zeros from `x · 10^p`: if `x` ends in `k` zeros, returns `x / 10^k` and
/// `p + k`. `x` may end in at most 16 zeros.
pub fn trim_zeros(x: u64, p: i64) -> (r: (u64, i64))
    requires
        x as nat % pow10(17) != 0,
        p <= i64::MAX - 17,
    ensures
        p <= r.1 <= p + 16,
        r.0 * pow10((r.1 - p) as nat) == x,
        r.0 % 10 != 0,
{
    let mut x = x;
    let mut p = p;
    let ghost x0 = x as nat;
    let ghost p0 = p as int;
    proof {
        lemma_pow10_values();
    }

    // Cut 1 zero, or else return.
    let d = rotate_right(x.wrapping_mul(INV5), 1);
    proof {
        lemma_cut(x, 1, 2, 0x8000_0000_0000_0000u64, 10, 5, INV5, 4);
    }
    if d <= u64::MAX / 10 {
        proof {
            lemma_cut_keeps(x as nat, 1, 0);
            lemma_strip(x as nat, 1, 16);
        }
        x = d;
        p += 1;
    } else {
        assert(pow10(0) == 1);
        return (x, p);
    }

    // Cut 8 zeros, then 4, then 2, then 1.
    assert(x * pow10((p - p0) as nat) == x0);
    assert(x as nat % pow10(16) != 0);
    let d = rotate_right(x.wrapping_mul(INV5P8), 8);
    proof {
        lemma_cut(x, 8, 256, 0x0100_0000_0000_0000u64, 100000000, 390625, INV5P8, 304264);
    }
    if d <= u64::MAX / 100000000 {
        proof {
            lemma_cut_keeps(x as nat, 8, (p - p0) as nat);
            lemma_strip(x as nat, 8, 8);
        }
        x = d;
        p += 8;
    }
    assert(x * pow10((p - p0) as nat) == x0);
    assert(x as nat % pow10(8) != 0);
    let d = rotate_right(x.wrapping_mul(INV5P4), 4);
    proof {
        lemma_cut(x, 4, 16, 0x1000_0000_0000_0000u64, 10000, 625, INV5P4, 514);
    }
    if d <= u64::MAX / 10000 {
        proof {
            lemma_cut_keeps(x as nat, 4, (p - p0) as nat);
            lemma_strip(x as nat, 4, 4);
        }
        x = d;
        p += 4;
    }
    assert(x * pow10((p - p0) as nat) == x0);
    assert(x as nat % pow10(4) != 0);
    let d = rotate_right(x.wrapping_mul(INV5P2), 2);
    proof {
        lemma_cut(x, 2, 4, 0x4000_0000_0000_0000u64, 100, 25, INV5P2, 14);
    }
    if d <= u64::MAX / 100 {
        proof {
            lemma_cut_keeps(x as nat, 2, (p - p0) as nat);
            lemma_strip(x as nat, 2, 2);
        }
        x = d;
        p += 2;
    }
    assert(x * pow10((p - p0) as nat) == x0);
    assert(x as nat % pow10(2) != 0);
    let d = rotate_right(x.wrapping_mul(INV5), 1);
    proof {
        lemma_cut(x, 1, 2, 0x8000_0000_0000_0000u64, 10, 5, INV5, 4);
    }
    if d <= u64::MAX / 10 {
        proof {
            lemma_cut_keeps(x as nat, 1, (p - p0) as nat);
            lemma_strip(x as nat, 1, 1);
        }
        x = d;
        p += 1;
    }
    (x, p)
}

} // verus!
