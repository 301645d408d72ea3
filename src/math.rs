use vstd::arithmetic::div_mod::*;
use vstd::arithmetic::mul::*;
use vstd::prelude::*;

verus! {

/// 10^n.
pub open spec fn pow10(n: nat) -> nat
    decreases n,
{
    if n == 0 {
        1
    } else {
        10 * pow10((n - 1) as nat)
    }
}

/// The `k`-th decimal digit of `u`, counting from the least significant, as an ASCII byte.
#[verifier::opaque]
pub open spec fn digit_at(u: nat, k: nat) -> u8 {
    (48 + (u / pow10(k)) % 10) as u8
}

/// Number of decimal digits of `u` (one for zero).
pub open spec fn num_digits(u: nat) -> nat
    decreases u,
{
    if u < 10 {
        1
    } else {
        1 + num_digits(u / 10)
    }
}

/// The decimal digits of `u`, most significant first, without leading zeros.
pub open spec fn decimal_digits(u: nat) -> Seq<u8> {
    Seq::new(num_digits(u), |i: int| digit_at(u, (num_digits(u) - 1 - i) as nat))
}

pub proof fn lemma_pow10_pos(n: nat)
    ensures
        pow10(n) >= 1,
    decreases n,
{
    if n > 0 {
        lemma_pow10_pos((n - 1) as nat);
    }
}

pub proof fn lemma_pow10_adds(a: nat, b: nat)
    ensures
        pow10(a + b) == pow10(a) * pow10(b),
    decreases b,
{
    if b > 0 {
        lemma_pow10_adds(a, (b - 1) as nat);
        let x = pow10(a) as int;
        let y = pow10((b - 1) as nat) as int;
        assert(pow10(a + b) == 10 * pow10((a + b - 1) as nat));
        assert(pow10(b) == 10 * y);
        assert(pow10((a + b - 1) as nat) == x * y);
        assert(10 * (x * y) == x * (10 * y)) by (nonlinear_arith);
        assert(pow10(a + b) == pow10(a) * pow10(b));
    } else {
        assert(pow10(0) == 1);
        assert(pow10(a + b) == pow10(a));
    }
}

pub proof fn lemma_pow10_monotonic(a: nat, b: nat)
    requires
        a <= b,
    ensures
        pow10(a) <= pow10(b),
    decreases b,
{
    if a < b {
        lemma_pow10_monotonic(a, (b - 1) as nat);
        lemma_pow10_pos((b - 1) as nat);
    }
}

pub proof fn lemma_pow10_values()
    ensures
        pow10(0) == 1,
        pow10(1) == 10,
        pow10(2) == 100,
        pow10(3) == 1000,
        pow10(4) == 10000,
        pow10(5) == 100000,
        pow10(6) == 1000000,
        pow10(7) == 10000000,
        pow10(8) == 100000000,
        pow10(9) == 1000000000,
        pow10(10) == 10000000000,
        pow10(11) == 100000000000,
        pow10(12) == 1000000000000,
        pow10(13) == 10000000000000,
        pow10(14) == 100000000000000,
        pow10(15) == 1000000000000000,
        pow10(16) == 10000000000000000,
        pow10(17) == 100000000000000000,
        pow10(18) == 1000000000000000000,
        pow10(19) == 10000000000000000000,
        pow10(20) == 100000000000000000000,
{
    reveal_with_fuel(pow10, 21);
}

/// Dividing by 10^a and then by 10^b divides by 10^(a+b).
pub proof fn lemma_div_pow10_adds(u: nat, a: nat, b: nat)
    ensures
        u / pow10(a) / pow10(b) == u / pow10(a + b),
{
    lemma_pow10_pos(a);
    lemma_pow10_pos(b);
    lemma_pow10_adds(a, b);
    lemma_div_denominator(u as int, pow10(a) as int, pow10(b) as int);
}

/// The digit `k + j` of `u` is the digit `j` of `u / 10^k`.
pub proof fn lemma_digit_shift(u: nat, k: nat, j: nat)
    ensures
        digit_at(u / pow10(k), j) == digit_at(u, k + j),
{
    reveal(digit_at);
    lemma_pow10_pos(k);
    lemma_div_pow10_adds(u, k, j);
}

/// `num_digits(u) == n` exactly when `10^(n-1) <= u < 10^n` (with zero having one digit).
pub proof fn lemma_num_digits_bounds(u: nat, n: nat)
    requires
        n >= 1,
        n == 1 || pow10((n - 1) as nat) <= u,
        u < pow10(n),
    ensures
        num_digits(u) == n,
    decreases n,
{
    if n > 1 {
        assert(u >= 10) by {
            lemma_pow10_monotonic(1, (n - 1) as nat);
            reveal_with_fuel(pow10, 2);
        }
        let m = (n - 1) as nat;
        assert(u / 10 < pow10(m)) by {
            lemma_div_by_multiple_is_strongly_ordered(u as int, 10 * pow10(m) as int, pow10(m) as int, 10);
            lemma_mul_is_commutative(10, pow10(m) as int);
            lemma_pow10_pos(m);
            lemma_div_multiples_vanish(pow10(m) as int, 10);
        }
        if m > 1 {
            let k = (m - 1) as nat;
            assert(pow10(m) == 10 * pow10(k));
            assert(pow10(k) <= u / 10) by {
                lemma_mul_is_commutative(10, pow10(k) as int);
                lemma_div_multiples_vanish(pow10(k) as int, 10);
                lemma_div_is_ordered(10 * pow10(k) as int, u as int, 10);
            }
        }
        lemma_num_digits_bounds(u / 10, m);
    } else {
        assert(pow10(1) == 10) by { reveal_with_fuel(pow10, 2); }
    }
}

/// Facts that tie a digit to a remainder: the last digit is `u % 10`.
pub proof fn lemma_digit_zero(u: nat)
    ensures
        digit_at(u, 0) == 48 + u % 10,
{
    reveal(digit_at);
    assert(pow10(0) == 1);
}

/// Below position `m`, `v % 10^m` has the digits of `v`.
pub proof fn lemma_digit_of_mod(v: nat, m: nat, j: nat)
    requires
        j < m,
    ensures
        digit_at(v % pow10(m), j) == digit_at(v, j),
{
    reveal(digit_at);
    let y = pow10(j) as int;
    let w = pow10((m - j - 1) as nat) as int;
    lemma_pow10_pos(j);
    lemma_pow10_pos((m - j - 1) as nat);
    lemma_pow10_adds(j, (m - j) as nat);
    assert(pow10((m - j) as nat) == 10 * w);
    let z = 10 * w;
    assert(pow10(m) == y * z);
    lemma_mod_breakdown(v as int, y, z);
    let a = (v as int / y) % z;
    let b = v as int % y;
    assert((v as int % (y * z)) == y * a + b);
    lemma_fundamental_div_mod_converse(y * a + b, y, a, b);
    lemma_mul_is_commutative(y, a);
    assert((v % pow10(m)) as int / y == a);
    lemma_mod_mod(v as int / y, 10, w);
}

/// The two digits of a number below 100.
pub proof fn lemma_two_digits(k: nat)
    requires
        k < 100,
    ensures
        digit_at(k, 0) == 48 + k % 10,
        digit_at(k, 1) == 48 + k / 10,
{
    reveal(digit_at);
    lemma_pow10_values();
}

/// A digit is an ASCII decimal digit.
pub proof fn lemma_digit_ascii(u: nat, k: nat)
    ensures
        48 <= digit_at(u, k) <= 57,
{
    reveal(digit_at);
}

/// A number below `10^n` has at most `n` digits.
pub proof fn lemma_num_digits_le(u: nat, n: nat)
    requires
        n >= 1,
        u < pow10(n),
    ensures
        num_digits(u) <= n,
    decreases n,
{
    if u >= 10 {
        assert(n >= 2) by {
            if n == 1 {
                reveal_with_fuel(pow10, 2);
            }
        }
        let k = (n - 1) as nat;
        assert(u / 10 < pow10(k)) by {
            lemma_pow10_pos(k);
            lemma_div_by_multiple_is_strongly_ordered(u as int, 10 * pow10(k) as int, pow10(k) as int, 10);
            lemma_mul_is_commutative(10, pow10(k) as int);
            lemma_div_multiples_vanish(pow10(k) as int, 10);
        }
        lemma_num_digits_le(u / 10, k);
    }
}

} // verus!
