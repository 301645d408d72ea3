//! Shortest round-trip formatting of binary64 values in scientific notation.
//!
//! A value is given by its IEEE-754 encoding (`f64::to_bits`). The digits are the fewest
//! that parse back to the same value; the output has the form `D[.DDD]e±EE[E]`, and zero
//! formats as `0.0` or `-0.0`.
use vstd::prelude::*;

pub mod args;
pub mod logs;
pub mod math;
pub mod pow10;
pub mod render;
pub mod scale;
pub mod short;
pub mod trim;
pub mod unrounded;

use crate::math::{
    decimal_digits,
    lemma_digit_ascii,
    lemma_num_digits_le,
    lemma_pow10_values,
    num_digits,
};
use crate::render::{digits, exponent_bytes, fmt, lemma_sci_ascii, sci_bytes, BUF_LEN};
use crate::short::{
    exp_field,
    frac_field,
    is_finite_bits,
    is_negative_bits,
    is_zero_bits,
    short,
    short_spec,
};

verus! {

/// The bytes that `format_finite` produces for the encoding `b`.
pub open spec fn format_bytes(b: u64) -> Seq<u8> {
    let sign: Seq<u8> = if is_negative_bits(b) {
        seq![45u8]
    } else {
        Seq::empty()
    };
    sign + if is_zero_bits(b) {
        seq![48u8, 46u8, 48u8]
    } else {
        sci_bytes(short_spec(b).0 as nat, short_spec(b).1)
    }
}

/// The text that `format_finite` produces for the encoding `b`.
pub open spec fn format_text(b: u64) -> Seq<char> {
    format_bytes(b).map_values(|c: u8| c as char)
}

/// Relies on `std::str::from_utf8`: bytes below 128 form valid UTF-8, one character each.
#[verifier::external_body]
fn ascii_str(bytes: &[u8]) -> (r: &str)
    requires
        forall|i: int| 0 <= i < bytes@.len() ==> #[trigger] bytes@[i] < 128,
    ensures
        r@ == bytes@.map_values(|c: u8| c as char),
{
    std::str::from_utf8(bytes).unwrap()
}

/// An ASCII decimal digit.
pub open spec fn is_digit(c: u8) -> bool {
    48 <= c <= 57
}

/// `t` is `D[.DDD]e±EE[E]` with `nd` significand digits and `ne` exponent digits.
pub open spec fn sci_shape(t: Seq<u8>, nd: int, ne: int) -> bool {
    let ml = if nd > 1 {
        nd + 1
    } else {
        1
    };
    &&& 1 <= nd
    &&& ne == 2 || ne == 3
    &&& t.len() == ml + 2 + ne
    &&& is_digit(t[0])
    &&& nd > 1 ==> t[1] == 46u8
    &&& forall|i: int| 2 <= i < ml ==> #[trigger] is_digit(t[i])
    &&& t[ml] == 101u8
    &&& t[ml + 1] == 43u8 || t[ml + 1] == 45u8
    &&& forall|i: int| ml + 2 <= i < t.len() ==> #[trigger] is_digit(t[i])
}

/// The text of a negated value is a minus sign followed by the text of the value, and zero
/// reads `0.0` or `-0.0`.
pub proof fn lemma_sign_handling(b: u64)
    requires
        is_finite_bits(b),
        !is_negative_bits(b),
    ensures
        format_bytes(b | 0x8000_0000_0000_0000u64) == seq![45u8] + format_bytes(b),
        b == 0 ==> format_bytes(b) == seq![48u8, 46u8, 48u8],
        b == 0 ==> format_bytes(b | 0x8000_0000_0000_0000u64) == seq![45u8, 48u8, 46u8, 48u8],
{
    let n = b | 0x8000_0000_0000_0000u64;
    assert(n % 0x10_0000_0000_0000u64 == b % 0x10_0000_0000_0000u64 && (n / 0x10_0000_0000_0000u64)
        % 2048 == (b / 0x10_0000_0000_0000u64) % 2048 && n >= 0x8000_0000_0000_0000u64)
        by (bit_vector)
        requires
            n == b | 0x8000_0000_0000_0000u64,
            b < 0x8000_0000_0000_0000u64,
    ;
    assert(frac_field(n) == frac_field(b));
    assert(exp_field(n) == exp_field(b));
    assert(short_spec(n) == short_spec(b));
    assert(format_bytes(n) =~= seq![45u8] + format_bytes(b));
    if b == 0 {
        assert(format_bytes(b) =~= seq![48u8, 46u8, 48u8]);
        assert(format_bytes(n) =~= seq![45u8, 48u8, 46u8, 48u8]);
    }
}

/// The text of a finite non-zero value is an optional minus sign and then scientific
/// notation with one `e`, one exponent sign, and two or three exponent digits.
pub proof fn lemma_exponent_form(b: u64)
    requires
        is_finite_bits(b),
        !is_zero_bits(b),
    ensures
        is_negative_bits(b) ==> format_bytes(b)[0] == 45u8,
        is_negative_bits(b) ==> exists|nd: int, ne: int|
            #[trigger] sci_shape(format_bytes(b).subrange(1, format_bytes(b).len() as int), nd, ne),
        !is_negative_bits(b) ==> exists|nd: int, ne: int| #[trigger] sci_shape(format_bytes(b), nd, ne),
{
    reveal(sci_bytes);
    reveal(exponent_bytes);
    let (d, q) = short_spec(b);
    let ds = decimal_digits(d as nat);
    let nd = ds.len() as int;
    let x = q + nd - 1;
    let a: nat = if x < 0 {
        (-x) as nat
    } else {
        x as nat
    };
    let ne: int = if a < 100 {
        2
    } else {
        3
    };
    let body = sci_bytes(d as nat, q);
    assert forall|i: int| 0 <= i < nd implies #[trigger] is_digit(ds[i]) by {
        lemma_digit_ascii(d as nat, (num_digits(d as nat) - 1 - i) as nat);
    }
    lemma_digit_ascii(a, 0);
    lemma_digit_ascii(a, 1);
    lemma_digit_ascii(a, 2);
    let ml = if nd > 1 {
        nd + 1
    } else {
        1
    };
    assert forall|i: int| 2 <= i < ml implies #[trigger] is_digit(body[i]) by {
        assert(body[i] == ds[i - 1]);
    }
    assert(sci_shape(body, nd, ne));
    let t = format_bytes(b);
    if is_negative_bits(b) {
        assert(t == seq![45u8] + body);
        assert(t[0] == 45u8);
        assert(t.subrange(1, t.len() as int) =~= body);
        assert(sci_shape(t.subrange(1, t.len() as int), nd, ne));
    } else {
        assert(t =~= body);
        assert(sci_shape(t, nd, ne));
    }
}

/// A buffer for the text of one formatted value.
pub struct Buffer {
    bytes: [u8; BUF_LEN],
}

impl View for Buffer {
    type V = Seq<u8>;

    /// The bytes of the buffer.
    closed spec fn view(&self) -> Seq<u8> {
        self.bytes@
    }
}

impl Buffer {
    /// Returns a zeroed buffer.
    pub fn new() -> (r: Self)
        ensures
            r@ == Seq::new(BUF_LEN as nat, |i: int| 0u8),
    {
        let r = Buffer { bytes: [0u8; BUF_LEN] };
        assert(r@ =~= Seq::new(BUF_LEN as nat, |i: int| 0u8));
        r
    }

    /// Formats the finite binary64 value with the encoding `bits`, and returns the text, which
    /// borrows the buffer.
    pub fn format_finite(&mut self, bits: u64) -> (r: &str)
        requires
            is_finite_bits(bits),
        ensures
            r@ == format_text(bits),
    {
        self.bytes[0] = 45;
        proof {
            assert(bits >> 63u64 == bits / 0x8000_0000_0000_0000u64) by (bit_vector);
            assert(bits >> 63u64 <= 1) by (bit_vector);
            assert((bits & 0x7fff_ffff_ffff_ffffu64 == 0) == ((bits / 0x10_0000_0000_0000u64) % 2048
                == 0 && bits % 0x10_0000_0000_0000u64 == 0)) by (bit_vector);
        }
        let begin = (bits >> 63) as usize;
        let ghost text = format_bytes(bits);
        let len = if bits & 0x7fff_ffff_ffff_ffff == 0 {
            self.bytes[begin] = 48;
            self.bytes[begin + 1] = 46;
            self.bytes[begin + 2] = 48;
            3
        } else {
            let (d, p) = short(bits);
            proof {
                lemma_pow10_values();
                lemma_num_digits_le(d as nat, 17);
            }
            fmt(&mut self.bytes, begin, d, p, digits(d))
        };
        proof {
            if !is_zero_bits(bits) {
                lemma_sci_ascii(short_spec(bits).0 as nat, short_spec(bits).1);
            }
            assert(self.bytes@.subrange(0, begin + len) =~= text);
        }
        let out = ascii_str(&self.bytes[0..begin + len]);
        proof {
            assert(out@ =~= format_text(bits));
        }
        out
    }
}

} // verus!
