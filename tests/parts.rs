use fpfmt::render::{digits, fmt, format_base10, BUF_LEN};
use fpfmt::scale::{mul64, prescale, uscale};
use fpfmt::short::unpack64;
use fpfmt::trim::trim_zeros;
use fpfmt::unrounded::Unrounded;

#[test]
fn trim_zeros_cuts_every_trailing_zero() {
    assert_eq!(trim_zeros(123, 5), (123, 5));
    assert_eq!(trim_zeros(1230, 5), (123, 6));
    assert_eq!(trim_zeros(1_000_000_000_000_000, -3), (1, 12));
    assert_eq!(trim_zeros(10_000_000_000_000_000, 0), (1, 16));
    assert_eq!(trim_zeros(12_300_000_000, 0), (123, 8));
    assert_eq!(trim_zeros(50, 0), (5, 1));
    assert_eq!(trim_zeros(7_700, -2), (77, 0));
}

#[test]
fn digits_counts_decimal_digits() {
    assert_eq!(digits(1), 1);
    assert_eq!(digits(9), 1);
    assert_eq!(digits(10), 2);
    assert_eq!(digits(99), 2);
    assert_eq!(digits(100), 3);
    assert_eq!(digits(999_999_999_999_999_999), 18);
    assert_eq!(digits(1_000_000_000_000_000_000), 19);
    assert_eq!(digits(u64::MAX), 20);
    let mut p = 1u64;
    for n in 1..=19 {
        assert_eq!(digits(p), n);
        assert_eq!(digits(p - 1 + (p == 1) as u64), n - (p > 1) as usize);
        p = p.wrapping_mul(10);
    }
}

#[test]
fn base10_pads_with_zeros() {
    let mut a = [b'x'; BUF_LEN];
    format_base10(&mut a, 2, 12, 12345);
    assert_eq!(&a[2..12], b"0000012345");
    assert_eq!(a[1], b'x');
    assert_eq!(a[12], b'x');
    format_base10(&mut a, 0, 17, 12_345_678_901_234_567);
    assert_eq!(&a[0..17], b"12345678901234567");
    format_base10(&mut a, 3, 3, 0);
    assert_eq!(a[3], b'4');
}

#[test]
fn fmt_writes_scientific_notation() {
    let mut a = [0u8; BUF_LEN];
    let n = fmt(&mut a, 0, 12345, -2, 5);
    assert_eq!(&a[..n], b"1.2345e+02");
    let n = fmt(&mut a, 1, 7, -310, 1);
    assert_eq!(&a[1..1 + n], b"7e-310");
    let n = fmt(&mut a, 0, 17976931348623157, 292, 17);
    assert_eq!(&a[..n], b"1.7976931348623157e+308");
    let n = fmt(&mut a, 0, 5, 0, 1);
    assert_eq!(&a[..n], b"5e+00");
}

#[test]
fn unrounded_operations() {
    // 4·2.5 = 10: an exact half.
    assert_eq!(Unrounded(10).floor(), 2);
    assert_eq!(Unrounded(10).round(), 2);
    assert_eq!(Unrounded(14).round(), 4);
    assert_eq!(Unrounded(10).ceil(), 3);
    // Exact values.
    assert_eq!(Unrounded(12).floor(), 3);
    assert_eq!(Unrounded(12).round(), 3);
    assert_eq!(Unrounded(12).ceil(), 3);
    // Just above a half, and below one.
    assert_eq!(Unrounded(11).round(), 3);
    assert_eq!(Unrounded(9).round(), 2);
    assert_eq!(Unrounded(9).ceil(), 3);
    assert_eq!(Unrounded(12).nudge(-1).0, 11);
    assert_eq!(Unrounded(0).nudge(-1).0, u64::MAX);
    assert_eq!(Unrounded(12).nudge(1).0, 13);
    assert_eq!(Unrounded(8).or(Unrounded::from_bool(true)).0, 9);
    assert_eq!(Unrounded::from_bool(false).0, 0);
}

#[test]
fn unpack_normalizes() {
    assert_eq!(unpack64(1.0f64.to_bits()), (1 << 63, -63));
    assert_eq!(unpack64((-1.0f64).to_bits()), (1 << 63, -63));
    assert_eq!(unpack64(1), (1 << 63, -1137));
    assert_eq!(unpack64(f64::MAX.to_bits()), (u64::MAX - 2047, 960));
    assert_eq!(unpack64(3.0f64.to_bits()), (3 << 62, -62));
}

#[test]
fn scaling_multiplies() {
    assert_eq!(mul64(u64::MAX, u64::MAX), (u64::MAX - 1, 1));
    assert_eq!(mul64(1 << 32, 1 << 32), (1, 0));
    // 10^0 has the mantissa 2^127, and 1.0 = 2^63 · 2^-63 scales to 4 · 1.
    let c = prescale(-63, 0, 0);
    assert_eq!(c.s, 60);
    assert_eq!((c.pm.hi, c.pm.lo), (1 << 63, 0));
    assert_eq!(uscale(1 << 63, c).0, 4);
    // 3·2^62 · 2^-64 = 0.75 scales to 4 · 0.75 = 3.
    let c = prescale(-64, 0, 0);
    assert_eq!(uscale(3 << 62, c).0, 3);
}
