use fpfmt::Buffer;

fn format(f: f64) -> String {
    let mut buffer = Buffer::new();
    buffer.format_finite(f.to_bits()).to_string()
}

#[test]
fn zero() {
    assert_eq!(format(0.0), "0.0");
}

#[test]
fn negative_zero() {
    assert_eq!(format(-0.0), "-0.0");
}

#[test]
fn one() {
    assert_eq!(format(1.0), "1e+00");
}

#[test]
fn one_tenth() {
    assert_eq!(format(0.1), "1e-01");
}

#[test]
fn pi() {
    assert_eq!(format(3.1415926535897931), "3.141592653589793e+00");
}

#[test]
fn smallest_subnormal() {
    assert_eq!(format(f64::from_bits(1)), "5e-324");
}

#[test]
fn largest_finite() {
    assert_eq!(format(f64::from_bits(0x7FEF_FFFF_FFFF_FFFF)), "1.7976931348623157e+308");
    assert_eq!(format(f64::MAX), "1.7976931348623157e+308");
}

#[test]
fn negative_values() {
    assert_eq!(format(-1.0), "-1e+00");
    assert_eq!(format(-f64::MAX), "-1.7976931348623157e+308");
    assert_eq!(format(-f64::from_bits(1)), "-5e-324");
}

#[test]
fn three_digit_exponents() {
    assert_eq!(format(1e100), "1e+100");
    assert_eq!(format(1.5e-100), "1.5e-100");
    assert_eq!(format(f64::MIN_POSITIVE), "2.2250738585072014e-308");
}

#[test]
fn powers_of_two_and_ten() {
    assert_eq!(format(2.0), "2e+00");
    assert_eq!(format(1024.0), "1.024e+03");
    assert_eq!(format(9007199254740992.0), "9.007199254740992e+15");
    assert_eq!(format(1e23), "1e+23");
    assert_eq!(format(123456.0), "1.23456e+05");
    assert_eq!(format(5e-324 * 3.0), "1.5e-323");
}

#[test]
fn buffer_is_reusable() {
    let mut buffer = Buffer::new();
    let a = buffer.format_finite(12.5f64.to_bits()).to_string();
    let b = buffer.format_finite(0.0f64.to_bits()).to_string();
    let c = buffer.format_finite(12.5f64.to_bits()).to_string();
    assert_eq!(a, "1.25e+01");
    assert_eq!(b, "0.0");
    assert_eq!(a, c);
}
