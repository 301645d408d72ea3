use fpfmt::Buffer;
use rand::rngs::SmallRng;
use rand::{RngCore as _, SeedableRng as _};

fn random_finite(rng: &mut SmallRng) -> u64 {
    loop {
        let bits = rng.next_u64();
        if f64::from_bits(bits).is_finite() {
            return bits;
        }
    }
}

/// The significand and exponent of `{:e}`, the shortest representation std prints.
fn std_digits(f: f64) -> (String, i32) {
    let s = format!("{:e}", f.abs());
    let (mant, exp) = s.split_once('e').unwrap();
    (mant.replace('.', ""), exp.parse().unwrap())
}

fn is_grammatical(s: &str) -> bool {
    let b = s.as_bytes();
    let mut i = 0;
    if b.first() == Some(&b'-') {
        i = 1;
    }
    if i >= b.len() || !b[i].is_ascii_digit() {
        return false;
    }
    i += 1;
    let mut digits = 1;
    if i < b.len() && b[i] == b'.' {
        i += 1;
        let start = i;
        while i < b.len() && b[i].is_ascii_digit() {
            i += 1;
        }
        if i == start {
            return false;
        }
        digits += i - start;
    }
    if digits > 17 || i >= b.len() || b[i] != b'e' {
        return false;
    }
    i += 1;
    if i >= b.len() || (b[i] != b'+' && b[i] != b'-') {
        return false;
    }
    i += 1;
    let exp = b.len() - i;
    (exp == 2 || exp == 3) && b[i..].iter().all(|c| c.is_ascii_digit())
}

#[test]
fn shortest_like_std() {
    let mut rng = SmallRng::seed_from_u64(7);
    let mut buffer = Buffer::new();
    for _ in 0..100_000 {
        let bits = random_finite(&mut rng) & !(1 << 63);
        let f = f64::from_bits(bits);
        if f == 0.0 {
            continue;
        }
        let (d, q) = fpfmt::short::short(bits);
        let (digits, exp) = std_digits(f);
        // Same length; at an exact tie std rounds half up where this rounds half to even.
        assert_eq!(d.to_string().len(), digits.len(), "{f:e}");
        assert!(d.abs_diff(digits.parse::<u64>().unwrap()) <= 1, "{f:e}");
        assert_eq!(q + digits.len() as i64 - 1, exp as i64, "{f:e}");
        let text = buffer.format_finite(bits);
        assert_eq!(text.parse::<f64>().unwrap(), f);
    }
}

#[test]
fn sign_handling() {
    let mut rng = SmallRng::seed_from_u64(11);
    let mut buffer = Buffer::new();
    for _ in 0..20_000 {
        let bits = random_finite(&mut rng) & !(1 << 63);
        let positive = buffer.format_finite(bits).to_string();
        let negative = buffer.format_finite(bits | (1 << 63)).to_string();
        assert_eq!(negative, format!("-{positive}"));
    }
}

#[test]
fn determinism() {
    let mut rng = SmallRng::seed_from_u64(13);
    let mut a = Buffer::new();
    let mut b = Buffer::new();
    for _ in 0..20_000 {
        let bits = random_finite(&mut rng);
        let first = a.format_finite(bits).to_string();
        let _ = a.format_finite(random_finite(&mut rng));
        assert_eq!(first, a.format_finite(bits));
        assert_eq!(first, b.format_finite(bits));
    }
}

#[test]
fn exponent_form() {
    let mut rng = SmallRng::seed_from_u64(17);
    let mut buffer = Buffer::new();
    for _ in 0..50_000 {
        let bits = random_finite(&mut rng);
        if bits & !(1 << 63) == 0 {
            continue;
        }
        let text = buffer.format_finite(bits);
        assert!(is_grammatical(text), "{text}");
    }
    for bits in [1u64, 0x7FEF_FFFF_FFFF_FFFF, 0x0010_0000_0000_0000, 0x3FF0_0000_0000_0000] {
        assert!(is_grammatical(buffer.format_finite(bits)));
    }
}

#[test]
fn trailing_zeros_removed() {
    let mut rng = SmallRng::seed_from_u64(19);
    for _ in 0..50_000 {
        let bits = random_finite(&mut rng) & !(1 << 63);
        if bits == 0 {
            continue;
        }
        let (d, _) = fpfmt::short::short(bits);
        assert!(d % 10 != 0, "{bits:x}");
    }
    for f in [1.0f64, 10.0, 100.0, 1e22, 1e300, 1e-300, 120.0] {
        let (d, _) = fpfmt::short::short(f.to_bits());
        assert!(d % 10 != 0);
    }
}

#[test]
fn log_approximations_are_exact() {
    for x in -1085i64..=1024 {
        let exact = (x as f64 * std::f64::consts::LOG10_2).floor() as i64;
        assert_eq!(fpfmt::logs::log10_pow2(x), exact, "log10_pow2({x})");
    }
    for x in -400i64..=400 {
        let exact = (x as f64 * std::f64::consts::LOG2_10).floor() as i64;
        assert_eq!(fpfmt::logs::log2_pow10(x), exact, "log2_pow10({x})");
    }
    for x in -1085i64..=1024 {
        let exact = (x as f64 * std::f64::consts::LOG10_2 + 0.75f64.log10()).floor() as i64;
        assert_eq!(fpfmt::logs::skewed(x), exact, "skewed({x})");
    }
    assert_eq!(fpfmt::logs::log10_pow2(10), 3);
    assert_eq!(fpfmt::logs::log10_pow2(-1), -1);
    assert_eq!(fpfmt::logs::log2_pow10(1), 3);
    assert_eq!(fpfmt::logs::log2_pow10(-1), -4);
    assert_eq!(fpfmt::logs::skewed(0), -1);
}
