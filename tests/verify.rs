use lexical_core::FormattedSize;
use rand::rngs::SmallRng;
use rand::{RngCore as _, SeedableRng as _};

const VERIFY_RANDOM_COUNT: usize = 100_000;

type F = fn(f64, &mut dyn FnMut(&str));

fn impls() -> Vec<(&'static str, F)> {
    vec![
        ("core[Display]", |value, f| f(&format!("{value}"))),
        ("core[LowerExp]", |value, f| f(&format!("{value:e}"))),
        ("dtoa", |value, f| f(dtoa::Buffer::new().format_finite(value))),
        ("lexical", |value, f| {
            let mut buffer = [0u8; f64::FORMATTED_SIZE_DECIMAL];
            let bytes = lexical_core::write(value, &mut buffer);
            f(std::str::from_utf8(bytes).unwrap());
        }),
        ("ryu", |value, f| f(ryu::Buffer::new().format_finite(value))),
        ("teju", |value, f| f(teju::Buffer::new().format_finite(value))),
        ("zmij", |value, f| f(zmij::Buffer::new().format_finite(value))),
        ("fpfmt", |value, f| f(fpfmt::Buffer::new().format_finite(value.to_bits()))),
        ("null", |_value, f| f("")),
    ]
}

fn verify_value(value: f64, f: F) -> usize {
    let mut len = 0;

    f(value, &mut |actual| {
        let roundtrip = actual.parse::<f64>();
        assert!(roundtrip.is_ok(), "failed to parse {actual}");
        let roundtrip = roundtrip.unwrap();
        assert!(value == roundtrip, "roundtrip fail {value} -> {actual:?} -> {roundtrip}");
        len = actual.len();
    });

    len
}

fn verify(f: F, name: &str) {
    // Boundary and simple cases
    verify_value(0.0, f);
    verify_value(0.1, f);
    verify_value(0.12, f);
    verify_value(0.123, f);
    verify_value(0.1234, f);
    verify_value(1.2345, f);
    verify_value(1.0 / 3.0, f);
    verify_value(2.0 / 3.0, f);
    verify_value(10.0 / 3.0, f);
    verify_value(20.0 / 3.0, f);
    verify_value(f64::MIN, f);
    verify_value(f64::MAX, f);
    verify_value(f64::from_bits(1), f);

    let mut r = SmallRng::seed_from_u64(1);

    let mut len_sum = 0u64;
    let mut len_max = 0usize;
    for _i in 0..VERIFY_RANDOM_COUNT {
        let mut d = f64::from_bits(r.next_u64());
        while d.is_nan() || d.is_infinite() {
            d = f64::from_bits(r.next_u64());
        }
        let len = verify_value(d, f);
        len_sum += len as u64;
        len_max = usize::max(len_max, len);
    }

    let len_avg = len_sum as f64 / VERIFY_RANDOM_COUNT as f64;
    println!("Verifying {name:20} ... OK. Length Avg = {len_avg:.3}, Max = {len_max}");
}

#[test]
fn verify_all() {
    for (name, f) in impls() {
        if name != "null" {
            verify(f, name);
        }
    }
}
