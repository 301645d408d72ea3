use fpfmt::args::{parse, Type};

fn names() -> Vec<Vec<u8>> {
    ["dtoa", "ryu", "zmij"].iter().map(|s| s.as_bytes().to_vec()).collect()
}

fn args(list: &[&str]) -> Vec<Vec<u8>> {
    list.iter().map(|s| s.as_bytes().to_vec()).collect()
}

#[test]
fn no_arguments_select_everything() {
    let r = parse(&names(), &args(&[])).unwrap();
    assert_eq!(
        r,
        vec![
            (0, Type::F32),
            (0, Type::F64),
            (1, Type::F32),
            (1, Type::F64),
            (2, Type::F32),
            (2, Type::F64),
        ]
    );
}

#[test]
fn arguments_select_types() {
    let r = parse(&names(), &args(&["ryu", "zmij:f64", "dtoa:f32"])).unwrap();
    assert_eq!(r, vec![(1, Type::F32), (1, Type::F64), (2, Type::F64), (0, Type::F32)]);
}

#[test]
fn unsupported_arguments_are_reported() {
    assert_eq!(parse(&names(), &args(&["ryu", "grisu"])), Err(1));
    assert_eq!(parse(&names(), &args(&["ryu:f16"])), Err(0));
    assert_eq!(parse(&names(), &args(&["ryu:"])), Err(0));
    assert_eq!(parse(&names(), &args(&[":f32", "ryu"])), Err(0));
}
