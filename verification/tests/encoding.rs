use blockchain::encoding::build_digest_input;
use blockchain::encoding::push_decimal;

fn decimal_of(n: u128) -> Vec<u8> {
    let mut out = Vec::new();
    push_decimal(&mut out, n);
    out
}

#[test]
fn decimal_of_zero_is_one_digit() {
    assert_eq!(decimal_of(0), b"0".to_vec());
}

#[test]
fn decimal_of_single_digits() {
    assert_eq!(decimal_of(7), b"7".to_vec());
    assert_eq!(decimal_of(9), b"9".to_vec());
}

#[test]
fn decimal_of_ten_has_two_digits() {
    assert_eq!(decimal_of(10), b"10".to_vec());
}

#[test]
fn decimal_has_no_leading_zeros() {
    assert_eq!(decimal_of(1000), b"1000".to_vec());
    assert_eq!(decimal_of(1001), b"1001".to_vec());
    assert_eq!(decimal_of(12345), b"12345".to_vec());
}

#[test]
fn decimal_of_largest_values() {
    assert_eq!(decimal_of(u64::MAX as u128), b"18446744073709551615".to_vec());
    assert_eq!(
        decimal_of(u128::MAX),
        b"340282366920938463463374607431768211455".to_vec()
    );
}

#[test]
fn decimal_agrees_with_std_formatting() {
    let samples: Vec<u128> = vec![
        0,
        1,
        9,
        10,
        11,
        99,
        100,
        101,
        65535,
        1_700_000_000,
        4_294_967_296,
        u64::MAX as u128,
        u64::MAX as u128 + 1,
        u128::MAX,
    ];
    for n in samples {
        assert_eq!(decimal_of(n), format!("{}", n).into_bytes());
    }
}

#[test]
fn decimal_is_appended_to_what_is_there() {
    let mut out = b"ab".to_vec();
    push_decimal(&mut out, 42);
    assert_eq!(out, b"ab42".to_vec());
}

#[test]
fn digest_input_of_genesis_fields() {
    assert_eq!(
        build_digest_input(0, b"", 0, b"initial data"),
        b"00initial data".to_vec()
    );
}

#[test]
fn digest_input_concatenates_in_order() {
    assert_eq!(
        build_digest_input(12, &[0xff, 0x00], 1_700_000_000, b"pay"),
        vec![b'1', b'2', 0xff, 0x00, b'1', b'7', b'0', b'0', b'0', b'0', b'0', b'0', b'0', b'0', b'p', b'a', b'y']
    );
}

#[test]
fn digest_input_of_empty_parts() {
    assert_eq!(build_digest_input(5, b"", 6, b""), b"56".to_vec());
}

#[test]
fn digest_input_changes_with_each_single_value() {
    let base = build_digest_input(1, b"prev", 23, b"data");
    assert_ne!(base, build_digest_input(2, b"prev", 23, b"data"));
    assert_ne!(base, build_digest_input(1, b"prew", 23, b"data"));
    assert_ne!(base, build_digest_input(1, b"prev", 24, b"data"));
    assert_ne!(base, build_digest_input(1, b"prev", 23, b"dbta"));
}

#[test]
fn digest_input_can_repeat_when_two_values_change() {
    assert_eq!(
        build_digest_input(1, b"", 23, b"x"),
        build_digest_input(12, b"", 3, b"x")
    );
}
