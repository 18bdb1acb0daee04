use ehyve::text::{push_decimal, push_hex, to_decimal, to_hex};

#[test]
fn hex_pads_with_zeros_to_the_width() {
    assert_eq!(to_hex(0x2, 16), "0000000000000002");
    assert_eq!(to_hex(0xa09b, 8), "0000a09b");
    assert_eq!(to_hex(0x10, 4), "0010");
    assert_eq!(to_hex(0xb, 2), "0b");
}

#[test]
fn hex_of_zero_is_one_digit_at_least() {
    assert_eq!(to_hex(0, 0), "0");
    assert_eq!(to_hex(0, 1), "0");
    assert_eq!(to_hex(0, 4), "0000");
}

#[test]
fn hex_writes_a_wide_value_in_full() {
    assert_eq!(to_hex(0x12345, 4), "12345");
    assert_eq!(to_hex(u64::MAX, 1), "ffffffffffffffff");
    assert_eq!(to_hex(u64::MAX, 16), "ffffffffffffffff");
    assert_eq!(to_hex(0x1_0000_0000, 8), "100000000");
}

#[test]
fn hex_uses_lower_case_digits() {
    assert_eq!(to_hex(0x0123_4567_89ab_cdef, 16), "0123456789abcdef");
}

#[test]
fn hex_agrees_with_the_standard_formatter() {
    let values: [u64; 9] = [0, 1, 0xf, 0x10, 0xff, 0xfee0_0000, 0x8000_0000_0000_0000, 0x0fff_ffff_ffff_ffff, u64::MAX];
    for value in values {
        assert_eq!(to_hex(value, 1), format!("{:x}", value));
        assert_eq!(to_hex(value, 2), format!("{:02x}", value));
        assert_eq!(to_hex(value, 4), format!("{:04x}", value));
        assert_eq!(to_hex(value, 8), format!("{:08x}", value));
        assert_eq!(to_hex(value, 16), format!("{:016x}", value));
        assert_eq!(to_hex(value, 20), format!("{:020x}", value));
    }
}

#[test]
fn hex_is_appended_to_what_is_there() {
    let mut text = String::from("rip: ");
    push_hex(&mut text, 0x1000, 16);
    assert_eq!(text, "rip: 0000000000001000");
}

#[test]
fn decimal_of_some_numbers() {
    assert_eq!(to_decimal(0), "0");
    assert_eq!(to_decimal(7), "7");
    assert_eq!(to_decimal(10), "10");
    assert_eq!(to_decimal(4096), "4096");
    assert_eq!(to_decimal(u32::MAX), "4294967295");
}

#[test]
fn decimal_agrees_with_the_standard_formatter() {
    let values: [u32; 8] = [0, 9, 10, 99, 100, 65535, 1_000_000_000, u32::MAX];
    for value in values {
        assert_eq!(to_decimal(value), format!("{}", value));
    }
}

#[test]
fn decimal_is_appended_to_what_is_there() {
    let mut text = String::from("CPU ");
    push_decimal(&mut text, 12);
    assert_eq!(text, "CPU 12");
}
