use numeric_cast::int_type::{max_value, min_value, saturate, Signedness, Width};
use numeric_cast::integer::{cast_int, IntegerValue};

const WIDTHS: [Width; 4] = [Width::W8, Width::W16, Width::W32, Width::W64];
const SIGNS: [Signedness; 2] = [Signedness::Signed, Signedness::Unsigned];

fn integer(value: i128, width: Width, signedness: Signedness) -> IntegerValue {
    IntegerValue::new(width, signedness, value).expect("value out of range for the type")
}

fn cast(
    value: i128,
    width: Width,
    signedness: Signedness,
    target_width: Width,
    target_signedness: Signedness,
) -> i128 {
    let result = cast_int(integer(value, width, signedness), target_width, target_signedness);
    assert_eq!(result.width(), target_width);
    assert_eq!(result.signedness(), target_signedness);
    result.value()
}

/// What the language's own cast gives for a 64-bit pattern.
fn native(pattern: u64, width: Width, signedness: Signedness) -> i128 {
    match (width, signedness) {
        (Width::W8, Signedness::Unsigned) => pattern as u8 as i128,
        (Width::W16, Signedness::Unsigned) => pattern as u16 as i128,
        (Width::W32, Signedness::Unsigned) => pattern as u32 as i128,
        (Width::W64, Signedness::Unsigned) => pattern as i128,
        (Width::W8, Signedness::Signed) => pattern as i8 as i128,
        (Width::W16, Signedness::Signed) => pattern as i16 as i128,
        (Width::W32, Signedness::Signed) => pattern as i32 as i128,
        (Width::W64, Signedness::Signed) => pattern as i64 as i128,
    }
}

#[test]
fn identity_on_every_unsigned_byte() {
    for u in 0..=255i128 {
        assert_eq!(cast(u, Width::W8, Signedness::Unsigned, Width::W8, Signedness::Unsigned), u);
    }
}

#[test]
fn narrowing_1000_to_u8_is_232() {
    assert_eq!(cast(1000, Width::W16, Signedness::Unsigned, Width::W8, Signedness::Unsigned), 232);
    assert_eq!(1000 % 256, 232);
}

#[test]
fn widening_1000_to_u16_is_1000() {
    assert_eq!(cast(1000, Width::W32, Signedness::Signed, Width::W16, Signedness::Unsigned), 1000);
}

#[test]
fn minus_one_as_u8_is_255() {
    assert_eq!(cast(-1, Width::W8, Signedness::Signed, Width::W8, Signedness::Unsigned), 255);
    assert_eq!(integer(-1, Width::W8, Signedness::Signed).bits(), 0xff);
}

#[test]
fn value_128_as_i16_is_128() {
    assert_eq!(cast(128, Width::W32, Signedness::Signed, Width::W16, Signedness::Signed), 128);
}

#[test]
fn value_128_as_i8_is_minus_128() {
    let result = cast_int(integer(128, Width::W16, Signedness::Signed), Width::W8, Signedness::Signed);
    assert_eq!(result.value(), -128);
    assert_eq!(result.bits(), 0x80);
}

#[test]
fn value_232_as_i8_is_minus_24() {
    assert_eq!(cast(232, Width::W8, Signedness::Unsigned, Width::W8, Signedness::Signed), -24);
}

#[test]
fn widen_then_narrow_round_trip_on_every_unsigned_byte() {
    for x in 0..=255i128 {
        let wide = cast_int(
            integer(x, Width::W8, Signedness::Unsigned),
            Width::W16,
            Signedness::Unsigned,
        );
        assert_eq!(wide.value(), x);
        let back = cast_int(wide, Width::W8, Signedness::Unsigned);
        assert_eq!(back.value(), x);
        assert_eq!(back, integer(x, Width::W8, Signedness::Unsigned));
    }
}

#[test]
fn widen_then_narrow_round_trip_through_every_wider_type() {
    for value in [-128i128, -127, -1, 0, 1, 126, 127] {
        let start = integer(value, Width::W8, Signedness::Signed);
        for width in WIDTHS {
            for signedness in SIGNS {
                let wide = cast_int(start, width, signedness);
                assert_eq!(cast_int(wide, Width::W8, Signedness::Signed), start);
            }
        }
    }
}

#[test]
fn cast_to_own_type_is_identity() {
    for width in WIDTHS {
        for signedness in SIGNS {
            for value in [min_value(width, signedness), 0, 1, max_value(width, signedness)] {
                let v = integer(value, width, signedness);
                assert_eq!(cast_int(v, width, signedness), v);
            }
        }
    }
}

#[test]
fn sign_extension_fills_the_high_bits() {
    let v = cast_int(integer(-2, Width::W8, Signedness::Signed), Width::W32, Signedness::Unsigned);
    assert_eq!(v.bits(), 0xffff_fffe);
    assert_eq!(v.value(), 4_294_967_294);
    let v = cast_int(integer(-2, Width::W16, Signedness::Signed), Width::W64, Signedness::Signed);
    assert_eq!(v.bits(), 0xffff_ffff_ffff_fffe);
    assert_eq!(v.value(), -2);
}

#[test]
fn zero_extension_keeps_the_pattern() {
    let v = cast_int(integer(0xfe, Width::W8, Signedness::Unsigned), Width::W32, Signedness::Signed);
    assert_eq!(v.bits(), 0xfe);
    assert_eq!(v.value(), 254);
    let v = cast_int(integer(127, Width::W8, Signedness::Signed), Width::W16, Signedness::Unsigned);
    assert_eq!(v.bits(), 127);
}

#[test]
fn widening_keeps_non_negative_values() {
    for value in [0i128, 1, 127, 128, 255] {
        for width in [Width::W16, Width::W32, Width::W64] {
            for signedness in SIGNS {
                assert_eq!(cast(value, Width::W8, Signedness::Unsigned, width, signedness), value);
            }
        }
    }
}

#[test]
fn widening_keeps_values_under_the_same_signedness() {
    for value in [-32768i128, -1, 0, 32767] {
        for width in [Width::W16, Width::W32, Width::W64] {
            assert_eq!(
                cast(value, Width::W16, Signedness::Signed, width, Signedness::Signed),
                value
            );
        }
    }
}

#[test]
fn matches_native_casts_from_every_16_bit_pattern() {
    for pattern in 0..=0xffffu64 {
        for source_sign in SIGNS {
            let source = IntegerValue::from_bits(Width::W16, source_sign, pattern).unwrap();
            assert_eq!(source.value(), native(pattern, Width::W16, source_sign));
            let extended = source.value() as u64;
            for width in WIDTHS {
                for signedness in SIGNS {
                    let result = cast_int(source, width, signedness);
                    assert_eq!(result.value(), native(extended, width, signedness));
                }
            }
        }
    }
}

#[test]
fn matches_native_casts_from_chosen_64_bit_patterns() {
    let patterns = [
        0u64,
        1,
        0x7f,
        0x80,
        0xff,
        0x100,
        0x7fff,
        0x8000,
        0xffff,
        0x1_0000,
        0x7fff_ffff,
        0x8000_0000,
        0xffff_ffff,
        0x1_0000_0000,
        0x1234_5678_9abc_def0,
        0x7fff_ffff_ffff_ffff,
        0x8000_0000_0000_0000,
        0xffff_ffff_ffff_ffff,
    ];
    for pattern in patterns {
        for source_sign in SIGNS {
            let source = IntegerValue::from_bits(Width::W64, source_sign, pattern).unwrap();
            for width in WIDTHS {
                for signedness in SIGNS {
                    let result = cast_int(source, width, signedness);
                    assert_eq!(result.value(), native(pattern, width, signedness));
                }
            }
        }
    }
}

#[test]
fn new_accepts_exactly_the_range() {
    assert!(IntegerValue::new(Width::W8, Signedness::Unsigned, 255).is_some());
    assert!(IntegerValue::new(Width::W8, Signedness::Unsigned, 256).is_none());
    assert!(IntegerValue::new(Width::W8, Signedness::Unsigned, -1).is_none());
    assert!(IntegerValue::new(Width::W8, Signedness::Signed, -128).is_some());
    assert!(IntegerValue::new(Width::W8, Signedness::Signed, -129).is_none());
    assert!(IntegerValue::new(Width::W8, Signedness::Signed, 128).is_none());
    assert!(IntegerValue::new(Width::W64, Signedness::Unsigned, u64::MAX as i128).is_some());
    assert!(IntegerValue::new(Width::W64, Signedness::Unsigned, u64::MAX as i128 + 1).is_none());
    assert!(IntegerValue::new(Width::W64, Signedness::Signed, i64::MIN as i128).is_some());
    assert!(IntegerValue::new(Width::W64, Signedness::Signed, i64::MIN as i128 - 1).is_none());
}

#[test]
fn new_and_value_round_trip() {
    for width in WIDTHS {
        for signedness in SIGNS {
            let lo = min_value(width, signedness);
            let hi = max_value(width, signedness);
            for value in [lo, lo + 1, hi / 2, hi - 1, hi] {
                let v = integer(value, width, signedness);
                assert_eq!(v.value(), value);
                assert_eq!(v.is_negative(), value < 0);
                assert_eq!(IntegerValue::from_bits(width, signedness, v.bits()), Some(v));
            }
        }
    }
}

#[test]
fn from_bits_rejects_bits_beyond_the_width() {
    assert!(IntegerValue::from_bits(Width::W8, Signedness::Unsigned, 0x100).is_none());
    assert!(IntegerValue::from_bits(Width::W16, Signedness::Signed, 0x1_0000).is_none());
    assert!(IntegerValue::from_bits(Width::W32, Signedness::Signed, 0x1_0000_0000).is_none());
    assert!(IntegerValue::from_bits(Width::W64, Signedness::Signed, u64::MAX).is_some());
    let v = IntegerValue::from_bits(Width::W8, Signedness::Signed, 0xe8).unwrap();
    assert_eq!(v.value(), -24);
}

#[test]
fn bounds_of_every_type() {
    assert_eq!(min_value(Width::W8, Signedness::Unsigned), u8::MIN as i128);
    assert_eq!(max_value(Width::W8, Signedness::Unsigned), u8::MAX as i128);
    assert_eq!(min_value(Width::W8, Signedness::Signed), i8::MIN as i128);
    assert_eq!(max_value(Width::W8, Signedness::Signed), i8::MAX as i128);
    assert_eq!(min_value(Width::W16, Signedness::Unsigned), u16::MIN as i128);
    assert_eq!(max_value(Width::W16, Signedness::Unsigned), u16::MAX as i128);
    assert_eq!(min_value(Width::W16, Signedness::Signed), i16::MIN as i128);
    assert_eq!(max_value(Width::W16, Signedness::Signed), i16::MAX as i128);
    assert_eq!(min_value(Width::W32, Signedness::Unsigned), u32::MIN as i128);
    assert_eq!(max_value(Width::W32, Signedness::Unsigned), u32::MAX as i128);
    assert_eq!(min_value(Width::W32, Signedness::Signed), i32::MIN as i128);
    assert_eq!(max_value(Width::W32, Signedness::Signed), i32::MAX as i128);
    assert_eq!(min_value(Width::W64, Signedness::Unsigned), u64::MIN as i128);
    assert_eq!(max_value(Width::W64, Signedness::Unsigned), u64::MAX as i128);
    assert_eq!(min_value(Width::W64, Signedness::Signed), i64::MIN as i128);
    assert_eq!(max_value(Width::W64, Signedness::Signed), i64::MAX as i128);
}

#[test]
fn width_bit_counts_and_masks() {
    assert_eq!(Width::W8.bit_count(), 8);
    assert_eq!(Width::W16.bit_count(), 16);
    assert_eq!(Width::W32.bit_count(), 32);
    assert_eq!(Width::W64.bit_count(), 64);
    assert_eq!(Width::W8.mask(), u8::MAX as u64);
    assert_eq!(Width::W16.mask(), u16::MAX as u64);
    assert_eq!(Width::W32.mask(), u32::MAX as u64);
    assert_eq!(Width::W64.mask(), u64::MAX);
}

#[test]
fn saturate_clamps_to_the_nearest_bound() {
    assert_eq!(saturate(300, Width::W8, Signedness::Unsigned), 255);
    assert_eq!(saturate(-100, Width::W8, Signedness::Unsigned), 0);
    assert_eq!(saturate(200, Width::W8, Signedness::Unsigned), 200);
    assert_eq!(saturate(200, Width::W8, Signedness::Signed), 127);
    assert_eq!(saturate(-200, Width::W8, Signedness::Signed), -128);
    assert_eq!(saturate(i128::MAX, Width::W64, Signedness::Unsigned), u64::MAX as i128);
    assert_eq!(saturate(i128::MIN, Width::W64, Signedness::Signed), i64::MIN as i128);
}
