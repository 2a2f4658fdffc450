use any_num::AnyNum;

type Number = AnyNum<f32, f64>;

#[test]
fn i8_displays_like_the_native_value() {
    let values: [i8; 6] = [i8::MIN, -100, -1, 0, 9, i8::MAX];
    for v in values {
        assert_eq!(Number::from(v).to_string(), v.to_string());
    }
    assert_eq!(Number::from(-128i8).to_string(), "-128");
}

#[test]
fn i16_displays_like_the_native_value() {
    let values: [i16; 6] = [i16::MIN, -1000, -10, 0, 10, i16::MAX];
    for v in values {
        assert_eq!(Number::from(v).to_string(), v.to_string());
    }
    assert_eq!(Number::from(32767i16).to_string(), "32767");
}

#[test]
fn i32_displays_like_the_native_value() {
    let values: [i32; 6] = [i32::MIN, -123456, -1, 0, 100, i32::MAX];
    for v in values {
        assert_eq!(Number::from(v).to_string(), v.to_string());
    }
    assert_eq!(Number::from(-2147483648i32).to_string(), "-2147483648");
}

#[test]
fn i64_displays_like_the_native_value() {
    let values: [i64; 6] = [i64::MIN, -9_000_000_000, -1, 0, 1_000_000_007, i64::MAX];
    for v in values {
        assert_eq!(Number::from(v).to_string(), v.to_string());
    }
    assert_eq!(Number::from(i64::MAX).to_string(), "9223372036854775807");
}

#[test]
fn i128_displays_like_the_native_value() {
    let values: [i128; 6] = [i128::MIN, i128::MIN + 1, -1, 0, 1, i128::MAX];
    for v in values {
        assert_eq!(Number::from(v).to_string(), v.to_string());
    }
    assert_eq!(
        Number::from(i128::MIN).to_string(),
        "-170141183460469231731687303715884105728"
    );
}

#[test]
fn u8_displays_like_the_native_value() {
    let values: [u8; 5] = [0, 9, 10, 99, u8::MAX];
    for v in values {
        assert_eq!(Number::from(v).to_string(), v.to_string());
    }
    assert_eq!(Number::from(255u8).to_string(), "255");
}

#[test]
fn u16_displays_like_the_native_value() {
    let values: [u16; 5] = [0, 100, 101, 9999, u16::MAX];
    for v in values {
        assert_eq!(Number::from(v).to_string(), v.to_string());
    }
    assert_eq!(Number::from(65535u16).to_string(), "65535");
}

#[test]
fn u32_displays_like_the_native_value() {
    let values: [u32; 5] = [0, 5, 1000, 4_000_000_000, u32::MAX];
    for v in values {
        assert_eq!(Number::from(v).to_string(), v.to_string());
    }
    assert_eq!(Number::from(5u32).to_string(), "5");
}

#[test]
fn u64_displays_like_the_native_value() {
    let values: [u64; 5] = [0, 1, 10_000_000_000, 1 << 63, u64::MAX];
    for v in values {
        assert_eq!(Number::from(v).to_string(), v.to_string());
    }
    assert_eq!(Number::from(u64::MAX).to_string(), "18446744073709551615");
}

#[test]
fn u128_displays_like_the_native_value() {
    let values: [u128; 5] = [0, 7, 1 << 64, 1 << 127, u128::MAX];
    for v in values {
        assert_eq!(Number::from(v).to_string(), v.to_string());
    }
    assert_eq!(
        Number::from(u128::MAX).to_string(),
        "340282366920938463463374607431768211455"
    );
}

#[test]
fn f32_displays_like_the_native_value() {
    let values: [f32; 7] = [0.0, -0.0, 1.5, -2.25, 1.0e10, f32::INFINITY, f32::NAN];
    for v in values {
        assert_eq!(Number::from_f32(v).to_string(), v.to_string());
    }
    assert_eq!(Number::from_f32(1.5).to_string(), "1.5");
}

#[test]
fn f64_displays_like_the_native_value() {
    let values: [f64; 7] = [0.0, -0.0, 0.1, -1234.5678, 1.0e300, f64::NEG_INFINITY, f64::NAN];
    for v in values {
        assert_eq!(Number::from_f64(v).to_string(), v.to_string());
    }
    assert_eq!(Number::from_f64(5.0).to_string(), "5");
}
