use any_num::{AnyNum, KindMismatch, NumKind};

type Number = AnyNum<f32, f64>;

fn text_of(out: Result<Number, KindMismatch>) -> String {
    match out {
        Ok(number) => number.to_string(),
        Err(mismatch) => panic!("kinds {:?} and {:?} do not match", mismatch.left, mismatch.right),
    }
}

fn mismatch_of(out: Result<Number, KindMismatch>) -> KindMismatch {
    match out {
        Ok(number) => panic!("numbers of different kinds gave {}", number.to_string()),
        Err(mismatch) => mismatch,
    }
}

#[test]
fn i8_adds_natively() {
    let x: i8 = -100;
    let y: i8 = 27;
    assert_eq!(text_of(Number::from(x) + Number::from(y)), (x + y).to_string());
    assert_eq!(text_of(Number::from(x) + Number::from(y)), "-73");
}

#[test]
fn i16_adds_natively() {
    let x: i16 = 30000;
    let y: i16 = -32000;
    assert_eq!(text_of(Number::from(x) + Number::from(y)), (x + y).to_string());
    assert_eq!(text_of(Number::from(x) + Number::from(y)), "-2000");
}

#[test]
fn i32_adds_natively() {
    let x: i32 = i32::MAX - 1;
    let y: i32 = 1;
    assert_eq!(text_of(Number::from(x) + Number::from(y)), (x + y).to_string());
    assert_eq!(text_of(Number::from(x) + Number::from(y)), "2147483647");
}

#[test]
fn i64_adds_natively() {
    let x: i64 = -4_000_000_000;
    let y: i64 = -5_000_000_000;
    assert_eq!(text_of(Number::from(x) + Number::from(y)), (x + y).to_string());
    assert_eq!(text_of(Number::from(x) + Number::from(y)), "-9000000000");
}

#[test]
fn i128_adds_natively() {
    let x: i128 = i128::MIN + 5;
    let y: i128 = -5;
    assert_eq!(text_of(Number::from(x) + Number::from(y)), (x + y).to_string());
    assert_eq!(text_of(Number::from(x) + Number::from(y)), i128::MIN.to_string());
}

#[test]
fn u8_adds_natively() {
    let x: u8 = 200;
    let y: u8 = 55;
    assert_eq!(text_of(Number::from(x) + Number::from(y)), (x + y).to_string());
    assert_eq!(text_of(Number::from(x) + Number::from(y)), "255");
}

#[test]
fn u16_adds_natively() {
    let x: u16 = 999;
    let y: u16 = 1;
    assert_eq!(text_of(Number::from(x) + Number::from(y)), (x + y).to_string());
    assert_eq!(text_of(Number::from(x) + Number::from(y)), "1000");
}

#[test]
fn u32_adds_natively() {
    let x: u32 = 5;
    let y: u32 = 7;
    assert_eq!(text_of(Number::from(x) + Number::from(y)), (x + y).to_string());
    assert_eq!(text_of(Number::from(x) + Number::from(y)), "12");
}

#[test]
fn u64_adds_natively() {
    let x: u64 = u64::MAX - 10;
    let y: u64 = 10;
    assert_eq!(text_of(Number::from(x) + Number::from(y)), (x + y).to_string());
    assert_eq!(text_of(Number::from(x) + Number::from(y)), "18446744073709551615");
}

#[test]
fn u128_adds_natively() {
    let x: u128 = 1 << 100;
    let y: u128 = 1 << 100;
    assert_eq!(text_of(Number::from(x) + Number::from(y)), (x + y).to_string());
    assert_eq!(text_of(Number::from(x) + Number::from(y)), (1u128 << 101).to_string());
}

#[test]
fn f32_adds_natively() {
    let x: f32 = 0.1;
    let y: f32 = 0.2;
    assert_eq!(text_of(Number::from_f32(x) + Number::from_f32(y)), (x + y).to_string());
    assert_eq!(text_of(Number::from_f32(1.5) + Number::from_f32(2.25)), "3.75");
    assert_eq!(text_of(Number::from_f32(f32::MAX) + Number::from_f32(f32::MAX)), "inf");
}

#[test]
fn f64_adds_natively() {
    let x: f64 = 0.1;
    let y: f64 = 0.2;
    assert_eq!(text_of(Number::from_f64(x) + Number::from_f64(y)), (x + y).to_string());
    assert_eq!(text_of(Number::from_f64(x) + Number::from_f64(y)), "0.30000000000000004");
    assert_eq!(text_of(Number::from_f64(f64::INFINITY) + Number::from_f64(f64::NEG_INFINITY)), "NaN");
}

#[test]
fn the_sum_is_of_the_kind_of_its_operands() {
    assert_eq!((Number::from(1u8) + Number::from(2u8)).unwrap().kind(), NumKind::U8);
    assert_eq!((Number::from(1i64) + Number::from(2i64)).unwrap().kind(), NumKind::I64);
    assert_eq!((Number::from_f32(1.0) + Number::from_f32(2.0)).unwrap().kind(), NumKind::F32);
    assert_eq!((Number::from_f64(1.0) + Number::from_f64(2.0)).unwrap().kind(), NumKind::F64);
}

#[test]
fn subtraction_is_native() {
    assert_eq!(text_of(Number::from(5u32) - Number::from(5u32)), "0");
    assert_eq!(text_of(Number::from(-128i8) - Number::from(-1i8)), "-127");
    assert_eq!(text_of(Number::from(0i128) - Number::from(i128::MAX)), (-i128::MAX).to_string());
    assert_eq!(text_of(Number::from(u128::MAX) - Number::from(1u128)), (u128::MAX - 1).to_string());
    assert_eq!(text_of(Number::from(7i16) - Number::from(9i16)), "-2");
    assert_eq!(text_of(Number::from_f64(1.0) - Number::from_f64(0.75)), "0.25");
    assert_eq!(text_of(Number::from_f32(1.0) - Number::from_f32(2.5)), "-1.5");
}

#[test]
fn multiplication_is_native() {
    assert_eq!(text_of(Number::from(15u8) * Number::from(17u8)), "255");
    assert_eq!(text_of(Number::from(-16i8) * Number::from(8i8)), "-128");
    assert_eq!(text_of(Number::from(65536u64) * Number::from(65536u64)), "4294967296");
    assert_eq!(text_of(Number::from(-3i32) * Number::from(-7i32)), "21");
    assert_eq!(text_of(Number::from(1u128 << 64) * Number::from(1u128 << 63)), (1u128 << 127).to_string());
    assert_eq!(text_of(Number::from_f32(1.5) * Number::from_f32(-2.0)), "-3");
    assert_eq!(text_of(Number::from_f64(0.5) * Number::from_f64(0.5)), "0.25");
}

#[test]
fn division_rounds_toward_zero() {
    assert_eq!(text_of(Number::from(7i32) / Number::from(2i32)), "3");
    assert_eq!(text_of(Number::from(-7i32) / Number::from(2i32)), "-3");
    assert_eq!(text_of(Number::from(7i32) / Number::from(-2i32)), "-3");
    assert_eq!(text_of(Number::from(-7i32) / Number::from(-2i32)), "3");
    assert_eq!(text_of(Number::from(-128i8) / Number::from(1i8)), "-128");
    assert_eq!(text_of(Number::from(-128i8) / Number::from(-128i8)), "1");
    assert_eq!(text_of(Number::from(-127i8) / Number::from(-1i8)), "127");
    assert_eq!(text_of(Number::from(i128::MIN) / Number::from(2i128)), (i128::MIN / 2).to_string());
    assert_eq!(text_of(Number::from(i64::MIN) / Number::from(i64::MAX)), "-1");
    assert_eq!(text_of(Number::from(255u8) / Number::from(2u8)), "127");
    assert_eq!(text_of(Number::from(u128::MAX) / Number::from(u128::MAX)), "1");
    assert_eq!(text_of(Number::from(0u16) / Number::from(9u16)), "0");
}

#[test]
fn float_division_is_native() {
    assert_eq!(text_of(Number::from_f64(1.0) / Number::from_f64(4.0)), "0.25");
    assert_eq!(text_of(Number::from_f64(1.0) / Number::from_f64(0.0)), "inf");
    assert_eq!(text_of(Number::from_f32(-1.0) / Number::from_f32(0.0)), "-inf");
    assert_eq!(text_of(Number::from_f32(0.0) / Number::from_f32(0.0)), "NaN");
}

#[test]
fn adjacent_unsigned_widths_do_not_add() {
    assert_eq!(
        mismatch_of(Number::from(1u8) + Number::from(1u16)),
        KindMismatch { left: NumKind::U8, right: NumKind::U16 }
    );
    assert_eq!(
        mismatch_of(Number::from(1u16) + Number::from(1u32)),
        KindMismatch { left: NumKind::U16, right: NumKind::U32 }
    );
    assert_eq!(
        mismatch_of(Number::from(1u32) + Number::from(1u64)),
        KindMismatch { left: NumKind::U32, right: NumKind::U64 }
    );
    assert_eq!(
        mismatch_of(Number::from(1u64) + Number::from(1u128)),
        KindMismatch { left: NumKind::U64, right: NumKind::U128 }
    );
}

#[test]
fn adjacent_signed_widths_do_not_add() {
    assert_eq!(
        mismatch_of(Number::from(1i8) + Number::from(1i16)),
        KindMismatch { left: NumKind::I8, right: NumKind::I16 }
    );
    assert_eq!(
        mismatch_of(Number::from(1i16) + Number::from(1i32)),
        KindMismatch { left: NumKind::I16, right: NumKind::I32 }
    );
    assert_eq!(
        mismatch_of(Number::from(1i32) + Number::from(1i64)),
        KindMismatch { left: NumKind::I32, right: NumKind::I64 }
    );
    assert_eq!(
        mismatch_of(Number::from(1i64) + Number::from(1i128)),
        KindMismatch { left: NumKind::I64, right: NumKind::I128 }
    );
}

#[test]
fn the_two_float_widths_do_not_add() {
    assert_eq!(
        mismatch_of(Number::from_f32(1.0) + Number::from_f64(1.0)),
        KindMismatch { left: NumKind::F32, right: NumKind::F64 }
    );
    assert_eq!(
        mismatch_of(Number::from_f64(1.0) + Number::from_f32(1.0)),
        KindMismatch { left: NumKind::F64, right: NumKind::F32 }
    );
}

#[test]
fn integers_and_floats_do_not_add() {
    assert_eq!(
        mismatch_of(Number::from(8i8) + Number::from_f64(8.0)),
        KindMismatch { left: NumKind::I8, right: NumKind::F64 }
    );
    assert_eq!(
        mismatch_of(Number::from_f32(8.0) + Number::from(8u32)),
        KindMismatch { left: NumKind::F32, right: NumKind::U32 }
    );
}

#[test]
fn a_mismatch_is_not_a_zero_of_some_kind() {
    let out = Number::from(3u32) + Number::from(4u8);
    assert!(out.is_err());
    assert!(!matches!(out, Ok(AnyNum::U8(_))));
}

#[test]
fn every_operation_refuses_different_kinds() {
    let mismatch = KindMismatch { left: NumKind::I32, right: NumKind::U32 };
    assert_eq!(mismatch_of(Number::from(6i32) + Number::from(3u32)), mismatch);
    assert_eq!(mismatch_of(Number::from(6i32) - Number::from(3u32)), mismatch);
    assert_eq!(mismatch_of(Number::from(6i32) * Number::from(3u32)), mismatch);
    assert_eq!(mismatch_of(Number::from(6i32) / Number::from(3u32)), mismatch);
    assert_eq!(
        mismatch_of(Number::from(6i32) / Number::from(0u32)),
        KindMismatch { left: NumKind::I32, right: NumKind::U32 }
    );
}

#[test]
fn sums_that_leave_the_kind_are_told_apart() {
    assert!(Number::from(200u8).sum_fits(&Number::from(55u8)));
    assert!(!Number::from(200u8).sum_fits(&Number::from(56u8)));
    assert!(Number::from(-100i8).sum_fits(&Number::from(-28i8)));
    assert!(!Number::from(-100i8).sum_fits(&Number::from(-29i8)));
    assert!(!Number::from(u128::MAX).sum_fits(&Number::from(1u128)));
    assert!(!Number::from(i128::MIN).sum_fits(&Number::from(-1i128)));
    assert!(Number::from(200u8).sum_fits(&Number::from(200u16)));
    assert!(Number::from_f32(f32::MAX).sum_fits(&Number::from_f32(f32::MAX)));
}

#[test]
fn differences_that_leave_the_kind_are_told_apart() {
    assert!(Number::from(5u32).difference_fits(&Number::from(5u32)));
    assert!(!Number::from(5u32).difference_fits(&Number::from(6u32)));
    assert!(Number::from(i64::MIN).difference_fits(&Number::from(0i64)));
    assert!(!Number::from(i64::MIN).difference_fits(&Number::from(1i64)));
    assert!(!Number::from(0i16).difference_fits(&Number::from(i16::MIN)));
    assert!(Number::from(0u8).difference_fits(&Number::from(1i8)));
    assert!(Number::from_f64(0.0).difference_fits(&Number::from_f64(1.0)));
}

#[test]
fn products_that_leave_the_kind_are_told_apart() {
    assert!(Number::from(15u8).product_fits(&Number::from(17u8)));
    assert!(!Number::from(16u8).product_fits(&Number::from(16u8)));
    assert!(Number::from(-16i8).product_fits(&Number::from(8i8)));
    assert!(!Number::from(16i8).product_fits(&Number::from(8i8)));
    assert!(!Number::from(i32::MIN).product_fits(&Number::from(-1i32)));
    assert!(Number::from(16u8).product_fits(&Number::from(16u64)));
    assert!(Number::from_f32(1.0e30).product_fits(&Number::from_f32(1.0e30)));
}

#[test]
fn quotients_that_do_not_exist_are_told_apart() {
    assert!(Number::from(7u8).quotient_fits(&Number::from(2u8)));
    assert!(!Number::from(7u8).quotient_fits(&Number::from(0u8)));
    assert!(!Number::from(0i64).quotient_fits(&Number::from(0i64)));
    assert!(!Number::from(i8::MIN).quotient_fits(&Number::from(-1i8)));
    assert!(Number::from(i8::MIN).quotient_fits(&Number::from(1i8)));
    assert!(Number::from(-127i8).quotient_fits(&Number::from(-1i8)));
    assert!(!Number::from(i128::MIN).quotient_fits(&Number::from(-1i128)));
    assert!(Number::from(7u8).quotient_fits(&Number::from(0u16)));
    assert!(Number::from_f64(1.0).quotient_fits(&Number::from_f64(0.0)));
}
