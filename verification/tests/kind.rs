use any_num::{AnyNum, NumKind};

type Number = AnyNum<f32, f64>;

#[test]
fn tags_count_the_kinds_in_order() {
    assert_eq!(NumKind::I8.tag(), 0);
    assert_eq!(NumKind::I16.tag(), 1);
    assert_eq!(NumKind::I32.tag(), 2);
    assert_eq!(NumKind::I64.tag(), 3);
    assert_eq!(NumKind::I128.tag(), 4);
    assert_eq!(NumKind::U8.tag(), 5);
    assert_eq!(NumKind::U16.tag(), 6);
    assert_eq!(NumKind::U32.tag(), 7);
    assert_eq!(NumKind::U64.tag(), 8);
    assert_eq!(NumKind::U128.tag(), 9);
    assert_eq!(NumKind::F32.tag(), 10);
    assert_eq!(NumKind::F64.tag(), 11);
}

#[test]
fn conversion_picks_the_kind_of_the_native_type() {
    assert_eq!(Number::from(1i8).kind(), NumKind::I8);
    assert_eq!(Number::from(1i16).kind(), NumKind::I16);
    assert_eq!(Number::from(1i32).kind(), NumKind::I32);
    assert_eq!(Number::from(1i64).kind(), NumKind::I64);
    assert_eq!(Number::from(1i128).kind(), NumKind::I128);
    assert_eq!(Number::from(1u8).kind(), NumKind::U8);
    assert_eq!(Number::from(1u16).kind(), NumKind::U16);
    assert_eq!(Number::from(1u32).kind(), NumKind::U32);
    assert_eq!(Number::from(1u64).kind(), NumKind::U64);
    assert_eq!(Number::from(1u128).kind(), NumKind::U128);
    assert_eq!(Number::from_f32(1.0).kind(), NumKind::F32);
    assert_eq!(Number::from_f64(1.0).kind(), NumKind::F64);
}

#[test]
fn the_active_scalar_carries_the_tag_of_the_kind() {
    match Number::from(3u32) {
        AnyNum::U32(x) => {
            assert_eq!(x.tag(), NumKind::U32.tag());
            assert_eq!(*x, 3);
        }
        _ => panic!("a 32-bit unsigned integer became a number of another kind"),
    }
    match Number::from_f64(2.5) {
        AnyNum::F64(x) => {
            assert_eq!(x.tag(), NumKind::F64.tag());
            assert_eq!(*x, 2.5);
        }
        _ => panic!("a 64-bit float became a number of another kind"),
    }
}
