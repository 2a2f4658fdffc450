use any_num::AnyNum;

type Number = AnyNum<f32, f64>;

fn one_of_each_kind() -> Vec<Number> {
    vec![
        Number::from(5i8),
        Number::from(5i16),
        Number::from(5i32),
        Number::from(5i64),
        Number::from(5i128),
        Number::from(5u8),
        Number::from(5u16),
        Number::from(5u32),
        Number::from(5u64),
        Number::from(5u128),
        Number::from_f32(5.0),
        Number::from_f64(5.0),
    ]
}

#[test]
fn a_number_equals_itself() {
    for a in one_of_each_kind() {
        assert!(a == a);
    }
    assert!(Number::from(i128::MIN) == Number::from(i128::MIN));
    assert!(Number::from(u128::MAX) == Number::from(u128::MAX));
}

#[test]
fn numbers_of_one_kind_compare_by_value() {
    assert!(Number::from(5u32) == Number::from(5u32));
    assert!(Number::from(5u32) != Number::from(7u32));
    assert!(Number::from(-1i8) == Number::from(-1i8));
    assert!(Number::from(-1i8) != Number::from(1i8));
    assert!(Number::from(0u128) != Number::from(u128::MAX));
    assert!(Number::from_f64(0.5) == Number::from_f64(0.5));
    assert!(Number::from_f64(0.5) != Number::from_f64(0.25));
    assert!(Number::from_f32(1.0) != Number::from_f32(-1.0));
}

#[test]
fn equality_is_the_same_in_either_order() {
    let left = one_of_each_kind();
    let mut right = one_of_each_kind();
    right.push(Number::from(6u32));
    right.push(Number::from(-5i8));
    right.push(Number::from_f64(f64::NAN));
    for a in &left {
        for b in &right {
            assert_eq!(*a == *b, *b == *a);
        }
    }
}

#[test]
fn numbers_of_different_kinds_are_unequal() {
    let all = one_of_each_kind();
    for (i, a) in all.iter().enumerate() {
        for (j, b) in all.iter().enumerate() {
            assert_eq!(*a == *b, i == j);
        }
    }
}

#[test]
fn an_unsigned_five_is_not_a_float_five() {
    assert!(Number::from(5u32) != Number::from_f64(5.0));
    assert!(Number::from_f64(5.0) != Number::from(5u32));
    assert!(!(Number::from(5u32) == Number::from_f64(5.0)));
}

#[test]
fn zero_is_not_shared_between_kinds() {
    assert!(Number::from(0u8) != Number::from(0i8));
    assert!(Number::from(0u8) != Number::from(0u16));
    assert!(Number::from_f32(0.0) != Number::from_f64(0.0));
}

#[test]
fn floats_compare_as_floats_do() {
    assert!(Number::from_f64(f64::NAN) != Number::from_f64(f64::NAN));
    assert!(Number::from_f32(f32::NAN) != Number::from_f32(f32::NAN));
    assert!(Number::from_f64(0.0) == Number::from_f64(-0.0));
    assert!(Number::from_f32(f32::INFINITY) == Number::from_f32(f32::INFINITY));
}
