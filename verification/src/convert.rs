//! Construction of a number from a native value: one path for each kind.

use vstd::prelude::*;
use crate::any_num::AnyNum;
use crate::num::Num;

verus! {

impl<F, D> From<i8> for AnyNum<F, D> {
    /// The number of kind `I8` that holds `value`.
    fn from(value: i8) -> (num: Self) {
        AnyNum::I8(Num::new(value))
    }
}

impl<F, D> vstd::std_specs::convert::FromSpecImpl<i8> for AnyNum<F, D> {
    open spec fn obeys_from_spec() -> bool {
        true
    }

    open spec fn from_spec(value: i8) -> Self {
        AnyNum::I8(Num(value))
    }
}

impl<F, D> From<i16> for AnyNum<F, D> {
    /// The number of kind `I16` that holds `value`.
    fn from(value: i16) -> (num: Self) {
        AnyNum::I16(Num::new(value))
    }
}

impl<F, D> vstd::std_specs::convert::FromSpecImpl<i16> for AnyNum<F, D> {
    open spec fn obeys_from_spec() -> bool {
        true
    }

    open spec fn from_spec(value: i16) -> Self {
        AnyNum::I16(Num(value))
    }
}

impl<F, D> From<i32> for AnyNum<F, D> {
    /// The number of kind `I32` that holds `value`.
    fn from(value: i32) -> (num: Self) {
        AnyNum::I32(Num::new(value))
    }
}

impl<F, D> vstd::std_specs::convert::FromSpecImpl<i32> for AnyNum<F, D> {
    open spec fn obeys_from_spec() -> bool {
        true
    }

    open spec fn from_spec(value: i32) -> Self {
        AnyNum::I32(Num(value))
    }
}

impl<F, D> From<i64> for AnyNum<F, D> {
    /// The number of kind `I64` that holds `value`.
    fn from(value: i64) -> (num: Self) {
        AnyNum::I64(Num::new(value))
    }
}

impl<F, D> vstd::std_specs::convert::FromSpecImpl<i64> for AnyNum<F, D> {
    open spec fn obeys_from_spec() -> bool {
        true
    }

    open spec fn from_spec(value: i64) -> Self {
        AnyNum::I64(Num(value))
    }
}

impl<F, D> From<i128> for AnyNum<F, D> {
    /// The number of kind `I128` that holds `value`.
    fn from(value: i128) -> (num: Self) {
        AnyNum::I128(Num::new(value))
    }
}

impl<F, D> vstd::std_specs::convert::FromSpecImpl<i128> for AnyNum<F, D> {
    open spec fn obeys_from_spec() -> bool {
        true
    }

    open spec fn from_spec(value: i128) -> Self {
        AnyNum::I128(Num(value))
    }
}

impl<F, D> From<u8> for AnyNum<F, D> {
    /// The number of kind `U8` that holds `value`.
    fn from(value: u8) -> (num: Self) {
        AnyNum::U8(Num::new(value))
    }
}

impl<F, D> vstd::std_specs::convert::FromSpecImpl<u8> for AnyNum<F, D> {
    open spec fn obeys_from_spec() -> bool {
        true
    }

    open spec fn from_spec(value: u8) -> Self {
        AnyNum::U8(Num(value))
    }
}

impl<F, D> From<u16> for AnyNum<F, D> {
    /// The number of kind `U16` that holds `value`.
    fn from(value: u16) -> (num: Self) {
        AnyNum::U16(Num::new(value))
    }
}

impl<F, D> vstd::std_specs::convert::FromSpecImpl<u16> for AnyNum<F, D> {
    open spec fn obeys_from_spec() -> bool {
        true
    }

    open spec fn from_spec(value: u16) -> Self {
        AnyNum::U16(Num(value))
    }
}

impl<F, D> From<u32> for AnyNum<F, D> {
    /// The number of kind `U32` that holds `value`.
    fn from(value: u32) -> (num: Self) {
        AnyNum::U32(Num::new(value))
    }
}

impl<F, D> vstd::std_specs::convert::FromSpecImpl<u32> for AnyNum<F, D> {
    open spec fn obeys_from_spec() -> bool {
        true
    }

    open spec fn from_spec(value: u32) -> Self {
        AnyNum::U32(Num(value))
    }
}

impl<F, D> From<u64> for AnyNum<F, D> {
    /// The number of kind `U64` that holds `value`.
    fn from(value: u64) -> (num: Self) {
        AnyNum::U64(Num::new(value))
    }
}

impl<F, D> vstd::std_specs::convert::FromSpecImpl<u64> for AnyNum<F, D> {
    open spec fn obeys_from_spec() -> bool {
        true
    }

    open spec fn from_spec(value: u64) -> Self {
        AnyNum::U64(Num(value))
    }
}

impl<F, D> From<u128> for AnyNum<F, D> {
    /// The number of kind `U128` that holds `value`.
    fn from(value: u128) -> (num: Self) {
        AnyNum::U128(Num::new(value))
    }
}

impl<F, D> vstd::std_specs::convert::FromSpecImpl<u128> for AnyNum<F, D> {
    open spec fn obeys_from_spec() -> bool {
        true
    }

    open spec fn from_spec(value: u128) -> Self {
        AnyNum::U128(Num(value))
    }
}

impl<F, D> AnyNum<F, D> {
    /// The number of kind `F32` that holds `value`.
    pub fn from_f32(value: F) -> (num: Self)
        ensures
            num == AnyNum::<F, D>::F32(Num(value)),
    {
        AnyNum::F32(Num::new(value))
    }

    /// The number of kind `F64` that holds `value`.
    pub fn from_f64(value: D) -> (num: Self)
        ensures
            num == AnyNum::<F, D>::F64(Num(value)),
    {
        AnyNum::F64(Num::new(value))
    }
}

} // verus!
