//! Equality of numbers.

use vstd::prelude::*;
use vstd::std_specs::cmp::PartialEqSpec;
use crate::any_num::AnyNum;

verus! {

impl<F: PartialEq, D: PartialEq> AnyNum<F, D> {
    /// Whether `out` is an outcome of comparing `self` with `other`: for two
    /// numbers of one floating kind an outcome of the `==` of `F` or `D` on
    /// their values, else whether they are of one kind and of one value.
    pub open spec fn eq_gives(self, other: Self, out: bool) -> bool {
        match (self, other) {
            (AnyNum::F32(x), AnyNum::F32(y)) => call_ensures(F::eq, (&x.0, &y.0), out),
            (AnyNum::F64(x), AnyNum::F64(y)) => call_ensures(D::eq, (&x.0, &y.0), out),
            _ => out == (self.spec_kind() == other.spec_kind() && self.value() == other.value()),
        }
    }
}

impl<F: PartialEq, D: PartialEq> PartialEq for AnyNum<F, D> {
    /// Whether the two numbers are of the same kind and their values are
    /// equal by the native equality of that kind. Numbers of different
    /// kinds are never equal, whatever their values.
    fn eq(&self, other: &Self) -> (out: bool)
        ensures
            self.eq_gives(*other, out),
    {
        match (self, other) {
            (AnyNum::I8(x), AnyNum::I8(y)) => x.0 == y.0,
            (AnyNum::I16(x), AnyNum::I16(y)) => x.0 == y.0,
            (AnyNum::I32(x), AnyNum::I32(y)) => x.0 == y.0,
            (AnyNum::I64(x), AnyNum::I64(y)) => x.0 == y.0,
            (AnyNum::I128(x), AnyNum::I128(y)) => x.0 == y.0,
            (AnyNum::U8(x), AnyNum::U8(y)) => x.0 == y.0,
            (AnyNum::U16(x), AnyNum::U16(y)) => x.0 == y.0,
            (AnyNum::U32(x), AnyNum::U32(y)) => x.0 == y.0,
            (AnyNum::U64(x), AnyNum::U64(y)) => x.0 == y.0,
            (AnyNum::U128(x), AnyNum::U128(y)) => x.0 == y.0,
            (AnyNum::F32(x), AnyNum::F32(y)) => x.0 == y.0,
            (AnyNum::F64(x), AnyNum::F64(y)) => x.0 == y.0,
            _ => false,
        }
    }
}

impl<F: PartialEq, D: PartialEq> vstd::std_specs::cmp::PartialEqSpecImpl for AnyNum<F, D> {
    open spec fn obeys_eq_spec() -> bool {
        F::obeys_eq_spec() && D::obeys_eq_spec()
    }

    open spec fn eq_spec(&self, other: &Self) -> bool {
        match (*self, *other) {
            (AnyNum::F32(x), AnyNum::F32(y)) => PartialEqSpec::eq_spec(&x.0, &y.0),
            (AnyNum::F64(x), AnyNum::F64(y)) => PartialEqSpec::eq_spec(&x.0, &y.0),
            _ => self.spec_kind() == other.spec_kind() && self.value() == other.value(),
        }
    }
}

} // verus!
