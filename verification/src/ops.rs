//! The four operations on two numbers.
//!
//! Each operation is the native one of the kind that the two numbers share,
//! and answers with a [`KindMismatch`] where they share none. Where the
//! native operation on two integers is not defined (the result is not a
//! value of their kind, or the divisor is zero) the operation is not
//! admitted; `sum_fits`, `difference_fits`, `product_fits` and
//! `quotient_fits` tell beforehand.

use core::ops::{Add, Div, Mul, Sub};
use vstd::prelude::*;
use vstd::std_specs::ops::{AddSpec, DivSpec, MulSpec, SubSpec};
use crate::any_num::{AnyNum, KindMismatch};
use crate::arith::{quotient, quotient_bounds};
use crate::num::Num;

verus! {

impl<F, D> AnyNum<F, D> {
    /// What an operation on `self` and `rhs` returns when the native result
    /// for two integers of one kind is `v`: the number of their kind with
    /// that value, or the mismatch of their kinds.
    pub open spec fn combined(self, rhs: Self, v: int) -> Result<Self, KindMismatch> {
        if self.spec_kind() == rhs.spec_kind() {
            Ok(Self::of_int(self.spec_kind(), v))
        } else {
            Err(KindMismatch { left: self.spec_kind(), right: rhs.spec_kind() })
        }
    }

    /// For two integers of one kind, whether the sum of the two values is
    /// a value of that kind; true of any other two numbers.
    pub open spec fn spec_sum_fits(&self, rhs: &Self) -> bool {
        self.integers_of_one_kind(*rhs) ==> self.spec_kind().holds(self.value() + rhs.value())
    }

    /// For two integers of one kind, whether the difference of the two values is
    /// a value of that kind; true of any other two numbers.
    pub open spec fn spec_difference_fits(&self, rhs: &Self) -> bool {
        self.integers_of_one_kind(*rhs) ==> self.spec_kind().holds(self.value() - rhs.value())
    }

    /// For two integers of one kind, whether the product of the two values is
    /// a value of that kind; true of any other two numbers.
    pub open spec fn spec_product_fits(&self, rhs: &Self) -> bool {
        self.integers_of_one_kind(*rhs) ==> self.spec_kind().holds(self.value() * rhs.value())
    }

    /// For two integers of one kind, whether the divisor is not zero and the
    /// quotient of the two values is a value of that kind; true of any other
    /// two numbers.
    pub open spec fn spec_quotient_fits(&self, rhs: &Self) -> bool {
        self.integers_of_one_kind(*rhs) ==> rhs.value() != 0 && self.spec_kind().holds(
            quotient(self.value(), rhs.value()),
        )
    }

    /// Whether `self + rhs` is free of integer overflow: for two integers
    /// of one kind, whether the sum of the two values is a value of that
    /// kind; true of any other two numbers.
    #[verifier::when_used_as_spec(spec_sum_fits)]
    pub fn sum_fits(&self, rhs: &Self) -> (fits: bool)
        ensures
            fits == self.spec_sum_fits(rhs),
    {
        match (self, rhs) {
            (AnyNum::I8(x), AnyNum::I8(y)) => x.0.checked_add(y.0).is_some(),
            (AnyNum::I16(x), AnyNum::I16(y)) => x.0.checked_add(y.0).is_some(),
            (AnyNum::I32(x), AnyNum::I32(y)) => x.0.checked_add(y.0).is_some(),
            (AnyNum::I64(x), AnyNum::I64(y)) => x.0.checked_add(y.0).is_some(),
            (AnyNum::I128(x), AnyNum::I128(y)) => x.0.checked_add(y.0).is_some(),
            (AnyNum::U8(x), AnyNum::U8(y)) => x.0.checked_add(y.0).is_some(),
            (AnyNum::U16(x), AnyNum::U16(y)) => x.0.checked_add(y.0).is_some(),
            (AnyNum::U32(x), AnyNum::U32(y)) => x.0.checked_add(y.0).is_some(),
            (AnyNum::U64(x), AnyNum::U64(y)) => x.0.checked_add(y.0).is_some(),
            (AnyNum::U128(x), AnyNum::U128(y)) => x.0.checked_add(y.0).is_some(),
            _ => true,
        }
    }

    /// Whether `self - rhs` is free of integer overflow: for two integers
    /// of one kind, whether the difference of the two values is a value of that
    /// kind; true of any other two numbers.
    #[verifier::when_used_as_spec(spec_difference_fits)]
    pub fn difference_fits(&self, rhs: &Self) -> (fits: bool)
        ensures
            fits == self.spec_difference_fits(rhs),
    {
        match (self, rhs) {
            (AnyNum::I8(x), AnyNum::I8(y)) => x.0.checked_sub(y.0).is_some(),
            (AnyNum::I16(x), AnyNum::I16(y)) => x.0.checked_sub(y.0).is_some(),
            (AnyNum::I32(x), AnyNum::I32(y)) => x.0.checked_sub(y.0).is_some(),
            (AnyNum::I64(x), AnyNum::I64(y)) => x.0.checked_sub(y.0).is_some(),
            (AnyNum::I128(x), AnyNum::I128(y)) => x.0.checked_sub(y.0).is_some(),
            (AnyNum::U8(x), AnyNum::U8(y)) => x.0.checked_sub(y.0).is_some(),
            (AnyNum::U16(x), AnyNum::U16(y)) => x.0.checked_sub(y.0).is_some(),
            (AnyNum::U32(x), AnyNum::U32(y)) => x.0.checked_sub(y.0).is_some(),
            (AnyNum::U64(x), AnyNum::U64(y)) => x.0.checked_sub(y.0).is_some(),
            (AnyNum::U128(x), AnyNum::U128(y)) => x.0.checked_sub(y.0).is_some(),
            _ => true,
        }
    }

    /// Whether `self * rhs` is free of integer overflow: for two integers
    /// of one kind, whether the product of the two values is a value of that
    /// kind; true of any other two numbers.
    #[verifier::when_used_as_spec(spec_product_fits)]
    pub fn product_fits(&self, rhs: &Self) -> (fits: bool)
        ensures
            fits == self.spec_product_fits(rhs),
    {
        match (self, rhs) {
            (AnyNum::I8(x), AnyNum::I8(y)) => x.0.checked_mul(y.0).is_some(),
            (AnyNum::I16(x), AnyNum::I16(y)) => x.0.checked_mul(y.0).is_some(),
            (AnyNum::I32(x), AnyNum::I32(y)) => x.0.checked_mul(y.0).is_some(),
            (AnyNum::I64(x), AnyNum::I64(y)) => x.0.checked_mul(y.0).is_some(),
            (AnyNum::I128(x), AnyNum::I128(y)) => x.0.checked_mul(y.0).is_some(),
            (AnyNum::U8(x), AnyNum::U8(y)) => x.0.checked_mul(y.0).is_some(),
            (AnyNum::U16(x), AnyNum::U16(y)) => x.0.checked_mul(y.0).is_some(),
            (AnyNum::U32(x), AnyNum::U32(y)) => x.0.checked_mul(y.0).is_some(),
            (AnyNum::U64(x), AnyNum::U64(y)) => x.0.checked_mul(y.0).is_some(),
            (AnyNum::U128(x), AnyNum::U128(y)) => x.0.checked_mul(y.0).is_some(),
            _ => true,
        }
    }

    /// Whether `self / rhs` is defined for integers: for two integers of one
    /// kind, whether the divisor is not zero and the quotient is a value of
    /// that kind; true of any other two numbers.
    #[verifier::when_used_as_spec(spec_quotient_fits)]
    pub fn quotient_fits(&self, rhs: &Self) -> (fits: bool)
        ensures
            fits == self.spec_quotient_fits(rhs),
    {
        match (self, rhs) {
            (AnyNum::I8(x), AnyNum::I8(y)) => {
                proof {
                    if y.0 != 0 {
                        quotient_bounds(x.0 as int, y.0 as int);
                    }
                }
                y.0 != 0 && !(x.0 == i8::MIN && y.0 == -1)
            },
            (AnyNum::I16(x), AnyNum::I16(y)) => {
                proof {
                    if y.0 != 0 {
                        quotient_bounds(x.0 as int, y.0 as int);
                    }
                }
                y.0 != 0 && !(x.0 == i16::MIN && y.0 == -1)
            },
            (AnyNum::I32(x), AnyNum::I32(y)) => {
                proof {
                    if y.0 != 0 {
                        quotient_bounds(x.0 as int, y.0 as int);
                    }
                }
                y.0 != 0 && !(x.0 == i32::MIN && y.0 == -1)
            },
            (AnyNum::I64(x), AnyNum::I64(y)) => {
                proof {
                    if y.0 != 0 {
                        quotient_bounds(x.0 as int, y.0 as int);
                    }
                }
                y.0 != 0 && !(x.0 == i64::MIN && y.0 == -1)
            },
            (AnyNum::I128(x), AnyNum::I128(y)) => {
                proof {
                    if y.0 != 0 {
                        quotient_bounds(x.0 as int, y.0 as int);
                    }
                }
                y.0 != 0 && !(x.0 == i128::MIN && y.0 == -1)
            },
            (AnyNum::U8(x), AnyNum::U8(y)) => {
                proof {
                    if y.0 != 0 {
                        quotient_bounds(x.0 as int, y.0 as int);
                    }
                }
                y.0 != 0
            },
            (AnyNum::U16(x), AnyNum::U16(y)) => {
                proof {
                    if y.0 != 0 {
                        quotient_bounds(x.0 as int, y.0 as int);
                    }
                }
                y.0 != 0
            },
            (AnyNum::U32(x), AnyNum::U32(y)) => {
                proof {
                    if y.0 != 0 {
                        quotient_bounds(x.0 as int, y.0 as int);
                    }
                }
                y.0 != 0
            },
            (AnyNum::U64(x), AnyNum::U64(y)) => {
                proof {
                    if y.0 != 0 {
                        quotient_bounds(x.0 as int, y.0 as int);
                    }
                }
                y.0 != 0
            },
            (AnyNum::U128(x), AnyNum::U128(y)) => {
                proof {
                    if y.0 != 0 {
                        quotient_bounds(x.0 as int, y.0 as int);
                    }
                }
                y.0 != 0
            },
            _ => true,
        }
    }
}

impl<F: Add<Output = F>, D: Add<Output = D>> AnyNum<F, D> {
    /// Whether `out` is an outcome of `self + rhs`: for two numbers of one
    /// floating kind the number of that kind holding an outcome of the `+`
    /// of `F` or `D` on their values; for two of one integer kind the number
    /// of that kind holding the sum of their values; for two of
    /// different kinds the mismatch.
    pub open spec fn add_gives(self, rhs: Self, out: Result<Self, KindMismatch>) -> bool {
        match (self, rhs) {
            (AnyNum::F32(x), AnyNum::F32(y)) => out matches Ok(AnyNum::F32(z)) && call_ensures(
                F::add,
                (x.0, y.0),
                z.0,
            ),
            (AnyNum::F64(x), AnyNum::F64(y)) => out matches Ok(AnyNum::F64(z)) && call_ensures(
                D::add,
                (x.0, y.0),
                z.0,
            ),
            _ => out == self.combined(rhs, self.value() + rhs.value()),
        }
    }
}

impl<F: Add<Output = F>, D: Add<Output = D>> Add for AnyNum<F, D> {
    type Output = Result<AnyNum<F, D>, KindMismatch>;

    /// The native sum of two numbers of one kind, as a number of that
    /// kind; the mismatch of their kinds for two numbers of different kinds.
    /// The call is admitted where the native operation is defined: for two
    /// integers of one kind where `sum_fits` holds, for two numbers of one
    /// floating kind where the `+` of `F` or `D` admits their values, and
    /// for any two numbers of different kinds.
    fn add(self, rhs: Self) -> (out: Result<AnyNum<F, D>, KindMismatch>)
        ensures
            self.add_gives(rhs, out),
    {
        match (self, rhs) {
            (AnyNum::I8(x), AnyNum::I8(y)) => Ok(AnyNum::I8(x + y)),
            (AnyNum::I16(x), AnyNum::I16(y)) => Ok(AnyNum::I16(x + y)),
            (AnyNum::I32(x), AnyNum::I32(y)) => Ok(AnyNum::I32(x + y)),
            (AnyNum::I64(x), AnyNum::I64(y)) => Ok(AnyNum::I64(x + y)),
            (AnyNum::I128(x), AnyNum::I128(y)) => Ok(AnyNum::I128(x + y)),
            (AnyNum::U8(x), AnyNum::U8(y)) => Ok(AnyNum::U8(x + y)),
            (AnyNum::U16(x), AnyNum::U16(y)) => Ok(AnyNum::U16(x + y)),
            (AnyNum::U32(x), AnyNum::U32(y)) => Ok(AnyNum::U32(x + y)),
            (AnyNum::U64(x), AnyNum::U64(y)) => Ok(AnyNum::U64(x + y)),
            (AnyNum::U128(x), AnyNum::U128(y)) => Ok(AnyNum::U128(x + y)),
            (AnyNum::F32(x), AnyNum::F32(y)) => Ok(AnyNum::F32(x + y)),
            (AnyNum::F64(x), AnyNum::F64(y)) => Ok(AnyNum::F64(x + y)),
            (a, b) => Err(KindMismatch { left: a.kind(), right: b.kind() }),
        }
    }
}

impl<F: Add<Output = F>, D: Add<Output = D>> vstd::std_specs::ops::AddSpecImpl for AnyNum<F, D> {
    open spec fn obeys_add_spec() -> bool {
        F::obeys_add_spec() && D::obeys_add_spec()
    }

    open spec fn add_req(self, rhs: Self) -> bool {
        match (self, rhs) {
            (AnyNum::F32(x), AnyNum::F32(y)) => AddSpec::add_req(x.0, y.0),
            (AnyNum::F64(x), AnyNum::F64(y)) => AddSpec::add_req(x.0, y.0),
            _ => self.spec_sum_fits(&rhs),
        }
    }

    open spec fn add_spec(self, rhs: Self) -> Result<AnyNum<F, D>, KindMismatch> {
        match (self, rhs) {
            (AnyNum::F32(x), AnyNum::F32(y)) => Ok(AnyNum::F32(Num(AddSpec::add_spec(x.0, y.0)))),
            (AnyNum::F64(x), AnyNum::F64(y)) => Ok(AnyNum::F64(Num(AddSpec::add_spec(x.0, y.0)))),
            _ => self.combined(rhs, self.value() + rhs.value()),
        }
    }
}

impl<F: Sub<Output = F>, D: Sub<Output = D>> AnyNum<F, D> {
    /// Whether `out` is an outcome of `self - rhs`: for two numbers of one
    /// floating kind the number of that kind holding an outcome of the `-`
    /// of `F` or `D` on their values; for two of one integer kind the number
    /// of that kind holding the difference of their values; for two of
    /// different kinds the mismatch.
    pub open spec fn sub_gives(self, rhs: Self, out: Result<Self, KindMismatch>) -> bool {
        match (self, rhs) {
            (AnyNum::F32(x), AnyNum::F32(y)) => out matches Ok(AnyNum::F32(z)) && call_ensures(
                F::sub,
                (x.0, y.0),
                z.0,
            ),
            (AnyNum::F64(x), AnyNum::F64(y)) => out matches Ok(AnyNum::F64(z)) && call_ensures(
                D::sub,
                (x.0, y.0),
                z.0,
            ),
            _ => out == self.combined(rhs, self.value() - rhs.value()),
        }
    }
}

impl<F: Sub<Output = F>, D: Sub<Output = D>> Sub for AnyNum<F, D> {
    type Output = Result<AnyNum<F, D>, KindMismatch>;

    /// The native difference of two numbers of one kind, as a number of that
    /// kind; the mismatch of their kinds for two numbers of different kinds.
    /// The call is admitted where the native operation is defined: for two
    /// integers of one kind where `difference_fits` holds, for two numbers of one
    /// floating kind where the `-` of `F` or `D` admits their values, and
    /// for any two numbers of different kinds.
    fn sub(self, rhs: Self) -> (out: Result<AnyNum<F, D>, KindMismatch>)
        ensures
            self.sub_gives(rhs, out),
    {
        match (self, rhs) {
            (AnyNum::I8(x), AnyNum::I8(y)) => Ok(AnyNum::I8(Num::new(x.0 - y.0))),
            (AnyNum::I16(x), AnyNum::I16(y)) => Ok(AnyNum::I16(Num::new(x.0 - y.0))),
            (AnyNum::I32(x), AnyNum::I32(y)) => Ok(AnyNum::I32(Num::new(x.0 - y.0))),
            (AnyNum::I64(x), AnyNum::I64(y)) => Ok(AnyNum::I64(Num::new(x.0 - y.0))),
            (AnyNum::I128(x), AnyNum::I128(y)) => Ok(AnyNum::I128(Num::new(x.0 - y.0))),
            (AnyNum::U8(x), AnyNum::U8(y)) => Ok(AnyNum::U8(Num::new(x.0 - y.0))),
            (AnyNum::U16(x), AnyNum::U16(y)) => Ok(AnyNum::U16(Num::new(x.0 - y.0))),
            (AnyNum::U32(x), AnyNum::U32(y)) => Ok(AnyNum::U32(Num::new(x.0 - y.0))),
            (AnyNum::U64(x), AnyNum::U64(y)) => Ok(AnyNum::U64(Num::new(x.0 - y.0))),
            (AnyNum::U128(x), AnyNum::U128(y)) => Ok(AnyNum::U128(Num::new(x.0 - y.0))),
            (AnyNum::F32(x), AnyNum::F32(y)) => Ok(AnyNum::F32(Num::new(x.0 - y.0))),
            (AnyNum::F64(x), AnyNum::F64(y)) => Ok(AnyNum::F64(Num::new(x.0 - y.0))),
            (a, b) => Err(KindMismatch { left: a.kind(), right: b.kind() }),
        }
    }
}

impl<F: Sub<Output = F>, D: Sub<Output = D>> vstd::std_specs::ops::SubSpecImpl for AnyNum<F, D> {
    open spec fn obeys_sub_spec() -> bool {
        F::obeys_sub_spec() && D::obeys_sub_spec()
    }

    open spec fn sub_req(self, rhs: Self) -> bool {
        match (self, rhs) {
            (AnyNum::F32(x), AnyNum::F32(y)) => SubSpec::sub_req(x.0, y.0),
            (AnyNum::F64(x), AnyNum::F64(y)) => SubSpec::sub_req(x.0, y.0),
            _ => self.spec_difference_fits(&rhs),
        }
    }

    open spec fn sub_spec(self, rhs: Self) -> Result<AnyNum<F, D>, KindMismatch> {
        match (self, rhs) {
            (AnyNum::F32(x), AnyNum::F32(y)) => Ok(AnyNum::F32(Num(SubSpec::sub_spec(x.0, y.0)))),
            (AnyNum::F64(x), AnyNum::F64(y)) => Ok(AnyNum::F64(Num(SubSpec::sub_spec(x.0, y.0)))),
            _ => self.combined(rhs, self.value() - rhs.value()),
        }
    }
}

impl<F: Mul<Output = F>, D: Mul<Output = D>> AnyNum<F, D> {
    /// Whether `out` is an outcome of `self * rhs`: for two numbers of one
    /// floating kind the number of that kind holding an outcome of the `*`
    /// of `F` or `D` on their values; for two of one integer kind the number
    /// of that kind holding the product of their values; for two of
    /// different kinds the mismatch.
    pub open spec fn mul_gives(self, rhs: Self, out: Result<Self, KindMismatch>) -> bool {
        match (self, rhs) {
            (AnyNum::F32(x), AnyNum::F32(y)) => out matches Ok(AnyNum::F32(z)) && call_ensures(
                F::mul,
                (x.0, y.0),
                z.0,
            ),
            (AnyNum::F64(x), AnyNum::F64(y)) => out matches Ok(AnyNum::F64(z)) && call_ensures(
                D::mul,
                (x.0, y.0),
                z.0,
            ),
            _ => out == self.combined(rhs, self.value() * rhs.value()),
        }
    }
}

impl<F: Mul<Output = F>, D: Mul<Output = D>> Mul for AnyNum<F, D> {
    type Output = Result<AnyNum<F, D>, KindMismatch>;

    /// The native product of two numbers of one kind, as a number of that
    /// kind; the mismatch of their kinds for two numbers of different kinds.
    /// The call is admitted where the native operation is defined: for two
    /// integers of one kind where `product_fits` holds, for two numbers of one
    /// floating kind where the `*` of `F` or `D` admits their values, and
    /// for any two numbers of different kinds.
    fn mul(self, rhs: Self) -> (out: Result<AnyNum<F, D>, KindMismatch>)
        ensures
            self.mul_gives(rhs, out),
    {
        match (self, rhs) {
            (AnyNum::I8(x), AnyNum::I8(y)) => Ok(AnyNum::I8(Num::new(x.0 * y.0))),
            (AnyNum::I16(x), AnyNum::I16(y)) => Ok(AnyNum::I16(Num::new(x.0 * y.0))),
            (AnyNum::I32(x), AnyNum::I32(y)) => Ok(AnyNum::I32(Num::new(x.0 * y.0))),
            (AnyNum::I64(x), AnyNum::I64(y)) => Ok(AnyNum::I64(Num::new(x.0 * y.0))),
            (AnyNum::I128(x), AnyNum::I128(y)) => Ok(AnyNum::I128(Num::new(x.0 * y.0))),
            (AnyNum::U8(x), AnyNum::U8(y)) => Ok(AnyNum::U8(Num::new(x.0 * y.0))),
            (AnyNum::U16(x), AnyNum::U16(y)) => Ok(AnyNum::U16(Num::new(x.0 * y.0))),
            (AnyNum::U32(x), AnyNum::U32(y)) => Ok(AnyNum::U32(Num::new(x.0 * y.0))),
            (AnyNum::U64(x), AnyNum::U64(y)) => Ok(AnyNum::U64(Num::new(x.0 * y.0))),
            (AnyNum::U128(x), AnyNum::U128(y)) => Ok(AnyNum::U128(Num::new(x.0 * y.0))),
            (AnyNum::F32(x), AnyNum::F32(y)) => Ok(AnyNum::F32(Num::new(x.0 * y.0))),
            (AnyNum::F64(x), AnyNum::F64(y)) => Ok(AnyNum::F64(Num::new(x.0 * y.0))),
            (a, b) => Err(KindMismatch { left: a.kind(), right: b.kind() }),
        }
    }
}

impl<F: Mul<Output = F>, D: Mul<Output = D>> vstd::std_specs::ops::MulSpecImpl for AnyNum<F, D> {
    open spec fn obeys_mul_spec() -> bool {
        F::obeys_mul_spec() && D::obeys_mul_spec()
    }

    open spec fn mul_req(self, rhs: Self) -> bool {
        match (self, rhs) {
            (AnyNum::F32(x), AnyNum::F32(y)) => MulSpec::mul_req(x.0, y.0),
            (AnyNum::F64(x), AnyNum::F64(y)) => MulSpec::mul_req(x.0, y.0),
            _ => self.spec_product_fits(&rhs),
        }
    }

    open spec fn mul_spec(self, rhs: Self) -> Result<AnyNum<F, D>, KindMismatch> {
        match (self, rhs) {
            (AnyNum::F32(x), AnyNum::F32(y)) => Ok(AnyNum::F32(Num(MulSpec::mul_spec(x.0, y.0)))),
            (AnyNum::F64(x), AnyNum::F64(y)) => Ok(AnyNum::F64(Num(MulSpec::mul_spec(x.0, y.0)))),
            _ => self.combined(rhs, self.value() * rhs.value()),
        }
    }
}

impl<F: Div<Output = F>, D: Div<Output = D>> AnyNum<F, D> {
    /// Whether `out` is an outcome of `self / rhs`: for two numbers of one
    /// floating kind the number of that kind holding an outcome of the `/`
    /// of `F` or `D` on their values; for two of one integer kind the number
    /// of that kind holding the quotient of their values, rounded toward zero,; for two of
    /// different kinds the mismatch.
    pub open spec fn div_gives(self, rhs: Self, out: Result<Self, KindMismatch>) -> bool {
        match (self, rhs) {
            (AnyNum::F32(x), AnyNum::F32(y)) => out matches Ok(AnyNum::F32(z)) && call_ensures(
                F::div,
                (x.0, y.0),
                z.0,
            ),
            (AnyNum::F64(x), AnyNum::F64(y)) => out matches Ok(AnyNum::F64(z)) && call_ensures(
                D::div,
                (x.0, y.0),
                z.0,
            ),
            _ => out == self.combined(rhs, quotient(self.value(), rhs.value())),
        }
    }
}

impl<F: Div<Output = F>, D: Div<Output = D>> Div for AnyNum<F, D> {
    type Output = Result<AnyNum<F, D>, KindMismatch>;

    /// The native quotient of two numbers of one kind, as a number of that
    /// kind; the mismatch of their kinds for two numbers of different kinds.
    /// The call is admitted where the native operation is defined: for two
    /// integers of one kind where `quotient_fits` holds, for two numbers of one
    /// floating kind where the `/` of `F` or `D` admits their values, and
    /// for any two numbers of different kinds.
    fn div(self, rhs: Self) -> (out: Result<AnyNum<F, D>, KindMismatch>)
        ensures
            self.div_gives(rhs, out),
    {
        match (self, rhs) {
            (AnyNum::I8(x), AnyNum::I8(y)) => {
                proof {
                    quotient_bounds(x.0 as int, y.0 as int);
                }
                Ok(AnyNum::I8(Num::new(x.0 / y.0)))
            },
            (AnyNum::I16(x), AnyNum::I16(y)) => {
                proof {
                    quotient_bounds(x.0 as int, y.0 as int);
                }
                Ok(AnyNum::I16(Num::new(x.0 / y.0)))
            },
            (AnyNum::I32(x), AnyNum::I32(y)) => {
                proof {
                    quotient_bounds(x.0 as int, y.0 as int);
                }
                Ok(AnyNum::I32(Num::new(x.0 / y.0)))
            },
            (AnyNum::I64(x), AnyNum::I64(y)) => {
                proof {
                    quotient_bounds(x.0 as int, y.0 as int);
                }
                Ok(AnyNum::I64(Num::new(x.0 / y.0)))
            },
            (AnyNum::I128(x), AnyNum::I128(y)) => {
                proof {
                    quotient_bounds(x.0 as int, y.0 as int);
                }
                Ok(AnyNum::I128(Num::new(x.0 / y.0)))
            },
            (AnyNum::U8(x), AnyNum::U8(y)) => {
                proof {
                    quotient_bounds(x.0 as int, y.0 as int);
                }
                Ok(AnyNum::U8(Num::new(x.0 / y.0)))
            },
            (AnyNum::U16(x), AnyNum::U16(y)) => {
                proof {
                    quotient_bounds(x.0 as int, y.0 as int);
                }
                Ok(AnyNum::U16(Num::new(x.0 / y.0)))
            },
            (AnyNum::U32(x), AnyNum::U32(y)) => {
                proof {
                    quotient_bounds(x.0 as int, y.0 as int);
                }
                Ok(AnyNum::U32(Num::new(x.0 / y.0)))
            },
            (AnyNum::U64(x), AnyNum::U64(y)) => {
                proof {
                    quotient_bounds(x.0 as int, y.0 as int);
                }
                Ok(AnyNum::U64(Num::new(x.0 / y.0)))
            },
            (AnyNum::U128(x), AnyNum::U128(y)) => {
                proof {
                    quotient_bounds(x.0 as int, y.0 as int);
                }
                Ok(AnyNum::U128(Num::new(x.0 / y.0)))
            },
            (AnyNum::F32(x), AnyNum::F32(y)) => Ok(AnyNum::F32(Num::new(x.0 / y.0))),
            (AnyNum::F64(x), AnyNum::F64(y)) => Ok(AnyNum::F64(Num::new(x.0 / y.0))),
            (a, b) => Err(KindMismatch { left: a.kind(), right: b.kind() }),
        }
    }
}

impl<F: Div<Output = F>, D: Div<Output = D>> vstd::std_specs::ops::DivSpecImpl for AnyNum<F, D> {
    open spec fn obeys_div_spec() -> bool {
        F::obeys_div_spec() && D::obeys_div_spec()
    }

    open spec fn div_req(self, rhs: Self) -> bool {
        match (self, rhs) {
            (AnyNum::F32(x), AnyNum::F32(y)) => DivSpec::div_req(x.0, y.0),
            (AnyNum::F64(x), AnyNum::F64(y)) => DivSpec::div_req(x.0, y.0),
            _ => self.spec_quotient_fits(&rhs),
        }
    }

    open spec fn div_spec(self, rhs: Self) -> Result<AnyNum<F, D>, KindMismatch> {
        match (self, rhs) {
            (AnyNum::F32(x), AnyNum::F32(y)) => Ok(AnyNum::F32(Num(DivSpec::div_spec(x.0, y.0)))),
            (AnyNum::F64(x), AnyNum::F64(y)) => Ok(AnyNum::F64(Num(DivSpec::div_spec(x.0, y.0)))),
            _ => self.combined(rhs, quotient(self.value(), rhs.value())),
        }
    }
}

} // verus!
