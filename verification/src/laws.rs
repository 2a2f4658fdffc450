//! What holds of every number, proved from the contracts of the operations.

use core::fmt::Display;
use core::ops::{Add, Div, Mul, Sub};
use vstd::prelude::*;
use vstd::std_specs::convert::FromSpec;
use vstd::std_specs::ops::{AddSpec, DivSpec, MulSpec, SubSpec};
use vstd::string::to_string_from_display_ensures;
use crate::any_num::{AnyNum, KindMismatch};
use crate::arith::quotient;
use crate::decimal::decimal_text;
use crate::kind::NumKind;
use crate::num::Num;

verus! {

/// The tag in the type of the active scalar is the tag of the number's kind.
pub proof fn tag_is_tag_of_kind<F, D>(a: AnyNum<F, D>)
    ensures
        a.tag() == a.spec_kind().spec_tag(),
{
}

/// Converting a native integer gives the number of the integer's kind that
/// has the integer's value.
pub proof fn conversion_keeps_kind_and_value<F, D>(
    a: i8,
    b: i16,
    c: i32,
    d: i64,
    e: i128,
    p: u8,
    q: u16,
    r: u32,
    s: u64,
    t: u128,
)
    ensures
        AnyNum::<F, D>::from_spec(a) == AnyNum::<F, D>::of_int(NumKind::I8, a as int),
        AnyNum::<F, D>::from_spec(b) == AnyNum::<F, D>::of_int(NumKind::I16, b as int),
        AnyNum::<F, D>::from_spec(c) == AnyNum::<F, D>::of_int(NumKind::I32, c as int),
        AnyNum::<F, D>::from_spec(d) == AnyNum::<F, D>::of_int(NumKind::I64, d as int),
        AnyNum::<F, D>::from_spec(e) == AnyNum::<F, D>::of_int(NumKind::I128, e as int),
        AnyNum::<F, D>::from_spec(p) == AnyNum::<F, D>::of_int(NumKind::U8, p as int),
        AnyNum::<F, D>::from_spec(q) == AnyNum::<F, D>::of_int(NumKind::U16, q as int),
        AnyNum::<F, D>::from_spec(r) == AnyNum::<F, D>::of_int(NumKind::U32, r as int),
        AnyNum::<F, D>::from_spec(s) == AnyNum::<F, D>::of_int(NumKind::U64, s as int),
        AnyNum::<F, D>::from_spec(t) == AnyNum::<F, D>::of_int(NumKind::U128, t as int),
{
}

/// A number converted from a native integer renders as the decimal numeral
/// of that integer, and as nothing else.
pub proof fn converted_integer_renders_as_its_numeral<F: Display, D: Display>(
    a: i8,
    b: i16,
    c: i32,
    d: i64,
    e: i128,
    p: u8,
    q: u16,
    r: u32,
    s: u64,
    t: u128,
    text: String,
)
    ensures
        AnyNum::<F, D>::from_spec(a).renders(text) <==> text@ == decimal_text(a as int),
        AnyNum::<F, D>::from_spec(b).renders(text) <==> text@ == decimal_text(b as int),
        AnyNum::<F, D>::from_spec(c).renders(text) <==> text@ == decimal_text(c as int),
        AnyNum::<F, D>::from_spec(d).renders(text) <==> text@ == decimal_text(d as int),
        AnyNum::<F, D>::from_spec(e).renders(text) <==> text@ == decimal_text(e as int),
        AnyNum::<F, D>::from_spec(p).renders(text) <==> text@ == decimal_text(p as int),
        AnyNum::<F, D>::from_spec(q).renders(text) <==> text@ == decimal_text(q as int),
        AnyNum::<F, D>::from_spec(r).renders(text) <==> text@ == decimal_text(r as int),
        AnyNum::<F, D>::from_spec(s).renders(text) <==> text@ == decimal_text(s as int),
        AnyNum::<F, D>::from_spec(t).renders(text) <==> text@ == decimal_text(t as int),
{
}

/// The number of an integer kind with value `v` is of that kind, has that
/// value, and renders as the decimal numeral of `v` and as nothing else.
pub proof fn integer_renders_as_its_numeral<F: Display, D: Display>(
    kind: NumKind,
    v: int,
    text: String,
)
    requires
        kind.holds(v),
    ensures
        AnyNum::<F, D>::of_int(kind, v).spec_kind() == kind,
        AnyNum::<F, D>::of_int(kind, v).value() == v,
        AnyNum::<F, D>::of_int(kind, v).renders(text) <==> text@ == decimal_text(v),
{
}

/// A number of a floating kind renders as its value does by the `Display` of
/// its representation.
pub proof fn float_renders_as_its_value<F: Display, D: Display>(x: F, y: D, text: String)
    ensures
        AnyNum::<F, D>::F32(Num(x)).renders(text) <==> to_string_from_display_ensures::<F>(
            &x,
            text,
        ),
        AnyNum::<F, D>::F64(Num(y)).renders(text) <==> to_string_from_display_ensures::<D>(
            &y,
            text,
        ),
{
}

/// A number is equal to itself: always for an integer kind, and for a
/// floating kind where the `==` of its representation holds of its value and
/// itself.
pub proof fn equality_is_reflexive<F: PartialEq, D: PartialEq>(a: AnyNum<F, D>)
    requires
        a matches AnyNum::F32(x) ==> call_ensures(F::eq, (&x.0, &x.0), true),
        a matches AnyNum::F64(x) ==> call_ensures(D::eq, (&x.0, &x.0), true),
    ensures
        a.eq_gives(a, true),
        a.spec_kind().is_integer() ==> !a.eq_gives(a, false),
{
}

/// What comparing `a` with `b` gives, comparing `b` with `a` gives too:
/// always unless both are of one floating kind, and then where the `==` of
/// their representation gives the same for their values in either order.
pub proof fn equality_is_symmetric<F: PartialEq, D: PartialEq>(
    a: AnyNum<F, D>,
    b: AnyNum<F, D>,
    out: bool,
)
    requires
        a.eq_gives(b, out),
        (a, b) matches (AnyNum::F32(x), AnyNum::F32(y)) ==> call_ensures(
            F::eq,
            (&y.0, &x.0),
            out,
        ),
        (a, b) matches (AnyNum::F64(x), AnyNum::F64(y)) ==> call_ensures(
            D::eq,
            (&y.0, &x.0),
            out,
        ),
    ensures
        b.eq_gives(a, out),
{
}

/// Numbers of different kinds are unequal, whatever their values.
pub proof fn different_kinds_are_unequal<F: PartialEq, D: PartialEq>(
    a: AnyNum<F, D>,
    b: AnyNum<F, D>,
    out: bool,
)
    requires
        a.spec_kind() != b.spec_kind(),
    ensures
        a.eq_gives(b, out) <==> !out,
{
}

/// Two integers of one kind whose sum is of that kind can be added as
/// numbers; the sum of the numbers is the number of that kind with the sum
/// of the integers as its value, and so renders as the numeral of that sum.
pub proof fn sum_of_integers_is_native_sum<F: Add<Output = F> + Display, D: Add<Output = D> + Display>(
    kind: NumKind,
    x: int,
    y: int,
    out: Result<AnyNum<F, D>, KindMismatch>,
    text: String,
)
    requires
        kind.holds(x),
        kind.holds(y),
        kind.holds(x + y),
    ensures
        AddSpec::add_req(AnyNum::<F, D>::of_int(kind, x), AnyNum::<F, D>::of_int(kind, y)),
        AnyNum::<F, D>::of_int(kind, x).add_gives(AnyNum::<F, D>::of_int(kind, y), out) <==> out
            == Ok::<AnyNum<F, D>, KindMismatch>(AnyNum::<F, D>::of_int(kind, x + y)),
        AnyNum::<F, D>::of_int(kind, x + y).renders(text) <==> text@ == decimal_text(x + y),
{
}

/// Two integers of one kind can be subtracted, multiplied and divided as
/// numbers wherever the native result is of that kind (and the divisor is not
/// zero); the result is the number of that kind with the native result as its
/// value.
pub proof fn integers_combine_natively<
    F: Sub<Output = F> + Mul<Output = F> + Div<Output = F>,
    D: Sub<Output = D> + Mul<Output = D> + Div<Output = D>,
>(kind: NumKind, x: int, y: int, out: Result<AnyNum<F, D>, KindMismatch>)
    requires
        kind.holds(x),
        kind.holds(y),
    ensures
        kind.holds(x - y) ==> SubSpec::sub_req(
            AnyNum::<F, D>::of_int(kind, x),
            AnyNum::<F, D>::of_int(kind, y),
        ) && (AnyNum::<F, D>::of_int(kind, x).sub_gives(AnyNum::<F, D>::of_int(kind, y), out)
            <==> out == Ok::<AnyNum<F, D>, KindMismatch>(AnyNum::<F, D>::of_int(kind, x - y))),
        kind.holds(x * y) ==> MulSpec::mul_req(
            AnyNum::<F, D>::of_int(kind, x),
            AnyNum::<F, D>::of_int(kind, y),
        ) && (AnyNum::<F, D>::of_int(kind, x).mul_gives(AnyNum::<F, D>::of_int(kind, y), out)
            <==> out == Ok::<AnyNum<F, D>, KindMismatch>(AnyNum::<F, D>::of_int(kind, x * y))),
        y != 0 && kind.holds(quotient(x, y)) ==> DivSpec::div_req(
            AnyNum::<F, D>::of_int(kind, x),
            AnyNum::<F, D>::of_int(kind, y),
        ) && (AnyNum::<F, D>::of_int(kind, x).div_gives(AnyNum::<F, D>::of_int(kind, y), out)
            <==> out == Ok::<AnyNum<F, D>, KindMismatch>(
            AnyNum::<F, D>::of_int(kind, quotient(x, y)),
        )),
{
}

/// The sum of two numbers of one floating kind is the number of that kind
/// whose value is a sum of their values by the `+` of their representation.
pub proof fn sum_of_floats_is_native_sum<F: Add<Output = F>, D: Add<Output = D>>(
    x: F,
    y: F,
    z: F,
    u: D,
    v: D,
    w: D,
)
    ensures
        AnyNum::<F, D>::F32(Num(x)).add_gives(
            AnyNum::F32(Num(y)),
            Ok(AnyNum::F32(Num(z))),
        ) <==> call_ensures(F::add, (x, y), z),
        AnyNum::<F, D>::F64(Num(u)).add_gives(
            AnyNum::F64(Num(v)),
            Ok(AnyNum::F64(Num(w))),
        ) <==> call_ensures(D::add, (u, v), w),
{
}

/// Numbers of different kinds can be handed to every operation, and each
/// operation answers with the mismatch of their kinds and with nothing else.
pub proof fn different_kinds_do_not_combine<
    F: Add<Output = F> + Sub<Output = F> + Mul<Output = F> + Div<Output = F>,
    D: Add<Output = D> + Sub<Output = D> + Mul<Output = D> + Div<Output = D>,
>(a: AnyNum<F, D>, b: AnyNum<F, D>, out: Result<AnyNum<F, D>, KindMismatch>)
    requires
        a.spec_kind() != b.spec_kind(),
    ensures
        AddSpec::add_req(a, b),
        SubSpec::sub_req(a, b),
        MulSpec::mul_req(a, b),
        DivSpec::div_req(a, b),
        a.add_gives(b, out) <==> out == Err::<AnyNum<F, D>, KindMismatch>(
            (KindMismatch { left: a.spec_kind(), right: b.spec_kind() }),
        ),
        a.sub_gives(b, out) <==> out == Err::<AnyNum<F, D>, KindMismatch>(
            (KindMismatch { left: a.spec_kind(), right: b.spec_kind() }),
        ),
        a.mul_gives(b, out) <==> out == Err::<AnyNum<F, D>, KindMismatch>(
            (KindMismatch { left: a.spec_kind(), right: b.spec_kind() }),
        ),
        a.div_gives(b, out) <==> out == Err::<AnyNum<F, D>, KindMismatch>(
            (KindMismatch { left: a.spec_kind(), right: b.spec_kind() }),
        ),
{
}

} // verus!
