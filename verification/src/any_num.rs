//! The union of the twelve tagged scalars, and what it is a model of.

use vstd::prelude::*;
use crate::kind::NumKind;
use crate::num::Num;

verus! {

/// The scalar of kind `I8`.
pub type NumI8 = Num<i8, 0>;

/// The scalar of kind `I16`.
pub type NumI16 = Num<i16, 1>;

/// The scalar of kind `I32`.
pub type NumI32 = Num<i32, 2>;

/// The scalar of kind `I64`.
pub type NumI64 = Num<i64, 3>;

/// The scalar of kind `I128`.
pub type NumI128 = Num<i128, 4>;

/// The scalar of kind `U8`.
pub type NumU8 = Num<u8, 5>;

/// The scalar of kind `U16`.
pub type NumU16 = Num<u16, 6>;

/// The scalar of kind `U32`.
pub type NumU32 = Num<u32, 7>;

/// The scalar of kind `U64`.
pub type NumU64 = Num<u64, 8>;

/// The scalar of kind `U128`.
pub type NumU128 = Num<u128, 9>;

/// The scalar of kind `F32`, over the representation `F`.
pub type NumF32<F> = Num<F, 10>;

/// The scalar of kind `F64`, over the representation `D`.
pub type NumF64<D> = Num<D, 11>;

/// Two numbers of different kinds met in an operation that needs one kind.
#[derive(Clone, Copy, Debug, PartialEq, Eq, Structural)]
pub struct KindMismatch {
    /// The kind of the left operand.
    pub left: NumKind,
    /// The kind of the right operand.
    pub right: NumKind,
}

/// A number of any of the twelve kinds: exactly one tagged scalar.
///
/// `F` and `D` are the native 32-bit and 64-bit floating-point
/// representations. The union is generic in them because it relies on
/// nothing of them but their own operators: a number of a floating kind is
/// compared, rendered and combined by handing its value to the operator of
/// `F` or `D`, and what is stated of the outcome is what that operator states.
///
/// A number of an integer kind is, as a mathematical object, its kind and
/// its value, an integer within the bounds of the kind.
#[derive(Clone, Copy, Debug)]
pub enum AnyNum<F, D> {
    I8(NumI8),
    I16(NumI16),
    I32(NumI32),
    I64(NumI64),
    I128(NumI128),
    U8(NumU8),
    U16(NumU16),
    U32(NumU32),
    U64(NumU64),
    U128(NumU128),
    F32(NumF32<F>),
    F64(NumF64<D>),
}

impl<F, D> AnyNum<F, D> {
    /// The kind of the active scalar.
    pub open spec fn spec_kind(&self) -> NumKind {
        match *self {
            AnyNum::I8(_) => NumKind::I8,
            AnyNum::I16(_) => NumKind::I16,
            AnyNum::I32(_) => NumKind::I32,
            AnyNum::I64(_) => NumKind::I64,
            AnyNum::I128(_) => NumKind::I128,
            AnyNum::U8(_) => NumKind::U8,
            AnyNum::U16(_) => NumKind::U16,
            AnyNum::U32(_) => NumKind::U32,
            AnyNum::U64(_) => NumKind::U64,
            AnyNum::U128(_) => NumKind::U128,
            AnyNum::F32(_) => NumKind::F32,
            AnyNum::F64(_) => NumKind::F64,
        }
    }

    /// The tag in the type of the active scalar.
    pub open spec fn tag(self) -> u8 {
        match self {
            AnyNum::I8(x) => x.spec_tag(),
            AnyNum::I16(x) => x.spec_tag(),
            AnyNum::I32(x) => x.spec_tag(),
            AnyNum::I64(x) => x.spec_tag(),
            AnyNum::I128(x) => x.spec_tag(),
            AnyNum::U8(x) => x.spec_tag(),
            AnyNum::U16(x) => x.spec_tag(),
            AnyNum::U32(x) => x.spec_tag(),
            AnyNum::U64(x) => x.spec_tag(),
            AnyNum::U128(x) => x.spec_tag(),
            AnyNum::F32(x) => x.spec_tag(),
            AnyNum::F64(x) => x.spec_tag(),
        }
    }

    /// The value of a number of an integer kind.
    pub open spec fn value(self) -> int
        recommends
            self.spec_kind().is_integer(),
    {
        match self {
            AnyNum::I8(x) => x.0 as int,
            AnyNum::I16(x) => x.0 as int,
            AnyNum::I32(x) => x.0 as int,
            AnyNum::I64(x) => x.0 as int,
            AnyNum::I128(x) => x.0 as int,
            AnyNum::U8(x) => x.0 as int,
            AnyNum::U16(x) => x.0 as int,
            AnyNum::U32(x) => x.0 as int,
            AnyNum::U64(x) => x.0 as int,
            AnyNum::U128(x) => x.0 as int,
            AnyNum::F32(_) => 0,
            AnyNum::F64(_) => 0,
        }
    }

    /// The number of the integer kind `kind` whose value is `v`.
    pub open spec fn of_int(kind: NumKind, v: int) -> Self
        recommends
            kind.holds(v),
    {
        match kind {
            NumKind::I8 => AnyNum::I8(Num(v as i8)),
            NumKind::I16 => AnyNum::I16(Num(v as i16)),
            NumKind::I32 => AnyNum::I32(Num(v as i32)),
            NumKind::I64 => AnyNum::I64(Num(v as i64)),
            NumKind::I128 => AnyNum::I128(Num(v as i128)),
            NumKind::U8 => AnyNum::U8(Num(v as u8)),
            NumKind::U16 => AnyNum::U16(Num(v as u16)),
            NumKind::U32 => AnyNum::U32(Num(v as u32)),
            NumKind::U64 => AnyNum::U64(Num(v as u64)),
            NumKind::U128 => AnyNum::U128(Num(v as u128)),
            NumKind::F32 => arbitrary(),
            NumKind::F64 => arbitrary(),
        }
    }

    /// Whether the two numbers are integers of one kind.
    pub open spec fn integers_of_one_kind(self, rhs: Self) -> bool {
        self.spec_kind() == rhs.spec_kind() && self.spec_kind().is_integer()
    }

    /// The kind of the active scalar.
    #[verifier::when_used_as_spec(spec_kind)]
    pub fn kind(&self) -> (kind: NumKind)
        ensures
            kind == self.spec_kind(),
    {
        match self {
            AnyNum::I8(_) => NumKind::I8,
            AnyNum::I16(_) => NumKind::I16,
            AnyNum::I32(_) => NumKind::I32,
            AnyNum::I64(_) => NumKind::I64,
            AnyNum::I128(_) => NumKind::I128,
            AnyNum::U8(_) => NumKind::U8,
            AnyNum::U16(_) => NumKind::U16,
            AnyNum::U32(_) => NumKind::U32,
            AnyNum::U64(_) => NumKind::U64,
            AnyNum::U128(_) => NumKind::U128,
            AnyNum::F32(_) => NumKind::F32,
            AnyNum::F64(_) => NumKind::F64,
        }
    }
}

} // verus!
