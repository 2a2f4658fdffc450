//! The kinds of native representation.

use vstd::prelude::*;

verus! {

/// The twelve native representations a number can have. The set is closed.
#[derive(Clone, Copy, Debug, PartialEq, Eq, Structural)]
pub enum NumKind {
    I8,
    I16,
    I32,
    I64,
    I128,
    U8,
    U16,
    U32,
    U64,
    U128,
    F32,
    F64,
}

impl NumKind {
    /// The tag that a tagged scalar of this kind carries in its type.
    pub open spec fn spec_tag(self) -> u8 {
        match self {
            NumKind::I8 => 0,
            NumKind::I16 => 1,
            NumKind::I32 => 2,
            NumKind::I64 => 3,
            NumKind::I128 => 4,
            NumKind::U8 => 5,
            NumKind::U16 => 6,
            NumKind::U32 => 7,
            NumKind::U64 => 8,
            NumKind::U128 => 9,
            NumKind::F32 => 10,
            NumKind::F64 => 11,
        }
    }

    /// Whether the kind is one of the ten integer representations.
    pub open spec fn is_integer(self) -> bool {
        self != NumKind::F32 && self != NumKind::F64
    }

    /// The least value of an integer kind.
    pub open spec fn lowest(self) -> int
        recommends
            self.is_integer(),
    {
        match self {
            NumKind::I8 => i8::MIN as int,
            NumKind::I16 => i16::MIN as int,
            NumKind::I32 => i32::MIN as int,
            NumKind::I64 => i64::MIN as int,
            NumKind::I128 => i128::MIN as int,
            _ => 0,
        }
    }

    /// The greatest value of an integer kind.
    pub open spec fn highest(self) -> int
        recommends
            self.is_integer(),
    {
        match self {
            NumKind::I8 => i8::MAX as int,
            NumKind::I16 => i16::MAX as int,
            NumKind::I32 => i32::MAX as int,
            NumKind::I64 => i64::MAX as int,
            NumKind::I128 => i128::MAX as int,
            NumKind::U8 => u8::MAX as int,
            NumKind::U16 => u16::MAX as int,
            NumKind::U32 => u32::MAX as int,
            NumKind::U64 => u64::MAX as int,
            NumKind::U128 => u128::MAX as int,
            _ => 0,
        }
    }

    /// Whether `v` is a value of this integer kind.
    pub open spec fn holds(self, v: int) -> bool {
        self.is_integer() && self.lowest() <= v <= self.highest()
    }

    /// The tag of this kind, as the types of the tagged scalars carry it.
    #[verifier::when_used_as_spec(spec_tag)]
    pub fn tag(self) -> (t: u8)
        ensures
            t == self.spec_tag(),
    {
        match self {
            NumKind::I8 => 0,
            NumKind::I16 => 1,
            NumKind::I32 => 2,
            NumKind::I64 => 3,
            NumKind::I128 => 4,
            NumKind::U8 => 5,
            NumKind::U16 => 6,
            NumKind::U32 => 7,
            NumKind::U64 => 8,
            NumKind::U128 => 9,
            NumKind::F32 => 10,
            NumKind::F64 => 11,
        }
    }
}

} // verus!
