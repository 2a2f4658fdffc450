//! The text of a number.

use core::fmt::Display;
use vstd::prelude::*;
use vstd::string::to_string_from_display_ensures;
use crate::any_num::AnyNum;
use crate::decimal::{decimal_text, integer_to_string, natural_to_string};

verus! {

impl<F: Display, D: Display> AnyNum<F, D> {
    /// Whether `text` is a rendering of this number: for an integer kind the
    /// decimal numeral of its value, for a floating kind what the `Display`
    /// of `F` or `D` gives for its value.
    pub open spec fn renders(self, text: String) -> bool {
        match self {
            AnyNum::F32(x) => to_string_from_display_ensures::<F>(&x.0, text),
            AnyNum::F64(x) => to_string_from_display_ensures::<D>(&x.0, text),
            _ => text@ == decimal_text(self.value()),
        }
    }

    /// The text of this number in the form of its kind.
    pub fn to_string(&self) -> (text: String)
        ensures
            self.renders(text),
    {
        match self {
            AnyNum::I8(x) => integer_to_string(x.0 as i128),
            AnyNum::I16(x) => integer_to_string(x.0 as i128),
            AnyNum::I32(x) => integer_to_string(x.0 as i128),
            AnyNum::I64(x) => integer_to_string(x.0 as i128),
            AnyNum::I128(x) => integer_to_string(x.0),
            AnyNum::U8(x) => natural_to_string(x.0 as u128),
            AnyNum::U16(x) => natural_to_string(x.0 as u128),
            AnyNum::U32(x) => natural_to_string(x.0 as u128),
            AnyNum::U64(x) => natural_to_string(x.0 as u128),
            AnyNum::U128(x) => natural_to_string(x.0),
            AnyNum::F32(x) => x.to_string(),
            AnyNum::F64(x) => x.to_string(),
        }
    }
}

} // verus!
