//! A number whose native representation is chosen at run time.
//!
//! [`Num`] pairs one native value with the tag of its kind, fixed in the
//! type. [`AnyNum`] is the closed union of the twelve tagged scalars; it
//! compares, renders and combines two numbers by the native operation of the
//! kind they share, and refuses to combine numbers of different kinds.

pub mod any_num;
pub mod arith;
pub mod convert;
pub mod decimal;
pub mod equality;
pub mod kind;
pub mod laws;
pub mod num;
pub mod ops;
pub mod render;

pub use any_num::{AnyNum, KindMismatch};
pub use kind::NumKind;
pub use num::Num;
