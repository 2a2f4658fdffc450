//! The tagged scalar.

use core::fmt::Display;
use core::ops::{Add, Deref, DerefMut};
use vstd::prelude::*;
use vstd::std_specs::ops::AddSpec;
use vstd::string::to_string_from_display_ensures;

verus! {

/// One native value of representation `T`, tagged in its type with `N`, the
/// tag of its kind. The pairing is made by the type and never changes; two
/// scalars with different tags are of different types and cannot be added.
#[derive(Debug, Clone, Copy)]
pub struct Num<T, const N: u8>(pub T);

impl<T, const N: u8> Num<T, N> {
    /// The tag in the type.
    pub open spec fn spec_tag(&self) -> u8 {
        N
    }

    /// Wraps `value`.
    pub fn new(value: T) -> (num: Self)
        ensures
            num.0 == value,
    {
        Num(value)
    }

    /// The tag of this scalar's kind.
    #[verifier::when_used_as_spec(spec_tag)]
    pub fn tag(&self) -> (t: u8)
        ensures
            t == N,
    {
        N
    }

    /// Unwraps the native value.
    pub fn into_inner(self) -> (value: T)
        ensures
            value == self.0,
    {
        self.0
    }
}

impl<T, const N: u8> Deref for Num<T, N> {
    type Target = T;

    /// The wrapped value, to be read as the native value itself.
    fn deref(&self) -> (value: &T)
        ensures
            *value == self.0,
    {
        &self.0
    }
}

impl<T, const N: u8> DerefMut for Num<T, N> {
    /// The wrapped value, to be changed in place: what is written through
    /// the reference is what the scalar holds afterwards.
    fn deref_mut(&mut self) -> (value: &mut T)
        ensures
            *value == old(self).0,
            final(self).0 == *final(value),
    {
        &mut self.0
    }
}

impl<T: Add<Output = T>, const N: u8> Add for Num<T, N> {
    type Output = Num<T, N>;

    /// The native sum, under the same tag. The call is admitted exactly
    /// where the native addition is, and returns what that addition returns.
    fn add(self, rhs: Self) -> (sum: Self)
        ensures
            call_ensures(T::add, (self.0, rhs.0), sum.0),
    {
        Num(self.0 + rhs.0)
    }
}

impl<T: Add<Output = T>, const N: u8> vstd::std_specs::ops::AddSpecImpl for Num<T, N> {
    open spec fn obeys_add_spec() -> bool {
        T::obeys_add_spec()
    }

    open spec fn add_req(self, rhs: Self) -> bool {
        AddSpec::add_req(self.0, rhs.0)
    }

    open spec fn add_spec(self, rhs: Self) -> Self {
        Num(AddSpec::add_spec(self.0, rhs.0))
    }
}

impl<T: Display, const N: u8> Num<T, N> {
    /// The text that the native value's own `Display` gives.
    pub fn to_string(&self) -> (text: String)
        ensures
            to_string_from_display_ensures::<T>(&self.0, text),
    {
        self.0.to_string()
    }
}

} // verus!
