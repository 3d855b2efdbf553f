//! Approximate equality.

use vstd::prelude::*;

verus! {

/// Equality up to a tolerance, for values that come out of chains of
/// inexact arithmetic.
///
/// An implementor supplies `fuzzy_eq`; for a composite value it holds
/// exactly when it holds of every pair of corresponding components, under one
/// tolerance. Whatever an implementation promises of `fuzzy_eq`, callers of
/// `fuzzy_ne` learn the opposite.
pub trait FuzzyEq<T> {
    /// Whether `self` and `other` are equal up to the tolerance.
    fn fuzzy_eq(&self, other: &T) -> bool;

    /// The negation of `fuzzy_eq`: `different` is returned only where
    /// `fuzzy_eq` on the same two values gives `!different`.
    fn fuzzy_ne(&self, other: &T) -> (different: bool)
        ensures
            call_ensures(Self::fuzzy_eq, (self, other), !different),
    {
        !self.fuzzy_eq(other)
    }
}

} // verus!
