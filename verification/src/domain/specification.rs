//! The Specification pattern: a predicate over an entity as an object that can be
//! combined (`and`/`or`/`negate`). Concrete specifications stand beside their
//! entities.

use vstd::prelude::*;

verus! {

/// A business predicate over `T`.
pub trait Specification<T> {
    /// Whether the candidate meets the specification, in mathematical terms.
    spec fn satisfied_by(&self, candidate: &T) -> bool;

    /// Whether the candidate meets the specification.
    fn is_satisfied_by(&self, candidate: &T) -> (r: bool)
        ensures
            r == self.satisfied_by(candidate),
    ;
}

/// The combinators of specifications, for every specification.
pub trait Combine<T>: Specification<T> + Sized {
    /// Logical AND.
    fn and<S: Specification<T>>(self, other: S) -> (r: And<Self, S>)
        ensures
            forall|c: &T| #[trigger]
                r.satisfied_by(c) == (self.satisfied_by(c) && other.satisfied_by(c)),
    {
        And(self, other)
    }

    /// Logical OR.
    fn or<S: Specification<T>>(self, other: S) -> (r: Or<Self, S>)
        ensures
            forall|c: &T| #[trigger]
                r.satisfied_by(c) == (self.satisfied_by(c) || other.satisfied_by(c)),
    {
        Or(self, other)
    }

    /// Logical NOT (named `negate` so as not to be taken for `std::ops::Not`).
    fn negate(self) -> (r: Not<Self>)
        ensures
            forall|c: &T| #[trigger] r.satisfied_by(c) == !self.satisfied_by(c),
    {
        Not(self)
    }
}

impl<T, X: Specification<T>> Combine<T> for X {

}

/// The conjunction of two specifications.
pub struct And<A, B>(A, B);

/// The disjunction of two specifications.
pub struct Or<A, B>(A, B);

/// The negation of a specification.
pub struct Not<A>(A);

impl<T, A: Specification<T>, B: Specification<T>> Specification<T> for And<A, B> {
    closed spec fn satisfied_by(&self, candidate: &T) -> bool {
        self.0.satisfied_by(candidate) && self.1.satisfied_by(candidate)
    }

    fn is_satisfied_by(&self, candidate: &T) -> (r: bool) {
        self.0.is_satisfied_by(candidate) && self.1.is_satisfied_by(candidate)
    }
}

impl<T, A: Specification<T>, B: Specification<T>> Specification<T> for Or<A, B> {
    closed spec fn satisfied_by(&self, candidate: &T) -> bool {
        self.0.satisfied_by(candidate) || self.1.satisfied_by(candidate)
    }

    fn is_satisfied_by(&self, candidate: &T) -> (r: bool) {
        self.0.is_satisfied_by(candidate) || self.1.is_satisfied_by(candidate)
    }
}

impl<T, A: Specification<T>> Specification<T> for Not<A> {
    closed spec fn satisfied_by(&self, candidate: &T) -> bool {
        !self.0.satisfied_by(candidate)
    }

    fn is_satisfied_by(&self, candidate: &T) -> (r: bool) {
        !self.0.is_satisfied_by(candidate)
    }
}

} // verus!
