//! Capability traits for abelian groups.
//!
//! A coefficient type must say what its values *mean* before anything can be
//! proved about code that is generic over it.  [`GroupType`] therefore pairs
//! the executable operations (`zero`, `add`, `neg`, ...) with a mathematical
//! model: an associated carrier type `Elem`, a `model` function mapping each
//! element to its carrier value, and spec-level images of every operation.
//! Each executable operation promises to agree with its spec-level image.
//!
//! Nothing here checks the group *axioms* (associativity, commutativity,
//! neutrality of zero): a type whose operations break them will still
//! implement the trait.  Lemmas that need an axiom take it as a hypothesis.

use vstd::prelude::*;

verus! {

/// An element of an (intended) abelian group.
///
/// `Elem` is the mathematical carrier; `model` maps an element to the carrier
/// value it stands for.  Two elements are interchangeable exactly when their
/// models are equal, so `model` also fixes what equality means for the type.
pub trait GroupType: Sized {
    /// The mathematical carrier set of the group.
    type Elem;

    /// The carrier value this element stands for.
    spec fn model(&self) -> Self::Elem;

    /// The model of the additive identity.
    spec fn zero_m() -> Self::Elem;

    /// What addition means on models.
    spec fn add_m(a: Self::Elem, b: Self::Elem) -> Self::Elem;

    /// What negation means on models.
    spec fn neg_m(a: Self::Elem) -> Self::Elem;

    /// The additive identity.
    fn zero() -> (r: Self)
        ensures
            r.model() == Self::zero_m(),
    ;

    /// Whether this element is the additive identity.
    fn is_zero(&self) -> (r: bool)
        ensures
            r == (self.model() == Self::zero_m()),
    ;

    /// Group addition.
    fn add_el(self, rhs: Self) -> (r: Self)
        ensures
            r.model() == Self::add_m(self.model(), rhs.model()),
    ;

    /// Additive inverse.
    fn neg_el(self) -> (r: Self)
        ensures
            r.model() == Self::neg_m(self.model()),
    ;

    /// Subtraction, defined as addition of the inverse.
    fn sub_el(self, rhs: Self) -> (r: Self)
        ensures
            r.model() == Self::add_m(self.model(), Self::neg_m(rhs.model())),
    ;

    /// Equality test: true exactly when the two models coincide.
    fn eq_el(&self, rhs: &Self) -> (r: bool)
        ensures
            r == (self.model() == rhs.model()),
    ;

    /// A copy that stands for the same carrier value.
    fn clone_el(&self) -> (r: Self)
        ensures
            r.model() == self.model(),
    ;
}

/// A group homomorphism `A -> B`, as a capability of function types.  The
/// homomorphism law itself is a caller obligation, not checked here.
pub trait GroupHomo<A: GroupType, B: GroupType>: Fn(A) -> B {

}

} // verus!
