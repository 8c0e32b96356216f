//! Capability traits for rings, and the ring of machine integers.
//!
//! [`RingType`] extends [`GroupType`] with a multiplicative structure, again
//! split into executable operations and their spec-level images on the model
//! carrier.  `i64` implements the hierarchy with wrapping arithmetic, which
//! makes it the genuine ring of integers modulo 2^64 (associative,
//! commutative and distributive), not a partial one that panics on overflow.

use vstd::prelude::*;

use crate::group_traits::GroupType;

verus! {

/// An element of an (intended) commutative ring: an abelian group with a
/// multiplication and a multiplicative identity.  As with [`GroupType`],
/// the ring axioms themselves are a caller obligation.
pub trait RingType: GroupType {
    /// The model of the multiplicative identity.
    spec fn one_m() -> Self::Elem;

    /// What multiplication means on models.
    spec fn mul_m(a: Self::Elem, b: Self::Elem) -> Self::Elem;

    /// The multiplicative identity.
    fn one() -> (r: Self)
        ensures
            r.model() == Self::one_m(),
    ;

    /// Whether this element is the multiplicative identity.
    fn is_one(&self) -> (r: bool)
        ensures
            r == (self.model() == Self::one_m()),
    ;

    /// Ring multiplication.
    fn mul_el(self, rhs: Self) -> (r: Self)
        ensures
            r.model() == Self::mul_m(self.model(), rhs.model()),
    ;
}

/// Marker for rings of integers modulo a fixed `n`, such as
/// [`crate::modular::IntegerMod`].
pub trait IntegerModN: RingType + Copy {
}

/// An ideal of the ring `R`, presented by a finite set of generators.
pub trait Ideal<R: RingType> {
    /// The generators of the ideal.
    fn generators() -> Vec<R>;
}

/// A ring homomorphism `A -> B`, as a capability of function types.  The
/// homomorphism laws are a caller obligation.
pub trait RingHomo<A: RingType, B: RingType>: Fn(A) -> B {

}

/// Marker for elements of an integral domain.
pub trait Integral: RingType {
}

/// For elements of a ring whose nonzero values are invertible.
pub trait MulInverse: RingType {
    /// The multiplicative inverse.
    fn mul_inverse(self) -> Self;
}

/// Marker for elements of a field.
pub trait FieldType: RingType + Integral + MulInverse {
}

impl GroupType for i64 {
    type Elem = i64;

    open spec fn model(&self) -> i64 {
        *self
    }

    open spec fn zero_m() -> i64 {
        0i64
    }

    open spec fn add_m(a: i64, b: i64) -> i64 {
        a.wrapping_add(b)
    }

    open spec fn neg_m(a: i64) -> i64 {
        (0i64).wrapping_sub(a)
    }

    fn zero() -> (r: i64) {
        0
    }

    fn is_zero(&self) -> (r: bool) {
        *self == 0
    }

    fn add_el(self, rhs: i64) -> (r: i64) {
        self.wrapping_add(rhs)
    }

    fn neg_el(self) -> (r: i64) {
        (0i64).wrapping_sub(self)
    }

    fn sub_el(self, rhs: i64) -> (r: i64) {
        self.wrapping_add((0i64).wrapping_sub(rhs))
    }

    fn eq_el(&self, rhs: &i64) -> (r: bool) {
        *self == *rhs
    }

    fn clone_el(&self) -> (r: i64) {
        *self
    }
}

impl RingType for i64 {
    open spec fn one_m() -> i64 {
        1i64
    }

    open spec fn mul_m(a: i64, b: i64) -> i64 {
        a.wrapping_mul(b)
    }

    fn one() -> (r: i64) {
        1
    }

    fn is_one(&self) -> (r: bool) {
        *self == 1
    }

    fn mul_el(self, rhs: i64) -> (r: i64) {
        self.wrapping_mul(rhs)
    }
}

/// The wrapping arithmetic of `i64` satisfies the abelian-group axioms the
/// polynomial laws hypothesize: addition commutes and associates, and zero
/// is neutral.  It is the ring of integers modulo 2^64.
pub proof fn lemma_i64_group_axioms()
    ensures
        crate::poly::add_m_commutes::<i64>(),
        crate::poly::add_m_associates::<i64>(),
        crate::poly::zero_m_neutral::<i64>(),
{
    assert forall|x: i64, y: i64| #[trigger] <i64 as GroupType>::add_m(x, y)
        == <i64 as GroupType>::add_m(y, x) by {
        assert(x.wrapping_add(y) == y.wrapping_add(x));
    }
    assert forall|x: i64, y: i64, z: i64| #[trigger] <i64 as GroupType>::add_m(
        <i64 as GroupType>::add_m(x, y),
        z,
    ) == <i64 as GroupType>::add_m(x, <i64 as GroupType>::add_m(y, z)) by {
        assert(x.wrapping_add(y).wrapping_add(z) == x.wrapping_add(y.wrapping_add(z)));
    }
    assert forall|x: i64| #[trigger] <i64 as GroupType>::add_m(x, <i64 as GroupType>::zero_m())
        == x by {
        assert(x.wrapping_add(0) == x);
    }
    assert forall|x: i64| #[trigger] <i64 as GroupType>::add_m(<i64 as GroupType>::zero_m(), x)
        == x by {
        assert((0i64).wrapping_add(x) == x);
    }
}

} // verus!
