//! Modules over a ring, and module homomorphisms.
//!
//! [`ModType<R>`] is the capability an `R`-module's elements offer: an
//! abelian group together with a multiplication by ring elements.  Two
//! instances ship with the crate: every ring is a module over itself, shown
//! here for `i64` and for polynomials.
//!
//! [`Homo`] wraps the function that applies a homomorphism.  As everywhere
//! in this crate, the algebraic laws (additivity, compatibility with the
//! module multiplication) are a caller obligation; what is specified and
//! proved is how `new`, `as_fn`, `apply`, [`Homo::add_homo`] and
//! [`Homo::compose`] relate the wrapped functions to one another.

use core::marker::PhantomData;

use vstd::prelude::*;

use crate::group_traits::GroupType;
use crate::poly::poly_mul_m;
use crate::poly::Polynomial;
use crate::ring_traits::RingType;

verus! {

/// An element of a module over the ring `R`: an abelian group element that
/// ring elements can act on.  Since the rings of this crate are meant to be
/// commutative it does not matter whether the action is from the left or
/// the right; we say left for definiteness.
pub trait ModType<R: RingType>: GroupType {
    /// What the action of `r` on `m` means on models.
    spec fn mod_mul_m(r: R::Elem, m: Self::Elem) -> Self::Elem;

    /// Module multiplication `r × m`, for `r` in `R` and `m` in the module.
    fn mod_mul(r: R, m: Self) -> (res: Self)
        ensures
            res.model() == Self::mod_mul_m(r.model(), m.model()),
    ;
}

/// A ring is a module over itself: the action is ring multiplication.
impl ModType<i64> for i64 {
    open spec fn mod_mul_m(r: i64, m: i64) -> i64 {
        r.wrapping_mul(m)
    }

    fn mod_mul(r: i64, m: i64) -> (res: i64) {
        r.wrapping_mul(m)
    }
}

/// The polynomial ring is a module over itself: the action is polynomial
/// multiplication.
impl<T: RingType> ModType<Polynomial<T>> for Polynomial<T> {
    open spec fn mod_mul_m(r: Seq<T::Elem>, m: Seq<T::Elem>) -> Seq<T::Elem> {
        poly_mul_m::<T>(r, m)
    }

    fn mod_mul(r: Polynomial<T>, m: Polynomial<T>) -> (res: Polynomial<T>) {
        r * m
    }
}

/// An `R`-module homomorphism `A -> B`, wrapping the function that applies
/// it.  Values are immutable: combining homomorphisms builds new ones and
/// leaves the operands usable.
#[verifier::reject_recursive_types(A)]
#[verifier::reject_recursive_types(B)]
pub struct Homo<R: RingType, A: ModType<R>, B: ModType<R>, F: Fn(A) -> B> {
    ring: PhantomData<(R, A, B)>,
    function: F,
}

impl<R: RingType, A: ModType<R>, B: ModType<R>, F: Fn(A) -> B> Homo<R, A, B, F> {
    /// The wrapped function.
    pub closed spec fn func(self) -> F {
        self.function
    }

    /// Wraps a function as a homomorphism.  That the function really is one
    /// — additive and compatible with the module multiplication — is a
    /// caller obligation, as with every capability of this crate.
    pub fn new(function: F) -> (r: Self)
        ensures
            r.func() == function,
    {
        Homo { ring: PhantomData, function }
    }

    /// Hands the wrapped function back, so elements can be applied to it.
    pub fn as_fn(self) -> (r: F)
        ensures
            r == self.func(),
    {
        self.function
    }

    /// Applies the homomorphism to one element.
    pub fn apply(&self, x: A) -> (r: B)
        requires
            call_requires(self.func(), (x,)),
        ensures
            call_ensures(self.func(), (x,), r),
    {
        (self.function)(x)
    }

    /// The pointwise sum `x ↦ self(x) + rhs(x)`.  The element is duplicated
    /// by [`GroupType::clone_el`], so the new function accepts any element
    /// both operands accept on every copy standing for the same carrier
    /// value, and each of its results is a sum of results of the operands.
    pub fn add_homo<F2: Fn(A) -> B>(self, rhs: Homo<R, A, B, F2>) -> (r: Homo<
        R,
        A,
        B,
        impl Fn(A) -> B,
    >)
        ensures
            forall|x: A, y: B| #[trigger]
                call_ensures(r.func(), (x,), y) ==> exists|x1: A, b1: B, b2: B|
                    x1.model() == x.model() && call_ensures(self.func(), (x1,), b1)
                        && call_ensures(rhs.func(), (x,), b2) && y.model() == B::add_m(
                        b1.model(),
                        b2.model(),
                    ),
            forall|x: A|
                (forall|x1: A| x1.model() == x.model() ==> call_requires(self.func(), (x1,))
                    && call_requires(rhs.func(), (x1,))) ==> #[trigger] call_requires(
                    r.func(),
                    (x,),
                ),
    {
        let f = self.function;
        let g = rhs.function;
        let fs: Ghost<F> = Ghost(f);
        let gs: Ghost<F2> = Ghost(g);
        let sum = move |x: A| -> (y: B)
            requires
                forall|x1: A|
                    x1.model() == x.model() ==> call_requires(fs@, (x1,)) && call_requires(
                        gs@,
                        (x1,),
                    ),
            ensures
                exists|x1: A, b1: B, b2: B|
                    x1.model() == x.model() && call_ensures(fs@, (x1,), b1) && call_ensures(
                        gs@,
                        (x,),
                        b2,
                    ) && y.model() == B::add_m(b1.model(), b2.model()),
            {
                let xc = x.clone_el();
                let b1 = f(xc);
                let b2 = g(x);
                b1.add_el(b2)
            };
        Homo::new(sum)
    }

    /// The composite homomorphism `x ↦ other(self(x))`, for `self: A -> B`
    /// and `other: B -> C`.  The new function accepts an element when
    /// `self` accepts it and `other` accepts everything `self` can return
    /// for it, and each of its results is a result of `other` on a result
    /// of `self`.
    pub fn compose<C: ModType<R>, F2: Fn(B) -> C>(self, other: Homo<R, B, C, F2>) -> (r: Homo<
        R,
        A,
        C,
        impl Fn(A) -> C,
    >)
        ensures
            forall|x: A, y: C| #[trigger]
                call_ensures(r.func(), (x,), y) ==> exists|b: B|
                    call_ensures(self.func(), (x,), b) && call_ensures(other.func(), (b,), y),
            forall|x: A|
                (call_requires(self.func(), (x,)) && (forall|b: B|
                    call_ensures(self.func(), (x,), b) ==> call_requires(other.func(), (b,))))
                    ==> #[trigger] call_requires(r.func(), (x,)),
    {
        Homo::new(compose_fns(other.as_fn(), self.as_fn()))
    }
}

/// The composite `x ↦ g(f(x))` of two plain functions.
pub fn compose_fns<A, B, C, G: Fn(B) -> C, F: Fn(A) -> B>(g: G, f: F) -> (r: impl Fn(A) -> C)
    ensures
        forall|x: A, y: C| #[trigger]
            call_ensures(r, (x,), y) ==> exists|b: B|
                call_ensures(f, (x,), b) && call_ensures(g, (b,), y),
        forall|x: A|
            (call_requires(f, (x,)) && (forall|b: B|
                call_ensures(f, (x,), b) ==> call_requires(g, (b,)))) ==> #[trigger] call_requires(
                r,
                (x,),
            ),
{
    let fs: Ghost<F> = Ghost(f);
    let gs: Ghost<G> = Ghost(g);
    let composite = move |x: A| -> (y: C)
        requires
            call_requires(fs@, (x,)),
            forall|b: B| call_ensures(fs@, (x,), b) ==> call_requires(gs@, (b,)),
        ensures
            exists|b: B| call_ensures(fs@, (x,), b) && call_ensures(gs@, (b,), y),
        {
            g(f(x))
        };
    composite
}

} // verus!
