//! Objects and morphisms of a category.

use vstd::prelude::*;

verus! {

/// An object in a category.
pub trait Object {

}

/// A morphism between objects of a category.
pub trait Morphism<A: Object, B: Object>: Fn(A) -> B + Sized {
    /// The identity morphism, with `f ∘ 1 == f`.
    fn ident() -> Self;
}

/// The composite `x ↦ g(f(x))` of two plain functions.
pub fn compose<A, B, C, G: Fn(B) -> C, F: Fn(A) -> B>(g: G, f: F) -> (r: impl Fn(A) -> C)
    ensures
        forall|x: A, y: C| #[trigger]
            call_ensures(r, (x,), y) ==> exists|b: B|
                call_ensures(f, (x,), b) && call_ensures(g, (b,), y),
        forall|x: A|
            (call_requires(f, (x,)) && (forall|b: B|
                call_ensures(f, (x,), b) ==> call_requires(g, (b,)))) ==> #[trigger] call_requires(
                r,
                (x,),
            ),
{
    let fs: Ghost<F> = Ghost(f);
    let gs: Ghost<G> = Ghost(g);
    let composite = move |x: A| -> (y: C)
        requires
            call_requires(fs@, (x,)),
            forall|b: B| call_ensures(fs@, (x,), b) ==> call_requires(gs@, (b,)),
        ensures
            exists|b: B| call_ensures(fs@, (x,), b) && call_ensures(gs@, (b,), y),
        {
            g(f(x))
        };
    composite
}

} // verus!
