//! Helper functions shared by the other modules.

use vstd::prelude::*;

use crate::group_traits::GroupType;

verus! {

/// The model of an `n`-fold sum `x + x + ... + x`, starting from zero.
pub open spec fn rep_add_m<T: GroupType>(n: nat, x: T::Elem) -> T::Elem
    decreases n,
{
    if n == 0 {
        T::zero_m()
    } else {
        T::add_m(rep_add_m::<T>((n - 1) as nat, x), x)
    }
}

/// Treats an abelian group as a module over the integers: `n × a` is
/// `a + a + ... + a`, with the addition performed `n` times (zero for
/// `n == 0`).
pub fn mul_z_module<T: GroupType>(n: u64, a: T) -> (r: T)
    ensures
        r.model() == rep_add_m::<T>(n as nat, a.model()),
{
    let mut acc = T::zero();
    let mut i: u64 = 0;
    while i < n
        invariant
            i <= n,
            acc.model() == rep_add_m::<T>(i as nat, a.model()),
        decreases n - i,
    {
        acc = acc.add_el(a.clone_el());
        i = i + 1;
    }
    acc
}

/// The larger of two numbers; returns `a` when they are equal.
pub fn max(a: i64, b: i64) -> (r: i64)
    ensures
        r == if a >= b {
            a
        } else {
            b
        },
{
    if a >= b {
        a
    } else {
        b
    }
}

/// The smaller of two numbers; returns `a` when they are equal.
pub fn min(a: i64, b: i64) -> (r: i64)
    ensures
        r == if a <= b {
            a
        } else {
            b
        },
{
    if a <= b {
        a
    } else {
        b
    }
}

} // verus!
