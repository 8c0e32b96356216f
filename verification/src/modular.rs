//! Rings of integers modulo `n`.
//!
//! [`IntegerMod`] fixes the modulus at compile time, so its arithmetic is
//! total and the type is a genuine ring — the coefficient ring `ℤ/Nℤ` for
//! polynomials, for instance.  [`ModularInt`] carries its modulus at run
//! time instead; two values may then disagree on the modulus, so all of its
//! arithmetic is fallible and reports [`ArithmeticError::InvalidOperand`]
//! on a mismatch rather than panicking or answering under a wrong modulus.

use vstd::prelude::*;

use crate::error::ArithmeticError;
use crate::group_traits::GroupType;
use crate::ring_traits::IntegerModN;
use crate::ring_traits::RingType;

verus! {

/// The ring `ℤ/Nℤ` with the modulus fixed at compile time.  For `N == 0`
/// the type degenerates to the trivial ring holding only zero.
#[derive(Debug, Clone, Copy, Hash, PartialEq, Eq)]
pub struct IntegerMod<const N: u64> {
    val: u64,
}

impl<const N: u64> IntegerMod<N> {
    /// Values are reduced residues.
    #[verifier::type_invariant]
    spec fn inv(self) -> bool {
        if N >= 1 {
            self.val < N
        } else {
            self.val == 0
        }
    }

    /// The residue this value stands for.
    pub closed spec fn residue(self) -> u64 {
        self.val
    }

    /// The residue of `val` modulo `N`.
    pub fn new(val: u64) -> (r: Self)
        ensures
            r.residue() == if N >= 1 {
                val as int % N as int
            } else {
                0int
            },
    {
        if N == 0 {
            IntegerMod { val: 0 }
        } else {
            IntegerMod { val: val % N }
        }
    }

    /// The residue, as a plain integer.
    pub fn value(&self) -> (r: u64)
        ensures
            r == self.residue(),
    {
        self.val
    }
}

impl<const N: u64> GroupType for IntegerMod<N> {
    type Elem = u64;

    closed spec fn model(&self) -> u64 {
        self.val
    }

    open spec fn zero_m() -> u64 {
        0u64
    }

    open spec fn add_m(a: u64, b: u64) -> u64 {
        if N >= 1 {
            ((a + b) % (N as int)) as u64
        } else {
            0u64
        }
    }

    open spec fn neg_m(a: u64) -> u64 {
        if N >= 1 {
            (((N as int) - a) % (N as int)) as u64
        } else {
            0u64
        }
    }

    fn zero() -> (r: Self) {
        IntegerMod { val: 0 }
    }

    fn is_zero(&self) -> (r: bool) {
        self.val == 0
    }

    fn add_el(self, rhs: Self) -> (r: Self) {
        proof {
            use_type_invariant(&self);
            use_type_invariant(&rhs);
        }
        if N == 0 {
            IntegerMod { val: 0 }
        } else {
            let s: u128 = (self.val as u128) + (rhs.val as u128);
            IntegerMod { val: (s % (N as u128)) as u64 }
        }
    }

    fn neg_el(self) -> (r: Self) {
        proof {
            use_type_invariant(&self);
        }
        if N == 0 {
            IntegerMod { val: 0 }
        } else {
            IntegerMod { val: (N - self.val) % N }
        }
    }

    fn sub_el(self, rhs: Self) -> (r: Self) {
        self.add_el(rhs.neg_el())
    }

    fn eq_el(&self, rhs: &Self) -> (r: bool) {
        self.val == rhs.val
    }

    fn clone_el(&self) -> (r: Self) {
        *self
    }
}

impl<const N: u64> RingType for IntegerMod<N> {
    open spec fn one_m() -> u64 {
        if N >= 1 {
            (1int % N as int) as u64
        } else {
            0u64
        }
    }

    open spec fn mul_m(a: u64, b: u64) -> u64 {
        if N >= 1 {
            ((a * b) % (N as int)) as u64
        } else {
            0u64
        }
    }

    fn one() -> (r: Self) {
        if N == 0 {
            IntegerMod { val: 0 }
        } else {
            IntegerMod { val: 1 % N }
        }
    }

    fn is_one(&self) -> (r: bool) {
        proof {
            use_type_invariant(self);
        }
        if N == 0 {
            true
        } else {
            self.val == 1 % N
        }
    }

    fn mul_el(self, rhs: Self) -> (r: Self) {
        proof {
            use_type_invariant(&self);
            use_type_invariant(&rhs);
        }
        if N == 0 {
            IntegerMod { val: 0 }
        } else {
            proof {
                assert((self.val as int) * (rhs.val as int) <= (u64::MAX as int) * (
                u64::MAX as int)) by (nonlinear_arith)
                    requires
                        self.val as int <= u64::MAX as int,
                        rhs.val as int <= u64::MAX as int,
                ;
            }
            let p: u128 = (self.val as u128) * (rhs.val as u128);
            IntegerMod { val: (p % (N as u128)) as u64 }
        }
    }
}

impl<const N: u64> IntegerModN for IntegerMod<N> {

}

/// Addition of residues: `(a + b) mod N`.
impl<const N: u64> std::ops::Add for IntegerMod<N> {
    type Output = Self;

    fn add(self, rhs: Self) -> (r: Self)
        ensures
            r.residue() == <Self as GroupType>::add_m(self.residue(), rhs.residue()),
    {
        self.add_el(rhs)
    }
}

impl<const N: u64> vstd::std_specs::ops::AddSpecImpl for IntegerMod<N> {
    open spec fn obeys_add_spec() -> bool {
        false
    }

    open spec fn add_req(self, rhs: Self) -> bool {
        true
    }

    open spec fn add_spec(self, rhs: Self) -> Self {
        self
    }
}

/// Negation of a residue: `(N - a) mod N`.
impl<const N: u64> std::ops::Neg for IntegerMod<N> {
    type Output = Self;

    fn neg(self) -> (r: Self)
        ensures
            r.residue() == <Self as GroupType>::neg_m(self.residue()),
    {
        self.neg_el()
    }
}

impl<const N: u64> vstd::std_specs::ops::NegSpecImpl for IntegerMod<N> {
    open spec fn obeys_neg_spec() -> bool {
        false
    }

    open spec fn neg_req(self) -> bool {
        true
    }

    open spec fn neg_spec(self) -> Self {
        self
    }
}

/// Subtraction of residues: addition of the negated right operand.
impl<const N: u64> std::ops::Sub for IntegerMod<N> {
    type Output = Self;

    fn sub(self, rhs: Self) -> (r: Self)
        ensures
            r.residue() == <Self as GroupType>::add_m(
                self.residue(),
                <Self as GroupType>::neg_m(rhs.residue()),
            ),
    {
        self.sub_el(rhs)
    }
}

impl<const N: u64> vstd::std_specs::ops::SubSpecImpl for IntegerMod<N> {
    open spec fn obeys_sub_spec() -> bool {
        false
    }

    open spec fn sub_req(self, rhs: Self) -> bool {
        true
    }

    open spec fn sub_spec(self, rhs: Self) -> Self {
        self
    }
}

/// Multiplication of residues: `(a · b) mod N`.
impl<const N: u64> std::ops::Mul for IntegerMod<N> {
    type Output = Self;

    fn mul(self, rhs: Self) -> (r: Self)
        ensures
            r.residue() == <Self as RingType>::mul_m(self.residue(), rhs.residue()),
    {
        self.mul_el(rhs)
    }
}

impl<const N: u64> vstd::std_specs::ops::MulSpecImpl for IntegerMod<N> {
    open spec fn obeys_mul_spec() -> bool {
        false
    }

    open spec fn mul_req(self, rhs: Self) -> bool {
        true
    }

    open spec fn mul_spec(self, rhs: Self) -> Self {
        self
    }
}

/// An integer modulo a modulus chosen at run time.
///
/// Unlike [`IntegerMod`], two values of this type may carry different
/// moduli, so every binary operation checks the moduli first and reports
/// [`ArithmeticError::InvalidOperand`] when they differ — never a panic,
/// never a silent answer under the wrong modulus.
#[derive(Debug, Clone, Copy, Hash, PartialEq, Eq, Structural)]
pub struct ModularInt {
    val: u64,
    modulus: u64,
}

impl ModularInt {
    /// The modulus is positive and values are reduced residues.
    #[verifier::type_invariant]
    spec fn inv(self) -> bool {
        self.modulus >= 1 && self.val < self.modulus
    }

    /// The residue this value stands for.
    pub closed spec fn residue(self) -> u64 {
        self.val
    }

    /// The modulus this value carries.
    pub closed spec fn spec_modulus(self) -> u64 {
        self.modulus
    }

    /// The residue of `val` modulo `modulus`; a modulus of zero names no
    /// ring and is reported as out of bounds.
    pub fn new(val: u64, modulus: u64) -> (r: Result<Self, ArithmeticError>)
        ensures
            modulus == 0 ==> r == Err::<ModularInt, ArithmeticError>(ArithmeticError::OutOfBounds),
            modulus >= 1 ==> (r matches Ok(m) && m.residue() == val as int % modulus as int
                && m.spec_modulus() == modulus),
    {
        if modulus == 0 {
            Err(ArithmeticError::OutOfBounds)
        } else {
            Ok(ModularInt { val: val % modulus, modulus })
        }
    }

    /// The residue, as a plain integer.
    pub fn value(&self) -> (r: u64)
        ensures
            r == self.residue(),
    {
        self.val
    }

    /// The modulus, as a plain integer.
    pub fn modulus(&self) -> (r: u64)
        ensures
            r == self.spec_modulus(),
    {
        self.modulus
    }

    /// The sum of two residues of the same modulus; residues of different
    /// moduli cannot be added and are reported as invalid operands.
    pub fn add(&self, rhs: &Self) -> (r: Result<Self, ArithmeticError>)
        ensures
            self.spec_modulus() != rhs.spec_modulus() ==> r == Err::<ModularInt, ArithmeticError>(
                ArithmeticError::InvalidOperand,
            ),
            self.spec_modulus() == rhs.spec_modulus() ==> (r matches Ok(m) && m.residue() == (
            self.residue() + rhs.residue()) % (self.spec_modulus() as int) && m.spec_modulus()
                == self.spec_modulus()),
    {
        proof {
            use_type_invariant(self);
            use_type_invariant(rhs);
        }
        if self.modulus != rhs.modulus {
            Err(ArithmeticError::InvalidOperand)
        } else {
            let s: u128 = (self.val as u128) + (rhs.val as u128);
            Ok(ModularInt { val: (s % (self.modulus as u128)) as u64, modulus: self.modulus })
        }
    }

    /// The additive inverse, under the same modulus.
    pub fn neg(&self) -> (r: Self)
        ensures
            r.residue() == ((self.spec_modulus() - self.residue()) % (
            self.spec_modulus() as int)) as u64,
            r.spec_modulus() == self.spec_modulus(),
    {
        proof {
            use_type_invariant(self);
        }
        ModularInt { val: (self.modulus - self.val) % self.modulus, modulus: self.modulus }
    }

    /// The difference of two residues of the same modulus; residues of
    /// different moduli are reported as invalid operands.
    pub fn sub(&self, rhs: &Self) -> (r: Result<Self, ArithmeticError>)
        ensures
            self.spec_modulus() != rhs.spec_modulus() ==> r == Err::<ModularInt, ArithmeticError>(
                ArithmeticError::InvalidOperand,
            ),
            self.spec_modulus() == rhs.spec_modulus() ==> (r matches Ok(m) && m.residue() == (
            self.residue() + (self.spec_modulus() - rhs.residue()) % (self.spec_modulus() as int))
                % (self.spec_modulus() as int) && m.spec_modulus() == self.spec_modulus()),
    {
        proof {
            use_type_invariant(self);
            use_type_invariant(rhs);
        }
        let n = rhs.neg();
        self.add(&n)
    }

    /// The product of two residues of the same modulus; residues of
    /// different moduli are reported as invalid operands.
    pub fn mul(&self, rhs: &Self) -> (r: Result<Self, ArithmeticError>)
        ensures
            self.spec_modulus() != rhs.spec_modulus() ==> r == Err::<ModularInt, ArithmeticError>(
                ArithmeticError::InvalidOperand,
            ),
            self.spec_modulus() == rhs.spec_modulus() ==> (r matches Ok(m) && m.residue() == (
            self.residue() * rhs.residue()) % (self.spec_modulus() as int) && m.spec_modulus()
                == self.spec_modulus()),
    {
        proof {
            use_type_invariant(self);
            use_type_invariant(rhs);
        }
        if self.modulus != rhs.modulus {
            Err(ArithmeticError::InvalidOperand)
        } else {
            proof {
                assert((self.val as int) * (rhs.val as int) <= (u64::MAX as int) * (
                u64::MAX as int)) by (nonlinear_arith)
                    requires
                        self.val as int <= u64::MAX as int,
                        rhs.val as int <= u64::MAX as int,
                ;
            }
            let p: u128 = (self.val as u128) * (rhs.val as u128);
            Ok(ModularInt { val: (p % (self.modulus as u128)) as u64, modulus: self.modulus })
        }
    }
}

} // verus!
