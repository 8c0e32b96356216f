//! Dense polynomials over a ring.
//!
//! A [`Polynomial`] stores its coefficients in a vector (index `i` holds the
//! coefficient of `x^i`) together with a cached degree: the highest index
//! whose coefficient is nonzero, or `0` when every coefficient is zero.  The
//! degree is computed once, on construction, and a type invariant keeps it
//! correct ever after.
//!
//! The mathematical model of a polynomial is the sequence of coefficient
//! models at indices `0 ..= degree`.  Trailing zero coefficients that a
//! caller happened to pass in stay stored but never enter the model, so two
//! polynomials are equal exactly when their models are equal sequences.
//! Every arithmetic operation is specified, on models, by a spec function in
//! this module, and the laws the engine obeys are proved at the end of the
//! file.

use vstd::prelude::*;

use crate::error::ArithmeticError;
use crate::group_traits::GroupType;
use crate::helpers::mul_z_module;
use crate::helpers::rep_add_m;
use crate::ring_traits::RingType;

verus! {

/// The models of a sequence of elements, position by position.
pub open spec fn seq_models<T: GroupType>(s: Seq<T>) -> Seq<T::Elem> {
    Seq::new(s.len(), |i: int| s[i].model())
}

/// The coefficient of `x^i` in the model sequence `s`: positions beyond the
/// end of the sequence hold the zero of the ring.
pub open spec fn pad_at<T: GroupType>(s: Seq<T::Elem>, i: int) -> T::Elem {
    if 0 <= i < s.len() {
        s[i]
    } else {
        T::zero_m()
    }
}

/// The canonical form of a coefficient-model sequence: trailing zeros are
/// dropped, and the zero polynomial is the one-element sequence holding a
/// single zero.  Every polynomial's model is of this form.
pub open spec fn poly_norm<T: GroupType>(s: Seq<T::Elem>) -> Seq<T::Elem>
    decreases s.len(),
{
    if s.len() == 0 {
        seq![T::zero_m()]
    } else if s.len() == 1 {
        s
    } else if s.last() == T::zero_m() {
        poly_norm::<T>(s.drop_last())
    } else {
        s
    }
}

/// Whether `s` is a canonical coefficient-model sequence (a possible value
/// of [`Polynomial::models`]).
pub open spec fn is_canonical<T: GroupType>(s: Seq<T::Elem>) -> bool {
    s.len() >= 1 && (s.len() > 1 ==> s.last() != T::zero_m())
}

/// The model of the zero polynomial.
pub open spec fn poly_zero_m<T: GroupType>() -> Seq<T::Elem> {
    seq![T::zero_m()]
}

/// The model of the one polynomial.
pub open spec fn poly_one_m<T: RingType>() -> Seq<T::Elem> {
    seq![T::one_m()]
}

/// Coefficient-wise sum of two model sequences, the left operand's
/// coefficient first in each sum; the shorter operand is padded with zeros.
pub open spec fn poly_add_raw<T: GroupType>(a: Seq<T::Elem>, b: Seq<T::Elem>) -> Seq<T::Elem> {
    Seq::new(
        if a.len() >= b.len() {
            a.len()
        } else {
            b.len()
        },
        |i: int| T::add_m(pad_at::<T>(a, i), pad_at::<T>(b, i)),
    )
}

/// Polynomial addition on models: the coefficient-wise sum, re-normalized.
/// The operand of higher degree contributes the left argument of each
/// coefficient sum — addition pads the operand of lower degree and starts
/// each sum from the unpadded one, so when `b` is strictly longer the sums
/// read `b[i] + a[i]`.
pub open spec fn poly_add_m<T: GroupType>(a: Seq<T::Elem>, b: Seq<T::Elem>) -> Seq<T::Elem> {
    if a.len() >= b.len() {
        poly_norm::<T>(poly_add_raw::<T>(a, b))
    } else {
        poly_norm::<T>(poly_add_raw::<T>(b, a))
    }
}

/// Polynomial negation on models: every coefficient negated, re-normalized.
pub open spec fn poly_neg_m<T: GroupType>(a: Seq<T::Elem>) -> Seq<T::Elem> {
    poly_norm::<T>(Seq::new(a.len(), |i: int| T::neg_m(a[i])))
}

/// One term of the convolution sum for coefficient `k`: `aᵢ·b₍k₋ᵢ₎`.
pub open spec fn poly_conv_term<T: RingType>(
    a: Seq<T::Elem>,
    b: Seq<T::Elem>,
    k: int,
    i: int,
) -> T::Elem {
    T::mul_m(pad_at::<T>(a, i), pad_at::<T>(b, k - i))
}

/// The first `n` terms of the convolution sum for coefficient `k`,
/// accumulated from zero in order of rising `i`.
pub open spec fn poly_conv_partial<T: RingType>(
    a: Seq<T::Elem>,
    b: Seq<T::Elem>,
    k: int,
    n: nat,
) -> T::Elem
    decreases n,
{
    if n == 0 {
        T::zero_m()
    } else {
        T::add_m(
            poly_conv_partial::<T>(a, b, k, (n - 1) as nat),
            poly_conv_term::<T>(a, b, k, n - 1),
        )
    }
}

/// Coefficient `k` of the product of two model sequences:
/// `Σ_{i=0}^{k} aᵢ·b₍k₋ᵢ₎`, indices beyond an operand's end read as zero.
pub open spec fn poly_conv_coeff<T: RingType>(a: Seq<T::Elem>, b: Seq<T::Elem>, k: int) -> T::Elem {
    poly_conv_partial::<T>(a, b, k, (k + 1) as nat)
}

/// The convolution of two model sequences.
pub open spec fn poly_conv<T: RingType>(a: Seq<T::Elem>, b: Seq<T::Elem>) -> Seq<T::Elem> {
    Seq::new((a.len() + b.len() - 1) as nat, |k: int| poly_conv_coeff::<T>(a, b, k))
}

/// Polynomial multiplication on models.  A zero operand gives zero and a
/// one operand gives the other operand back (the short-circuits the
/// executable code takes); any other pair is convolved and re-normalized.
/// A product with more coefficients than the machine can address (over
/// `usize::MAX`) cannot be represented and is mapped to zero; no such pair
/// of operands fits in memory in the first place.
pub open spec fn poly_mul_m<T: RingType>(a: Seq<T::Elem>, b: Seq<T::Elem>) -> Seq<T::Elem> {
    if a == poly_zero_m::<T>() || b == poly_zero_m::<T>() {
        poly_zero_m::<T>()
    } else if a == poly_one_m::<T>() {
        b
    } else if b == poly_one_m::<T>() {
        a
    } else if a.len() + b.len() - 1 > usize::MAX {
        poly_zero_m::<T>()
    } else {
        poly_norm::<T>(poly_conv::<T>(a, b))
    }
}

/// The model of `x^n` by repeated multiplication: `x^0` is one, and `x^1`
/// is `x` itself, with no multiplication performed.
pub open spec fn pow_m<T: RingType>(x: T::Elem, n: nat) -> T::Elem
    decreases n,
{
    if n == 0 {
        T::one_m()
    } else if n == 1 {
        x
    } else {
        T::mul_m(pow_m::<T>(x, (n - 1) as nat), x)
    }
}

/// The first `n` terms of the evaluation sum `Σ aᵢ·x^i`, accumulated from
/// zero in order of rising exponent.
pub open spec fn poly_eval_partial<T: RingType>(a: Seq<T::Elem>, x: T::Elem, n: nat) -> T::Elem
    decreases n,
{
    if n == 0 {
        T::zero_m()
    } else {
        T::add_m(
            poly_eval_partial::<T>(a, x, (n - 1) as nat),
            T::mul_m(pad_at::<T>(a, n - 1), pow_m::<T>(x, (n - 1) as nat)),
        )
    }
}

/// Evaluation of a model sequence at `x`: `Σ_{i < len} aᵢ·x^i`.
pub open spec fn poly_eval_m<T: RingType>(a: Seq<T::Elem>, x: T::Elem) -> T::Elem {
    poly_eval_partial::<T>(a, x, a.len())
}

/// The model of the derivative: coefficient `i` of the result is the
/// `(i+1)`-fold sum of coefficient `i+1` of the argument, re-normalized;
/// the constant term is dropped.
pub open spec fn poly_deriv_m<T: GroupType>(a: Seq<T::Elem>) -> Seq<T::Elem> {
    if a.len() == 0 {
        poly_zero_m::<T>()
    } else {
        poly_norm::<T>(
            Seq::new((a.len() - 1) as nat, |i: int| rep_add_m::<T>((i + 1) as nat, a[i + 1])),
        )
    }
}

/// A dense polynomial with coefficients in `T`, written `Σ cᵢ·xⁱ`.
///
/// Values are immutable: every operation reads its operands and allocates a
/// fresh result.  Construct one with [`Polynomial::from_coefficients`]; the
/// degree is computed there and never changes afterwards.
#[derive(Debug)]
pub struct Polynomial<T: RingType> {
    coeffs: Vec<T>,
    deg: u64,
}

/// A clone stands for the same mathematical value, coefficient by
/// coefficient.
impl<T: RingType> Clone for Polynomial<T> {
    fn clone(&self) -> (r: Self)
        ensures
            r.models() == self.models(),
            r.stored() == self.stored(),
    {
        proof {
            use_type_invariant(self);
        }
        let mut v: Vec<T> = Vec::new();
        let mut i: usize = 0;
        while i < self.coeffs.len()
            invariant
                v@.len() == i,
                i <= self.coeffs@.len(),
                forall|j: int| 0 <= j < i ==> #[trigger] v@[j].model() == self.coeffs@[j].model(),
            decreases self.coeffs@.len() - i,
        {
            let c = self.coeffs[i].clone_el();
            v.push(c);
            i = i + 1;
        }
        let r = Polynomial { coeffs: v, deg: self.deg };
        proof {
            assert(r.models() =~= self.models());
            assert(r.stored() =~= self.stored());
        }
        r
    }
}

impl<T: RingType> Polynomial<T> {
    /// Degree correctness: `deg` is the highest index with a nonzero
    /// coefficient (zero when there is none), and at least one coefficient
    /// is stored.
    #[verifier::type_invariant]
    spec fn wf(self) -> bool {
        &&& self.coeffs@.len() >= 1
        &&& (self.deg as int) < self.coeffs@.len()
        &&& (forall|j: int|
            self.deg < j < self.coeffs@.len() ==> #[trigger] self.coeffs@[j].model()
                == T::zero_m())
        &&& (self.deg > 0 ==> self.coeffs@[self.deg as int].model() != T::zero_m())
    }

    /// The mathematical value of the polynomial: the models of the
    /// coefficients at indices `0 ..= degree`.  Always canonical.
    pub closed spec fn models(self) -> Seq<T::Elem> {
        Seq::new((self.deg + 1) as nat, |i: int| self.coeffs@[i].model())
    }

    /// The models of every stored coefficient, trailing zeros included.
    pub closed spec fn stored(self) -> Seq<T::Elem> {
        seq_models(self.coeffs@)
    }

    /// Builds the polynomial with the given coefficients; index `i` holds
    /// the coefficient of `x^i`.  The degree is the highest index with a
    /// nonzero coefficient; an empty sequence gives the zero polynomial.
    /// Coefficients are stored as given, not truncated.
    pub fn from_coefficients(coeffs: Vec<T>) -> (r: Self)
        ensures
            r.stored() == if coeffs@.len() == 0 {
                seq![T::zero_m()]
            } else {
                seq_models(coeffs@)
            },
            r.models() == poly_norm::<T>(seq_models(coeffs@)),
            is_canonical::<T>(r.models()),
    {
        if coeffs.len() == 0 {
            let mut v: Vec<T> = Vec::new();
            v.push(T::zero());
            let r = Polynomial { coeffs: v, deg: 0u64 };
            proof {
                assert(r.stored() =~= seq![T::zero_m()]);
                assert(r.models() =~= seq![T::zero_m()]);
                assert(seq_models(coeffs@) =~= Seq::<T::Elem>::empty());
            }
            r
        } else {
            let z = T::zero();
            let mut d: usize = coeffs.len() - 1;
            while d > 0 && coeffs[d].eq_el(&z)
                invariant
                    z.model() == T::zero_m(),
                    0 <= d < coeffs@.len(),
                    forall|j: int|
                        d < j < coeffs@.len() ==> #[trigger] coeffs@[j].model() == T::zero_m(),
                decreases d,
            {
                d = d - 1;
            }
            let r = Polynomial { coeffs, deg: d as u64 };
            proof {
                lemma_norm_of_padded::<T>(r.stored(), d as int);
                assert(r.models() =~= r.stored().subrange(0, d + 1));
            }
            r
        }
    }

    /// The zero polynomial; the same value as [`Default::default`].
    pub fn new() -> (r: Self)
        ensures
            r.models() == poly_zero_m::<T>(),
            r.stored() == poly_zero_m::<T>(),
    {
        Self::default()
    }

    /// Polynomial division is not offered over a general ring: exact
    /// division needs invertible coefficients, that is, a field.  Every
    /// call reports the operation as unsupported.
    pub fn div(self, rhs: Self) -> (r: Result<Self, ArithmeticError>)
        ensures
            r == Err::<Self, ArithmeticError>(ArithmeticError::Unsupported),
    {
        let _ = rhs;
        Err(ArithmeticError::Unsupported)
    }

    /// The remainder of polynomial division; unsupported for the same
    /// reason as [`Polynomial::div`].
    pub fn rem(self, rhs: Self) -> (r: Result<Self, ArithmeticError>)
        ensures
            r == Err::<Self, ArithmeticError>(ArithmeticError::Unsupported),
    {
        let _ = rhs;
        Err(ArithmeticError::Unsupported)
    }

    /// The degree of the polynomial: the model has exactly `degree + 1`
    /// coefficients.
    pub fn deg(&self) -> (r: u64)
        ensures
            r as int + 1 == self.models().len(),
    {
        self.deg
    }

    /// The degree of the polynomial; the same value as [`Polynomial::deg`].
    pub fn degree(&self) -> (r: u64)
        ensures
            r as int + 1 == self.models().len(),
    {
        self.deg
    }

    /// A copy of every stored coefficient, in order of rising exponent.
    /// Also exports the canonicity facts the type invariant guarantees:
    /// the model is the normal form of the stored coefficients.
    pub fn coeffs(&self) -> (r: Vec<T>)
        ensures
            seq_models(r@) == self.stored(),
            self.models() == poly_norm::<T>(self.stored()),
            is_canonical::<T>(self.models()),
            self.models().len() <= self.stored().len(),
            self.models() == self.stored().subrange(0, self.models().len() as int),
    {
        proof {
            use_type_invariant(self);
            lemma_norm_of_padded::<T>(self.stored(), self.deg as int);
            assert(self.models() =~= self.stored().subrange(0, self.deg + 1));
        }
        let mut out: Vec<T> = Vec::new();
        let mut i: usize = 0;
        while i < self.coeffs.len()
            invariant
                out@.len() == i,
                i <= self.coeffs@.len(),
                forall|j: int| 0 <= j < i ==> #[trigger] out@[j].model() == self.coeffs@[j].model(),
            decreases self.coeffs@.len() - i,
        {
            let c = self.coeffs[i].clone_el();
            out.push(c);
            i = i + 1;
        }
        proof {
            assert(seq_models(out@) =~= self.stored());
        }
        out
    }

    /// The first `k` coefficients (fewer when less than `k` are stored).
    pub fn coeffs_take(&self, k: usize) -> (r: Vec<T>)
        ensures
            r@.len() == if k <= self.stored().len() {
                k as int
            } else {
                self.stored().len() as int
            },
            forall|j: int| 0 <= j < r@.len() ==> #[trigger] r@[j].model() == self.stored()[j],
    {
        let mut out: Vec<T> = Vec::new();
        let mut i: usize = 0;
        let end = if k <= self.coeffs.len() {
            k
        } else {
            self.coeffs.len()
        };
        while i < end
            invariant
                out@.len() == i,
                i <= end,
                end <= self.coeffs@.len(),
                forall|j: int| 0 <= j < i ==> #[trigger] out@[j].model() == self.coeffs@[j].model(),
            decreases end - i,
        {
            let c = self.coeffs[i].clone_el();
            out.push(c);
            i = i + 1;
        }
        out
    }

    /// True exactly when this polynomial's degree is at least the other's.
    /// Used by addition to decide which operand gets zero-padded.
    pub fn compare_deg(&self, other: &Self) -> (r: bool)
        ensures
            r == (self.models().len() >= other.models().len()),
    {
        self.deg >= other.deg
    }

    /// The coefficient of `x^i`, reading zero beyond the degree.
    fn coeff_or_zero(&self, i: usize) -> (r: T)
        ensures
            r.model() == pad_at::<T>(self.models(), i as int),
    {
        proof {
            use_type_invariant(self);
        }
        if (i as u64) <= self.deg {
            self.coeffs[i].clone_el()
        } else {
            T::zero()
        }
    }

    /// Evaluates the polynomial at `val`: the sum `Σᵢ cᵢ·val^i` over the
    /// degree window, accumulated from zero in order of rising exponent,
    /// each power computed by [`int_pow`].  At `val == 0` the constant term
    /// is returned directly.
    pub fn eval(&self, val: T) -> (r: T)
        ensures
            val.model() == T::zero_m() ==> r.model() == self.models()[0],
            val.model() != T::zero_m() ==> r.model() == poly_eval_m::<T>(
                self.models(),
                val.model(),
            ),
    {
        proof {
            use_type_invariant(self);
            vstd::std_specs::vec::axiom_spec_len(&self.coeffs);
        }
        if val.is_zero() {
            return self.coeffs[0].clone_el();
        }
        let len: usize = (self.deg as usize) + 1;
        let mut acc = T::zero();
        let mut i: usize = 0;
        while i < len
            invariant
                i <= len,
                len == self.models().len(),
                len == self.deg + 1,
                (self.deg as int) < self.coeffs@.len(),
                acc.model() == poly_eval_partial::<T>(self.models(), val.model(), i as nat),
            decreases len - i,
        {
            let c = self.coeffs[i].clone_el();
            let p = int_pow(val.clone_el(), i);
            acc = acc.add_el(c.mul_el(p));
            i = i + 1;
        }
        acc
    }

    /// The derivative `d/dx Σ aᵢxⁱ = Σ_{i≥1} (i·aᵢ)·x^(i-1)`, where `i·aᵢ`
    /// is the `i`-fold sum `aᵢ + ... + aᵢ`.  A constant differentiates to
    /// the zero polynomial.
    pub fn derivative(self) -> (r: Self)
        ensures
            r.models() == poly_deriv_m::<T>(self.models()),
    {
        proof {
            use_type_invariant(&self);
            vstd::std_specs::vec::axiom_spec_len(&self.coeffs);
        }
        let len: usize = (self.deg as usize) + 1;
        let mut out: Vec<T> = Vec::new();
        let mut i: usize = 1;
        while i < len
            invariant
                1 <= i <= len,
                out@.len() == i - 1,
                len == self.models().len(),
                len == self.deg + 1,
                (self.deg as int) < self.coeffs@.len(),
                forall|j: int|
                    0 <= j < i - 1 ==> #[trigger] out@[j].model() == rep_add_m::<T>(
                        (j + 1) as nat,
                        self.models()[j + 1],
                    ),
            decreases len - i,
        {
            let c = self.coeffs[i].clone_el();
            let t = mul_z_module(i as u64, c);
            out.push(t);
            i = i + 1;
        }
        let r = Self::from_coefficients(out);
        proof {
            assert(seq_models(out@) =~= Seq::new(
                (self.models().len() - 1) as nat,
                |j: int| rep_add_m::<T>((j + 1) as nat, self.models()[j + 1]),
            ));
        }
        r
    }

    /// Adds, assuming `rhs` has lower or equal degree to `self`: `rhs` is
    /// padded with zeros up to `self`'s degree and the pair is summed
    /// coefficient by coefficient, `self`'s coefficient first.
    fn add_pad_second(self, rhs: Self) -> (r: Self)
        requires
            self.models().len() >= rhs.models().len(),
        ensures
            r.models() == poly_norm::<T>(poly_add_raw::<T>(self.models(), rhs.models())),
    {
        proof {
            use_type_invariant(&self);
            vstd::std_specs::vec::axiom_spec_len(&self.coeffs);
        }
        let len: usize = (self.deg as usize) + 1;
        let mut out: Vec<T> = Vec::new();
        let mut i: usize = 0;
        while i < len
            invariant
                out@.len() == i,
                i <= len,
                len == self.models().len(),
                (self.deg as int) < self.coeffs@.len(),
                len == self.deg + 1,
                forall|j: int|
                    0 <= j < i ==> #[trigger] out@[j].model() == T::add_m(
                        pad_at::<T>(self.models(), j),
                        pad_at::<T>(rhs.models(), j),
                    ),
            decreases len - i,
        {
            let a_i = self.coeffs[i].clone_el();
            let b_i = rhs.coeff_or_zero(i);
            let s = a_i.add_el(b_i);
            out.push(s);
            i = i + 1;
        }
        let r = Self::from_coefficients(out);
        proof {
            assert(seq_models(out@) =~= poly_add_raw::<T>(self.models(), rhs.models()));
        }
        r
    }
}

/// Polynomial addition: the coefficient-wise sum
/// `Σ aᵢxⁱ + Σ bⱼxʲ = Σ (aᵢ + bᵢ)xⁱ` over `0 ..= max(deg a, deg b)`,
/// coefficients beyond an operand's degree taken as zero.  The operand of
/// lower degree is padded, and each coefficient sum starts from the operand
/// of higher degree (ties keep the left operand first).
impl<T: RingType> std::ops::Add for Polynomial<T> {
    type Output = Self;

    fn add(self, rhs: Self) -> (r: Self)
        ensures
            r.models() == poly_add_m::<T>(self.models(), rhs.models()),
    {
        if self.compare_deg(&rhs) {
            Self::add_pad_second(self, rhs)
        } else {
            Self::add_pad_second(rhs, self)
        }
    }
}

impl<T: RingType> vstd::std_specs::ops::AddSpecImpl for Polynomial<T> {
    open spec fn obeys_add_spec() -> bool {
        false
    }

    open spec fn add_req(self, rhs: Self) -> bool {
        true
    }

    open spec fn add_spec(self, rhs: Self) -> Self {
        self
    }
}

/// Polynomial negation: every coefficient of the degree window negated.
impl<T: RingType> std::ops::Neg for Polynomial<T> {
    type Output = Self;

    fn neg(self) -> (r: Self)
        ensures
            r.models() == poly_neg_m::<T>(self.models()),
    {
        proof {
            use_type_invariant(&self);
            vstd::std_specs::vec::axiom_spec_len(&self.coeffs);
        }
        let len: usize = (self.deg as usize) + 1;
        let mut out: Vec<T> = Vec::new();
        let mut i: usize = 0;
        while i < len
            invariant
                out@.len() == i,
                i <= len,
                len == self.models().len(),
                (self.deg as int) < self.coeffs@.len(),
                len == self.deg + 1,
                forall|j: int|
                    0 <= j < i ==> #[trigger] out@[j].model() == T::neg_m(self.models()[j]),
            decreases len - i,
        {
            let c = self.coeffs[i].clone_el();
            out.push(c.neg_el());
            i = i + 1;
        }
        let r = Self::from_coefficients(out);
        proof {
            assert(seq_models(out@) =~= Seq::new(
                self.models().len(),
                |j: int| T::neg_m(self.models()[j]),
            ));
        }
        r
    }
}

impl<T: RingType> vstd::std_specs::ops::NegSpecImpl for Polynomial<T> {
    open spec fn obeys_neg_spec() -> bool {
        false
    }

    open spec fn neg_req(self) -> bool {
        true
    }

    open spec fn neg_spec(self) -> Self {
        self
    }
}

/// Polynomial subtraction, defined as `self + (-rhs)`.
impl<T: RingType> std::ops::Sub for Polynomial<T> {
    type Output = Self;

    fn sub(self, rhs: Self) -> (r: Self)
        ensures
            r.models() == poly_add_m::<T>(self.models(), poly_neg_m::<T>(rhs.models())),
    {
        self + std::ops::Neg::neg(rhs)
    }
}

impl<T: RingType> vstd::std_specs::ops::SubSpecImpl for Polynomial<T> {
    open spec fn obeys_sub_spec() -> bool {
        false
    }

    open spec fn sub_req(self, rhs: Self) -> bool {
        true
    }

    open spec fn sub_spec(self, rhs: Self) -> Self {
        self
    }
}

/// Two polynomials are equal exactly when they have the same degree and
/// equal coefficients at every index up to that degree — that is, when
/// their models are the same sequence.  Stored coefficients beyond the
/// degree play no part.
impl<T: RingType> PartialEq for Polynomial<T> {
    fn eq(&self, other: &Self) -> (r: bool) {
        proof {
            use_type_invariant(self);
            use_type_invariant(other);
        }
        if self.deg != other.deg {
            proof {
                assert(self.models().len() != other.models().len());
            }
            return false;
        }
        proof {
            vstd::std_specs::vec::axiom_spec_len(&self.coeffs);
        }
        let len: usize = (self.deg as usize) + 1;
        let mut i: usize = 0;
        while i < len
            invariant
                i <= len,
                len == self.models().len(),
                len == other.models().len(),
                (self.deg as int) < self.coeffs@.len(),
                (other.deg as int) < other.coeffs@.len(),
                len == self.deg + 1,
                self.deg == other.deg,
                forall|j: int| 0 <= j < i ==> self.models()[j] == other.models()[j],
            decreases len - i,
        {
            if !self.coeffs[i].eq_el(&other.coeffs[i]) {
                proof {
                    assert(self.models()[i as int] != other.models()[i as int]);
                }
                return false;
            }
            i = i + 1;
        }
        proof {
            assert(self.models() =~= other.models());
        }
        true
    }

    fn ne(&self, other: &Self) -> (r: bool) {
        !self.eq(other)
    }
}

impl<T: RingType> vstd::std_specs::cmp::PartialEqSpecImpl for Polynomial<T> {
    open spec fn obeys_eq_spec() -> bool {
        true
    }

    open spec fn eq_spec(&self, other: &Self) -> bool {
        self.models() == other.models()
    }
}

impl<T: RingType> Eq for Polynomial<T> {

}

/// Polynomial multiplication: coefficient `k` of the product, for `k` in
/// `0 ..= deg a + deg b`, is `Σ_{i=0}^{k} aᵢ·b₍k₋ᵢ₎`, indices beyond an
/// operand's degree read as zero.  A zero operand short-circuits to the
/// zero polynomial and a one operand to the other operand, unchanged.
impl<T: RingType> std::ops::Mul for Polynomial<T> {
    type Output = Self;

    fn mul(self, rhs: Self) -> (r: Self)
        ensures
            r.models() == poly_mul_m::<T>(self.models(), rhs.models()),
    {
        if self.is_zero() || rhs.is_zero() {
            return GroupType::zero();
        }
        if self.is_one() {
            return rhs;
        }
        if rhs.is_one() {
            return self;
        }
        proof {
            use_type_invariant(&self);
            use_type_invariant(&rhs);
            vstd::std_specs::vec::axiom_spec_len(&self.coeffs);
            vstd::std_specs::vec::axiom_spec_len(&rhs.coeffs);
        }
        let n: usize = self.deg as usize;
        let m: usize = rhs.deg as usize;
        let prod_len_opt = match n.checked_add(m) {
            Some(s) => s.checked_add(1),
            None => None,
        };
        match prod_len_opt {
            None => {
                proof {
                    assert(self.models().len() + rhs.models().len() - 1 > usize::MAX);
                }
                GroupType::zero()
            },
            Some(prod_len) => {
                let mut out: Vec<T> = Vec::new();
                let mut k: usize = 0;
                while k < prod_len
                    invariant
                        out@.len() == k,
                        k <= prod_len,
                        prod_len == n + m + 1,
                        n == self.deg,
                        m == rhs.deg,
                        self.wf(),
                        rhs.wf(),
                        forall|j: int|
                            0 <= j < k ==> #[trigger] out@[j].model() == poly_conv_coeff::<T>(
                                self.models(),
                                rhs.models(),
                                j,
                            ),
                    decreases prod_len - k,
                {
                    let mut acc = T::zero();
                    let mut i: usize = 0;
                    while i <= k
                        invariant
                            i <= k + 1,
                            k < prod_len,
                            self.wf(),
                            rhs.wf(),
                            acc.model() == poly_conv_partial::<T>(
                                self.models(),
                                rhs.models(),
                                k as int,
                                i as nat,
                            ),
                        decreases k + 1 - i,
                    {
                        let a_i = self.coeff_or_zero(i);
                        let b_ki = rhs.coeff_or_zero(k - i);
                        acc = acc.add_el(a_i.mul_el(b_ki));
                        i = i + 1;
                    }
                    out.push(acc);
                    k = k + 1;
                }
                let r = Self::from_coefficients(out);
                proof {
                    assert(seq_models(out@) =~= poly_conv::<T>(self.models(), rhs.models()));
                }
                r
            },
        }
    }
}

impl<T: RingType> vstd::std_specs::ops::MulSpecImpl for Polynomial<T> {
    open spec fn obeys_mul_spec() -> bool {
        false
    }

    open spec fn mul_req(self, rhs: Self) -> bool {
        true
    }

    open spec fn mul_spec(self, rhs: Self) -> Self {
        self
    }
}

impl<T: RingType> GroupType for Polynomial<T> {
    type Elem = Seq<T::Elem>;

    open spec fn model(&self) -> Seq<T::Elem> {
        self.models()
    }

    open spec fn zero_m() -> Seq<T::Elem> {
        poly_zero_m::<T>()
    }

    open spec fn add_m(a: Seq<T::Elem>, b: Seq<T::Elem>) -> Seq<T::Elem> {
        poly_add_m::<T>(a, b)
    }

    open spec fn neg_m(a: Seq<T::Elem>) -> Seq<T::Elem> {
        poly_neg_m::<T>(a)
    }

    fn zero() -> (r: Self) {
        Self::default()
    }

    fn is_zero(&self) -> (r: bool) {
        let z: Self = Self::default();
        self.eq(&z)
    }

    fn add_el(self, rhs: Self) -> (r: Self) {
        self + rhs
    }

    fn neg_el(self) -> (r: Self) {
        std::ops::Neg::neg(self)
    }

    fn sub_el(self, rhs: Self) -> (r: Self) {
        self - rhs
    }

    fn eq_el(&self, rhs: &Self) -> (r: bool) {
        self.eq(rhs)
    }

    fn clone_el(&self) -> (r: Self) {
        self.clone()
    }
}

impl<T: RingType> RingType for Polynomial<T> {
    open spec fn one_m() -> Seq<T::Elem> {
        poly_one_m::<T>()
    }

    open spec fn mul_m(a: Seq<T::Elem>, b: Seq<T::Elem>) -> Seq<T::Elem> {
        poly_mul_m::<T>(a, b)
    }

    fn one() -> (r: Self) {
        let mut v: Vec<T> = Vec::new();
        v.push(T::one());
        let r = Self::from_coefficients(v);
        proof {
            assert(r.models() =~= poly_one_m::<T>());
        }
        r
    }

    fn is_one(&self) -> (r: bool) {
        let o: Self = RingType::one();
        self.eq(&o)
    }

    fn mul_el(self, rhs: Self) -> (r: Self) {
        self * rhs
    }
}

/// `r^n`, defined by multiplying `r` by itself `n` times: `r^0` is one, and
/// `r^1` is `r` itself, short-circuiting the extra multiplication by one.
pub fn int_pow<T: RingType>(r: T, n: usize) -> (ret: T)
    ensures
        ret.model() == pow_m::<T>(r.model(), n as nat),
{
    if n == 0 {
        return T::one();
    } else if n == 1 {
        return r;
    }
    let mut ret = r.clone_el();
    let mut i: usize = 1;
    while i < n
        invariant
            1 <= i <= n,
            ret.model() == pow_m::<T>(r.model(), i as nat),
        decreases n - i,
    {
        ret = ret.mul_el(r.clone_el());
        i = i + 1;
    }
    ret
}

/// Every value of [`Default::default`] is the zero polynomial.
impl<T: RingType> Default for Polynomial<T> {
    fn default() -> (r: Self)
        ensures
            r.models() == seq![T::zero_m()],
            r.stored() == seq![T::zero_m()],
    {
        let mut v: Vec<T> = Vec::new();
        v.push(T::zero());
        let r = Polynomial { coeffs: v, deg: 0u64 };
        proof {
            assert(r.models() =~= seq![T::zero_m()]);
            assert(r.stored() =~= seq![T::zero_m()]);
        }
        r
    }
}

// ---------------------------------------------------------------------------
// The laws of the polynomial engine.
//
// The capability traits do not promise the group and ring axioms, so each
// law that needs one takes it as a hypothesis on the coefficient type's
// model operations.  The laws are stated over model sequences, which is
// exactly what the executable operations' contracts speak of.

/// The coefficient type's addition is commutative on models.
pub open spec fn add_m_commutes<T: GroupType>() -> bool {
    forall|x: T::Elem, y: T::Elem| #[trigger] T::add_m(x, y) == T::add_m(y, x)
}

/// The coefficient type's addition is associative on models.
pub open spec fn add_m_associates<T: GroupType>() -> bool {
    forall|x: T::Elem, y: T::Elem, z: T::Elem| #[trigger] T::add_m(T::add_m(x, y), z) == T::add_m(
        x,
        T::add_m(y, z),
    )
}

/// The coefficient type's zero is neutral for addition on models.
pub open spec fn zero_m_neutral<T: GroupType>() -> bool {
    &&& (forall|x: T::Elem| #[trigger] T::add_m(x, T::zero_m()) == x)
    &&& (forall|x: T::Elem| #[trigger] T::add_m(T::zero_m(), x) == x)
}

/// A canonical sequence is its own normal form.
proof fn lemma_norm_of_canonical<T: GroupType>(s: Seq<T::Elem>)
    requires
        is_canonical::<T>(s),
    ensures
        poly_norm::<T>(s) == s,
{
}

/// Round-trip of normalization: the normal form of a coefficient sequence
/// reads the same at every position (positions past an end reading as
/// zero), and is canonical.  Since building a polynomial normalizes the
/// model and stores the coefficients as given, no coefficient at an index
/// inside the degree window is ever changed by any constructor.
pub proof fn lemma_norm_keeps_coefficients<T: GroupType>(s: Seq<T::Elem>)
    ensures
        forall|i: int| #[trigger] pad_at::<T>(poly_norm::<T>(s), i) == pad_at::<T>(s, i),
        is_canonical::<T>(poly_norm::<T>(s)),
    decreases s.len(),
{
    if s.len() == 0 {
        assert forall|i: int| #[trigger] pad_at::<T>(poly_norm::<T>(s), i) == pad_at::<T>(
            s,
            i,
        ) by {
            assert(poly_norm::<T>(s) == seq![T::zero_m()]);
            if i == 0 {
                assert(pad_at::<T>(seq![T::zero_m()], 0) == T::zero_m());
            }
        }
    } else if s.len() == 1 {
    } else if s.last() == T::zero_m() {
        lemma_norm_keeps_coefficients::<T>(s.drop_last());
        assert forall|i: int| #[trigger] pad_at::<T>(poly_norm::<T>(s), i) == pad_at::<T>(
            s,
            i,
        ) by {
            assert(pad_at::<T>(poly_norm::<T>(s), i) == pad_at::<T>(s.drop_last(), i));
            if i == s.len() - 1 {
                assert(pad_at::<T>(s, i) == T::zero_m());
            }
        }
    } else {
    }
}

/// Sequences that read the same at every position have the same normal
/// form.
proof fn lemma_norm_eq_of_pads<T: GroupType>(s: Seq<T::Elem>, t: Seq<T::Elem>)
    requires
        forall|i: int| #[trigger] pad_at::<T>(s, i) == pad_at::<T>(t, i),
    ensures
        poly_norm::<T>(s) == poly_norm::<T>(t),
    decreases s.len() + t.len(),
{
    if s.len() > t.len() {
        assert(pad_at::<T>(s, s.len() - 1) == pad_at::<T>(t, s.len() - 1));
        assert(s.last() == T::zero_m());
        if s.len() == 1 {
            assert(poly_norm::<T>(s) =~= seq![T::zero_m()]);
            assert(poly_norm::<T>(t) == seq![T::zero_m()]);
        } else {
            assert forall|i: int| #[trigger] pad_at::<T>(s.drop_last(), i) == pad_at::<T>(
                t,
                i,
            ) by {
                assert(pad_at::<T>(s, i) == pad_at::<T>(t, i));
            }
            lemma_norm_eq_of_pads::<T>(s.drop_last(), t);
        }
    } else if t.len() > s.len() {
        assert(pad_at::<T>(t, t.len() - 1) == pad_at::<T>(s, t.len() - 1));
        assert(t.last() == T::zero_m());
        if t.len() == 1 {
            assert(poly_norm::<T>(t) =~= seq![T::zero_m()]);
            assert(poly_norm::<T>(s) == seq![T::zero_m()]);
        } else {
            assert forall|i: int| #[trigger] pad_at::<T>(s, i) == pad_at::<T>(
                t.drop_last(),
                i,
            ) by {
                assert(pad_at::<T>(s, i) == pad_at::<T>(t, i));
            }
            lemma_norm_eq_of_pads::<T>(s, t.drop_last());
        }
    } else {
        if s.len() == 0 {
        } else {
            assert forall|i: int| 0 <= i < s.len() implies s[i] == t[i] by {
                assert(pad_at::<T>(s, i) == pad_at::<T>(t, i));
            }
            assert(s =~= t);
        }
    }
}

/// The sum of two polynomial models is canonical.
proof fn lemma_poly_add_canonical<T: GroupType>(a: Seq<T::Elem>, b: Seq<T::Elem>)
    ensures
        is_canonical::<T>(poly_add_m::<T>(a, b)),
{
    if a.len() >= b.len() {
        lemma_norm_keeps_coefficients::<T>(poly_add_raw::<T>(a, b));
    } else {
        lemma_norm_keeps_coefficients::<T>(poly_add_raw::<T>(b, a));
    }
}

/// Pointwise reading of a polynomial sum: at every position it reads
/// `aᵢ + bᵢ`, provided the coefficient type's addition is commutative and
/// its zero neutral.
proof fn lemma_poly_add_pointwise<T: GroupType>(a: Seq<T::Elem>, b: Seq<T::Elem>)
    requires
        add_m_commutes::<T>(),
        zero_m_neutral::<T>(),
    ensures
        forall|i: int| #[trigger] pad_at::<T>(poly_add_m::<T>(a, b), i) == T::add_m(
            pad_at::<T>(a, i),
            pad_at::<T>(b, i),
        ),
{
    if a.len() >= b.len() {
        let raw = poly_add_raw::<T>(a, b);
        lemma_norm_keeps_coefficients::<T>(raw);
        assert forall|i: int| #[trigger] pad_at::<T>(poly_add_m::<T>(a, b), i) == T::add_m(
            pad_at::<T>(a, i),
            pad_at::<T>(b, i),
        ) by {
            assert(pad_at::<T>(poly_norm::<T>(raw), i) == pad_at::<T>(raw, i));
            if !(0 <= i < raw.len()) {
                assert(pad_at::<T>(a, i) == T::zero_m());
                assert(pad_at::<T>(b, i) == T::zero_m());
            }
        }
    } else {
        let raw = poly_add_raw::<T>(b, a);
        lemma_norm_keeps_coefficients::<T>(raw);
        assert forall|i: int| #[trigger] pad_at::<T>(poly_add_m::<T>(a, b), i) == T::add_m(
            pad_at::<T>(a, i),
            pad_at::<T>(b, i),
        ) by {
            assert(pad_at::<T>(poly_norm::<T>(raw), i) == pad_at::<T>(raw, i));
            if !(0 <= i < raw.len()) {
                assert(pad_at::<T>(a, i) == T::zero_m());
                assert(pad_at::<T>(b, i) == T::zero_m());
            }
        }
    }
}

/// Identity law: adding the zero polynomial changes nothing — on models,
/// `a + 0 == a` for every canonical `a`, whenever the coefficient type's
/// zero is neutral for its addition.
pub proof fn lemma_poly_add_zero<T: GroupType>(a: Seq<T::Elem>)
    requires
        is_canonical::<T>(a),
        zero_m_neutral::<T>(),
    ensures
        poly_add_m::<T>(a, poly_zero_m::<T>()) == a,
{
    let raw = poly_add_raw::<T>(a, poly_zero_m::<T>());
    assert forall|i: int| 0 <= i < raw.len() implies raw[i] == a[i] by {
        if i > 0 {
            assert(pad_at::<T>(poly_zero_m::<T>(), i) == T::zero_m());
        }
    }
    assert(raw =~= a);
    lemma_norm_of_canonical::<T>(a);
}

/// Identity law: multiplying by the one polynomial changes nothing — on
/// models, `a · 1 == a` and `1 · a == a` for every canonical `a`, in any
/// ring whose one and zero differ.
pub proof fn lemma_poly_mul_one<T: RingType>(a: Seq<T::Elem>)
    requires
        is_canonical::<T>(a),
        T::one_m() != T::zero_m(),
    ensures
        poly_mul_m::<T>(a, poly_one_m::<T>()) == a,
        poly_mul_m::<T>(poly_one_m::<T>(), a) == a,
{
    assert(poly_one_m::<T>()[0] != poly_zero_m::<T>()[0]);
    assert(poly_one_m::<T>() != poly_zero_m::<T>());
}

/// Annihilation law: multiplying by the zero polynomial gives the zero
/// polynomial, from either side.
pub proof fn lemma_poly_mul_zero<T: RingType>(a: Seq<T::Elem>)
    ensures
        poly_mul_m::<T>(a, poly_zero_m::<T>()) == poly_zero_m::<T>(),
        poly_mul_m::<T>(poly_zero_m::<T>(), a) == poly_zero_m::<T>(),
{
}

/// Polynomial addition is commutative whenever the coefficient type's
/// addition is: on models, `a + b == b + a`.
pub proof fn lemma_poly_add_comm<T: GroupType>(a: Seq<T::Elem>, b: Seq<T::Elem>)
    requires
        add_m_commutes::<T>(),
    ensures
        poly_add_m::<T>(a, b) == poly_add_m::<T>(b, a),
{
    assert(poly_add_raw::<T>(a, b) =~= poly_add_raw::<T>(b, a));
}

/// Polynomial addition is associative whenever the coefficient type's
/// addition is associative and commutative with a neutral zero: on models,
/// `(a + b) + c == a + (b + c)`.
pub proof fn lemma_poly_add_assoc<T: GroupType>(a: Seq<T::Elem>, b: Seq<T::Elem>, c: Seq<T::Elem>)
    requires
        add_m_commutes::<T>(),
        add_m_associates::<T>(),
        zero_m_neutral::<T>(),
    ensures
        poly_add_m::<T>(poly_add_m::<T>(a, b), c) == poly_add_m::<T>(a, poly_add_m::<T>(b, c)),
{
    let ab = poly_add_m::<T>(a, b);
    let bc = poly_add_m::<T>(b, c);
    let lhs = poly_add_m::<T>(ab, c);
    let rhs = poly_add_m::<T>(a, bc);
    lemma_poly_add_pointwise::<T>(a, b);
    lemma_poly_add_pointwise::<T>(b, c);
    lemma_poly_add_pointwise::<T>(ab, c);
    lemma_poly_add_pointwise::<T>(a, bc);
    assert forall|i: int| #[trigger] pad_at::<T>(lhs, i) == pad_at::<T>(rhs, i) by {
        assert(pad_at::<T>(lhs, i) == T::add_m(
            T::add_m(pad_at::<T>(a, i), pad_at::<T>(b, i)),
            pad_at::<T>(c, i),
        ));
        assert(pad_at::<T>(rhs, i) == T::add_m(
            pad_at::<T>(a, i),
            T::add_m(pad_at::<T>(b, i), pad_at::<T>(c, i)),
        ));
    }
    lemma_norm_eq_of_pads::<T>(lhs, rhs);
    lemma_poly_add_canonical::<T>(ab, c);
    lemma_poly_add_canonical::<T>(a, bc);
    lemma_norm_of_canonical::<T>(lhs);
    lemma_norm_of_canonical::<T>(rhs);
}

/// A sequence whose positions beyond `d` are all zero, and whose position
/// `d` is nonzero unless `d == 0`, normalizes to its prefix `0 ..= d`.
proof fn lemma_norm_of_padded<T: GroupType>(s: Seq<T::Elem>, d: int)
    requires
        0 <= d < s.len(),
        forall|j: int| d < j < s.len() ==> s[j] == T::zero_m(),
        d > 0 ==> s[d] != T::zero_m(),
    ensures
        poly_norm::<T>(s) == s.subrange(0, d + 1),
    decreases s.len(),
{
    if s.len() == d + 1 {
        if s.len() == 1 {
            assert(poly_norm::<T>(s) =~= s.subrange(0, d + 1));
        } else {
            assert(s.last() != T::zero_m());
            assert(poly_norm::<T>(s) =~= s.subrange(0, d + 1));
        }
    } else {
        assert(s.last() == T::zero_m());
        lemma_norm_of_padded::<T>(s.drop_last(), d);
        assert(s.drop_last().subrange(0, d + 1) =~= s.subrange(0, d + 1));
    }
}

} // verus!
