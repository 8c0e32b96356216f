//! Error types.

use vstd::prelude::*;

verus! {

/// The failures the library reports.  Every failure is returned as a typed
/// value; no operation panics on well-typed, same-parameter input.
#[derive(Debug, PartialEq, Eq)]
pub enum ArithmeticError {
    /// Division by zero.
    DivideByZero,
    /// A number outside its valid range, such as a modulus of zero.
    OutOfBounds,
    /// An algorithm that is not defined for the given element.
    AlgNotApplicable { alg: String, el: u64 },
    /// An operation the coefficient type cannot support, such as polynomial
    /// division over a ring that is not a field.
    Unsupported,
    /// Operands whose runtime parameters disagree, such as residues carrying
    /// different moduli.
    InvalidOperand,
}

} // verus!
