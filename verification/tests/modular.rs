use bored_algebra::error::ArithmeticError;
use bored_algebra::group_traits::GroupType;
use bored_algebra::modular::IntegerMod;
use bored_algebra::modular::ModularInt;
use bored_algebra::ring_traits::RingType;

#[test]
fn integers_mod() {
    let three = IntegerMod::<4>::new(3);
    let one = IntegerMod::<4>::new(1);
    let zero = IntegerMod::<4>::zero();

    let sum = one + three;
    let difference = one - three;
    let product_1 = one * three;
    let product_2 = three * three;

    assert_eq!(one, IntegerMod::<4>::one());
    assert_eq!(zero, IntegerMod::<4>::new(0));
    assert_eq!(sum, zero);
    assert_eq!(difference, IntegerMod::<4>::new(2));
    assert_eq!(product_1, three);
    assert_eq!(product_2, one);
}

#[test]
fn test_integer_mod_reduces() {
    assert_eq!(IntegerMod::<5>::new(13).value(), 3);
    assert_eq!(IntegerMod::<5>::new(0).value(), 0);
    assert_eq!(IntegerMod::<1>::one().value(), 0);
}

#[test]
fn test_integer_mod_neg() {
    let two = IntegerMod::<7>::new(2);
    assert_eq!((-two).value(), 5);
    assert_eq!((-IntegerMod::<7>::zero()).value(), 0);
}

#[test]
fn test_modular_int_mismatched_moduli() {
    let a = ModularInt::new(3, 5).unwrap();
    let b = ModularInt::new(1, 7).unwrap();
    assert_eq!(a.add(&b), Err(ArithmeticError::InvalidOperand));
    assert_eq!(a.sub(&b), Err(ArithmeticError::InvalidOperand));
    assert_eq!(a.mul(&b), Err(ArithmeticError::InvalidOperand));
}

#[test]
fn test_modular_int_zero_modulus() {
    assert_eq!(ModularInt::new(3, 0), Err(ArithmeticError::OutOfBounds));
}

#[test]
fn test_modular_int_arithmetic() {
    let five = ModularInt::new(5, 7).unwrap();
    let four = ModularInt::new(4, 7).unwrap();
    let sum = five.add(&four).unwrap();
    assert_eq!(sum.value(), 2);
    assert_eq!(sum.modulus(), 7);
    let product = five.mul(&four).unwrap();
    assert_eq!(product.value(), 6);
    let difference = four.sub(&five).unwrap();
    assert_eq!(difference.value(), 6);
    assert_eq!(five.neg().value(), 2);
}
