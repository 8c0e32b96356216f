use bored_algebra::error::ArithmeticError;
use bored_algebra::group_traits::GroupType;
use bored_algebra::modular::IntegerMod;
use bored_algebra::poly::int_pow;
use bored_algebra::poly::Polynomial;
use bored_algebra::ring_traits::RingType;

#[test]
fn test_from() {
    let vec1 = vec![1, 2, 3, 4, 0, 0, 0, 0, 0, 0];
    let vec2 = vec![1, 2, 3, 4];
    let vec3 = vec![1, 2, 3, 4, 0, 1];

    let poly1 = Polynomial::<i64>::from_coefficients(vec1);
    let poly2 = Polynomial::<i64>::from_coefficients(vec2);
    let poly3 = Polynomial::<i64>::from_coefficients(vec3);

    assert_eq!(poly1, poly2);
    assert_ne!(poly1, poly3);
    assert_ne!(poly2, poly3);
}

#[test]
fn poly_test_from() {
    let vec1 = vec![1, 2, 3, 4, 0, 0, 0, 0, 0, 0];
    let vec2 = vec![1, 2, 3, 4];
    let vec3 = vec![1, 2, 3, 4, 0, 1];

    let poly1 = Polynomial::<i64>::from_coefficients(vec1);
    let poly2 = Polynomial::<i64>::from_coefficients(vec2);
    let poly3 = Polynomial::<i64>::from_coefficients(vec3);

    assert_eq!(poly1, poly2);
    assert_ne!(poly1, poly3);
    assert_ne!(poly2, poly3);
}

#[test]
fn test_compare_deg() {
    //x + x^2 over Z
    let a = Polynomial::<i64>::from_coefficients(vec![0, 1, 1]);
    //1 + x over Z, with a bunch of extra zeros
    let b = Polynomial::<i64>::from_coefficients(vec![1, 1, 0, 0, 0, 0]);
    assert_eq!(Polynomial::compare_deg(&a, &b), true);
}

#[test]
fn poly_test_compare_deg() {
    let a = Polynomial::<i64>::from_coefficients(vec![0, 1, 1]);
    let b = Polynomial::<i64>::from_coefficients(vec![1, 1, 0, 0, 0, 0]);
    assert_eq!(Polynomial::compare_deg(&a, &b), true);
}

#[test]
fn test_neg() {
    //x + x^2 over Z
    let a = Polynomial::<i64>::from_coefficients(vec![0, 1, 1]);
    assert_eq!(-a, Polynomial::<i64>::from_coefficients(vec![0, -1, -1]));
}

#[test]
fn poly_test_neg() {
    let a = Polynomial::<i64>::from_coefficients(vec![0, 1, 1]);
    assert_eq!(-a, Polynomial::<i64>::from_coefficients(vec![0, -1, -1]));
}

#[test]
fn test_sub() {
    //x + x^2 over Z
    let a = Polynomial::<i64>::from_coefficients(vec![0, 1, 1]);
    //1 + x over Z, with a bunch of extra zeros
    let b = Polynomial::<i64>::from_coefficients(vec![1, 1, 0, 0, 0, 0]);
    assert_eq!(a - b, Polynomial::<i64>::from_coefficients(vec![-1, 0, 1]));
}

#[test]
fn poly_test_sub() {
    let a = Polynomial::<i64>::from_coefficients(vec![0, 1, 1]);
    let b = Polynomial::<i64>::from_coefficients(vec![1, 1, 0, 0, 0, 0]);
    assert_eq!(a - b, Polynomial::<i64>::from_coefficients(vec![-1, 0, 1]));
}

#[test]
fn test_add() {
    // over Z
    // x + 1
    let z1 = Polynomial::<i64>::from_coefficients(vec![1, 1]);
    // 2x^2 - 1
    let z2 = Polynomial::<i64>::from_coefficients(vec![-1, 0, 2]);

    // x + 1 + 2x^2 - 1 = 2x^2 + x
    assert_eq!(
        z1.clone() + z2.clone(),
        Polynomial::<i64>::from_coefficients(vec![0, 1, 2])
    );

    // x + 1 - (2x^2 - 1) = -2x^2 + x + 2
    assert_eq!(
        z1.clone() - z2.clone(),
        Polynomial::<i64>::from_coefficients(vec![2, 1, -2])
    );
}

#[test]
fn poly_test_add() {
    let z1 = Polynomial::<i64>::from_coefficients(vec![1, 1]);
    let z2 = Polynomial::<i64>::from_coefficients(vec![-1, 0, 2]);

    assert_eq!(
        z1.clone() + z2.clone(),
        Polynomial::<i64>::from_coefficients(vec![0, 1, 2])
    );
    assert_eq!(
        z1.clone() - z2.clone(),
        Polynomial::<i64>::from_coefficients(vec![2, 1, -2])
    );
}

#[test]
fn test_derivative() {
    // over Z
    // x + 1
    let z1 = Polynomial::<i64>::from_coefficients(vec![1, 1]);
    // 2x^2 - 1
    let z2 = Polynomial::<i64>::from_coefficients(vec![-1, 0, 2]);

    assert_eq!(z1.derivative(), Polynomial::<i64>::from_coefficients(vec![1]));
    assert_eq!(z2.derivative(), Polynomial::<i64>::from_coefficients(vec![0, 4]));
}

#[test]
fn poly_test_derivative() {
    let z1 = Polynomial::<i64>::from_coefficients(vec![1, 1]);
    let z2 = Polynomial::<i64>::from_coefficients(vec![-1, 0, 2]);

    assert_eq!(z1.derivative(), Polynomial::<i64>::from_coefficients(vec![1]));
    assert_eq!(z2.derivative(), Polynomial::<i64>::from_coefficients(vec![0, 4]));
}

#[test]
fn test_multivariable_add() {
    // in Z[x,y]
    let zero = Polynomial::<Polynomial<i64>>::from_coefficients(vec![
        Polynomial::<i64>::from_coefficients(vec![0]),
    ]);

    // R(x,y) = -1 + xy
    // L(x,y) =  1 - xy
    let r = Polynomial::<Polynomial<i64>>::from_coefficients(vec![
        Polynomial::<i64>::from_coefficients(vec![-1]),   //ones
        Polynomial::<i64>::from_coefficients(vec![0, 1]), //x's
    ]);

    let l = Polynomial::<Polynomial<i64>>::from_coefficients(vec![
        Polynomial::<i64>::from_coefficients(vec![1]),     //ones
        Polynomial::<i64>::from_coefficients(vec![0, -1]), //x's
    ]);

    assert_eq!(r + l, zero);
}

#[test]
fn test_mul() {
    // over Z
    let one = Polynomial::<i64>::one();
    let zero = Polynomial::<i64>::zero();

    // identities
    assert_eq!(one.clone() * one.clone(), one.clone());
    assert_eq!(zero.clone() * one.clone(), zero.clone());
    assert_eq!(zero.clone() * zero.clone(), zero.clone());
    assert_eq!(one.clone() * zero.clone(), zero.clone());

    let x = Polynomial::<i64>::from_coefficients(vec![0, 1]);
    assert_eq!(
        Polynomial::<i64>::from_coefficients(vec![2]) * Polynomial::<i64>::from_coefficients(vec![3]),
        Polynomial::<i64>::from_coefficients(vec![6])
    );
    assert_eq!(
        Polynomial::<i64>::from_coefficients(vec![2]) * x.clone(),
        Polynomial::<i64>::from_coefficients(vec![0, 2])
    );
    assert_eq!(x.clone() * one.clone(), x.clone());
    let x_squared = Polynomial::<i64>::from_coefficients(vec![0, 0, 1]);
    let x_cubed = Polynomial::<i64>::from_coefficients(vec![0, 0, 0, 1]);

    assert_eq!(
        x_cubed.clone() * x_cubed.clone(),
        Polynomial::<i64>::from_coefficients(vec![0, 0, 0, 0, 0, 0, 1])
    );

    assert_eq!(
        x_squared.clone() * x_squared.clone(),
        Polynomial::<i64>::from_coefficients(vec![0, 0, 0, 0, 1])
    );

    assert_eq!(
        x.clone() * x_squared.clone(),
        Polynomial::<i64>::from_coefficients(vec![0, 0, 0, 1])
    );

    // 1 + 3x + 2x^2
    let a = Polynomial::<i64>::from_coefficients(vec![1, 3, 2, 0, 0]);
    // x + 3
    let b = Polynomial::<i64>::from_coefficients(vec![3, 1]);

    // (1 + 3x + 2x^2)(3 + x) = 3 + 10x + 9x^2 + 2x^3
    assert_eq!(Polynomial::<i64>::from_coefficients(vec![3, 10, 9, 2]), a * b);
}

#[test]
fn test_eval_1() {
    // 1 + 3x + 2x^3
    let a = Polynomial::<i64>::from_coefficients(vec![1, 3, 0, 2]);

    assert_eq!((&a).eval(4), 141);
}

#[test]
fn test_eval_2() {
    // 1 - x + x^2
    let a = Polynomial::<i64>::from_coefficients(vec![1, -1, 1]);
    // should have a(t) = 1 - 1 + 1 = 1
    assert_eq!((&a).eval(1), 1 as i64);
}

#[test]
fn test_eval_3() {
    // 1 + x^3
    let a = Polynomial::<i64>::from_coefficients(vec![1, 0, 0, 1]);
    assert_eq!((&a).eval(2), 1 + int_pow(2, 3));
}

#[test]
fn test_eval_zero() {
    // 1 + x
    let a = Polynomial::<i64>::from_coefficients(vec![1, 1]);
    // 1 - x + 2x^2 - 69x^3 + 420x^4
    let b = Polynomial::<i64>::from_coefficients(vec![1, -1, 2, -69, 420]);
    // a(0) = b(0) = 1
    assert_eq!((&a).eval(0), (&b).eval(0));
    assert_eq!((&a).eval(0), 1);
}

#[test]
fn test_int_pow() {
    assert_eq!(int_pow(3, 2), 9);
    assert_eq!(int_pow(1, 32342), 1);
    assert_eq!(int_pow(0, 12313), 0);
    assert_eq!(int_pow(452, 1), 452);
    assert_eq!(int_pow(34213241, 0), 1);
}

#[test]
fn test_degree_canonicalization() {
    let p = Polynomial::<i64>::from_coefficients(vec![1, 2, 3, 4, 0, 0, 0]);
    let q = Polynomial::<i64>::from_coefficients(vec![1, 2, 3, 4]);
    assert_eq!(p, q);
    assert_eq!(p.degree(), 3);
    assert_eq!(q.degree(), 3);
    assert_eq!(p.deg(), 3);
}

#[test]
fn test_mul_x_by_x() {
    let x = Polynomial::<i64>::from_coefficients(vec![0, 1]);
    let x_squared = Polynomial::<i64>::from_coefficients(vec![0, 0, 1]);
    assert_eq!(x.clone() * x.clone(), x_squared);
}

#[test]
fn test_identity_laws_concrete() {
    let a = Polynomial::<i64>::from_coefficients(vec![5, -3, 2]);
    let zero = Polynomial::<i64>::zero();
    let one = Polynomial::<i64>::one();
    assert_eq!(a.clone() + zero.clone(), a.clone());
    assert_eq!(a.clone() * one.clone(), a.clone());
    assert_eq!(a.clone() * zero.clone(), zero.clone());
}

#[test]
fn test_add_commutes_and_associates() {
    let a = Polynomial::<i64>::from_coefficients(vec![1, 2]);
    let b = Polynomial::<i64>::from_coefficients(vec![4, 0, -7, 3]);
    let c = Polynomial::<i64>::from_coefficients(vec![-5, 9]);
    assert_eq!(a.clone() + b.clone(), b.clone() + a.clone());
    assert_eq!(
        (a.clone() + b.clone()) + c.clone(),
        a.clone() + (b.clone() + c.clone())
    );
}

#[test]
fn test_cancellation_reduces_degree() {
    // (1 + x^2) + (1 - x^2) = 2, degree drops to 0
    let p = Polynomial::<i64>::from_coefficients(vec![1, 0, 1]);
    let q = Polynomial::<i64>::from_coefficients(vec![1, 0, -1]);
    let sum = p + q;
    assert_eq!(sum.degree(), 0);
    assert_eq!(sum, Polynomial::<i64>::from_coefficients(vec![2]));
}

#[test]
fn test_empty_and_all_zero_coefficients() {
    let empty = Polynomial::<i64>::from_coefficients(vec![]);
    let zeros = Polynomial::<i64>::from_coefficients(vec![0, 0, 0]);
    assert_eq!(empty, Polynomial::<i64>::zero());
    assert_eq!(zeros, Polynomial::<i64>::zero());
    assert_eq!(empty.degree(), 0);
    assert_eq!(zeros.degree(), 0);
    assert_eq!(Polynomial::<i64>::new(), Polynomial::<i64>::zero());
}

#[test]
fn test_div_rem_unsupported() {
    let a = Polynomial::<i64>::from_coefficients(vec![1, 2, 1]);
    let b = Polynomial::<i64>::from_coefficients(vec![1, 1]);
    assert_eq!(a.clone().div(b.clone()), Err(ArithmeticError::Unsupported));
    assert_eq!(a.rem(b), Err(ArithmeticError::Unsupported));
}

#[test]
fn test_coeffs_round_trip() {
    let p = Polynomial::<i64>::from_coefficients(vec![1, 2, 0, 5, 0, 0]);
    // stored coefficients come back exactly as given
    assert_eq!(p.coeffs(), vec![1, 2, 0, 5, 0, 0]);
    // and the degree window is all that equality looks at
    let q = Polynomial::<i64>::from_coefficients(vec![1, 2, 0, 5]);
    assert_eq!(p, q);
    let d = p.deg() as usize;
    assert_eq!(p.coeffs_take(d + 1), q.coeffs_take(d + 1));
}

#[test]
fn test_compare_deg_tie() {
    let a = Polynomial::<i64>::from_coefficients(vec![1, 2]);
    let b = Polynomial::<i64>::from_coefficients(vec![3, 4]);
    assert_eq!(a.compare_deg(&b), true);
    assert_eq!(b.compare_deg(&a), true);
}

#[test]
fn test_mul_mod4() {
    // over Z/4Z: (1 + 3x + 2x^3)(3 + x) = 2x^4 + 2x^3 + 3x^2 + 2x + 3
    let mod1 = Polynomial::<IntegerMod<4>>::from_coefficients(vec![
        IntegerMod::<4>::new(1),
        IntegerMod::<4>::new(3),
        IntegerMod::<4>::new(0),
        IntegerMod::<4>::new(2),
    ]);
    let mod2 = Polynomial::<IntegerMod<4>>::from_coefficients(vec![
        IntegerMod::<4>::new(3),
        IntegerMod::<4>::new(1),
    ]);

    let mod_prod = mod1 * mod2;
    let mod_expected = Polynomial::<IntegerMod<4>>::from_coefficients(vec![
        IntegerMod::<4>::new(3),
        IntegerMod::<4>::new(2),
        IntegerMod::<4>::new(3),
        IntegerMod::<4>::new(2),
        IntegerMod::<4>::new(2),
    ]);

    assert_eq!(mod_prod, mod_expected);
}

#[test]
fn test_derivative_of_constant() {
    let c = Polynomial::<i64>::from_coefficients(vec![17]);
    assert_eq!(c.derivative(), Polynomial::<i64>::zero());
}
