use bored_algebra::module::compose_fns;
use bored_algebra::module::Homo;
use bored_algebra::module::ModType;
use bored_algebra::poly::Polynomial;

type ZHomo<F> = Homo<i64, i64, i64, F>;

#[test]
fn module_test_add() {
    let homo_1 = ZHomo::new(|x: i64| 3 * x);
    let homo_2 = ZHomo::new(|x: i64| 2 * x);
    let expected = ZHomo::new(|x: i64| 3 * x + 2 * x);
    assert_eq!((expected.as_fn())(1), ((homo_1.add_homo(homo_2)).as_fn())(1));
}

#[test]
fn test_homo_apply() {
    let homo = ZHomo::new(|x: i64| x * 5);
    assert_eq!(homo.apply(3), 15);
}

#[test]
fn test_homo_compose() {
    // f: x -> x + 1, then g: x -> 2x, so (g ∘ f)(x) = 2(x + 1)
    let f = ZHomo::new(|x: i64| x + 1);
    let g = ZHomo::new(|x: i64| 2 * x);
    let composite = f.compose(g);
    assert_eq!((composite.as_fn())(4), 10);
}

#[test]
fn test_compose_fns() {
    let h = compose_fns(|b: i64| b * b, |a: i64| a - 1);
    assert_eq!(h(4), 9);
}

#[test]
fn test_mod_mul() {
    assert_eq!(<i64 as ModType<i64>>::mod_mul(3, 4), 12);

    let x = Polynomial::<i64>::from_coefficients(vec![0, 1]);
    let x_squared = Polynomial::<i64>::from_coefficients(vec![0, 0, 1]);
    assert_eq!(
        <Polynomial<i64> as ModType<Polynomial<i64>>>::mod_mul(x.clone(), x),
        x_squared
    );
}
