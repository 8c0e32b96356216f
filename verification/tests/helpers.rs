use bored_algebra::helpers::max;
use bored_algebra::helpers::min;
use bored_algebra::helpers::mul_z_module;

#[test]
fn test_max() {
    assert_eq!(max(0, 1), 1);
    assert_eq!(max(4, 4), 4);
    assert_eq!(max(-4234, -232442), -4234);
}

#[test]
fn test_min() {
    assert_eq!(min(0, 1), 0);
    assert_eq!(min(4, 4), 4);
    assert_eq!(min(-4234, -232442), -232442);
}

#[test]
fn test_mul_z_module() {
    assert_eq!(mul_z_module(3, 5i64), 15);
    assert_eq!(mul_z_module(0, 7i64), 0);
    assert_eq!(mul_z_module(1, -9i64), -9);
}
