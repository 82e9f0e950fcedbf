use lander_core::fx_add_checked;
use lander_core::fx_mul;
use lander_core::fx_mul_checked;
use lander_core::fx_sub_checked;
use lander_core::FX_ONE;

#[test]
fn fx_mul_exact_products() {
    // 2.5 * 4.0 == 10.0
    assert_eq!(fx_mul(10737418240, 17179869184), 42949672960);
    // -2.5 * 4.0 == -10.0
    assert_eq!(fx_mul(-10737418240, 17179869184), -42949672960);
    // 1.0 is the multiplicative unit
    assert_eq!(fx_mul(FX_ONE, 123456789), 123456789);
}

#[test]
fn fx_mul_rounds_toward_negative_infinity() {
    // The smallest positive raw product underflows to zero...
    assert_eq!(fx_mul(1, 1), 0);
    // ...while its negation rounds down to -1, not toward zero.
    assert_eq!(fx_mul(-1, 1), -1);
}

#[test]
fn fx_checked_ops_report_overflow() {
    assert_eq!(fx_add_checked(i64::MAX, 1), None);
    assert_eq!(fx_add_checked(3, 4), Some(7));
    assert_eq!(fx_sub_checked(i64::MIN, 1), None);
    assert_eq!(fx_sub_checked(3, 4), Some(-1));
    // MAX * 2.0 does not fit
    assert_eq!(fx_mul_checked(i64::MAX, 2 * FX_ONE), None);
    assert_eq!(fx_mul_checked(10737418240, 17179869184), Some(42949672960));
}
