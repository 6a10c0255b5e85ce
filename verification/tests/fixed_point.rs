use water_caustics::fixed::{fx_clamp, fx_div, fx_fract, fx_mul, isqrt, FX_HALF, FX_ONE};

#[test]
fn fx_mul_exact_products() {
    assert_eq!(fx_mul(3 * FX_ONE, 2 * FX_ONE), 6 * FX_ONE);
    assert_eq!(fx_mul(-5 * FX_ONE, FX_HALF), -163840);
    assert_eq!(fx_mul(0, 123456), 0);
    assert_eq!(fx_mul(FX_ONE, FX_ONE), FX_ONE);
}

#[test]
fn fx_mul_truncates_toward_zero() {
    // 1.5 * 0.00003 (roughly) truncates symmetrically for both signs.
    assert_eq!(fx_mul(3, 3), 0);
    assert_eq!(fx_mul(-3, 3), 0);
}

#[test]
fn fx_div_exact_quotients() {
    assert_eq!(fx_div(3 * FX_ONE, 2 * FX_ONE), 98304);
    assert_eq!(fx_div(FX_ONE, -2 * FX_ONE), -FX_HALF);
    assert_eq!(fx_div(-FX_ONE, -FX_ONE), FX_ONE);
    assert_eq!(fx_div(0, 7), 0);
}

#[test]
fn fx_fract_wraps_into_one_period() {
    assert_eq!(fx_fract(-1), 65535);
    assert_eq!(fx_fract(65537), 1);
    assert_eq!(fx_fract(0), 0);
    assert_eq!(fx_fract(-65536), 0);
    assert_eq!(fx_fract(3 * FX_ONE + 17), 17);
}

#[test]
fn isqrt_brackets_its_argument() {
    assert_eq!(isqrt(0), 0);
    assert_eq!(isqrt(1), 1);
    assert_eq!(isqrt(10), 3);
    assert_eq!(isqrt(4294967296), 65536);
    assert_eq!(isqrt(4294967295), 65535);
    assert_eq!(isqrt(i64::MAX), 3037000499);
}

#[test]
fn fx_clamp_confines() {
    assert_eq!(fx_clamp(5, 0, 3), 3);
    assert_eq!(fx_clamp(-5, 0, 3), 0);
    assert_eq!(fx_clamp(2, 0, 3), 2);
}
