use core::cmp::Ordering;
use proto_types::{Fraction, FractionError};

fn frac(n: i64, d: i64) -> Result<Fraction, FractionError> {
    Fraction::new(n, d)
}

#[test]
fn test_creation_and_reduction() {
    let f = frac(2, 4).unwrap();
    assert_eq!(f.numerator, 1);
    assert_eq!(f.denominator, 2);

    let f = frac(1, -2).unwrap();
    assert_eq!(f.numerator, -1);
    assert_eq!(f.denominator, 2);

    let f = frac(-2, -4).unwrap();
    assert_eq!(f.numerator, 1);
    assert_eq!(f.denominator, 2);

    let f = frac(0, 5).unwrap();
    assert_eq!(f.numerator, 0);
    assert_eq!(f.denominator, 1); // 0/5 reduces to 0/1
}

#[test]
fn test_creation_edge_cases() {
    assert_eq!(frac(1, 0), Err(FractionError::ZeroDenominator));

    let f = frac(i64::MIN, 1).unwrap();
    assert_eq!(f.numerator, i64::MIN);
    assert_eq!(f.denominator, 1);

    assert_eq!(frac(1, i64::MIN), Err(FractionError::Overflow));

    assert_eq!(frac(i64::MIN, -1), Err(FractionError::Overflow));
}

#[test]
fn test_arithmetic_add() {
    let f1 = frac(1, 2).unwrap();
    let f2 = frac(1, 3).unwrap();
    let res = f1.checked_add(f2).unwrap();
    assert_eq!(res.numerator, 5);
    assert_eq!(res.denominator, 6);

    let f1 = frac(1, 2).unwrap();
    let f2 = frac(1, -2).unwrap();
    let res = f1.checked_add(f2).unwrap();
    assert_eq!(res.numerator, 0);
    assert_eq!(res.denominator, 1);
}

#[test]
fn test_arithmetic_sub() {
    let f1 = frac(1, 2).unwrap();
    let f2 = frac(1, 3).unwrap();
    let res = f1.checked_sub(f2).unwrap();
    assert_eq!(res.numerator, 1);
    assert_eq!(res.denominator, 6);
}

#[test]
fn test_arithmetic_mul() {
    let f1 = frac(2, 3).unwrap();
    let f2 = frac(3, 4).unwrap();
    let res = f1.checked_mul(f2).unwrap();
    assert_eq!(res.numerator, 1);
    assert_eq!(res.denominator, 2);
}

#[test]
fn test_arithmetic_div() {
    let f1 = frac(1, 2).unwrap();
    let f2 = frac(1, 2).unwrap();
    let res = f1.checked_div(f2).unwrap();
    assert_eq!(res.numerator, 1);
    assert_eq!(res.denominator, 1);

    let f1 = frac(1, 2).unwrap();
    let f2 = frac(0, 1).unwrap();
    assert_eq!(f1.checked_div(f2), Err(FractionError::Undefined));
}

#[test]
fn fraction_test_ordering() {
    let f1 = frac(1, 2).unwrap();
    let f2 = frac(1, 3).unwrap();
    let f3 = frac(2, 4).unwrap(); // Same as 1/2

    assert!(f1 > f2); // 1/2 > 1/3
    assert!(f2 < f1);
    assert_eq!(f1.partial_cmp(&f3), Some(Ordering::Equal));

    let neg = frac(-1, 2).unwrap();
    assert!(neg < f1);
}

#[test]
fn test_overflow_checks() {
    let f1 = frac(i64::MAX - 1, 1).unwrap();
    let f2 = frac(2, 1).unwrap();

    assert_eq!(f1.checked_add(f2), Err(FractionError::Overflow));
}

#[test]
fn test_gcd_edge_cases() {
    assert_eq!(Fraction::gcd(10, 5), 5);
    assert_eq!(Fraction::gcd(-10, 5), 5);

    assert_eq!(Fraction::gcd(i64::MIN, 0), 9_223_372_036_854_775_808);
}

#[test]
fn test_manual_corruption_resilience() {
    let mut f = Fraction { numerator: 1, denominator: i64::MIN };
    f.reduce();
    assert_eq!(f.denominator, i64::MIN);

    let mut f2 = Fraction { numerator: i64::MIN, denominator: -1 };
    f2.reduce();
    assert_eq!(f2.denominator, -1);
}

#[test]
fn test_reduce_works_normally() {
    let mut f = Fraction { numerator: 2, denominator: 4 };
    f.reduce();
    assert_eq!(f.numerator, 1);
    assert_eq!(f.denominator, 2);

    let mut f2 = Fraction { numerator: 2, denominator: -4 };
    f2.reduce();
    assert_eq!(f2.numerator, -1);
    assert_eq!(f2.denominator, 2);
}

#[test]
fn fraction_add_one_half_and_one_third() {
    assert_eq!(
        Fraction::new(1, 2).unwrap().checked_add(Fraction::new(1, 3).unwrap()),
        Ok(Fraction::new(5, 6).unwrap())
    );
}

#[test]
fn fraction_new_is_in_lowest_terms() {
    for (n, d) in [(6, 4), (-6, 4), (6, -4), (0, -7), (i64::MAX, i64::MAX), (i64::MIN, 2), (12, 18), (17, 5)] {
        let f = Fraction::new(n, d).unwrap();
        assert!(f.denominator > 0);
        assert_eq!(Fraction::gcd(f.numerator, f.denominator), 1);
        assert_eq!(i128::from(f.numerator) * i128::from(d), i128::from(n) * i128::from(f.denominator));
    }
}

#[test]
fn fraction_lcm_and_gcd_values() {
    assert_eq!(Fraction::lcm(4, 6), Ok(12));
    assert_eq!(Fraction::lcm(-4, 6), Ok(-12));
    assert_eq!(Fraction::lcm(4, -6), Ok(-12));
    assert_eq!(Fraction::lcm(0, 6), Err(FractionError::ZeroDenominator));
    assert_eq!(Fraction::lcm(6, 0), Err(FractionError::ZeroDenominator));
    assert_eq!(Fraction::lcm(i64::MIN, i64::MIN), Ok(9_223_372_036_854_775_808));
    assert_eq!(Fraction::gcd(0, 0), 0);
    assert_eq!(Fraction::gcd(0, 9), 9);
    assert_eq!(Fraction::gcd(12, 18), 6);
}

#[test]
fn fraction_errors_and_corrupt_operands() {
    let zero_den = Fraction { numerator: 1, denominator: 0 };
    let half = Fraction::new(1, 2).unwrap();
    assert_eq!(zero_den.checked_add(half), Err(FractionError::ZeroDenominator));
    assert_eq!(half.checked_sub(zero_den), Err(FractionError::ZeroDenominator));
    assert_eq!(half.checked_mul(zero_den), Err(FractionError::ZeroDenominator));
    assert_eq!(zero_den.partial_cmp(&half), None);
    assert_eq!(half.partial_cmp(&Fraction { numerator: 1, denominator: -2 }), None);
    assert_eq!(zero_den.reduced(), zero_den);
    assert_eq!(Fraction { numerator: 4, denominator: -6 }.reduced(), Fraction { numerator: -2, denominator: 3 });
    let big = Fraction::new(i64::MAX, 1).unwrap();
    assert_eq!(big.checked_mul(big), Err(FractionError::Overflow));
    assert_eq!(big.checked_div(Fraction::new(1, i64::MAX).unwrap()), Err(FractionError::Overflow));
    assert_eq!(half.checked_div(Fraction::new(-1, 4).unwrap()), Ok(Fraction { numerator: -2, denominator: 1 }));
    assert_eq!(Fraction::new(1, i64::MAX).unwrap().checked_add(Fraction::new(1, i64::MAX - 1).unwrap()), Err(FractionError::Overflow));
    assert_eq!(Fraction::new(-3, 9).unwrap().to_string(), "-1/3");
}

fn to_f64(fraction: Fraction) -> Result<f64, FractionError> {
    let (numerator, denominator) = fraction.to_ratio()?;
    Ok(numerator as f64 / denominator as f64)
}

#[test]
fn test_f64_conversion() {
    let f = frac(1, 2).unwrap();
    let val: f64 = to_f64(f).unwrap();
    assert!((val - 0.5).abs() < f64::EPSILON);

    let bad_frac = Fraction { numerator: 1, denominator: 0 };
    assert_eq!(to_f64(bad_frac), Err(FractionError::ZeroDenominator));
}
