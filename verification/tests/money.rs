use proto_types::{Money, MoneyError};

fn usd(u: i64, n: i32) -> Money {
    Money::new("USD", u, n).unwrap()
}

fn eur(u: i64, n: i32) -> Money {
    Money::new("EUR", u, n).unwrap()
}

#[test]
fn test_normalization_carry() {
    let m = usd(1, 1_500_000_000);
    assert_eq!(m.units, 2);
    assert_eq!(m.nanos, 500_000_000);

    let m = usd(-1, -1_500_000_000);
    assert_eq!(m.units, -2);
    assert_eq!(m.nanos, -500_000_000);

    let m = usd(1, 1_000_000_000);
    assert_eq!(m.units, 2);
    assert_eq!(m.nanos, 0);
}

#[test]
fn test_normalization_sign_correction() {
    let m = usd(1, -100);
    assert_eq!(m.units, 0);
    assert_eq!(m.nanos, 999_999_900);

    let m = usd(-1, 100);
    assert_eq!(m.units, 0);
    assert_eq!(m.nanos, -999_999_900);

    let m = usd(0, -500);
    assert!(m.is_negative());
}

#[test]
fn test_add_sub() {
    // 1. Standard Addition
    let m1 = usd(10, 500_000_000);
    let m2 = usd(20, 500_000_000);
    let sum = m1.try_add(&m2).unwrap();
    assert_eq!(sum.units, 31);
    assert_eq!(sum.nanos, 0);

    // 2. Addition causing Overflow of Units
    let max = usd(i64::MAX, 0);
    let one = usd(1, 0);
    assert_eq!(max.try_add(&one), Err(MoneyError::OutOfRange));

    // 3. Subtraction crossing zero
    let m1 = usd(1, 0);
    let m2 = usd(2, 0);
    let diff = m1.try_sub(&m2).unwrap();
    assert_eq!(diff.units, -1);
    assert_eq!(diff.nanos, 0);

    // 4. Subtraction causing Underflow
    let min = usd(i64::MIN, 0);
    let one = usd(1, 0);
    assert_eq!(min.try_sub(&one), Err(MoneyError::OutOfRange));

    // 5. Currency Mismatch
    let u = usd(10, 0);
    let e = eur(10, 0);
    assert!(matches!(u.try_add(&e), Err(MoneyError::CurrencyMismatch { .. })));
}

#[test]
fn test_assign_ops() {
    let mut m = usd(1, 500_000_000);
    m.try_add_assign(&usd(0, 600_000_000)).unwrap();
    assert_eq!(m.units, 2);
    assert_eq!(m.nanos, 100_000_000);

    m.try_sub_assign(&usd(3, 0)).unwrap();
    assert_eq!(m.units, 0);
    assert_eq!(m.nanos, -900_000_000);
}

#[test]
fn test_mul() {
    let m = usd(10, 500_000_000); // 10.5
    let res = m.try_mul_i64(2).unwrap();
    assert_eq!(res.units, 21);

    let res = m.try_mul_i64(-2).unwrap();
    assert_eq!(res.units, -21);

    let huge = usd((i64::MAX / 2) + 2, 0);
    assert_eq!(huge.try_mul_i64(2), Err(MoneyError::OutOfRange));

    let edge = usd(i64::MAX - 1, 600_000_000);
    assert_eq!(edge.try_mul_i64(2), Err(MoneyError::OutOfRange));
}

#[test]
fn test_div() {
    let m = usd(10, 0);
    let res = m.try_div_i64(2).unwrap();
    assert_eq!(res.units, 5);

    let m = usd(1, 0);
    let res = m.try_div_i64(3).unwrap();
    assert_eq!(res.units, 0);
    assert_eq!(res.nanos, 333_333_333);

    assert_eq!(m.try_div_i64(0), Err(MoneyError::OutOfRange));
}

#[test]
fn test_comparison() {
    let m1 = usd(10, 0);
    let m2 = usd(10, 1);
    let m3 = usd(10, 0);

    assert!(m1 < m2);
    assert!(m1 == m3);

    let e = eur(10, 0);
    // Currency mismatch -> None
    assert_eq!(m1.partial_cmp(&e), None);
}

#[test]
fn test_flags() {
    let zero = usd(0, 0);
    assert!(zero.is_zero());
    assert!(!zero.is_positive());
    assert!(!zero.is_negative());

    let pos = usd(0, 1);
    assert!(pos.is_positive());

    let neg = usd(0, -1);
    assert!(neg.is_negative());
}

#[test]
fn test_formatting_precision() {
    assert_eq!(usd(1, 0).to_formatted_string("$", 2), "$1.00");
    assert_eq!(usd(1, 5_000_000).to_formatted_string("$", 2), "$1.01");
    assert_eq!(usd(1, 4_000_000).to_formatted_string("$", 2), "$1.00");
    assert_eq!(usd(1, 123_456_789).to_formatted_string("$", 9), "$1.123456789");
    assert_eq!(usd(1, 900_000_000).to_formatted_string("$", 0), "$1"); // Truncates to $1
    assert_eq!(usd(-5, -500_000_000).to_formatted_string("€", 2), "-€5.50");
}

#[test]
fn test_arithmetic_rollover_bugs() {
    let m = usd(0, 500_000_000);
    let res = m.try_mul_i64(10).unwrap(); // 5B nanos -> 5 units
    assert_eq!(res.units, 5);
    assert_eq!(res.nanos, 0);

    let m1 = usd(0, 600_000_000);
    let m2 = usd(0, 600_000_000);
    let res = m1.try_add(&m2).unwrap(); // 1.2B nanos -> 1 unit, 200M nanos
    assert_eq!(res.units, 1);
    assert_eq!(res.nanos, 200_000_000);
}

#[test]
fn test_formatting() {
    let m = usd(10, 500_000_000); // 10.50
    assert_eq!(m.to_formatted_string("$", 2), "$10.50");

    let m = usd(10, 555_000_000); // 10.555
    assert_eq!(m.to_formatted_string("$", 2), "$10.56");

    let m = usd(-5, -500_000_000); // -5.50
    assert_eq!(m.to_formatted_string("$", 2), "-$5.50");
}

#[test]
fn money_normalize_aligns_signs() {
    let raw = Money { currency_code: "USD".to_string(), units: 1, nanos: -100 };
    let m = raw.normalize().unwrap();
    assert_eq!(m, Money { currency_code: "USD".to_string(), units: 0, nanos: 999_999_900 });

    let raw = Money { currency_code: "USD".to_string(), units: i64::MAX, nanos: 1_000_000_000 };
    assert_eq!(raw.normalize(), Err(MoneyError::OutOfRange));

    // The most negative fraction is folded like any other.
    let raw = Money { currency_code: "USD".to_string(), units: 5, nanos: i32::MIN };
    let m = raw.normalize().unwrap();
    assert_eq!((m.units, m.nanos), (2, 852_516_352));
}

#[test]
fn money_mismatch_names_both_currencies() {
    let e = usd(1, 0).try_sub(&eur(1, 0));
    assert_eq!(
        e,
        Err(MoneyError::CurrencyMismatch { expected: "USD".to_string(), found: "EUR".to_string() })
    );
    let mut m = usd(1, 0);
    assert!(m.try_add_assign(&eur(1, 0)).is_err());
    assert_eq!(m, usd(1, 0));
    let mut m = usd(i64::MAX, 0);
    assert_eq!(m.try_add_assign(&usd(1, 0)), Err(MoneyError::OutOfRange));
    assert_eq!(m, usd(i64::MAX, 0));
    let mut m = usd(i64::MIN, 0);
    assert_eq!(m.try_sub_assign(&usd(1, 0)), Err(MoneyError::OutOfRange));
    assert!(m.try_sub_assign(&eur(1, 0)).is_err());
    assert_eq!(m, usd(i64::MIN, 0));
}

#[test]
fn money_neg_and_totals() {
    let m = usd(3, 250_000_000);
    assert_eq!(m.total_nanos(), 3_250_000_000);
    let n = m.try_neg().unwrap();
    assert_eq!((n.units, n.nanos), (-3, -250_000_000));
    assert_eq!(n.currency_code, "USD");
    assert_eq!(usd(i64::MIN, 0).try_neg(), Err(MoneyError::OutOfRange));
    assert_eq!(Money::from_total_nanos("JPY", -1_500_000_000).unwrap(), Money {
        currency_code: "JPY".to_string(),
        units: -1,
        nanos: -500_000_000,
    });
    assert_eq!(Money::from_total_nanos("JPY", i128::MAX), Err(MoneyError::OutOfRange));
    assert_eq!(usd(-7, 0).try_div_i64(2).unwrap(), usd(-3, -500_000_000));
    assert_eq!(usd(7, 0).try_div_i64(-2).unwrap(), usd(-3, -500_000_000));
    assert_eq!(usd(i64::MIN, 0).try_div_i64(-1), Err(MoneyError::OutOfRange));
}

#[test]
fn money_currency_flags() {
    assert!(usd(1, 0).is_usd());
    assert!(!usd(1, 0).is_eur());
    assert!(eur(1, 0).is_eur());
    assert!(Money::new("GBP", 1, 0).unwrap().is_gbp());
    assert!(Money::new("JPY", 1, 0).unwrap().is_jpy());
    assert!(Money::new("CAD", 1, 0).unwrap().is_cad());
    assert!(Money::new("AUD", 1, 0).unwrap().is_aud());
    assert!(Money::new("AUD", 1, 0).unwrap().is_currency("AUD"));
    assert!(!Money::new("AUD", 1, 0).unwrap().is_currency("aud"));
}

#[test]
fn money_formatting_rounding_edges() {
    // Rounding that carries into the units.
    assert_eq!(usd(1, 999_999_999).to_formatted_string("$", 2), "$2.00");
    assert_eq!(usd(-1, -995_000_000).to_formatted_string("$", 2), "-$2.00");
    // Nine places and more are exact.
    assert_eq!(usd(0, 999_999_999).to_formatted_string("$", 9), "$0.999999999");
    assert_eq!(usd(0, 5).to_formatted_string("$", 40), "$0.000000005");
    assert_eq!(usd(0, 0).to_formatted_string("", 9), "0.000000000");
    // Eight places round the ninth digit half up.
    assert_eq!(usd(0, 5).to_formatted_string("$", 8), "$0.00000001");
    assert_eq!(usd(0, 4).to_formatted_string("$", 8), "$0.00000000");
    // A negative fraction under a zero unit keeps its sign.
    assert_eq!(usd(0, -250_000_000).to_formatted_string("$", 1), "-$0.3");
    // Fields out of normal form are folded first.
    let raw = Money { currency_code: "USD".to_string(), units: 1, nanos: -500_000_000 };
    assert_eq!(raw.to_formatted_string("$", 2), "$0.50");
    let raw = Money { currency_code: "USD".to_string(), units: i64::MIN, nanos: -999_999_999 };
    assert_eq!(raw.to_formatted_string("$", 0), "-$9223372036854775808");
}
