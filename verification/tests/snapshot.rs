use fer::{match_symbol, Currency, CurrencyError, Rational, Symbol};

fn usd_jpy() -> Currency {
    Currency::new(
        Symbol::Usd,
        vec![
            (Symbol::Usd, Rational::new(1, 1)),
            (Symbol::Jpy, Rational::new(110, 1)),
        ],
        String::from("2020-01-01"),
    )
    .unwrap()
}

#[test]
fn test_lib() {
    let usd = match_symbol("usd");
    let base = Currency::new(
        usd,
        vec![(Symbol::Usd, Rational::new(1, 1))],
        String::from("2020-01-01"),
    )
    .unwrap();
    assert_eq!("USD".to_string(), base.base);
    let one = base.convert_into(Symbol::Usd, Rational::from_int(1)).unwrap();
    assert!(one.equiv(&Rational::from_int(1)));
    let million = base
        .convert_from(Symbol::Usd, Rational::from_int(1000000))
        .unwrap();
    assert!(million.equiv(&Rational::from_int(1000000)));
}

#[test]
fn self_conversion_is_identity() {
    let base = usd_jpy();
    for amount in [1u64, 7, 1000000] {
        let through = base
            .convert_from(Symbol::Usd, Rational::from_int(amount))
            .unwrap();
        assert!(through.equiv(&Rational::from_int(amount)));
    }
    let fractional = base
        .convert_from(Symbol::Usd, Rational::new(7, 3))
        .unwrap();
    assert!(fractional.equiv(&Rational::new(7, 3)));
}

#[test]
fn convert_into_base_is_identity() {
    let base = usd_jpy();
    let result = base.convert_into(Symbol::Usd, Rational::from_int(42)).unwrap();
    assert!(result.equiv(&Rational::from_int(42)));
}

#[test]
fn usd_to_jpy_and_back() {
    let base = usd_jpy();
    let yen = base.convert_into(Symbol::Jpy, Rational::from_int(100)).unwrap();
    assert!(yen.equiv(&Rational::from_int(11000)));
    assert_eq!(yen, Rational::new(11000, 1));
    let dollars = base
        .convert_from(Symbol::Jpy, Rational::from_int(11000))
        .unwrap();
    assert!(dollars.equiv(&Rational::from_int(100)));
}

#[test]
fn round_trip_is_exact() {
    let base = usd_jpy();
    for amount in [
        Rational::from_int(1),
        Rational::from_int(100),
        Rational::new(7, 3),
        Rational::new(999983, 1000),
    ] {
        let yen = base.convert_into(Symbol::Jpy, amount).unwrap();
        let back = base.convert_from(Symbol::Jpy, yen).unwrap();
        assert!(back.equiv(&amount));
    }
}

#[test]
fn gbp_to_usd_scenario() {
    let base = Currency::new(
        Symbol::Gbp,
        vec![
            (Symbol::Gbp, Rational::new(1, 1)),
            (Symbol::Usd, Rational::new(13, 10)),
        ],
        String::from("2020-01-01"),
    )
    .unwrap();
    assert_eq!("GBP".to_string(), base.base);
    let result = base.convert_into(Symbol::Usd, Rational::from_int(1000)).unwrap();
    assert!(result.equiv(&Rational::from_int(1300)));
}

#[test]
fn missing_rate_is_an_error_not_a_default() {
    let base = usd_jpy();
    let into = base.convert_into(Symbol::Chf, Rational::from_int(1));
    assert_eq!(into, Err(CurrencyError::RateNotFound));
    let from = base.convert_from(Symbol::Chf, Rational::from_int(1));
    assert_eq!(from, Err(CurrencyError::RateNotFound));
}

#[test]
fn missing_base_rate_is_an_error() {
    let base = Currency::new(
        Symbol::Eur,
        vec![(Symbol::Jpy, Rational::new(110, 1))],
        String::from("2020-01-01"),
    )
    .unwrap();
    let from = base.convert_from(Symbol::Jpy, Rational::from_int(1));
    assert_eq!(from, Err(CurrencyError::RateNotFound));
    let into = base.convert_into(Symbol::Jpy, Rational::from_int(1)).unwrap();
    assert!(into.equiv(&Rational::from_int(110)));
}

#[test]
fn duplicate_symbol_is_rejected() {
    let result = Currency::new(
        Symbol::Usd,
        vec![
            (Symbol::Usd, Rational::new(1, 1)),
            (Symbol::Usd, Rational::new(2, 1)),
        ],
        String::from("2020-01-01"),
    );
    assert!(matches!(result, Err(CurrencyError::Decode)));
}

#[test]
fn nonpositive_rate_is_rejected() {
    let zero_rate = Currency::new(
        Symbol::Usd,
        vec![(Symbol::Usd, Rational { num: 0, den: 1 })],
        String::from("2020-01-01"),
    );
    assert!(matches!(zero_rate, Err(CurrencyError::Decode)));
    let zero_denominator = Currency::new(
        Symbol::Usd,
        vec![(Symbol::Usd, Rational { num: 1, den: 0 })],
        String::from("2020-01-01"),
    );
    assert!(matches!(zero_denominator, Err(CurrencyError::Decode)));
}

#[test]
fn unrepresentable_result_is_an_overflow_error() {
    let base = Currency::new(
        Symbol::Usd,
        vec![
            (Symbol::Usd, Rational::new(1, 1)),
            (Symbol::Jpy, Rational::new(u64::MAX, 1)),
        ],
        String::from("2020-01-01"),
    )
    .unwrap();
    let result = base.convert_into(Symbol::Jpy, Rational::from_int(2));
    assert_eq!(result, Err(CurrencyError::Overflow));
}

#[test]
fn new_from_str_parses_the_base() {
    let rates = vec![(Symbol::Usd, Rational::new(1, 1))];
    let base = Currency::new_from_str("usd", rates.clone(), String::from("2020-01-01")).unwrap();
    assert_eq!("USD".to_string(), base.base);
    let fallback =
        Currency::new_from_str("nope", rates, String::from("2020-01-01")).unwrap();
    assert_eq!("EUR".to_string(), fallback.base);
}

#[test]
fn string_keyed_conversions() {
    let base = usd_jpy();
    let yen = base
        .convert_into_from_str("jpy", Rational::from_int(100))
        .unwrap();
    assert!(yen.equiv(&Rational::from_int(11000)));
    let dollars = base
        .convert_from_from_str("JPY", Rational::from_int(11000))
        .unwrap();
    assert!(dollars.equiv(&Rational::from_int(100)));
    let unknown = base.convert_into_from_str("nope", Rational::from_int(1));
    assert_eq!(unknown, Err(CurrencyError::RateNotFound));
}

#[test]
fn list_currencies_gives_the_table_codes() {
    let base = usd_jpy();
    assert_eq!(base.list_currencies(), vec!["USD", "JPY"]);
}

#[test]
fn rational_value_equality() {
    assert!(Rational::new(11000, 110).equiv(&Rational::from_int(100)));
    assert!(Rational::new(1, 2).equiv(&Rational::new(3, 6)));
    assert!(!Rational::new(1, 2).equiv(&Rational::new(2, 1)));
    assert_eq!(Rational::from_int(5), Rational::new(5, 1));
}
