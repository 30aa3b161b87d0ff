use fer::{get_symbol, list_symbols, match_symbol, Symbol};

fn all_symbols() -> Vec<(Symbol, &'static str)> {
    vec![
        (Symbol::Cad, "CAD"),
        (Symbol::Hkd, "HKD"),
        (Symbol::Isk, "ISK"),
        (Symbol::Php, "PHP"),
        (Symbol::Dkk, "DKK"),
        (Symbol::Huf, "HUF"),
        (Symbol::Czk, "CZK"),
        (Symbol::Gbp, "GBP"),
        (Symbol::Ron, "RON"),
        (Symbol::Sek, "SEK"),
        (Symbol::Idr, "IDR"),
        (Symbol::Brl, "BRL"),
        (Symbol::Rub, "RUB"),
        (Symbol::Hrk, "HRK"),
        (Symbol::Jpy, "JPY"),
        (Symbol::Thb, "THB"),
        (Symbol::Chf, "CHF"),
        (Symbol::Eur, "EUR"),
        (Symbol::Myr, "MYR"),
        (Symbol::Bgn, "BGN"),
        (Symbol::Try, "TRY"),
        (Symbol::Cny, "CNY"),
        (Symbol::Nok, "NOK"),
        (Symbol::Nzd, "NZD"),
        (Symbol::Zar, "ZAR"),
        (Symbol::Usd, "USD"),
        (Symbol::Sgd, "SGD"),
        (Symbol::Aud, "AUD"),
        (Symbol::Ils, "ILS"),
        (Symbol::Krw, "KRW"),
        (Symbol::Pln, "PLN"),
    ]
}

#[test]
fn codes_round_trip_for_all_symbols() {
    let symbols = all_symbols();
    assert_eq!(symbols.len(), 31);
    for (symbol, code) in symbols {
        assert_eq!(get_symbol(symbol), code);
        assert_eq!(match_symbol(code), symbol);
        assert_eq!(match_symbol(get_symbol(symbol)), symbol);
    }
}

#[test]
fn match_is_case_insensitive() {
    assert_eq!(match_symbol("usd"), Symbol::Usd);
    assert_eq!(match_symbol("USD"), Symbol::Usd);
    assert_eq!(match_symbol("Usd"), Symbol::Usd);
    assert_eq!(match_symbol("uSd"), Symbol::Usd);
    assert_eq!(match_symbol("jpy"), Symbol::Jpy);
    assert_eq!(match_symbol("gBp"), Symbol::Gbp);
}

#[test]
fn unknown_codes_fall_back_to_eur() {
    assert_eq!(match_symbol("not-a-code"), Symbol::Eur);
    assert_eq!(match_symbol(""), Symbol::Eur);
    assert_eq!(match_symbol("US"), Symbol::Eur);
    assert_eq!(match_symbol("USDX"), Symbol::Eur);
    assert_eq!(match_symbol("us d"), Symbol::Eur);
}

#[test]
fn default_symbol_is_usd() {
    assert_eq!(Symbol::default(), Symbol::Usd);
}

#[test]
fn listing_names_every_code() {
    let listing = list_symbols();
    for (_, code) in all_symbols() {
        assert!(listing.contains(code));
    }
    assert!(listing.contains("CAD  Canadian Dollar"));
    assert!(listing.contains("PLN  Polish Zloty"));
}
