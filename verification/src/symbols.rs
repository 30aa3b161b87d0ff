//! The symbol registry: the closed set of supported currency codes and the
//! bidirectional mapping between a `Symbol` and its canonical three-letter
//! textual code.

use vstd::prelude::*;

verus! {

/// List of three-letter symbols of major currencies.
#[derive(Copy, Clone, Debug, PartialEq, Eq, Structural)]
pub enum Symbol {
    Cad, // Canadian Dollar
    Hkd, // Hong Kong Dollar
    Isk, // Icelandic Krona
    Php, // Philippine Peso
    Dkk, // Danish Krone
    Huf, // Hungarian Forint
    Czk, // Czec Kouruna
    Gbp, // Great British Pound
    Ron, // Romanian New Leu
    Sek, // Swedish Krona
    Idr, // Indonesian Rupiah
    Brl, // Brazillian Real
    Rub, // Russian Ruble
    Hrk, // Croatian Kuna
    Jpy, // Japanese Yen
    Thb, // Thai Baht
    Chf, // Swiss Franc
    Eur, // Euro
    Myr, // Malaysian Ringgit
    Bgn, // Bulgaria Lev
    Try, // Turkish Lira
    Cny, // Chinese Yuan
    Nok, // Norwesian Krone
    Nzd, // New Zealand Dollar
    Zar, // South African Rand
    Usd, // US Dollar
    Sgd, // Singapore Dollar
    Aud, // Australian Dollar
    Ils, // Israeli Shekel
    Krw, // South Korean Won
    Pln, // Polish Zloty
}

/// The canonical uppercase three-letter code of a symbol, as a sequence of
/// characters. Total: every variant has exactly one code.
pub open spec fn code_of(s: Symbol) -> Seq<char> {
    match s {
        Symbol::Cad => "CAD"@,
        Symbol::Hkd => "HKD"@,
        Symbol::Isk => "ISK"@,
        Symbol::Php => "PHP"@,
        Symbol::Dkk => "DKK"@,
        Symbol::Huf => "HUF"@,
        Symbol::Czk => "CZK"@,
        Symbol::Gbp => "GBP"@,
        Symbol::Ron => "RON"@,
        Symbol::Sek => "SEK"@,
        Symbol::Idr => "IDR"@,
        Symbol::Brl => "BRL"@,
        Symbol::Rub => "RUB"@,
        Symbol::Hrk => "HRK"@,
        Symbol::Jpy => "JPY"@,
        Symbol::Thb => "THB"@,
        Symbol::Chf => "CHF"@,
        Symbol::Eur => "EUR"@,
        Symbol::Myr => "MYR"@,
        Symbol::Bgn => "BGN"@,
        Symbol::Try => "TRY"@,
        Symbol::Cny => "CNY"@,
        Symbol::Nok => "NOK"@,
        Symbol::Nzd => "NZD"@,
        Symbol::Zar => "ZAR"@,
        Symbol::Usd => "USD"@,
        Symbol::Sgd => "SGD"@,
        Symbol::Aud => "AUD"@,
        Symbol::Ils => "ILS"@,
        Symbol::Krw => "KRW"@,
        Symbol::Pln => "PLN"@,
    }
}

/// ASCII upper-casing of one character; characters outside `a..=z` are kept
/// as they are.
pub open spec fn upper_char(c: char) -> char {
    if 97 <= c as u32 && c as u32 <= 122 {
        (c as u32 - 32) as char
    } else {
        c
    }
}

/// ASCII upper-casing of a character sequence.
pub open spec fn upper_seq(s: Seq<char>) -> Seq<char> {
    s.map_values(|c: char| upper_char(c))
}

/// The symbol a textual code designates: the input is upper-cased and matched
/// against the canonical codes; an input that matches no code falls back to
/// `Symbol::Eur`, the registry's documented default.
pub open spec fn symbol_for_code(s: Seq<char>) -> Symbol {
    let u = upper_seq(s);
    if u == code_of(Symbol::Cad) {
        Symbol::Cad
    } else if u == code_of(Symbol::Hkd) {
        Symbol::Hkd
    } else if u == code_of(Symbol::Isk) {
        Symbol::Isk
    } else if u == code_of(Symbol::Php) {
        Symbol::Php
    } else if u == code_of(Symbol::Dkk) {
        Symbol::Dkk
    } else if u == code_of(Symbol::Huf) {
        Symbol::Huf
    } else if u == code_of(Symbol::Czk) {
        Symbol::Czk
    } else if u == code_of(Symbol::Gbp) {
        Symbol::Gbp
    } else if u == code_of(Symbol::Ron) {
        Symbol::Ron
    } else if u == code_of(Symbol::Sek) {
        Symbol::Sek
    } else if u == code_of(Symbol::Idr) {
        Symbol::Idr
    } else if u == code_of(Symbol::Brl) {
        Symbol::Brl
    } else if u == code_of(Symbol::Rub) {
        Symbol::Rub
    } else if u == code_of(Symbol::Hrk) {
        Symbol::Hrk
    } else if u == code_of(Symbol::Jpy) {
        Symbol::Jpy
    } else if u == code_of(Symbol::Thb) {
        Symbol::Thb
    } else if u == code_of(Symbol::Chf) {
        Symbol::Chf
    } else if u == code_of(Symbol::Eur) {
        Symbol::Eur
    } else if u == code_of(Symbol::Myr) {
        Symbol::Myr
    } else if u == code_of(Symbol::Bgn) {
        Symbol::Bgn
    } else if u == code_of(Symbol::Try) {
        Symbol::Try
    } else if u == code_of(Symbol::Cny) {
        Symbol::Cny
    } else if u == code_of(Symbol::Nok) {
        Symbol::Nok
    } else if u == code_of(Symbol::Nzd) {
        Symbol::Nzd
    } else if u == code_of(Symbol::Zar) {
        Symbol::Zar
    } else if u == code_of(Symbol::Usd) {
        Symbol::Usd
    } else if u == code_of(Symbol::Sgd) {
        Symbol::Sgd
    } else if u == code_of(Symbol::Aud) {
        Symbol::Aud
    } else if u == code_of(Symbol::Ils) {
        Symbol::Ils
    } else if u == code_of(Symbol::Krw) {
        Symbol::Krw
    } else if u == code_of(Symbol::Pln) {
        Symbol::Pln
    } else {
        Symbol::Eur
    }
}

/// The canonical textual code of a symbol.
pub fn get_symbol(currency: Symbol) -> (code: &'static str)
    ensures
        code@ == code_of(currency),
{
    match currency {
        Symbol::Cad => "CAD",
        Symbol::Hkd => "HKD",
        Symbol::Isk => "ISK",
        Symbol::Php => "PHP",
        Symbol::Dkk => "DKK",
        Symbol::Huf => "HUF",
        Symbol::Czk => "CZK",
        Symbol::Gbp => "GBP",
        Symbol::Ron => "RON",
        Symbol::Sek => "SEK",
        Symbol::Idr => "IDR",
        Symbol::Brl => "BRL",
        Symbol::Rub => "RUB",
        Symbol::Hrk => "HRK",
        Symbol::Jpy => "JPY",
        Symbol::Thb => "THB",
        Symbol::Chf => "CHF",
        Symbol::Eur => "EUR",
        Symbol::Myr => "MYR",
        Symbol::Bgn => "BGN",
        Symbol::Try => "TRY",
        Symbol::Cny => "CNY",
        Symbol::Nok => "NOK",
        Symbol::Nzd => "NZD",
        Symbol::Zar => "ZAR",
        Symbol::Usd => "USD",
        Symbol::Sgd => "SGD",
        Symbol::Aud => "AUD",
        Symbol::Ils => "ILS",
        Symbol::Krw => "KRW",
        Symbol::Pln => "PLN",
    }
}

/// Whether the upper-cased input equals the given code.
fn code_matches(s: &str, code: &str) -> (matches: bool)
    ensures
        matches == (upper_seq(s@) == code@),
{
    let n = s.unicode_len();
    let m = code.unicode_len();
    if n != m {
        proof {
            assert(upper_seq(s@).len() == s@.len());
        }
        return false;
    }
    let mut i: usize = 0;
    while i < n
        invariant
            i <= n,
            n == s@.len(),
            n == code@.len(),
            forall|j: int| 0 <= j < i ==> upper_char(s@[j]) == code@[j],
        decreases n - i,
    {
        let c = s.get_char(i);
        let k = code.get_char(i);
        let cu = c as u32;
        let ku = k as u32;
        let up: u32 = if 97 <= cu && cu <= 122 {
            cu - 32
        } else {
            cu
        };
        if up != ku {
            proof {
                assert(upper_char(s@[i as int]) as u32 == up);
                assert(upper_seq(s@)[i as int] != code@[i as int]);
            }
            return false;
        }
        proof {
            assert(upper_char(s@[i as int]) as u32 == ku);
            assert(upper_char(s@[i as int]) == code@[i as int]);
        }
        i += 1;
    }
    proof {
        assert(upper_seq(s@) =~= code@);
    }
    true
}

/// Convert str into Symbol type. The match is case-insensitive; an input
/// that is no known code yields `Symbol::Eur`, the registry's default.
pub fn match_symbol(currency: &str) -> (symbol: Symbol)
    ensures
        symbol == symbol_for_code(currency@),
{
    if code_matches(currency, "CAD") {
        Symbol::Cad
    } else if code_matches(currency, "HKD") {
        Symbol::Hkd
    } else if code_matches(currency, "ISK") {
        Symbol::Isk
    } else if code_matches(currency, "PHP") {
        Symbol::Php
    } else if code_matches(currency, "DKK") {
        Symbol::Dkk
    } else if code_matches(currency, "HUF") {
        Symbol::Huf
    } else if code_matches(currency, "CZK") {
        Symbol::Czk
    } else if code_matches(currency, "GBP") {
        Symbol::Gbp
    } else if code_matches(currency, "RON") {
        Symbol::Ron
    } else if code_matches(currency, "SEK") {
        Symbol::Sek
    } else if code_matches(currency, "IDR") {
        Symbol::Idr
    } else if code_matches(currency, "BRL") {
        Symbol::Brl
    } else if code_matches(currency, "RUB") {
        Symbol::Rub
    } else if code_matches(currency, "HRK") {
        Symbol::Hrk
    } else if code_matches(currency, "JPY") {
        Symbol::Jpy
    } else if code_matches(currency, "THB") {
        Symbol::Thb
    } else if code_matches(currency, "CHF") {
        Symbol::Chf
    } else if code_matches(currency, "EUR") {
        Symbol::Eur
    } else if code_matches(currency, "MYR") {
        Symbol::Myr
    } else if code_matches(currency, "BGN") {
        Symbol::Bgn
    } else if code_matches(currency, "TRY") {
        Symbol::Try
    } else if code_matches(currency, "CNY") {
        Symbol::Cny
    } else if code_matches(currency, "NOK") {
        Symbol::Nok
    } else if code_matches(currency, "NZD") {
        Symbol::Nzd
    } else if code_matches(currency, "ZAR") {
        Symbol::Zar
    } else if code_matches(currency, "USD") {
        Symbol::Usd
    } else if code_matches(currency, "SGD") {
        Symbol::Sgd
    } else if code_matches(currency, "AUD") {
        Symbol::Aud
    } else if code_matches(currency, "ILS") {
        Symbol::Ils
    } else if code_matches(currency, "KRW") {
        Symbol::Krw
    } else if code_matches(currency, "PLN") {
        Symbol::Pln
    } else {
        Symbol::Eur
    }
}

/// Every canonical code is already upper case: upper-casing it changes
/// nothing.
pub proof fn lemma_code_is_upper(t: Symbol)
    ensures
        upper_seq(code_of(t)) == code_of(t),
{
    reveal_strlit("CAD");
    reveal_strlit("HKD");
    reveal_strlit("ISK");
    reveal_strlit("PHP");
    reveal_strlit("DKK");
    reveal_strlit("HUF");
    reveal_strlit("CZK");
    reveal_strlit("GBP");
    reveal_strlit("RON");
    reveal_strlit("SEK");
    reveal_strlit("IDR");
    reveal_strlit("BRL");
    reveal_strlit("RUB");
    reveal_strlit("HRK");
    reveal_strlit("JPY");
    reveal_strlit("THB");
    reveal_strlit("CHF");
    reveal_strlit("EUR");
    reveal_strlit("MYR");
    reveal_strlit("BGN");
    reveal_strlit("TRY");
    reveal_strlit("CNY");
    reveal_strlit("NOK");
    reveal_strlit("NZD");
    reveal_strlit("ZAR");
    reveal_strlit("USD");
    reveal_strlit("SGD");
    reveal_strlit("AUD");
    reveal_strlit("ILS");
    reveal_strlit("KRW");
    reveal_strlit("PLN");
    match t {
        Symbol::Cad => assert(upper_seq(code_of(t)) =~= code_of(t)),
        Symbol::Hkd => assert(upper_seq(code_of(t)) =~= code_of(t)),
        Symbol::Isk => assert(upper_seq(code_of(t)) =~= code_of(t)),
        Symbol::Php => assert(upper_seq(code_of(t)) =~= code_of(t)),
        Symbol::Dkk => assert(upper_seq(code_of(t)) =~= code_of(t)),
        Symbol::Huf => assert(upper_seq(code_of(t)) =~= code_of(t)),
        Symbol::Czk => assert(upper_seq(code_of(t)) =~= code_of(t)),
        Symbol::Gbp => assert(upper_seq(code_of(t)) =~= code_of(t)),
        Symbol::Ron => assert(upper_seq(code_of(t)) =~= code_of(t)),
        Symbol::Sek => assert(upper_seq(code_of(t)) =~= code_of(t)),
        Symbol::Idr => assert(upper_seq(code_of(t)) =~= code_of(t)),
        Symbol::Brl => assert(upper_seq(code_of(t)) =~= code_of(t)),
        Symbol::Rub => assert(upper_seq(code_of(t)) =~= code_of(t)),
        Symbol::Hrk => assert(upper_seq(code_of(t)) =~= code_of(t)),
        Symbol::Jpy => assert(upper_seq(code_of(t)) =~= code_of(t)),
        Symbol::Thb => assert(upper_seq(code_of(t)) =~= code_of(t)),
        Symbol::Chf => assert(upper_seq(code_of(t)) =~= code_of(t)),
        Symbol::Eur => assert(upper_seq(code_of(t)) =~= code_of(t)),
        Symbol::Myr => assert(upper_seq(code_of(t)) =~= code_of(t)),
        Symbol::Bgn => assert(upper_seq(code_of(t)) =~= code_of(t)),
        Symbol::Try => assert(upper_seq(code_of(t)) =~= code_of(t)),
        Symbol::Cny => assert(upper_seq(code_of(t)) =~= code_of(t)),
        Symbol::Nok => assert(upper_seq(code_of(t)) =~= code_of(t)),
        Symbol::Nzd => assert(upper_seq(code_of(t)) =~= code_of(t)),
        Symbol::Zar => assert(upper_seq(code_of(t)) =~= code_of(t)),
        Symbol::Usd => assert(upper_seq(code_of(t)) =~= code_of(t)),
        Symbol::Sgd => assert(upper_seq(code_of(t)) =~= code_of(t)),
        Symbol::Aud => assert(upper_seq(code_of(t)) =~= code_of(t)),
        Symbol::Ils => assert(upper_seq(code_of(t)) =~= code_of(t)),
        Symbol::Krw => assert(upper_seq(code_of(t)) =~= code_of(t)),
        Symbol::Pln => assert(upper_seq(code_of(t)) =~= code_of(t)),
    }
}

/// An input whose upper-cased form is the canonical code of some symbol is
/// matched to exactly that symbol: the registry never confuses two codes.
pub proof fn lemma_symbol_for_code_exact(s: Seq<char>, t: Symbol)
    requires
        upper_seq(s) == code_of(t),
    ensures
        symbol_for_code(s) == t,
{
    reveal_strlit("CAD");
    reveal_strlit("HKD");
    reveal_strlit("ISK");
    reveal_strlit("PHP");
    reveal_strlit("DKK");
    reveal_strlit("HUF");
    reveal_strlit("CZK");
    reveal_strlit("GBP");
    reveal_strlit("RON");
    reveal_strlit("SEK");
    reveal_strlit("IDR");
    reveal_strlit("BRL");
    reveal_strlit("RUB");
    reveal_strlit("HRK");
    reveal_strlit("JPY");
    reveal_strlit("THB");
    reveal_strlit("CHF");
    reveal_strlit("EUR");
    reveal_strlit("MYR");
    reveal_strlit("BGN");
    reveal_strlit("TRY");
    reveal_strlit("CNY");
    reveal_strlit("NOK");
    reveal_strlit("NZD");
    reveal_strlit("ZAR");
    reveal_strlit("USD");
    reveal_strlit("SGD");
    reveal_strlit("AUD");
    reveal_strlit("ILS");
    reveal_strlit("KRW");
    reveal_strlit("PLN");
    assert("CAD"@[0] == 'C' && "CAD"@[1] == 'A');
    assert("HKD"@[0] == 'H' && "HKD"@[1] == 'K');
    assert("ISK"@[0] == 'I' && "ISK"@[1] == 'S');
    assert("PHP"@[0] == 'P' && "PHP"@[1] == 'H');
    assert("DKK"@[0] == 'D' && "DKK"@[1] == 'K');
    assert("HUF"@[0] == 'H' && "HUF"@[1] == 'U');
    assert("CZK"@[0] == 'C' && "CZK"@[1] == 'Z');
    assert("GBP"@[0] == 'G' && "GBP"@[1] == 'B');
    assert("RON"@[0] == 'R' && "RON"@[1] == 'O');
    assert("SEK"@[0] == 'S' && "SEK"@[1] == 'E');
    assert("IDR"@[0] == 'I' && "IDR"@[1] == 'D');
    assert("BRL"@[0] == 'B' && "BRL"@[1] == 'R');
    assert("RUB"@[0] == 'R' && "RUB"@[1] == 'U');
    assert("HRK"@[0] == 'H' && "HRK"@[1] == 'R');
    assert("JPY"@[0] == 'J' && "JPY"@[1] == 'P');
    assert("THB"@[0] == 'T' && "THB"@[1] == 'H');
    assert("CHF"@[0] == 'C' && "CHF"@[1] == 'H');
    assert("EUR"@[0] == 'E' && "EUR"@[1] == 'U');
    assert("MYR"@[0] == 'M' && "MYR"@[1] == 'Y');
    assert("BGN"@[0] == 'B' && "BGN"@[1] == 'G');
    assert("TRY"@[0] == 'T' && "TRY"@[1] == 'R');
    assert("CNY"@[0] == 'C' && "CNY"@[1] == 'N');
    assert("NOK"@[0] == 'N' && "NOK"@[1] == 'O');
    assert("NZD"@[0] == 'N' && "NZD"@[1] == 'Z');
    assert("ZAR"@[0] == 'Z' && "ZAR"@[1] == 'A');
    assert("USD"@[0] == 'U' && "USD"@[1] == 'S');
    assert("SGD"@[0] == 'S' && "SGD"@[1] == 'G');
    assert("AUD"@[0] == 'A' && "AUD"@[1] == 'U');
    assert("ILS"@[0] == 'I' && "ILS"@[1] == 'L');
    assert("KRW"@[0] == 'K' && "KRW"@[1] == 'R');
    assert("PLN"@[0] == 'P' && "PLN"@[1] == 'L');
    match t {
        Symbol::Cad => assert(symbol_for_code(s) == t),
        Symbol::Hkd => assert(symbol_for_code(s) == t),
        Symbol::Isk => assert(symbol_for_code(s) == t),
        Symbol::Php => assert(symbol_for_code(s) == t),
        Symbol::Dkk => assert(symbol_for_code(s) == t),
        Symbol::Huf => assert(symbol_for_code(s) == t),
        Symbol::Czk => assert(symbol_for_code(s) == t),
        Symbol::Gbp => assert(symbol_for_code(s) == t),
        Symbol::Ron => assert(symbol_for_code(s) == t),
        Symbol::Sek => assert(symbol_for_code(s) == t),
        Symbol::Idr => assert(symbol_for_code(s) == t),
        Symbol::Brl => assert(symbol_for_code(s) == t),
        Symbol::Rub => assert(symbol_for_code(s) == t),
        Symbol::Hrk => assert(symbol_for_code(s) == t),
        Symbol::Jpy => assert(symbol_for_code(s) == t),
        Symbol::Thb => assert(symbol_for_code(s) == t),
        Symbol::Chf => assert(symbol_for_code(s) == t),
        Symbol::Eur => assert(symbol_for_code(s) == t),
        Symbol::Myr => assert(symbol_for_code(s) == t),
        Symbol::Bgn => assert(symbol_for_code(s) == t),
        Symbol::Try => assert(symbol_for_code(s) == t),
        Symbol::Cny => assert(symbol_for_code(s) == t),
        Symbol::Nok => assert(symbol_for_code(s) == t),
        Symbol::Nzd => assert(symbol_for_code(s) == t),
        Symbol::Zar => assert(symbol_for_code(s) == t),
        Symbol::Usd => assert(symbol_for_code(s) == t),
        Symbol::Sgd => assert(symbol_for_code(s) == t),
        Symbol::Aud => assert(symbol_for_code(s) == t),
        Symbol::Ils => assert(symbol_for_code(s) == t),
        Symbol::Krw => assert(symbol_for_code(s) == t),
        Symbol::Pln => assert(symbol_for_code(s) == t),
    }
}

/// An input whose upper-cased form is no canonical code falls back to
/// `Symbol::Eur`.
pub proof fn lemma_symbol_for_code_fallback(s: Seq<char>)
    requires
        forall|t: Symbol| #[trigger] code_of(t) != upper_seq(s),
    ensures
        symbol_for_code(s) == Symbol::Eur,
{
}

/// The registry round-trips: parsing the canonical code of any symbol gives
/// that symbol back. Together with totality of `code_of` this makes the
/// registry a bijection between symbols and well-formed codes.
pub proof fn lemma_symbol_code_round_trip(t: Symbol)
    ensures
        symbol_for_code(code_of(t)) == t,
{
    lemma_code_is_upper(t);
    lemma_symbol_for_code_exact(code_of(t), t);
}

/// The match is case-insensitive: two inputs with the same upper-cased form
/// are matched to the same symbol.
pub proof fn lemma_match_case_insensitive(a: Seq<char>, b: Seq<char>)
    requires
        upper_seq(a) == upper_seq(b),
    ensures
        symbol_for_code(a) == symbol_for_code(b),
{
}

/// The fixed, human-readable listing of all supported codes with their
/// expanded English names, as preformatted text.
pub open spec fn symbol_listing() -> Seq<char> {
    r#"
```
CAD  Canadian Dollar
HKD  Hong Kong Dollar
ISK  Icelandic Krona
PHP  Philippine Peso
DKK  Danish Krone
HUF  Hungarian Forint
CZK  Czec Kouruna
GBP  Great British Pound
RON  Romanian New Leu
SEK  Swedish Krona
IDR  Indonesian Rupiah
BRL  Brazillian Real
RUB  Russian Ruble
HRK  Croatian Kuna
JPY  Japanese Yen
THB  Thai Baht
CHF  Swiss Franc
EUR  Euro
MYR  Malaysian Ringgit
BGN  Bulgaria Lev
TRY  Turkish Lira
CNY  Chinese Yuan
NOK  Norwesian Krone
NZD  New Zealand Dollar
ZAR  South African Rand
USD  US Dollar
SGD  Singapore Dollar
AUD  Australian Dollar
ILS  Israeli Shekel
KRW  South Korean Won
PLN  Polish Zloty
```"#@
}

/// The human-readable enumeration of all supported codes, for display.
pub fn list_symbols() -> (listing: &'static str)
    ensures
        listing@ == symbol_listing(),
{
    r#"
```
CAD  Canadian Dollar
HKD  Hong Kong Dollar
ISK  Icelandic Krona
PHP  Philippine Peso
DKK  Danish Krone
HUF  Hungarian Forint
CZK  Czec Kouruna
GBP  Great British Pound
RON  Romanian New Leu
SEK  Swedish Krona
IDR  Indonesian Rupiah
BRL  Brazillian Real
RUB  Russian Ruble
HRK  Croatian Kuna
JPY  Japanese Yen
THB  Thai Baht
CHF  Swiss Franc
EUR  Euro
MYR  Malaysian Ringgit
BGN  Bulgaria Lev
TRY  Turkish Lira
CNY  Chinese Yuan
NOK  Norwesian Krone
NZD  New Zealand Dollar
ZAR  South African Rand
USD  US Dollar
SGD  Singapore Dollar
AUD  Australian Dollar
ILS  Israeli Shekel
KRW  South Korean Won
PLN  Polish Zloty
```"#
}

impl Default for Symbol {
    /// The registry's default symbol.
    fn default() -> (result: Self)
        ensures
            result == Symbol::Usd,
    {
        Symbol::Usd
    }
}

} // verus!
