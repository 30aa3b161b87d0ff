//! The currency snapshot: one base currency's rate table, held immutably
//! after construction, with the two conversion operations over it.

use vstd::prelude::*;
use vstd::arithmetic::mul::lemma_mul_upper_bound;

use crate::rational::{Ratio, Rational, ratio_div, ratio_eq, ratio_mul, ratio_one, ratio_pos,
    ratio_wf};
use crate::symbols::{Symbol, code_of, get_symbol, match_symbol, symbol_for_code};

verus! {

/// Why constructing or querying a snapshot failed.
#[derive(Clone, Copy, Debug, PartialEq, Eq, Structural)]
pub enum CurrencyError {
    /// The feed request did not complete.
    Fetch,
    /// The rate table handed to the constructor is not well formed.
    Decode,
    /// A conversion referenced a currency absent from the rate table.
    RateNotFound,
    /// The exact result of a conversion does not fit the rational
    /// representation.
    Overflow,
}

/// One entry of a rate table is acceptable when its rate is a positive,
/// well-formed rational.
pub open spec fn entry_positive(entry: (Symbol, Rational)) -> bool {
    entry.1.wf() && entry.1@.num > 0
}

/// A rate table is acceptable when every rate is positive and no symbol
/// occurs twice.
pub open spec fn table_ok(entries: Seq<(Symbol, Rational)>) -> bool {
    &&& forall|i: int| 0 <= i < entries.len() ==> entry_positive(#[trigger] entries[i])
    &&& forall|i: int, j: int|
        0 <= i < j < entries.len() ==> (#[trigger] entries[i]).0 != (#[trigger] entries[j]).0
}

/// Whether the exact product of a rate and an amount is representable: both
/// the numerator and the denominator of the product fit a `u64`.
pub open spec fn mul_fits(rate: Ratio, amount: Ratio) -> bool {
    rate.num * amount.num <= u64::MAX && rate.den * amount.den <= u64::MAX
}

/// Whether the exact value of `(base_rate / rate) * amount` is
/// representable: both sides of the resulting fraction fit a `u64`.
pub open spec fn div_mul_fits(base_rate: Ratio, rate: Ratio, amount: Ratio) -> bool {
    base_rate.num * rate.den * amount.num <= u64::MAX && base_rate.den * rate.num * amount.den
        <= u64::MAX
}

/// Main type for storing one fetched rate table: the base currency, the
/// rates of every listed currency relative to it, and the as-of date the
/// feed reported. Immutable once constructed.
#[derive(Debug)]
pub struct Currency {
    rates: Vec<(Symbol, Rational)>,
    pub base: String,
    date: String,
    base_symbol: Symbol,
}

impl Currency {
    /// The entries of the rate table, in construction order.
    pub closed spec fn entries(self) -> Seq<(Symbol, Rational)> {
        self.rates@
    }

    /// The symbol of the base currency.
    pub closed spec fn base_sym(self) -> Symbol {
        self.base_symbol
    }

    /// The as-of date string the feed reported.
    pub closed spec fn date_chars(self) -> Seq<char> {
        self.date@
    }

    /// The characters of the textual base code.
    pub closed spec fn base_chars(self) -> Seq<char> {
        self.base@
    }

    /// A snapshot is well formed when its table is acceptable and its
    /// textual base code is the canonical code of its base symbol.
    pub open spec fn wf(self) -> bool {
        &&& table_ok(self.entries())
        &&& self.base_chars() == code_of(self.base_sym())
    }

    /// Whether the rate table has an entry for the given currency.
    pub open spec fn has_rate(self, currency: Symbol) -> bool {
        exists|i: int|
            0 <= i < self.entries().len() && (#[trigger] self.entries()[i]).0 == currency
    }

    /// The index of the entry for the given currency.
    pub open spec fn rate_index(self, currency: Symbol) -> int {
        choose|i: int|
            0 <= i < self.entries().len() && (#[trigger] self.entries()[i]).0 == currency
    }

    /// The stored rate of the given currency: one unit of the base equals
    /// `spec_rate(currency)` units of that currency.
    pub open spec fn spec_rate(self, currency: Symbol) -> Ratio {
        self.entries()[self.rate_index(currency)].1@
    }

    /// The value `convert_into` computes: the stored rate of the target
    /// times the amount.
    pub open spec fn convert_into_value(self, currency: Symbol, amount: Ratio) -> Ratio {
        ratio_mul(self.spec_rate(currency), amount)
    }

    /// The value `convert_from` computes: the stored rate of the base over
    /// the stored rate of the source, times the amount.
    pub open spec fn convert_from_value(self, currency: Symbol, amount: Ratio) -> Ratio {
        ratio_mul(ratio_div(self.spec_rate(self.base_sym()), self.spec_rate(currency)), amount)
    }

    /// In a well-formed snapshot, the entry at `k` for `currency` is the
    /// entry of that currency: the table has no second one.
    proof fn lemma_rate_at(self, currency: Symbol, k: int)
        requires
            self.wf(),
            0 <= k < self.entries().len(),
            self.entries()[k].0 == currency,
        ensures
            self.has_rate(currency),
            self.rate_index(currency) == k,
            self.spec_rate(currency) == self.entries()[k].1@,
    {
        assert(self.has_rate(currency));
        let i = self.rate_index(currency);
        assert(0 <= i < self.entries().len() && self.entries()[i].0 == currency);
        if i < k {
            assert(self.entries()[i].0 != self.entries()[k].0);
        } else if k < i {
            assert(self.entries()[k].0 != self.entries()[i].0);
        }
    }

    /// Create a new `Currency` snapshot from an already-fetched rate table:
    /// the base currency, one entry per listed currency, and the feed's
    /// as-of date. The table is accepted exactly when every rate is
    /// positive and no symbol occurs twice; otherwise the table cannot be
    /// the decoded shape of a rate feed and is rejected.
    pub fn new(base_currency: Symbol, rates: Vec<(Symbol, Rational)>, date: String) -> (result:
        Result<Currency, CurrencyError>)
        ensures
            match result {
                Ok(snapshot) => {
                    &&& table_ok(rates@)
                    &&& snapshot.wf()
                    &&& snapshot.entries() == rates@
                    &&& snapshot.base_sym() == base_currency
                    &&& snapshot.base_chars() == code_of(base_currency)
                    &&& snapshot.date_chars() == date@
                },
                Err(e) => e == CurrencyError::Decode && !table_ok(rates@),
            },
    {
        let n = rates.len();
        let mut i: usize = 0;
        while i < n
            invariant
                i <= n,
                n == rates@.len(),
                forall|p: int| 0 <= p < i ==> entry_positive(#[trigger] rates@[p]),
                forall|p: int, q: int|
                    0 <= p < q < rates@.len() && p < i ==> (#[trigger] rates@[p]).0 != (
                    #[trigger] rates@[q]).0,
            decreases n - i,
        {
            let entry = rates[i];
            if entry.1.den == 0 || entry.1.num == 0 {
                return Err(CurrencyError::Decode);
            }
            let mut j: usize = i + 1;
            while j < n
                invariant
                    i < j <= n,
                    n == rates@.len(),
                    forall|q: int| i < q < j ==> (#[trigger] rates@[q]).0 != rates@[i as int].0,
                    entry == rates@[i as int],
                decreases n - j,
            {
                if rates[j].0 == entry.0 {
                    return Err(CurrencyError::Decode);
                }
                j += 1;
            }
            i += 1;
        }
        let code = get_symbol(base_currency);
        Ok(Currency {
            rates,
            base: code.to_owned(),
            date,
            base_symbol: base_currency,
        })
    }

    /// As `new`, with the base given as text: the code is parsed by the
    /// registry first, with its case-insensitive match and its fallback for
    /// unrecognized input.
    pub fn new_from_str(base_currency: &str, rates: Vec<(Symbol, Rational)>, date: String) -> (
        result: Result<Currency, CurrencyError>)
        ensures
            match result {
                Ok(snapshot) => {
                    &&& table_ok(rates@)
                    &&& snapshot.wf()
                    &&& snapshot.entries() == rates@
                    &&& snapshot.base_sym() == symbol_for_code(base_currency@)
                    &&& snapshot.base_chars() == code_of(symbol_for_code(base_currency@))
                    &&& snapshot.date_chars() == date@
                },
                Err(e) => e == CurrencyError::Decode && !table_ok(rates@),
            },
    {
        Currency::new(match_symbol(base_currency), rates, date)
    }

    /// The stored rate of the given currency, or `None` where the table has
    /// no entry for it.
    fn find_rate(&self, currency: Symbol) -> (found: Option<Rational>)
        requires
            self.wf(),
        ensures
            match found {
                Some(rate) => {
                    &&& self.has_rate(currency)
                    &&& rate.wf()
                    &&& rate@.num > 0
                    &&& rate@ == self.spec_rate(currency)
                },
                None => !self.has_rate(currency),
            },
    {
        let n = self.rates.len();
        let mut i: usize = 0;
        while i < n
            invariant
                i <= n,
                n == self.entries().len(),
                self.wf(),
                forall|p: int| 0 <= p < i ==> (#[trigger] self.entries()[p]).0 != currency,
            decreases n - i,
        {
            if self.rates[i].0 == currency {
                proof {
                    self.lemma_rate_at(currency, i as int);
                    self.lemma_rate_pos(currency);
                }
                return Some(self.rates[i].1);
            }
            i += 1;
        }
        None
    }

    /// What `convert_into` returns: exactly the product of the stored rate
    /// and the amount where the target is listed and the product is
    /// representable, and the matching error otherwise.
    pub open spec fn convert_into_post(self, currency: Symbol, amount: Rational, result: Result<
        Rational,
        CurrencyError,
    >) -> bool {
        match result {
            Ok(value) => {
                &&& self.has_rate(currency)
                &&& mul_fits(self.spec_rate(currency), amount@)
                &&& value.wf()
                &&& value@ == self.convert_into_value(currency, amount@)
            },
            Err(e) => {
                &&& (e == CurrencyError::RateNotFound || e == CurrencyError::Overflow)
                &&& (e == CurrencyError::RateNotFound <==> !self.has_rate(currency))
                &&& (e == CurrencyError::Overflow <==> self.has_rate(currency) && !mul_fits(
                    self.spec_rate(currency),
                    amount@,
                ))
            },
        }
    }

    /// Convert the amount of base currency into your preferred currency:
    /// `rate(currency) * amount`. Fails with `RateNotFound` where the table
    /// has no entry for the target, and with `Overflow` where the exact
    /// result does not fit the rational representation.
    pub fn convert_into(&self, currency: Symbol, amount: Rational) -> (result: Result<
        Rational,
        CurrencyError,
    >)
        requires
            self.wf(),
            amount.wf(),
        ensures
            self.convert_into_post(currency, amount, result),
    {
        let rate = match self.find_rate(currency) {
            Some(rate) => rate,
            None => {
                return Err(CurrencyError::RateNotFound);
            },
        };
        proof {
            lemma_mul_upper_bound(
                rate.num as int,
                u64::MAX as int,
                amount.num as int,
                u64::MAX as int,
            );
            lemma_mul_upper_bound(
                rate.den as int,
                u64::MAX as int,
                amount.den as int,
                u64::MAX as int,
            );
        }
        let num_wide = (rate.num as u128) * (amount.num as u128);
        let den_wide = (rate.den as u128) * (amount.den as u128);
        if num_wide > u64::MAX as u128 || den_wide > u64::MAX as u128 {
            return Err(CurrencyError::Overflow);
        }
        proof {
            assert(rate@.den * amount@.den >= 1) by (nonlinear_arith)
                requires
                    rate@.den >= 1,
                    amount@.den >= 1,
            ;
        }
        Ok(Rational::new(num_wide as u64, den_wide as u64))
    }

    /// What `convert_from` returns: exactly
    /// `(rate(base) / rate(currency)) * amount` where base and source are
    /// listed and the value is representable, and the matching error
    /// otherwise.
    pub open spec fn convert_from_post(self, currency: Symbol, amount: Rational, result: Result<
        Rational,
        CurrencyError,
    >) -> bool {
        match result {
            Ok(value) => {
                &&& self.has_rate(self.base_sym())
                &&& self.has_rate(currency)
                &&& div_mul_fits(self.spec_rate(self.base_sym()), self.spec_rate(currency), amount@)
                &&& value.wf()
                &&& value@ == self.convert_from_value(currency, amount@)
            },
            Err(e) => {
                &&& (e == CurrencyError::RateNotFound || e == CurrencyError::Overflow)
                &&& (e == CurrencyError::RateNotFound <==> !(self.has_rate(self.base_sym())
                    && self.has_rate(currency)))
                &&& (e == CurrencyError::Overflow <==> self.has_rate(self.base_sym())
                    && self.has_rate(currency) && !div_mul_fits(
                    self.spec_rate(self.base_sym()),
                    self.spec_rate(currency),
                    amount@,
                ))
            },
        }
    }

    /// Convert the amount of your preferred currency into base currency:
    /// `(rate(base) / rate(currency)) * amount`. The base's own rate is
    /// looked up rather than assumed to be one, so the formula stays right
    /// even for a feed that does not normalize the base rate. Fails with
    /// `RateNotFound` where the base or the source is not in the table, and
    /// with `Overflow` where the exact result does not fit.
    pub fn convert_from(&self, currency: Symbol, amount: Rational) -> (result: Result<
        Rational,
        CurrencyError,
    >)
        requires
            self.wf(),
            amount.wf(),
        ensures
            self.convert_from_post(currency, amount, result),
    {
        let base_rate = match self.find_rate(self.base_symbol) {
            Some(rate) => rate,
            None => {
                return Err(CurrencyError::RateNotFound);
            },
        };
        let currency_rate = match self.find_rate(currency) {
            Some(rate) => rate,
            None => {
                return Err(CurrencyError::RateNotFound);
            },
        };
        proof {
            lemma_mul_upper_bound(
                base_rate.num as int,
                u64::MAX as int,
                currency_rate.den as int,
                u64::MAX as int,
            );
            lemma_mul_upper_bound(
                base_rate.den as int,
                u64::MAX as int,
                currency_rate.num as int,
                u64::MAX as int,
            );
        }
        let num_half = (base_rate.num as u128) * (currency_rate.den as u128);
        let den_half = (base_rate.den as u128) * (currency_rate.num as u128);
        let num_wide = match num_half.checked_mul(amount.num as u128) {
            Some(value) => value,
            None => {
                return Err(CurrencyError::Overflow);
            },
        };
        let den_wide = match den_half.checked_mul(amount.den as u128) {
            Some(value) => value,
            None => {
                return Err(CurrencyError::Overflow);
            },
        };
        if num_wide > u64::MAX as u128 || den_wide > u64::MAX as u128 {
            return Err(CurrencyError::Overflow);
        }
        proof {
            assert(base_rate@.den * currency_rate@.num * amount@.den >= 1) by (nonlinear_arith)
                requires
                    base_rate@.den >= 1,
                    currency_rate@.num >= 1,
                    amount@.den >= 1,
            ;
        }
        Ok(Rational::new(num_wide as u64, den_wide as u64))
    }

    /// As `convert_into`, with the target given as text, parsed by the
    /// registry first (with its fallback for unrecognized input).
    pub fn convert_into_from_str(&self, currency: &str, amount: Rational) -> (result: Result<
        Rational,
        CurrencyError,
    >)
        requires
            self.wf(),
            amount.wf(),
        ensures
            self.convert_into_post(symbol_for_code(currency@), amount, result),
    {
        self.convert_into(match_symbol(currency), amount)
    }

    /// As `convert_from`, with the source given as text, parsed by the
    /// registry first (with its fallback for unrecognized input).
    pub fn convert_from_from_str(&self, currency: &str, amount: Rational) -> (result: Result<
        Rational,
        CurrencyError,
    >)
        requires
            self.wf(),
            amount.wf(),
        ensures
            self.convert_from_post(symbol_for_code(currency@), amount, result),
    {
        self.convert_from(match_symbol(currency), amount)
    }

    /// The canonical codes of all currencies the rate table lists, in table
    /// order.
    pub fn list_currencies(&self) -> (codes: Vec<&'static str>)
        ensures
            codes@.len() == self.entries().len(),
            forall|i: int|
                0 <= i < codes@.len() ==> (#[trigger] codes@[i])@ == code_of(self.entries()[i].0),
    {
        let n = self.rates.len();
        let mut codes: Vec<&'static str> = Vec::new();
        let mut i: usize = 0;
        while i < n
            invariant
                i <= n,
                n == self.entries().len(),
                codes@.len() == i,
                forall|p: int|
                    0 <= p < i ==> (#[trigger] codes@[p])@ == code_of(self.entries()[p].0),
            decreases n - i,
        {
            codes.push(get_symbol(self.rates[i].0));
            i += 1;
        }
        codes
    }

    /// Every rate a well-formed snapshot stores is positive.
    pub proof fn lemma_rate_pos(self, currency: Symbol)
        requires
            self.wf(),
            self.has_rate(currency),
        ensures
            ratio_pos(self.spec_rate(currency)),
    {
        let i = self.rate_index(currency);
        assert(0 <= i < self.entries().len() && self.entries()[i].0 == currency);
        assert(entry_positive(self.entries()[i]));
    }
}

/// Self-conversion is the identity: converting an amount of the base
/// currency into the base currency (`convert_from` with the snapshot's own
/// base as the source) yields the amount itself, whatever the stored base
/// rate is, since that rate is divided by itself.
pub proof fn lemma_convert_from_base_identity(snapshot: Currency, amount: Ratio)
    requires
        snapshot.wf(),
        snapshot.has_rate(snapshot.base_sym()),
        ratio_wf(amount),
    ensures
        ratio_eq(snapshot.convert_from_value(snapshot.base_sym(), amount), amount),
{
    let b = snapshot.spec_rate(snapshot.base_sym());
    assert(b.num * b.den * amount.num * amount.den == amount.num * (b.den * b.num * amount.den))
        by (nonlinear_arith);
}

/// Converting into the snapshot's own base currency is the identity where
/// the stored base rate has value one.
pub proof fn lemma_convert_into_base_identity(snapshot: Currency, amount: Ratio)
    requires
        snapshot.wf(),
        snapshot.has_rate(snapshot.base_sym()),
        ratio_eq(snapshot.spec_rate(snapshot.base_sym()), ratio_one()),
        ratio_wf(amount),
    ensures
        ratio_eq(snapshot.convert_into_value(snapshot.base_sym(), amount), amount),
{
    let b = snapshot.spec_rate(snapshot.base_sym());
    assert(b.num * 1 == 1 * b.den);
    assert(b.num == b.den);
    assert(b.num * amount.num * amount.den == amount.num * (b.den * amount.den))
        by (nonlinear_arith)
        requires
            b.num == b.den,
    ;
}

/// The round trip: for any target the table lists, converting an amount
/// into the target and the result back into the base yields the original
/// amount exactly, where the stored base rate has value one.
pub proof fn lemma_convert_round_trip(snapshot: Currency, target: Symbol, amount: Ratio)
    requires
        snapshot.wf(),
        snapshot.has_rate(target),
        snapshot.has_rate(snapshot.base_sym()),
        ratio_eq(snapshot.spec_rate(snapshot.base_sym()), ratio_one()),
        ratio_wf(amount),
    ensures
        ratio_eq(
            snapshot.convert_from_value(target, snapshot.convert_into_value(target, amount)),
            amount,
        ),
{
    let b = snapshot.spec_rate(snapshot.base_sym());
    let r = snapshot.spec_rate(target);
    assert(b.num * 1 == 1 * b.den);
    assert(b.num == b.den);
    assert((b.num * r.den) * (r.num * amount.num) * amount.den == amount.num * ((b.den * r.num) * (
    r.den * amount.den)))
        by (nonlinear_arith)
        requires
            b.num == b.den,
    ;
}

} // verus!
