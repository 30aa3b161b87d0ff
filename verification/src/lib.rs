//! A small currency-conversion library: a closed registry of supported
//! currency symbols and an immutable snapshot of exchange rates relative to
//! a base currency, with exact conversion arithmetic over rational numbers.
//!
//! Fetching a snapshot from a rate feed is a single HTTP round trip that an
//! unverified caller performs; the caller hands the decoded table to
//! [`Currency::new`], and everything from there on — validation, lookups and
//! the two conversion formulas — is verified.

pub mod currency;
pub mod rational;
pub mod symbols;

pub use currency::Currency;
pub use currency::CurrencyError;
pub use rational::Rational;
pub use symbols::Symbol;
pub use symbols::get_symbol;
pub use symbols::list_symbols;
pub use symbols::match_symbol;
