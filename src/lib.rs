//! Multi-currency money: amounts tagged with a currency, combined into deferred
//! arithmetic expressions and reduced to a single amount by a bank that holds
//! exchange rates.
//!
//! `money` offers the operator-based interface (`+`, `*`) and `money_unit` the
//! method-based one (`plus`, `times`); both share the currencies of `currency`.

pub mod currency;
pub mod money;
pub mod money_unit;
pub mod rates;
