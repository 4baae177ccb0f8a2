//! Directed exchange rates between currencies, and the conversion of an
//! amount by a rate.

use crate::currency::Currency;
use std::collections::HashMap;
use vstd::prelude::*;

verus! {

broadcast use vstd::std_specs::hash::group_hash_axioms;

/// Whether `x` is a value of `i32`.
pub open spec fn fits_i32(x: int) -> bool {
    i32::MIN <= x <= i32::MAX
}

/// Division that truncates toward zero, as integer division does in Rust.
pub open spec fn quotient(a: int, d: int) -> int {
    if a >= 0 && d > 0 {
        a / d
    } else if a < 0 && d < 0 {
        (-a) / (-d)
    } else if a < 0 {
        -((-a) / d)
    } else {
        -(a / (-d))
    }
}

/// The rate that a table gives for the ordered pair: the registered one, or 1
/// where none was registered.
pub open spec fn rate_in(m: Map<(Currency, Currency), i32>, from: Currency, to: Currency) -> i32 {
    if m.contains_key((from, to)) {
        m[(from, to)]
    } else {
        1
    }
}

/// Whether converting `amount` by `rate` is defined in `i32`: the rate is not
/// zero and the quotient fits.
pub open spec fn convertible(amount: i32, rate: i32) -> bool {
    rate != 0 && fits_i32(quotient(amount as int, rate as int))
}

/// Converts an amount by dividing it by a rate, truncating toward zero.
pub fn convert(amount: i32, rate: i32) -> (r: i32)
    requires
        convertible(amount, rate),
    ensures
        r == quotient(amount as int, rate as int),
{
    amount.checked_div(rate).unwrap()
}

/// Dividing a multiple of a nonzero rate by that rate is exact.
pub proof fn lemma_quotient_of_multiple(x: int, r: int)
    requires
        r != 0,
    ensures
        quotient(x * r, r) == x,
{
    if r > 0 {
        if x >= 0 {
            vstd::arithmetic::div_mod::lemma_div_multiples_vanish(x, r);
            assert(x * r >= 0) by (nonlinear_arith)
                requires
                    x >= 0,
                    r > 0,
            ;
            assert(r * x == x * r) by (nonlinear_arith);
        } else {
            vstd::arithmetic::div_mod::lemma_div_multiples_vanish(-x, r);
            assert(x * r < 0) by (nonlinear_arith)
                requires
                    x < 0,
                    r > 0,
            ;
            assert(r * (-x) == -(x * r)) by (nonlinear_arith);
        }
    } else {
        if x == 0 {
            assert(x * r == 0);
        } else if x < 0 {
            vstd::arithmetic::div_mod::lemma_div_multiples_vanish(-x, -r);
            assert(x * r > 0) by (nonlinear_arith)
                requires
                    x < 0,
                    r < 0,
            ;
            assert((-r) * (-x) == x * r) by (nonlinear_arith);
        } else {
            vstd::arithmetic::div_mod::lemma_div_multiples_vanish(x, -r);
            assert(x * r < 0) by (nonlinear_arith)
                requires
                    x > 0,
                    r < 0,
            ;
            assert((-r) * x == -(x * r)) by (nonlinear_arith);
        }
    }
}

/// The key under which the rate of an ordered pair is stored.
pub open spec fn key_of(from: Currency, to: Currency) -> u8 {
    (2 * from.index() + to.index()) as u8
}

fn pair_key(from: Currency, to: Currency) -> (r: u8)
    ensures
        r == key_of(from, to),
{
    let f: u8 = match from {
        Currency::Dollar(_) => 0,
        Currency::Franc(_) => 1,
    };
    let t: u8 = match to {
        Currency::Dollar(_) => 0,
        Currency::Franc(_) => 1,
    };
    2 * f + t
}

proof fn lemma_key_injective(a: Currency, b: Currency, c: Currency, d: Currency)
    ensures
        key_of(a, b) == key_of(c, d) ==> a == c && b == d,
{
}

/// A table of directed exchange rates, keyed by (from, to) pairs.
pub struct RateTable {
    rates: HashMap<u8, i32>,
}

impl View for RateTable {
    type V = Map<(Currency, Currency), i32>;

    closed spec fn view(&self) -> Map<(Currency, Currency), i32> {
        Map::new(
            |p: (Currency, Currency)| self.rates@.contains_key(key_of(p.0, p.1)),
            |p: (Currency, Currency)| self.rates@[key_of(p.0, p.1)],
        )
    }
}

impl RateTable {
    /// An empty table.
    pub fn new() -> (r: RateTable)
        ensures
            r@ == Map::<(Currency, Currency), i32>::empty(),
    {
        let r = RateTable { rates: HashMap::new() };
        assert(r@ =~= Map::<(Currency, Currency), i32>::empty());
        r
    }

    /// Registers or overwrites the rate of the ordered pair `(from, to)`.
    pub fn add_rate(&mut self, from: Currency, to: Currency, rate: i32)
        ensures
            final(self)@ == old(self)@.insert((from, to), rate),
    {
        let k = pair_key(from, to);
        self.rates.insert(k, rate);
        assert forall|p: (Currency, Currency)| #![auto]
            key_of(p.0, p.1) == k implies p == (from, to) by {
            lemma_key_injective(p.0, p.1, from, to);
        }
        assert(self@ =~= old(self)@.insert((from, to), rate));
    }

    /// The rate of the ordered pair, or 1 where none was registered.
    pub fn rate(&self, from: Currency, to: Currency) -> (r: i32)
        ensures
            r == rate_in(self@, from, to),
    {
        let k = pair_key(from, to);
        match self.rates.get(&k) {
            None => 1,
            Some(rate) => *rate,
        }
    }
}

} // verus!
