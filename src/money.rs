//! Money and deferred expressions built with the `+` and `*` operators, and the
//! bank that reduces them to one amount in a target currency.

pub use crate::currency::{Currency, Dollar, Franc};
use crate::rates::{
    convert, convertible, fits_i32, lemma_quotient_of_multiple, quotient, rate_in, RateTable,
};
use vstd::prelude::*;

verus! {

/// An amount tagged with its currency.
#[derive(Clone, Copy, Debug, PartialEq, Eq)]
pub struct Money {
    pub amount: i32,
    pub currency: Currency,
}

/// A tree of deferred monetary arithmetic.
#[derive(Debug, PartialEq, Eq)]
pub enum Expression {
    Sum(Sum),
    Money(Money),
}

/// A binary addition node; each side owns its sub-expression.
#[derive(Debug, PartialEq, Eq)]
pub struct Sum {
    pub augend: Box<Expression>,
    pub addend: Box<Expression>,
}

/// The expression that adds `b` to `a`, without looking inside either.
pub open spec fn sum_of(a: Expression, b: Expression) -> Expression {
    Expression::Sum(Sum { augend: Box::new(a), addend: Box::new(b) })
}

impl Money {
    /// This amount converted to `to` by the rates of `rates`.
    pub open spec fn amount_in(self, rates: Map<(Currency, Currency), i32>, to: Currency) -> int {
        quotient(self.amount as int, rate_in(rates, self.currency, to) as int)
    }

    /// This money with its amount multiplied by `k`.
    pub open spec fn scaled(self, k: i32) -> Money {
        Money { amount: (self.amount * k) as i32, currency: self.currency }
    }
}

impl Expression {
    /// The amount that the expression is worth in `to` under `rates`.
    pub open spec fn amount_in(self, rates: Map<(Currency, Currency), i32>, to: Currency) -> int
        decreases self,
    {
        match self {
            Expression::Money(m) => m.amount_in(rates, to),
            Expression::Sum(s) => s.augend.amount_in(rates, to) + s.addend.amount_in(rates, to),
        }
    }

    /// Whether reducing the expression to `to` under `rates` stays within
    /// `i32` and never divides by zero.
    pub open spec fn reducible(self, rates: Map<(Currency, Currency), i32>, to: Currency) -> bool
        decreases self,
    {
        match self {
            Expression::Money(m) => convertible(m.amount, rate_in(rates, m.currency, to)),
            Expression::Sum(s) => {
                &&& s.augend.reducible(rates, to)
                &&& s.addend.reducible(rates, to)
                &&& fits_i32(self.amount_in(rates, to))
            },
        }
    }

    /// The expression with every leaf amount multiplied by `k`.
    pub open spec fn scaled(self, k: i32) -> Expression
        decreases self,
    {
        match self {
            Expression::Money(m) => Expression::Money(m.scaled(k)),
            Expression::Sum(s) => sum_of(s.augend.scaled(k), s.addend.scaled(k)),
        }
    }

    /// Whether every leaf amount times `k` fits in `i32`.
    pub open spec fn scalable(self, k: i32) -> bool
        decreases self,
    {
        match self {
            Expression::Money(m) => fits_i32(m.amount * k),
            Expression::Sum(s) => s.augend.scalable(k) && s.addend.scalable(k),
        }
    }

    /// Whether every leaf converts to `to` without remainder.
    pub open spec fn exact_in(self, rates: Map<(Currency, Currency), i32>, to: Currency) -> bool
        decreases self,
    {
        match self {
            Expression::Money(m) => {
                let r = rate_in(rates, m.currency, to) as int;
                r != 0 && (m.amount as int) % r == 0
            },
            Expression::Sum(s) => s.augend.exact_in(rates, to) && s.addend.exact_in(rates, to),
        }
    }
}

/// A directed exchange-rate table that reduces expressions.
pub struct Bank {
    rates: RateTable,
}

impl View for Bank {
    type V = Map<(Currency, Currency), i32>;

    closed spec fn view(&self) -> Map<(Currency, Currency), i32> {
        self.rates@
    }
}

/// Reducing a sum gives the sum of what its two sides reduce to, in the same
/// target currency.
pub proof fn lemma_reduce_of_sum(a: Expression, b: Expression, bank: Bank, to: Currency)
    ensures
        sum_of(a, b).amount_in(bank@, to) == a.amount_in(bank@, to) + b.amount_in(bank@, to),
{
}

/// Scaling a sum scales each side: `(a + b) * k` is `a * k + b * k`.
pub proof fn lemma_times_of_sum(a: Expression, b: Expression, k: i32)
    ensures
        sum_of(a, b).scaled(k) == sum_of(a.scaled(k), b.scaled(k)),
        sum_of(a, b).scalable(k) == (a.scalable(k) && b.scalable(k)),
{
}

/// Scaling distributes over reduction: where every leaf converts to `to`
/// without remainder, the scaled expression reduces to `k` times what the
/// expression reduces to.
pub proof fn lemma_times_distributes(e: Expression, k: i32, bank: Bank, to: Currency)
    requires
        e.scalable(k),
        e.exact_in(bank@, to),
    ensures
        e.scaled(k).amount_in(bank@, to) == e.amount_in(bank@, to) * k,
    decreases e,
{
    match e {
        Expression::Money(m) => {
            let r = rate_in(bank@, m.currency, to) as int;
            let a = m.amount as int;
            let q = a / r;
            vstd::arithmetic::div_mod::lemma_fundamental_div_mod(a, r);
            assert(a == q * r) by (nonlinear_arith)
                requires
                    a == r * q + a % r,
                    a % r == 0,
            ;
            lemma_quotient_of_multiple(q, r);
            lemma_quotient_of_multiple(q * k, r);
            assert(a * k == (q * k) * r) by (nonlinear_arith)
                requires
                    a == q * r,
            ;
        },
        Expression::Sum(s) => {
            lemma_times_distributes(*s.augend, k, bank, to);
            lemma_times_distributes(*s.addend, k, bank, to);
            let x = s.augend.amount_in(bank@, to);
            let y = s.addend.amount_in(bank@, to);
            assert((x + y) * k == x * k + y * k) by (nonlinear_arith);
        },
    }
}

impl Clone for Expression {
    fn clone(&self) -> (r: Expression)
        ensures
            r == *self,
        decreases self,
    {
        match self {
            Expression::Money(m) => Expression::Money(*m),
            Expression::Sum(s) => {
                let augend = (&*s.augend).clone();
                let addend = (&*s.addend).clone();
                Expression::Sum(Sum { augend: Box::new(augend), addend: Box::new(addend) })
            },
        }
    }
}

impl Clone for Sum {
    fn clone(&self) -> (r: Sum)
        ensures
            r == *self,
    {
        Sum { augend: Box::new((&*self.augend).clone()), addend: Box::new((&*self.addend).clone()) }
    }
}

impl Money {
    /// Money of `amount` in `currency`.
    pub fn new(amount: i32, currency: Currency) -> (r: Money)
        ensures
            r.amount == amount,
            r.currency == currency,
    {
        Money { amount, currency }
    }

    /// Money of `amount` dollars.
    pub fn dollar(amount: i32) -> (r: Money)
        ensures
            r.amount == amount,
            r.currency == Currency::Dollar(Dollar),
    {
        Money { amount, currency: Currency::from(Dollar) }
    }

    /// Money of `amount` francs.
    pub fn franc(amount: i32) -> (r: Money)
        ensures
            r.amount == amount,
            r.currency == Currency::Franc(Franc),
    {
        Money { amount, currency: Currency::from(Franc) }
    }

    /// Converts this money to `to`, dividing by the bank's rate and
    /// truncating toward zero.
    pub fn reduce(&self, bank: &Bank, to: Currency) -> (r: Money)
        requires
            convertible(self.amount, rate_in(bank@, self.currency, to)),
        ensures
            r.amount == self.amount_in(bank@, to),
            r.currency == to,
    {
        let rate = bank.rate(self.currency, to);
        Money::new(convert(self.amount, rate), to)
    }

    /// The currency of this money.
    pub fn currency(&self) -> (r: Currency)
        ensures
            r == self.currency,
    {
        self.currency
    }
}

impl Expression {
    /// Evaluates the expression to one amount in `to`.
    pub fn reduce(&self, bank: &Bank, to: Currency) -> (r: Money)
        requires
            self.reducible(bank@, to),
        ensures
            r.amount == self.amount_in(bank@, to),
            r.currency == to,
        decreases self,
    {
        match self {
            Expression::Sum(sum) => sum.reduce(bank, to),
            Expression::Money(money) => money.reduce(bank, to),
        }
    }

    /// Multiplies every leaf of the expression by `multiplier`.
    pub fn times(&self, multiplier: i32) -> (r: Expression)
        requires
            self.scalable(multiplier),
        ensures
            r == self.scaled(multiplier),
        decreases self,
    {
        match self {
            Expression::Sum(sum) => sum.times(multiplier),
            Expression::Money(money) => *money * multiplier,
        }
    }
}

impl Sum {
    /// The sum of `augend` and `addend`.
    pub fn new(augend: Expression, addend: Expression) -> (r: Sum)
        ensures
            r.augend == augend,
            r.addend == addend,
    {
        Sum { augend: Box::new(augend), addend: Box::new(addend) }
    }

    /// Reduces both sides to `to` and adds the amounts.
    pub fn reduce(&self, bank: &Bank, to: Currency) -> (r: Money)
        requires
            Expression::Sum(*self).reducible(bank@, to),
        ensures
            r.amount == Expression::Sum(*self).amount_in(bank@, to),
            r.currency == to,
        decreases self,
    {
        let a = self.augend.reduce(bank, to);
        let b = self.addend.reduce(bank, to);
        Money::new(a.amount + b.amount, to)
    }

    /// The sum with both sides multiplied by `multiplier`.
    pub fn times(&self, multiplier: i32) -> (r: Expression)
        requires
            Expression::Sum(*self).scalable(multiplier),
        ensures
            r == Expression::Sum(*self).scaled(multiplier),
        decreases self,
    {
        let augend = self.augend.times(multiplier);
        let addend = self.addend.times(multiplier);
        Expression::Sum(Sum::new(augend, addend))
    }
}

impl Bank {
    /// A bank with no registered rates.
    pub fn new() -> (r: Bank)
        ensures
            r@ == Map::<(Currency, Currency), i32>::empty(),
    {
        Bank { rates: RateTable::new() }
    }

    /// Evaluates `source` to one amount in `to`.
    pub fn reduce(&self, source: Expression, to: Currency) -> (r: Money)
        requires
            source.reducible(self@, to),
        ensures
            r.amount == source.amount_in(self@, to),
            r.currency == to,
    {
        source.reduce(self, to)
    }

    /// Registers or overwrites the rate from `from` to `to`; the reverse
    /// direction is left as it was. Any rate is accepted here; reducing with a
    /// rate of zero is ruled out by the `requires` of `reduce`.
    pub fn add_rate(&mut self, from: Currency, to: Currency, rate: i32)
        ensures
            final(self)@ == old(self)@.insert((from, to), rate),
    {
        self.rates.add_rate(from, to, rate);
    }

    /// The registered rate from `from` to `to`, or 1 where none was
    /// registered. The default of 1 also holds between two different
    /// currencies, which then convert one to one.
    pub fn rate(&self, from: Currency, to: Currency) -> (r: i32)
        ensures
            r == rate_in(self@, from, to),
    {
        self.rates.rate(from, to)
    }
}

impl std::ops::Add for &Expression {
    type Output = Expression;

    fn add(self, rhs: &Expression) -> (r: Expression) {
        Expression::Sum(Sum::new(self.clone(), rhs.clone()))
    }
}

impl vstd::std_specs::ops::AddSpecImpl for &Expression {
    open spec fn obeys_add_spec() -> bool {
        true
    }

    open spec fn add_req(self, rhs: &Expression) -> bool {
        true
    }

    open spec fn add_spec(self, rhs: &Expression) -> Expression {
        sum_of(*self, *rhs)
    }
}

impl std::ops::Add for Money {
    type Output = Expression;

    fn add(self, rhs: Money) -> (r: Expression) {
        Expression::Sum(Sum::new(Expression::Money(self), Expression::Money(rhs)))
    }
}

impl vstd::std_specs::ops::AddSpecImpl for Money {
    open spec fn obeys_add_spec() -> bool {
        true
    }

    open spec fn add_req(self, rhs: Money) -> bool {
        true
    }

    open spec fn add_spec(self, rhs: Money) -> Expression {
        sum_of(Expression::Money(self), Expression::Money(rhs))
    }
}

impl std::ops::Mul<i32> for Money {
    type Output = Expression;

    fn mul(self, rhs: i32) -> (r: Expression) {
        Expression::Money(Money::new(self.amount * rhs, self.currency))
    }
}

impl vstd::std_specs::ops::MulSpecImpl<i32> for Money {
    open spec fn obeys_mul_spec() -> bool {
        true
    }

    open spec fn mul_req(self, rhs: i32) -> bool {
        fits_i32(self.amount * rhs)
    }

    open spec fn mul_spec(self, rhs: i32) -> Expression {
        Expression::Money(self.scaled(rhs))
    }
}

impl std::ops::Mul<i32> for &Sum {
    type Output = Expression;

    fn mul(self, rhs: i32) -> (r: Expression) {
        self.times(rhs)
    }
}

impl vstd::std_specs::ops::MulSpecImpl<i32> for &Sum {
    open spec fn obeys_mul_spec() -> bool {
        true
    }

    open spec fn mul_req(self, rhs: i32) -> bool {
        Expression::Sum(*self).scalable(rhs)
    }

    open spec fn mul_spec(self, rhs: i32) -> Expression {
        Expression::Sum(*self).scaled(rhs)
    }
}

impl From<Money> for Expression {
    fn from(money: Money) -> (r: Expression) {
        Expression::Money(money)
    }
}

impl vstd::std_specs::convert::FromSpecImpl<Money> for Expression {
    open spec fn obeys_from_spec() -> bool {
        true
    }

    open spec fn from_spec(v: Money) -> Expression {
        Expression::Money(v)
    }
}

impl From<Sum> for Expression {
    fn from(sum: Sum) -> (r: Expression) {
        Expression::Sum(sum)
    }
}

impl vstd::std_specs::convert::FromSpecImpl<Sum> for Expression {
    open spec fn obeys_from_spec() -> bool {
        true
    }

    open spec fn from_spec(v: Sum) -> Expression {
        Expression::Sum(v)
    }
}

} // verus!
