use std::str::FromStr;
use tdd_money::money::{Bank, Currency, Dollar, Expression, Franc, Money, Sum};

#[test]
fn money_test_currency() {
    assert_eq!(Currency::Dollar(Dollar), Money::dollar(1).currency());
    assert_eq!(Currency::Franc(Franc), Money::franc(1).currency());
}

#[test]
fn test_currency_from_str() {
    assert_eq!(Currency::Dollar(Dollar), Currency::from_str("USD").unwrap());
    assert_eq!(Currency::Franc(Franc), Currency::from_str("CHF").unwrap());
    assert_eq!(Result::<Currency, ()>::Err(()), Currency::from_str(""))
}

#[test]
fn money_test_equality() {
    assert_ne!(Money::dollar(5), Money::dollar(6));
    assert_eq!(Money::dollar(5), Money::dollar(5));
    assert_ne!(Money::dollar(5), Money::franc(5));
}

#[test]
fn money_test_multiplication() {
    let five: Expression = Money::dollar(5).into();
    assert_eq!(Expression::Money(Money::dollar(10)), five.times(2));
    assert_eq!(Expression::Money(Money::dollar(15)), five.times(3));
}

#[test]
fn money_test_simple_addition() {
    let five: Expression = Money::dollar(5).into();
    let sum = &five + &five;
    let bank = Bank::new();
    let reduced = bank.reduce(sum, Dollar.into());
    assert_eq!(Money::dollar(10), reduced);
}

#[test]
fn money_test_plus_return_sum() {
    let five: Expression = Money::dollar(5).into();
    let result = &five + &five;
    let sum = match result {
        Expression::Sum(x) => x,
        _ => panic!("Sumが来るはず"),
    };
    assert_eq!(Box::new(five.clone()), sum.augend);
    assert_eq!(Box::new(five.clone()), sum.addend);
}

#[test]
fn money_test_plus_reduce_sum() {
    let sum = Sum::new(Money::dollar(3).into(), Money::dollar(4).into()).into();
    let bank = Bank::new();
    let reduced = bank.reduce(sum, Dollar.into());
    assert_eq!(Money::dollar(7), reduced);
}

#[test]
fn money_test_plus_reduce_money() {
    let bank = Bank::new();
    let money = Money::dollar(1).into();
    let reduced = bank.reduce(money, Dollar.into());
    assert_eq!(Money::dollar(1), reduced);
}

#[test]
fn money_test_reduce_money_different_currency() {
    let mut bank = Bank::new();
    bank.add_rate(Franc.into(), Dollar.into(), 2);
    let result = bank.reduce(Money::franc(2).into(), Dollar.into());
    assert_eq!(Money::dollar(1), result);
}

#[test]
fn money_test_identity_rate() {
    assert_eq!(1, Bank::new().rate(Dollar.into(), Dollar.into()));
}

#[test]
fn money_test_mixed_addition() {
    let five_bucks: Expression = Money::dollar(5).into();
    let ten_francs: Expression = Money::franc(10).into();
    let mut bank = Bank::new();
    bank.add_rate(Franc.into(), Dollar.into(), 2);
    let result = bank.reduce(&five_bucks + &ten_francs, Dollar.into());
    assert_eq!(Money::dollar(10), result);
}

#[test]
fn test_sum_times() {
    let five_bucks: Expression = Money::dollar(5).into();
    let ten_francs: Expression = Money::franc(10).into();
    let mut bank = Bank::new();
    bank.add_rate(Franc.into(), Dollar.into(), 2);
    let sum: Expression = (&Sum::new(five_bucks, ten_francs) * 2).into();
    let result = bank.reduce(sum, Dollar.into());
    assert_eq!(Money::dollar(20), result);
}

#[test]
fn money_operator_sum_reduces_to_ten_dollars() {
    let bank = Bank::new();
    let result = bank.reduce(Money::dollar(5) + Money::dollar(5), Currency::Dollar(Dollar));
    assert_eq!(Money::dollar(10), result);
}

#[test]
fn money_operator_mixed_sum_with_rate() {
    let mut bank = Bank::new();
    bank.add_rate(Currency::Franc(Franc), Currency::Dollar(Dollar), 2);
    let result = bank.reduce(Money::dollar(5) + Money::franc(10), Currency::Dollar(Dollar));
    assert_eq!(Money::dollar(10), result);
}

#[test]
fn money_mixed_sum_times_two() {
    let mut bank = Bank::new();
    bank.add_rate(Currency::Franc(Franc), Currency::Dollar(Dollar), 2);
    let sum = Money::dollar(5) + Money::franc(10);
    let result = bank.reduce(sum.times(2), Currency::Dollar(Dollar));
    assert_eq!(Money::dollar(20), result);
}

#[test]
fn money_mul_operator_scales_amount() {
    assert_eq!(Expression::Money(Money::franc(-12)), Money::franc(4) * -3);
    assert_eq!(Expression::Money(Money::dollar(0)), Money::dollar(7) * 0);
}

#[test]
fn money_times_distributes_over_sum() {
    let sum = Money::dollar(3) + Money::franc(4);
    let scaled = sum.times(5);
    let expected = Money::dollar(15) + Money::franc(20);
    assert_eq!(expected, scaled);
}

#[test]
fn money_times_reduces_like_reduce_times() {
    let mut bank = Bank::new();
    bank.add_rate(Currency::Franc(Franc), Currency::Dollar(Dollar), 2);
    let sum = Money::dollar(3) + Money::franc(4);
    let usd = Currency::Dollar(Dollar);
    let plain = bank.reduce(sum.clone(), usd).amount;
    let scaled = bank.reduce(sum.times(7), usd).amount;
    assert_eq!(plain * 7, scaled);
    assert_eq!(35, scaled);
}

#[test]
fn money_sum_reduces_to_sum_of_parts() {
    let bank = Bank::new();
    let usd = Currency::Dollar(Dollar);
    let a = Money::dollar(11) + Money::franc(-4);
    let b: Expression = Money::dollar(30).into();
    let whole = bank.reduce(&a + &b, usd).amount;
    let parts = bank.reduce(a.clone(), usd).amount + bank.reduce(b.clone(), usd).amount;
    assert_eq!(parts, whole);
    assert_eq!(37, whole);
}

#[test]
fn money_reduce_truncates_toward_zero() {
    let mut bank = Bank::new();
    bank.add_rate(Currency::Franc(Franc), Currency::Dollar(Dollar), 2);
    assert_eq!(Money::dollar(-3), bank.reduce(Money::franc(-7).into(), Currency::Dollar(Dollar)));
    assert_eq!(Money::dollar(3), bank.reduce(Money::franc(7).into(), Currency::Dollar(Dollar)));
    bank.add_rate(Currency::Franc(Franc), Currency::Dollar(Dollar), -2);
    assert_eq!(Money::dollar(-3), bank.reduce(Money::franc(7).into(), Currency::Dollar(Dollar)));
    assert_eq!(Money::dollar(3), bank.reduce(Money::franc(-7).into(), Currency::Dollar(Dollar)));
}

#[test]
fn money_rates_are_directional_and_overwritten() {
    let mut bank = Bank::new();
    let usd = Currency::Dollar(Dollar);
    let chf = Currency::Franc(Franc);
    bank.add_rate(chf, usd, 2);
    assert_eq!(2, bank.rate(chf, usd));
    assert_eq!(1, bank.rate(usd, chf));
    bank.add_rate(chf, usd, 3);
    assert_eq!(3, bank.rate(chf, usd));
    assert_eq!(1, bank.rate(chf, chf));
}

#[test]
fn money_unregistered_pair_converts_at_one() {
    let bank = Bank::new();
    let result = bank.reduce(Money::franc(9).into(), Currency::Dollar(Dollar));
    assert_eq!(Money::dollar(9), result);
}

#[test]
fn money_reduce_at_extreme_amounts() {
    let bank = Bank::new();
    let usd = Currency::Dollar(Dollar);
    assert_eq!(Money::dollar(i32::MAX), bank.reduce(Money::dollar(i32::MAX).into(), usd));
    assert_eq!(Money::dollar(i32::MIN), bank.reduce(Money::dollar(i32::MIN).into(), usd));
}
