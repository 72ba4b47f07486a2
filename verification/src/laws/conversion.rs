//! What holds of currencies and of the table that converts them.

use crate::conversion::{Amount, ConversionTable, Currency, GovShitcoinId, Price};
use crate::laws::number::{exact, round_half_away, whole_numbers_are_round};
use crate::number::{integer, negation, product, quotient, rounding, Expr};
use std::ops::{Mul, Neg};
use vstd::prelude::*;

verus! {

/// Law: negating an amount changes its sign, scaling it multiplies it and rounds
/// to whole units, and both keep its currency. A copy is the same amount.
pub proof fn amounts_keep_their_currency(
    amount: Amount,
    factor: Expr,
    negated: Amount,
    scaled: Amount,
    copy: Amount,
)
    requires
        call_ensures(<Amount as Neg>::neg, (amount,), negated),
        call_ensures(<Amount as Mul<Expr>>::mul, (amount, factor), scaled),
        call_ensures(Amount::clone, (&amount,), copy),
    ensures
        negated.currency == amount.currency,
        negated.value == negation(amount.value),
        exact(negated.value) == -exact(amount.value),
        scaled.currency == amount.currency,
        scaled.value == rounding(product(amount.value, factor)),
        exact(scaled.value) == round_half_away(exact(amount.value) * exact(factor)),
        copy == amount,
{
    reveal_with_fuel(exact, 6);
}

/// Law: a currency is worth its entry in the price list, and the native currency,
/// which has none, is worth one.
pub proof fn rates_come_from_the_price_list(
    table: ConversionTable,
    id: GovShitcoinId,
    rate: Price,
)
    requires
        call_ensures(ConversionTable::shitcoin_rate, (&table, id), rate),
    ensures
        id.0 == 0 ==> rate == integer(1),
        id.0 > 0 ==> rate == table.rates()[id.0 - 1],
{
}

/// Law: an amount of any government currency is worth the amount times the rate
/// of the currency, in whole units of the native currency.
pub proof fn government_currencies_are_worth_their_rate(
    table: ConversionTable,
    amount: Amount,
    id: GovShitcoinId,
    rate: Price,
    native: Currency,
    worth: Amount,
)
    requires
        amount.currency == Currency::GovShitcoin(id),
        call_ensures(ConversionTable::shitcoin_rate, (&table, id), rate),
        call_ensures(ConversionTable::native_currency, (&table,), native),
        call_ensures(ConversionTable::to_native, (&table, amount), worth),
    ensures
        native == Currency::GovShitcoin(GovShitcoinId(0)),
        worth.currency == native,
        worth.value == rounding(product(amount.value, rate)),
        exact(worth.value) == round_half_away(exact(amount.value) * exact(rate)),
{
    reveal_with_fuel(exact, 6);
}

/// Law: a whole amount of the native currency is worth itself, and any amount of
/// it is worth itself rounded.
pub proof fn native_amounts_are_worth_themselves(
    table: ConversionTable,
    amount: Amount,
    worth: Amount,
    whole: int,
)
    requires
        amount.currency == Currency::GovShitcoin(GovShitcoinId(0)),
        call_ensures(ConversionTable::to_native, (&table, amount), worth),
    ensures
        worth.value == rounding(product(amount.value, integer(1))),
        exact(worth.value) == round_half_away(exact(amount.value)),
        exact(amount.value) == whole as real ==> exact(worth.value) == whole as real,
{
    reveal_with_fuel(exact, 6);
    let x = exact(amount.value);
    assert(x * (1 as real) == x) by (nonlinear_arith);
    assert(exact(product(amount.value, integer(1))) == x);
    whole_numbers_are_round(whole);
}

/// Law: an amount of sats is worth its part of a bitcoin times the price in the
/// table, in whole units of the native currency.
pub proof fn sats_are_worth_their_part_of_a_bitcoin(
    table: ConversionTable,
    amount: Amount,
    worth: Amount,
)
    requires
        amount.currency == Currency::Sats,
        call_ensures(ConversionTable::to_native, (&table, amount), worth),
    ensures
        worth.currency == Currency::GovShitcoin(GovShitcoinId(0)),
        worth.value == rounding(
            product(quotient(amount.value, integer(100_000_000)), table.btc()),
        ),
        exact(worth.value) == round_half_away(
            exact(amount.value) / (100_000_000 as real) * exact(table.btc()),
        ),
{
    reveal_with_fuel(exact, 6);
}

/// Law: an amount of the native currency buys the amount divided by the rate of
/// another government currency, in whole units of that currency.
pub proof fn native_amounts_buy_by_the_rate(
    table: ConversionTable,
    amount: Expr,
    id: GovShitcoinId,
    rate: Price,
    bought: Amount,
)
    requires
        call_ensures(ConversionTable::shitcoin_rate, (&table, id), rate),
        call_ensures(
            ConversionTable::from_native,
            (&table, amount, Currency::GovShitcoin(id)),
            bought,
        ),
    ensures
        bought.currency == Currency::GovShitcoin(id),
        bought.value == rounding(quotient(amount, rate)),
        exact(bought.value) == round_half_away(exact(amount) / exact(rate)),
{
    reveal_with_fuel(exact, 6);
}

/// Law: a new table knows the sats and the native currency under its name, and
/// nothing else. It converts sats by a hundred millionth of its price.
pub proof fn new_tables_know_the_native_currency(
    price: Price,
    native_name: String,
    table: ConversionTable,
    name: &str,
    currency: Option<Currency>,
    amount: Amount,
    worth: Amount,
)
    requires
        call_ensures(ConversionTable::new, (price, native_name), table),
        call_ensures(ConversionTable::decode_currency, (&table, name), currency),
        amount.currency == Currency::Sats,
        call_ensures(ConversionTable::to_native, (&table, amount), worth),
    ensures
        table.valid(),
        table.rates().len() == 0,
        name@ == "sats"@ ==> currency == Some(Currency::Sats),
        name@ != "sats"@ && name@ == native_name@ ==> currency == Some(
            Currency::GovShitcoin(GovShitcoinId(0)),
        ),
        name@ != "sats"@ && name@ != native_name@ ==> currency is None,
        worth.value == rounding(
            product(
                quotient(amount.value, integer(100_000_000)),
                quotient(price, integer(100_000_000)),
            ),
        ),
{
}

/// Law: the name of the sats stands for them, any other name for the government
/// currency that the table has under it, if it has one.
pub proof fn names_are_looked_up(
    table: ConversionTable,
    name: &str,
    currency: Option<Currency>,
)
    requires
        call_ensures(ConversionTable::decode_currency, (&table, name), currency),
    ensures
        name@ == "sats"@ ==> currency == Some(Currency::Sats),
        name@ != "sats"@ && table.names().contains_key(name@) ==> currency == Some(
            Currency::GovShitcoin(table.names()[name@]),
        ),
        name@ != "sats"@ && !table.names().contains_key(name@) ==> currency is None,
{
}

/// Law: a currency that was registered is found under its name, unless that is
/// the name of the sats, and converted by the rate that it was registered with. It
/// gets the next number.
pub proof fn registered_currencies_are_converted(
    table: &mut ConversionTable,
    rate: Price,
    name: String,
    id: GovShitcoinId,
    spelled: &str,
    currency: Option<Currency>,
    amount: Amount,
    worth: Amount,
    price: Price,
)
    requires
        call_ensures(ConversionTable::register_shitcoin, (table, rate, name), id),
        spelled@ == name@,
        call_ensures(ConversionTable::decode_currency, (&*final(table), spelled), currency),
        amount.currency == Currency::GovShitcoin(id),
        call_ensures(ConversionTable::to_native, (&*final(table), amount), worth),
        call_ensures(ConversionTable::shitcoin_rate, (&*final(table), id), price),
    ensures
        id.0 == old(table).rates().len() + 1,
        final(table).rates().len() == old(table).rates().len() + 1,
        old(table).valid() ==> final(table).valid(),
        name@ != "sats"@ ==> currency == Some(Currency::GovShitcoin(id)),
        price == rate,
        worth.value == rounding(product(amount.value, rate)),
        exact(worth.value) == round_half_away(exact(amount.value) * exact(rate)),
{
    reveal_with_fuel(exact, 6);
}

/// Law: registering a currency leaves alone what other names stand for, and what
/// sats and the currencies before it are worth.
pub proof fn registering_leaves_the_rest_alone(
    table: &mut ConversionTable,
    rate: Price,
    name: String,
    id: GovShitcoinId,
    other: &str,
    before: Option<Currency>,
    after: Option<Currency>,
    amount: Amount,
    worth: Amount,
    still: Amount,
)
    requires
        call_ensures(ConversionTable::register_shitcoin, (table, rate, name), id),
        other@ != name@ || other@ == "sats"@,
        call_ensures(ConversionTable::decode_currency, (&*old(table), other), before),
        call_ensures(ConversionTable::decode_currency, (&*final(table), other), after),
        amount.currency matches Currency::GovShitcoin(known) ==> known.0 < id.0,
        call_ensures(ConversionTable::to_native, (&*old(table), amount), worth),
        call_ensures(ConversionTable::to_native, (&*final(table), amount), still),
    ensures
        after == before,
        still == worth,
{
}

/// Law: replacing an entry of the price list gives the currency whose number is
/// one larger the new price. All other amounts, sats among them, are worth what
/// they were, and all names stand for what they did.
pub proof fn one_entry_is_one_price(
    table: &mut ConversionTable,
    id: GovShitcoinId,
    price: Price,
    name: &str,
    before: Option<Currency>,
    after: Option<Currency>,
    amount: Amount,
    worth: Amount,
    now: Amount,
)
    requires
        id.0 < old(table).rates().len(),
        call_ensures(ConversionTable::update_price, (table, id, price), ()),
        call_ensures(ConversionTable::decode_currency, (&*old(table), name), before),
        call_ensures(ConversionTable::decode_currency, (&*final(table), name), after),
        amount.currency matches Currency::GovShitcoin(known) ==> known.0
            <= old(table).rates().len(),
        call_ensures(ConversionTable::to_native, (&*old(table), amount), worth),
        call_ensures(ConversionTable::to_native, (&*final(table), amount), now),
    ensures
        final(table).rates().len() == old(table).rates().len(),
        old(table).valid() ==> final(table).valid(),
        after == before,
        (match amount.currency {
            Currency::GovShitcoin(known) => if known.0 == id.0 + 1 {
                now.value == rounding(product(amount.value, price))
            } else {
                now == worth
            },
            Currency::Sats => now == worth,
        }),
{
}

/// Law: a new price of bitcoin is the one by which sats are converted. All other
/// amounts are worth what they were, and all names stand for what they did.
pub proof fn bitcoin_has_the_price_that_was_set(
    table: &mut ConversionTable,
    price: Price,
    name: &str,
    before: Option<Currency>,
    after: Option<Currency>,
    amount: Amount,
    worth: Amount,
    now: Amount,
)
    requires
        call_ensures(ConversionTable::update_btc_price, (table, price), ()),
        call_ensures(ConversionTable::decode_currency, (&*old(table), name), before),
        call_ensures(ConversionTable::decode_currency, (&*final(table), name), after),
        call_ensures(ConversionTable::to_native, (&*old(table), amount), worth),
        call_ensures(ConversionTable::to_native, (&*final(table), amount), now),
    ensures
        final(table).rates() == old(table).rates(),
        old(table).valid() ==> final(table).valid(),
        after == before,
        amount.currency == Currency::Sats ==> now.value == rounding(
            product(quotient(amount.value, integer(100_000_000)), price),
        ),
        amount.currency == Currency::Sats ==> exact(now.value) == round_half_away(
            exact(amount.value) / (100_000_000 as real) * exact(price),
        ),
        amount.currency != Currency::Sats ==> now == worth,
{
    reveal_with_fuel(exact, 6);
}

/// Law: every currency that a table has under a name can be converted, in both
/// directions.
pub proof fn named_currencies_can_be_converted(
    table: ConversionTable,
    name: &str,
    currency: Currency,
    amount: Amount,
    value: Expr,
)
    requires
        table.valid(),
        call_ensures(ConversionTable::decode_currency, (&table, name), Some(currency)),
        amount.currency == currency,
    ensures
        call_requires(ConversionTable::to_native, (&table, amount)),
        currency != Currency::Sats ==> call_requires(
            ConversionTable::from_native,
            (&table, value, currency),
        ),
        currency matches Currency::GovShitcoin(id) ==> call_requires(
            ConversionTable::shitcoin_rate,
            (&table, id),
        ),
{
}

} // verus!
