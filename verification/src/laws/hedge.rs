//! What holds of the size of a hedge and of the settlement of a trade.

use crate::conversion::{Amount, ConversionTable, Currency, GovShitcoinId, Price};
use crate::earn_percentage::SatEarnPercentage;
use crate::error::{ErrorResponse, RequestError};
use crate::hedge::{
    compute_hedge_amount, prepare_hedge, Direction, Fault, HedgeRequest, HedgeResponse, Hedged,
    PendingHedge, Refusal,
};
use crate::laws::number::{exact, round_half_away};
use crate::mock::MockProvider;
use crate::number::{
    difference, integer, negation, number, product, quotient, rounding, sum, Double, Expr,
};
use vstd::prelude::*;

verus! {

/// Law: the two parts of the fee are the given percentage and the rest, and they
/// make up the whole.
pub proof fn fee_parts_make_up_the_fee(
    value: Double,
    one: SatEarnPercentage,
    sats: Expr,
    rest: Expr,
)
    requires
        call_ensures(SatEarnPercentage::new, (value,), one),
        call_ensures(SatEarnPercentage::into_inner, (one,), sats),
        call_ensures(SatEarnPercentage::gov_shitcoin_earn_percentage, (one,), rest),
    ensures
        sats == quotient(number(value), integer(100)),
        rest == difference(integer(1), quotient(number(value), integer(100))),
        exact(sats) == exact(number(value)) / (100 as real),
        exact(sats) + exact(rest) == 1 as real,
{
    reveal_with_fuel(exact, 8);
}

/// What the desk earns of a trade in the native currency, per unit: the fee less
/// the percentage of it that is earned in sats.
pub open spec fn earned(fee: Expr, percentage: Expr) -> Expr {
    product(fee, difference(integer(1), quotient(percentage, integer(100))))
}

/// Law: the hedge is the native worth of the trade less what the desk earns, where
/// the client buys sats or sells a government currency, and the native worth of
/// the opposite trade with what the desk earns on top, where the client sells
/// sats or buys a government currency.
pub proof fn hedges_offset_the_trade(
    amount: Amount,
    fee: Expr,
    value: Double,
    percentage: SatEarnPercentage,
    table: ConversionTable,
    direction: Direction,
    part: Amount,
    worth: Amount,
    hedge: Amount,
)
    requires
        call_ensures(SatEarnPercentage::new, (value,), percentage),
        part.currency == amount.currency,
        (match (direction, amount.currency) {
            (Direction::Buy, Currency::Sats) | (Direction::Sell, Currency::GovShitcoin(_)) => {
                part.value == rounding(
                    product(amount.value, difference(integer(1), earned(fee, number(value)))),
                )
            },
            (Direction::Sell, Currency::Sats) | (Direction::Buy, Currency::GovShitcoin(_)) => {
                part.value == rounding(
                    product(negation(amount.value), sum(integer(1), earned(fee, number(value)))),
                )
            },
        }),
        call_ensures(ConversionTable::to_native, (&table, part), worth),
        call_ensures(
            compute_hedge_amount,
            (amount, fee, percentage, &table, direction),
            hedge,
        ),
    ensures
        hedge == worth,
        hedge.currency == Currency::GovShitcoin(GovShitcoinId(0)),
{
}

/// Law: a request leads to the trade that it asks for. Its amount is in the
/// currency that the table knows under the name, and what is hedged is the native
/// worth of the amount less what the desk earns, where the client gets bitcoin,
/// and of its opposite with what the desk earns on top, where the desk does.
pub proof fn requests_are_hedged_as_they_ask(
    table: ConversionTable,
    request: HedgeRequest,
    name: &str,
    currency: Currency,
    target_name: &str,
    target: Currency,
    part: Amount,
    worth: Amount,
    sound: bool,
    prepared: Result<PendingHedge, Refusal>,
)
    requires
        name@ == request.currency@,
        call_ensures(ConversionTable::decode_currency, (&table, name), Some(currency)),
        target_name@ == request.target_currency@,
        call_ensures(ConversionTable::decode_currency, (&table, target_name), Some(target)),
        call_ensures(Double::is_percentage, (request.sat_fee_percentage,), sound),
        part.currency == currency,
        (match (request.direction, currency) {
            (Direction::Buy, Currency::Sats) | (Direction::Sell, Currency::GovShitcoin(_)) => {
                part.value == rounding(
                    product(
                        number(request.amount),
                        difference(
                            integer(1),
                            earned(number(request.fee), number(request.sat_fee_percentage)),
                        ),
                    ),
                )
            },
            (Direction::Sell, Currency::Sats) | (Direction::Buy, Currency::GovShitcoin(_)) => {
                part.value == rounding(
                    product(
                        negation(number(request.amount)),
                        sum(
                            integer(1),
                            earned(number(request.fee), number(request.sat_fee_percentage)),
                        ),
                    ),
                )
            },
        }),
        call_ensures(ConversionTable::to_native, (&table, part), worth),
        call_ensures(prepare_hedge, (&table, request), prepared),
    ensures
        sound ==> prepared is Ok && {
            let trade = prepared->Ok_0;
            &&& trade.direction == request.direction
            &&& trade.amount.value == number(request.amount)
            &&& trade.amount.currency == currency
            &&& trade.target_currency == target
            &&& trade.fee == number(request.fee)
            &&& trade.to_hedge == worth
        },
        !sound ==> prepared == Err::<PendingHedge, Refusal>(
            Refusal::Abort(Fault::InvalidPercentage(request.sat_fee_percentage)),
        ),
{
}

/// Law: what a request in sats leads to hedge, written out: sats that the client
/// buys are bought on the exchange, sats that the client sells are sold, at the
/// price of bitcoin in the table.
pub proof fn sats_requests_written_out(
    table: ConversionTable,
    request: HedgeRequest,
    name: &str,
    trade: PendingHedge,
)
    requires
        name@ == request.currency@,
        call_ensures(ConversionTable::decode_currency, (&table, name), Some(Currency::Sats)),
        call_ensures(prepare_hedge, (&table, request), Ok(trade)),
    ensures
        ({
            let earned = product(
                number(request.fee),
                difference(integer(1), quotient(number(request.sat_fee_percentage), integer(100))),
            );
            let part = if request.direction == Direction::Buy {
                product(number(request.amount), difference(integer(1), earned))
            } else {
                product(negation(number(request.amount)), sum(integer(1), earned))
            };
            &&& trade.to_hedge.value == rounding(
                product(quotient(rounding(part), integer(100_000_000)), table.btc()),
            )
            &&& trade.to_hedge.currency == Currency::GovShitcoin(GovShitcoinId(0))
        }),
{
}

/// Law: what a request in a government currency leads to hedge, written out: what
/// the client sells for bitcoin is bought on the exchange, what the client buys
/// with bitcoin is sold, at the rate of the currency.
pub proof fn government_requests_written_out(
    table: ConversionTable,
    request: HedgeRequest,
    name: &str,
    id: GovShitcoinId,
    trade: PendingHedge,
)
    requires
        name@ == request.currency@,
        call_ensures(
            ConversionTable::decode_currency,
            (&table, name),
            Some(Currency::GovShitcoin(id)),
        ),
        call_ensures(prepare_hedge, (&table, request), Ok(trade)),
    ensures
        ({
            let rate = if id.0 == 0 {
                integer(1)
            } else {
                table.rates()[id.0 - 1]
            };
            let earned = product(
                number(request.fee),
                difference(integer(1), quotient(number(request.sat_fee_percentage), integer(100))),
            );
            let part = if request.direction == Direction::Sell {
                product(number(request.amount), difference(integer(1), earned))
            } else {
                product(negation(number(request.amount)), sum(integer(1), earned))
            };
            &&& trade.to_hedge.value == rounding(product(rounding(part), rate))
            &&& trade.to_hedge.currency == Currency::GovShitcoin(GovShitcoinId(0))
        }),
{
}

/// Law: a request for a currency that the table does not know is refused with the
/// status code 400 and the reason, the currency before its target.
pub proof fn unknown_currencies_are_refused(
    table: ConversionTable,
    request: HedgeRequest,
    name: &str,
    currency: Option<Currency>,
    target_name: &str,
    target: Option<Currency>,
    prepared: Result<PendingHedge, Refusal>,
    response: Result<ErrorResponse, hyper::Error>,
)
    requires
        name@ == request.currency@,
        call_ensures(ConversionTable::decode_currency, (&table, name), currency),
        target_name@ == request.target_currency@,
        call_ensures(ConversionTable::decode_currency, (&table, target_name), target),
        call_ensures(prepare_hedge, (&table, request), prepared),
        prepared matches Err(Refusal::Answer(error)) ==> call_ensures(
            RequestError::into_response,
            (error,),
            response,
        ),
    ensures
        currency is None || target is None ==> (prepared matches Err(Refusal::Answer(_))) && (
        response matches Ok(answer) && answer.status == 400 && answer.body@ == (
        if currency is None {
            "invalid currency"@
        } else {
            "invalid target currency"@
        })),
        currency is Some && target is Some ==> !(prepared matches Err(Refusal::Answer(_))),
{
}

/// Law: sats for sats are recognized.
pub proof fn sats_for_sats_are_recognized(trade: PendingHedge, answer: bool)
    requires
        call_ensures(PendingHedge::is_sats_for_sats, (&trade,), answer),
    ensures
        answer <==> trade.amount.currency == Currency::Sats && trade.target_currency
            == Currency::Sats,
{
}

/// Law: the settlement of every trade tells what was hedged and at which price,
/// as it was hedged.
pub proof fn settlements_tell_the_hedge(
    trade: PendingHedge,
    table: ConversionTable,
    hedged: Hedged,
    response: HedgeResponse,
)
    requires
        call_ensures(PendingHedge::settle, (trade, &table, hedged), response),
    ensures
        response.hedged_amount == trade.to_hedge.value,
        response.hedge_price == hedged.hedge_price,
        response.liquidation_price == hedged.liquidation_price,
        trade.direction == Direction::Buy ==> response.vekslak_to_client == trade.amount.value,
        trade.direction == Direction::Sell ==> response.client_to_vekslak == trade.amount.value,
{
}

/// Law: sats are exchanged for the target currency, whichever government currency
/// that is: the part of a bitcoin times the price of the hedge, divided by the
/// rate of the target and rounded. A client who buys pays that and the fee, a
/// client who sells gets that less the fee.
pub proof fn sats_are_settled_in_the_target_currency(
    trade: PendingHedge,
    table: ConversionTable,
    hedged: Hedged,
    response: HedgeResponse,
    target: GovShitcoinId,
    rate: Price,
)
    requires
        trade.amount.currency == Currency::Sats,
        trade.target_currency == Currency::GovShitcoin(target),
        target.0 == 0 ==> rate == integer(1),
        target.0 > 0 ==> rate == table.rates()[target.0 - 1],
        call_ensures(PendingHedge::settle, (trade, &table, hedged), response),
    ensures
        ({
            let counter = rounding(
                quotient(
                    product(
                        quotient(trade.amount.value, integer(100_000_000)),
                        hedged.hedge_price,
                    ),
                    rate,
                ),
            );
            let value = round_half_away(
                exact(trade.amount.value) / (100_000_000 as real) * exact(hedged.hedge_price)
                    / exact(rate),
            );
            &&& trade.direction == Direction::Buy ==> response.client_to_vekslak == product(
                counter,
                sum(integer(1), trade.fee),
            )
            &&& trade.direction == Direction::Buy ==> exact(response.client_to_vekslak) == value * ((
            1 as real) + exact(trade.fee))
            &&& trade.direction == Direction::Sell ==> response.vekslak_to_client == product(
                counter,
                difference(integer(1), trade.fee),
            )
            &&& trade.direction == Direction::Sell ==> exact(response.vekslak_to_client) == value
                * ((1 as real) - exact(trade.fee))
        }),
{
    reveal_with_fuel(exact, 8);
}

/// Law: a whole bitcoin in sats is settled at the price of the hedge, in whole
/// units, against the native currency.
pub proof fn a_bitcoin_costs_the_hedge_price(
    trade: PendingHedge,
    table: ConversionTable,
    hedged: Hedged,
    response: HedgeResponse,
)
    requires
        trade.amount.currency == Currency::Sats,
        trade.target_currency == Currency::GovShitcoin(GovShitcoinId(0)),
        exact(trade.amount.value) == 100_000_000 as real,
        call_ensures(PendingHedge::settle, (trade, &table, hedged), response),
    ensures
        trade.direction == Direction::Buy ==> exact(response.client_to_vekslak) == round_half_away(
            exact(hedged.hedge_price),
        ) * ((1 as real) + exact(trade.fee)),
        trade.direction == Direction::Sell ==> exact(response.vekslak_to_client)
            == round_half_away(exact(hedged.hedge_price)) * ((1 as real) - exact(trade.fee)),
{
    sats_are_settled_in_the_target_currency(
        trade,
        table,
        hedged,
        response,
        GovShitcoinId(0),
        integer(1),
    );
    let price = exact(hedged.hedge_price);
    let amount = exact(trade.amount.value);
    assert(amount / (100_000_000 as real) * price / (1 as real) == price) by (nonlinear_arith)
        requires
            amount == 100_000_000 as real,
    ;
}

/// Law: a government currency is exchanged for bitcoin, whatever the target: its
/// native worth divided by the price of the hedge. A client who buys pays that and
/// the fee, a client who sells gets that less the fee.
pub proof fn government_currencies_are_settled_in_bitcoin(
    trade: PendingHedge,
    table: ConversionTable,
    hedged: Hedged,
    response: HedgeResponse,
    id: GovShitcoinId,
    rate: Price,
)
    requires
        trade.amount.currency == Currency::GovShitcoin(id),
        id.0 == 0 ==> rate == integer(1),
        id.0 > 0 ==> rate == table.rates()[id.0 - 1],
        call_ensures(PendingHedge::settle, (trade, &table, hedged), response),
    ensures
        ({
            let counter = quotient(
                rounding(product(trade.amount.value, rate)),
                hedged.hedge_price,
            );
            let value = round_half_away(exact(trade.amount.value) * exact(rate)) / exact(
                hedged.hedge_price,
            );
            &&& trade.direction == Direction::Buy ==> response.client_to_vekslak == product(
                counter,
                sum(integer(1), trade.fee),
            )
            &&& trade.direction == Direction::Buy ==> exact(response.client_to_vekslak) == value * ((
            1 as real) + exact(trade.fee))
            &&& trade.direction == Direction::Sell ==> response.vekslak_to_client == product(
                counter,
                difference(integer(1), trade.fee),
            )
            &&& trade.direction == Direction::Sell ==> exact(response.vekslak_to_client) == value
                * ((1 as real) - exact(trade.fee))
        }),
{
    reveal_with_fuel(exact, 8);
}

/// Law: the exchange on paper has the same prices for every hedge.
pub proof fn paper_prices_are_fixed(
    mock: MockProvider,
    amount: Expr,
    hedged: Hedged,
    price: Expr,
)
    requires
        call_ensures(MockProvider::hedge, (&mock, &amount), hedged),
        call_ensures(MockProvider::fetch_price, (&mock,), price),
    ensures
        hedged.hedge_price == integer(50_000),
        hedged.liquidation_price == integer(40_000),
        price == hedged.hedge_price,
        exact(price) == 50_000 as real,
{
    reveal_with_fuel(exact, 8);
}

/// Law: a table that is fit for use can prepare every request, and settle every
/// trade that a request led to, but for sats against sats.
pub proof fn prepared_trades_can_be_settled(
    table: ConversionTable,
    request: HedgeRequest,
    trade: PendingHedge,
    hedged: Hedged,
)
    requires
        table.valid(),
        call_ensures(prepare_hedge, (&table, request), Ok(trade)),
    ensures
        call_requires(prepare_hedge, (&table, request)),
        trade.amount.currency != Currency::Sats || trade.target_currency != Currency::Sats
            ==> call_requires(PendingHedge::settle, (trade, &table, hedged)),
{
}

/// Law: what a request leads to hedge, in exact arithmetic. With the percentage of
/// the fee that is earned in sats taken off the fee, a client who gets bitcoin has
/// the rest of the fee taken off the amount, and a client who gives bitcoin has it
/// added to the opposite of the amount.
pub proof fn hedges_in_exact_arithmetic(
    table: ConversionTable,
    request: HedgeRequest,
    name: &str,
    currency: Currency,
    trade: PendingHedge,
)
    requires
        name@ == request.currency@,
        call_ensures(ConversionTable::decode_currency, (&table, name), Some(currency)),
        call_ensures(prepare_hedge, (&table, request), Ok(trade)),
    ensures
        ({
            let one = 1 as real;
            let amount = exact(number(request.amount));
            let share = exact(number(request.sat_fee_percentage)) / (100 as real);
            let earned = exact(number(request.fee)) * (one - share);
            let hedged = exact(trade.to_hedge.value);
            let taken_off = round_half_away(amount * (one - earned));
            let added = round_half_away((-amount) * (one + earned));
            match currency {
                Currency::Sats => {
                    let price = exact(table.btc());
                    &&& request.direction == Direction::Buy ==> hedged == round_half_away(
                        taken_off / (100_000_000 as real) * price,
                    )
                    &&& request.direction == Direction::Sell ==> hedged == round_half_away(
                        added / (100_000_000 as real) * price,
                    )
                },
                Currency::GovShitcoin(id) => {
                    let rate = if id.0 == 0 {
                        one
                    } else {
                        exact(table.rates()[id.0 - 1])
                    };
                    &&& request.direction == Direction::Sell ==> hedged == round_half_away(
                        taken_off * rate,
                    )
                    &&& request.direction == Direction::Buy ==> hedged == round_half_away(
                        added * rate,
                    )
                },
            }
        }),
{
    reveal_with_fuel(exact, 12);
    match currency {
        Currency::Sats => {
            sats_requests_written_out(table, request, name, trade);
        },
        Currency::GovShitcoin(id) => {
            government_requests_written_out(table, request, name, id, trade);
        },
    }
}

} // verus!
