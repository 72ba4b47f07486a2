//! How much of a trade is hedged, and what changes hands afterwards.

use crate::conversion::{Amount, ConversionTable, Currency, SATS_PER_BTC};
use crate::earn_percentage::SatEarnPercentage;
use crate::error::RequestError;
use crate::number::{
    difference, integer, negation, number, product, quotient, rounding, sum, Double, Expr,
};
use std::ops::Neg;
use vstd::prelude::*;

verus! {

/// Whether the client buys the currency of the request or sells it.
#[derive(Clone, Copy, Debug, PartialEq, Eq, Structural)]
pub enum Direction {
    Buy,
    Sell,
}

/// What a client asks for.
#[derive(Debug, PartialEq, Eq)]
pub struct HedgeRequest {
    pub direction: Direction,
    pub amount: Double,
    pub currency: String,
    pub target_currency: String,
    pub fee: Double,
    pub sat_fee_percentage: Double,
}

/// What the exchange reports of a hedge that was made.
#[derive(Debug, PartialEq, Eq)]
pub struct Hedged {
    pub hedge_price: Expr,
    pub liquidation_price: Expr,
}

/// What the client is told of a trade.
#[derive(Debug, PartialEq, Eq)]
pub struct HedgeResponse {
    pub hedged_amount: Expr,
    pub hedge_price: Expr,
    pub liquidation_price: Expr,
    pub client_to_vekslak: Expr,
    pub vekslak_to_client: Expr,
}

/// A trade whose hedge has been ordered.
#[derive(Debug, PartialEq, Eq)]
pub struct PendingHedge {
    pub direction: Direction,
    pub amount: Amount,
    pub target_currency: Currency,
    pub fee: Expr,
    pub to_hedge: Amount,
}

/// A request that the desk cannot compute with.
#[derive(Clone, Copy, Debug, PartialEq, Eq, Structural)]
pub enum Fault {
    /// The share of the fee is not a number from zero to a hundred.
    InvalidPercentage(Double),
    /// Sats are to be exchanged for sats.
    SatsForSats,
}

/// Why a request does not lead to a hedge.
#[derive(Debug)]
pub enum Refusal {
    /// The client gets an answer.
    Answer(RequestError),
    /// The desk gives up without an answer.
    Abort(Fault),
}

/// Whether bitcoin goes to the client: the client buys sats, or sells something
/// else for them.
pub open spec fn client_gets_bitcoin(direction: Direction, currency: Currency) -> bool {
    (direction == Direction::Buy) == (currency == Currency::Sats)
}

/// The part of a trade that is to be hedged, in the currency of the trade. What
/// the desk earns in the native currency stays out of the hedge.
pub open spec fn hedged_part(
    amount: Amount,
    fee: Expr,
    sat_ratio: Expr,
    direction: Direction,
) -> Amount {
    let kept = product(fee, difference(integer(1), sat_ratio));
    if client_gets_bitcoin(direction, amount.currency) {
        amount.scaled(difference(integer(1), kept))
    } else {
        amount.opposite().scaled(sum(integer(1), kept))
    }
}

/// The part of a trade that is to be hedged, in the native currency. It is
/// negative where bitcoin comes to the desk.
pub fn compute_hedge_amount(
    amount: Amount,
    fee: Expr,
    sat_fee_percentage: SatEarnPercentage,
    conversions: &ConversionTable,
    direction: Direction,
) -> (hedge: Amount)
    requires
        conversions.knows(amount.currency),
    ensures
        hedge == conversions.in_native(
            hedged_part(amount, fee, sat_fee_percentage.ratio(), direction),
        ),
{
    let kept = fee.times(sat_fee_percentage.gov_shitcoin_earn_percentage());
    let to_hedge = match (amount.currency, direction) {
        (Currency::Sats, Direction::Buy) => amount * Expr::Integer(1).minus(kept),
        (Currency::GovShitcoin(_), Direction::Sell) => amount * Expr::Integer(1).minus(kept),
        (Currency::Sats, Direction::Sell) => amount.neg() * Expr::Integer(1).plus(kept),
        (Currency::GovShitcoin(_), Direction::Buy) => amount.neg() * Expr::Integer(1).plus(kept),
    };
    conversions.to_native(to_hedge)
}

impl PendingHedge {
    /// Whether the table can convert both currencies of the trade.
    pub open spec fn convertible(self, table: ConversionTable) -> bool {
        table.knows(self.amount.currency) && table.knows(self.target_currency)
    }

    /// Whether sats are to be exchanged for sats.
    pub open spec fn sats_for_sats(self) -> bool {
        self.amount.currency == Currency::Sats && self.target_currency == Currency::Sats
    }

    /// What the amount of the request is worth in the other currency of the
    /// trade, without the fee: sats in units of the target currency, any other
    /// currency in bitcoin.
    pub open spec fn counter_value(self, table: ConversionTable, hedge_price: Expr) -> Expr {
        match self.amount.currency {
            Currency::Sats => rounding(
                quotient(
                    product(quotient(self.amount.value, integer(SATS_PER_BTC)), hedge_price),
                    table.rate(self.target_currency->GovShitcoin_0),
                ),
            ),
            Currency::GovShitcoin(_) => quotient(table.in_native(self.amount).value, hedge_price),
        }
    }

    /// What the client is told once the hedge is made.
    pub open spec fn settlement(self, table: ConversionTable, hedged: Hedged) -> HedgeResponse {
        let counter = self.counter_value(table, hedged.hedge_price);
        HedgeResponse {
            hedged_amount: self.to_hedge.value,
            hedge_price: hedged.hedge_price,
            liquidation_price: hedged.liquidation_price,
            client_to_vekslak: match self.direction {
                Direction::Sell => self.amount.value,
                Direction::Buy => product(counter, sum(integer(1), self.fee)),
            },
            vekslak_to_client: match self.direction {
                Direction::Buy => self.amount.value,
                Direction::Sell => product(counter, difference(integer(1), self.fee)),
            },
        }
    }

    /// Whether sats are to be exchanged for sats.
    pub fn is_sats_for_sats(&self) -> (answer: bool)
        ensures
            answer == self.sats_for_sats(),
    {
        self.amount.currency == Currency::Sats && self.target_currency == Currency::Sats
    }

    /// What the amount of the request is worth in the other currency of the
    /// trade, without the fee.
    fn exchange(&self, table: &ConversionTable, hedge_price: Expr) -> (counter: Expr)
        requires
            self.convertible(*table),
            !self.sats_for_sats(),
        ensures
            counter == self.counter_value(*table, hedge_price),
    {
        match self.amount.currency {
            Currency::Sats => {
                let native = self.amount.value.clone().over(Expr::Integer(SATS_PER_BTC)).times(
                    hedge_price,
                );
                table.from_native(native, self.target_currency).value
            },
            Currency::GovShitcoin(_) => table.to_native(self.amount.clone()).value.over(
                hedge_price,
            ),
        }
    }

    /// What the client is told once the hedge is made. The fee is added to what
    /// the client pays for a purchase, and taken off what the client gets for a
    /// sale.
    pub fn settle(self, table: &ConversionTable, hedged: Hedged) -> (response: HedgeResponse)
        requires
            self.convertible(*table),
            !self.sats_for_sats(),
        ensures
            response == self.settlement(*table, hedged),
    {
        let counter = self.exchange(table, hedged.hedge_price.clone());
        let client_to_vekslak;
        let vekslak_to_client;
        match self.direction {
            Direction::Buy => {
                client_to_vekslak = counter.times(Expr::Integer(1).plus(self.fee));
                vekslak_to_client = self.amount.value;
            },
            Direction::Sell => {
                client_to_vekslak = self.amount.value;
                vekslak_to_client = counter.times(Expr::Integer(1).minus(self.fee));
            },
        }
        HedgeResponse {
            hedged_amount: self.to_hedge.value,
            hedge_price: hedged.hedge_price,
            liquidation_price: hedged.liquidation_price,
            client_to_vekslak,
            vekslak_to_client,
        }
    }
}

/// The trade that a request asks for, with the currencies that its names stand
/// for.
pub open spec fn requested_trade(
    request: HedgeRequest,
    currency: Currency,
    target_currency: Currency,
    table: ConversionTable,
) -> PendingHedge {
    let amount = Amount { value: number(request.amount), currency };
    let fee = number(request.fee);
    let sat_ratio = quotient(number(request.sat_fee_percentage), integer(100));
    PendingHedge {
        direction: request.direction,
        amount,
        target_currency,
        fee,
        to_hedge: table.in_native(hedged_part(amount, fee, sat_ratio, request.direction)),
    }
}

/// Reads a request: looks up its currencies, and computes what to hedge.
pub fn prepare_hedge(table: &ConversionTable, request: HedgeRequest) -> (prepared: Result<
    PendingHedge,
    Refusal,
>)
    requires
        table.valid(),
    ensures
        (match (table.decoded(request.currency@), table.decoded(request.target_currency@)) {
            (None, _) => prepared matches Err(Refusal::Answer(error)) && error.blames_client(
                400,
                "invalid currency"@,
                None,
            ) && error.valid(),
            (Some(_), None) => prepared matches Err(Refusal::Answer(error)) && error.blames_client(
                400,
                "invalid target currency"@,
                None,
            ) && error.valid(),
            (Some(currency), Some(target)) => if request.sat_fee_percentage.percentage() {
                prepared == Ok::<_, Refusal>(requested_trade(request, currency, target, *table))
                    && prepared->Ok_0.convertible(*table)
            } else {
                prepared == Err::<PendingHedge, _>(
                    Refusal::Abort(Fault::InvalidPercentage(request.sat_fee_percentage)),
                )
            },
        }),
{
    let currency = match table.decode_currency(request.currency.as_str()) {
        Some(currency) => currency,
        None => {
            return Err(Refusal::Answer(RequestError::simple(400, "invalid currency")));
        },
    };
    let target_currency = match table.decode_currency(request.target_currency.as_str()) {
        Some(currency) => currency,
        None => {
            return Err(Refusal::Answer(RequestError::simple(400, "invalid target currency")));
        },
    };
    if !request.sat_fee_percentage.is_percentage() {
        return Err(Refusal::Abort(Fault::InvalidPercentage(request.sat_fee_percentage)));
    }
    let amount = Amount { value: Expr::Number(request.amount), currency };
    let to_hedge = compute_hedge_amount(
        amount.clone(),
        Expr::Number(request.fee),
        SatEarnPercentage::new(request.sat_fee_percentage),
        table,
        request.direction,
    );
    Ok(
        PendingHedge {
            direction: request.direction,
            amount,
            target_currency,
            fee: Expr::Number(request.fee),
            to_hedge,
        },
    )
}

/// Law: the amount of the request changes hands as it was asked for, from the
/// client where the client sells, and to the client where the client buys.
pub proof fn requested_amount_changes_hands(
    trade: PendingHedge,
    table: ConversionTable,
    hedged: Hedged,
)
    ensures
        trade.direction == Direction::Sell ==> trade.settlement(table, hedged).client_to_vekslak
            == trade.amount.value,
        trade.direction == Direction::Buy ==> trade.settlement(table, hedged).vekslak_to_client
            == trade.amount.value,
{
}

/// Law: a trade is settled at the price of its hedge. The price of bitcoin in
/// the table plays no part.
pub proof fn settlement_is_at_the_hedge_price(
    trade: PendingHedge,
    one: ConversionTable,
    other: ConversionTable,
    hedged: Hedged,
)
    requires
        one.rates() == other.rates(),
    ensures
        trade.settlement(one, hedged) == trade.settlement(other, hedged),
{
}

/// Law: the sign of a hedge tells who gets bitcoin. What is hedged is the amount
/// itself, less what the desk keeps, where the client does, and its opposite,
/// with what the desk keeps on top, where the desk does.
pub proof fn hedge_follows_the_bitcoin(
    amount: Amount,
    fee: Expr,
    sat_ratio: Expr,
    direction: Direction,
)
    ensures
        hedged_part(amount, fee, sat_ratio, direction).currency == amount.currency,
        client_gets_bitcoin(direction, amount.currency) ==> hedged_part(
            amount,
            fee,
            sat_ratio,
            direction,
        ).value == rounding(
            product(
                amount.value,
                difference(integer(1), product(fee, difference(integer(1), sat_ratio))),
            ),
        ),
        !client_gets_bitcoin(direction, amount.currency) ==> hedged_part(
            amount,
            fee,
            sat_ratio,
            direction,
        ).value == rounding(
            product(
                negation(amount.value),
                sum(integer(1), product(fee, difference(integer(1), sat_ratio))),
            ),
        ),
        (match (direction, amount.currency) {
            (Direction::Buy, Currency::Sats) => client_gets_bitcoin(direction, amount.currency),
            (Direction::Sell, Currency::GovShitcoin(_)) => client_gets_bitcoin(
                direction,
                amount.currency,
            ),
            (Direction::Sell, Currency::Sats) => !client_gets_bitcoin(direction, amount.currency),
            (Direction::Buy, Currency::GovShitcoin(_)) => !client_gets_bitcoin(
                direction,
                amount.currency,
            ),
        }),
{
}

} // verus!
