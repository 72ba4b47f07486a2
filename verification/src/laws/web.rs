//! What holds of the requests that are served.

use crate::conversion::{Amount, ConversionTable, Currency, GovShitcoinId, Price};
use crate::error::{write_error, ErrorInfo, ErrorResponse, RequestError, WriteError};
use crate::hedge::{
    prepare_hedge, Direction, Fault, HedgeRequest, HedgeResponse, Hedged, PendingHedge, Refusal,
};
use crate::number::{
    difference, integer, negation, number, product, quotient, rounding, sum, Double,
};
use crate::web::{answer_page, open, route, step, Action, Event, Route, Stage};
use vstd::prelude::*;

verus! {

/// Whether nothing that a table converts by differs between two tables.
pub open spec fn converts_alike(one: ConversionTable, other: ConversionTable) -> bool {
    one.rates() == other.rates() && one.btc() == other.btc() && one.names() == other.names()
}

/// Law: the start page and the trades are served below the root path, the one to
/// those who get it, the other to those who post. Nothing else is.
pub proof fn requests_are_routed(root_path: &str, method: &str, path: &str, found: Route)
    requires
        call_ensures(route, (root_path, method, path), found),
    ensures
        found == Route::Index <==> method@ == "GET"@ && path@ == root_path@ + "/"@,
        found == Route::Hedge <==> method@ == "POST"@ && path@ == root_path@ + "/hedge"@,
{
    reveal_strlit("GET");
    reveal_strlit("POST");
    assert("GET"@.len() != "POST"@.len());
}

/// Law: serving begins with reading the start page, with the price of bitcoin, or
/// ends with the answer that there is nothing.
pub proof fn serving_begins(
    found: Route,
    start: (Stage, Action),
    response: Result<ErrorResponse, hyper::Error>,
)
    requires
        call_ensures(open, (found,), start),
        start.1 is Fail ==> call_ensures(
            RequestError::into_response,
            (start.1->Fail_0,),
            response,
        ),
    ensures
        found == Route::Index ==> start == (Stage::Closed, Action::ReadIndex),
        found == Route::Hedge ==> start == (Stage::FetchingPrice, Action::FetchPrice),
        found == Route::Unknown ==> start.0 == Stage::Closed && start.1 is Fail && response is Ok
            && response->Ok_0.status == 404 && response->Ok_0.body@ == "path not found"@,
{
}

/// Law: the start page is answered as it was read, and a page that could not be
/// read is not explained.
pub proof fn pages_are_answered(
    read: Result<Vec<u8>, ErrorInfo>,
    action: Action,
    response: Result<ErrorResponse, hyper::Error>,
)
    requires
        call_ensures(answer_page, (read,), action),
        action is Fail ==> call_ensures(RequestError::into_response, (action->Fail_0,), response),
    ensures
        read is Ok ==> action == Action::RespondPage(read->Ok_0),
        read is Err ==> action is Fail && response is Ok && response->Ok_0.status == 500
            && response->Ok_0.body@.len() == 0,
{
}

/// Law: a price that was fetched is the one by which sats are converted from then
/// on, and the body of the request is read next.
pub proof fn fetched_prices_are_used(
    price: Double,
    table: &mut ConversionTable,
    next: (Stage, Action),
    amount: Amount,
    worth: Amount,
)
    requires
        call_ensures(
            step,
            (Stage::FetchingPrice, Event::PriceFetched(Ok(price)), table),
            next,
        ),
        amount.currency == Currency::Sats,
        call_ensures(ConversionTable::to_native, (&*final(table), amount), worth),
    ensures
        next == (Stage::ReadingBody, Action::ReadBody),
        worth.value == rounding(
            product(quotient(amount.value, integer(100_000_000)), number(price)),
        ),
        final(table).btc() == number(price),
        final(table).rates() == old(table).rates(),
        final(table).names() == old(table).names(),
{
}

/// Law: every step keeps the table fit for use, and no step but the one with the
/// price changes what it converts by.
pub proof fn steps_keep_the_table(
    stage: Stage,
    event: Event,
    table: &mut ConversionTable,
    next: (Stage, Action),
)
    requires
        call_ensures(step, (stage, event, table), next),
    ensures
        final(table).valid(),
        !(event matches Event::PriceFetched(Ok(_))) ==> converts_alike(*old(table), *final(table)),
        next.0 is Hedging ==> next.0->Hedging_0.convertible(*final(table)),
{
}

/// Law: every stage takes every outcome of what it waits for.
pub proof fn every_outcome_is_taken(
    trade: PendingHedge,
    price: Result<Double, ErrorInfo>,
    body: Result<Vec<u8>, hyper::Error>,
    request: Result<HedgeRequest, ErrorInfo>,
    hedged: Result<Hedged, ErrorInfo>,
    text: Result<String, ErrorInfo>,
    table: &mut ConversionTable,
)
    requires
        old(table).valid(),
        trade.convertible(*old(table)),
    ensures
        call_requires(step, (Stage::FetchingPrice, Event::PriceFetched(price), table)),
        call_requires(step, (Stage::ReadingBody, Event::BodyRead(body), table)),
        call_requires(step, (Stage::ParsingRequest, Event::RequestParsed(request), table)),
        call_requires(step, (Stage::Hedging(trade), Event::HedgeMade(hedged), table)),
        call_requires(step, (Stage::Serializing, Event::Serialized(text), table)),
{
}

/// Law: where the desk or the exchange fails, the request ends, and the client
/// gets the status code 500 and no explanation.
pub proof fn failures_are_not_explained(
    stage: Stage,
    event: Event,
    table: &mut ConversionTable,
    next: (Stage, Action),
    response: Result<ErrorResponse, hyper::Error>,
)
    requires
        event matches Event::PriceFetched(Err(_)) || event matches Event::HedgeMade(Err(_))
            || event matches Event::Serialized(Err(_)),
        call_ensures(step, (stage, event, table), next),
        next.1 is Fail ==> call_ensures(RequestError::into_response, (next.1->Fail_0,), response),
    ensures
        next.0 == Stage::Closed,
        next.1 is Fail,
        response is Ok,
        response->Ok_0.status == 500,
        response->Ok_0.body@.len() == 0,
{
}

/// Law: a body that was read is parsed as it is. Where the connection failed, the
/// request ends without an answer, and the failure is handed on.
pub proof fn bodies_are_parsed(
    body: Result<Vec<u8>, hyper::Error>,
    table: &mut ConversionTable,
    next: (Stage, Action),
    response: Result<ErrorResponse, hyper::Error>,
)
    requires
        call_ensures(step, (Stage::ReadingBody, Event::BodyRead(body), table), next),
        next.1 is Fail ==> call_ensures(RequestError::into_response, (next.1->Fail_0,), response),
    ensures
        body is Ok ==> next == (Stage::ParsingRequest, Action::ParseRequest(body->Ok_0)),
        body is Err ==> next.0 == Stage::Closed && next.1 is Fail && response == Err::<
            ErrorResponse,
            hyper::Error,
        >(body->Err_0),
{
}

/// Law: a body that could not be parsed ends the request with the status code 400
/// and all that is known of the failure.
pub proof fn unparsed_bodies_are_explained(
    cause: ErrorInfo,
    table: &mut ConversionTable,
    next: (Stage, Action),
    response: Result<ErrorResponse, hyper::Error>,
    text: &mut String,
    written: Result<(), WriteError>,
)
    requires
        call_ensures(
            step,
            (Stage::ParsingRequest, Event::RequestParsed(Err(cause)), table),
            next,
        ),
        next.1 is Fail ==> call_ensures(RequestError::into_response, (next.1->Fail_0,), response),
        old(text)@ == "invalid request"@ + ": "@,
        call_ensures(write_error::<String>, (text, &cause), written),
    ensures
        next.0 == Stage::Closed,
        next.1 is Fail,
        response is Ok,
        response->Ok_0.status == 400,
        response->Ok_0.body@ == final(text)@,
{
}

/// Law: a request that was parsed goes where preparing its hedge leads: to the
/// hedge of the trade, to the refusal, or to the fault.
pub proof fn parsed_requests_are_prepared(
    request: HedgeRequest,
    table: &mut ConversionTable,
    next: (Stage, Action),
    prepared: Result<PendingHedge, Refusal>,
    response: Result<ErrorResponse, hyper::Error>,
    refusal: Result<ErrorResponse, hyper::Error>,
)
    requires
        call_ensures(
            step,
            (Stage::ParsingRequest, Event::RequestParsed(Ok(request)), table),
            next,
        ),
        call_ensures(prepare_hedge, (&*final(table), request), prepared),
        next.1 is Fail ==> call_ensures(RequestError::into_response, (next.1->Fail_0,), response),
        prepared matches Err(Refusal::Answer(error)) ==> call_ensures(
            RequestError::into_response,
            (error,),
            refusal,
        ),
    ensures
        (match prepared {
            Ok(trade) => {
                &&& next.0 == Stage::Hedging(trade)
                &&& next.1 == Action::Hedge(trade.to_hedge.value)
            },
            Err(Refusal::Answer(_)) => {
                &&& next.0 == Stage::Closed
                &&& next.1 is Fail
                &&& response is Ok
                &&& refusal is Ok
                &&& response->Ok_0.status == refusal->Ok_0.status
                &&& response->Ok_0.body@ == refusal->Ok_0.body@
            },
            Err(Refusal::Abort(fault)) => next == (Stage::Closed, Action::Abort(fault)),
        }),
{
}

/// Law: a trade whose hedge was made is settled with it, unless sats were to be
/// exchanged for sats, which ends without an answer.
pub proof fn hedged_trades_are_settled(
    trade: PendingHedge,
    hedged: Hedged,
    table: &mut ConversionTable,
    next: (Stage, Action),
    response: HedgeResponse,
)
    requires
        call_ensures(
            step,
            (Stage::Hedging(trade), Event::HedgeMade(Ok(hedged)), table),
            next,
        ),
        call_ensures(PendingHedge::settle, (trade, &*final(table), hedged), response),
    ensures
        trade.amount.currency == Currency::Sats && trade.target_currency == Currency::Sats
            ==> next == (Stage::Closed, Action::Abort(Fault::SatsForSats)),
        trade.amount.currency != Currency::Sats || trade.target_currency != Currency::Sats
            ==> next == (Stage::Serializing, Action::Serialize(response)),
{
}

/// Law: what was written down is the answer.
pub proof fn settlements_are_answered(
    text: String,
    table: &mut ConversionTable,
    next: (Stage, Action),
)
    requires
        call_ensures(step, (Stage::Serializing, Event::Serialized(Ok(text)), table), next),
    ensures
        next == (Stage::Closed, Action::RespondText(text)),
{
}

/// Law: a request is hedged only once its body was parsed, every step leads to a
/// later stage, and a request ends exactly where it is answered or given up.
pub proof fn steps_lead_to_an_end(
    stage: Stage,
    event: Event,
    table: &mut ConversionTable,
    next: (Stage, Action),
)
    requires
        call_ensures(step, (stage, event, table), next),
    ensures
        next.1 is Hedge <==> next.0 is Hedging,
        next.1 is Hedge ==> stage is ParsingRequest,
        next.1 is Serialize <==> next.0 is Serializing,
        next.1 is Serialize ==> stage is Hedging,
        next.0 is Closed <==> next.1 is RespondText || next.1 is Fail || next.1 is Abort,
        next.1 is RespondText ==> stage is Serializing,
        !(next.0 is FetchingPrice),
        !(next.1 is FetchPrice),
        !(next.1 is RespondPage),
        next.0 is ReadingBody ==> stage is FetchingPrice,
        next.0 is ParsingRequest ==> stage is ReadingBody,
{
}

/// Law: a trade of sats that meets no failure is served from the price of bitcoin
/// to the answer. What is hedged is the part of the sats, at the price that was
/// fetched, and what is told is settled at the price of the hedge, in the target
/// currency.
pub proof fn trades_of_sats_are_served(
    price: Double,
    body: Vec<u8>,
    request: HedgeRequest,
    hedged: Hedged,
    text: String,
    target: GovShitcoinId,
    rate: Price,
    priced: &mut ConversionTable,
    read: &mut ConversionTable,
    parsed: &mut ConversionTable,
    settled: &mut ConversionTable,
    answered: &mut ConversionTable,
    start: (Stage, Action),
    steps: Seq<(Stage, Action)>,
)
    requires
        request.currency@ == "sats"@,
        request.target_currency@ != "sats"@,
        old(priced).names().contains_key(request.target_currency@),
        old(priced).names()[request.target_currency@] == target,
        target.0 == 0 ==> rate == integer(1),
        target.0 > 0 ==> rate == old(priced).rates()[target.0 - 1],
        call_ensures(Double::is_percentage, (request.sat_fee_percentage,), true),
        steps.len() == 5,
        call_ensures(open, (Route::Hedge,), start),
        call_ensures(step, (start.0, Event::PriceFetched(Ok(price)), priced), steps[0]),
        *old(read) == *final(priced),
        call_ensures(step, (steps[0].0, Event::BodyRead(Ok(body)), read), steps[1]),
        *old(parsed) == *final(read),
        call_ensures(step, (steps[1].0, Event::RequestParsed(Ok(request)), parsed), steps[2]),
        *old(settled) == *final(parsed),
        call_ensures(step, (steps[2].0, Event::HedgeMade(Ok(hedged)), settled), steps[3]),
        *old(answered) == *final(settled),
        call_ensures(step, (steps[3].0, Event::Serialized(Ok(text)), answered), steps[4]),
    ensures
        start.1 == Action::FetchPrice,
        steps[0].1 == Action::ReadBody,
        steps[1].1 == Action::ParseRequest(body),
        ({
            let amount = number(request.amount);
            let fee = number(request.fee);
            let earned = product(
                fee,
                difference(integer(1), quotient(number(request.sat_fee_percentage), integer(100))),
            );
            let part = if request.direction == Direction::Buy {
                product(amount, difference(integer(1), earned))
            } else {
                product(negation(amount), sum(integer(1), earned))
            };
            let counter = rounding(
                quotient(
                    product(quotient(amount, integer(100_000_000)), hedged.hedge_price),
                    rate,
                ),
            );
            let to_hedge = rounding(
                product(quotient(rounding(part), integer(100_000_000)), number(price)),
            );
            &&& steps[2].1 == Action::Hedge(to_hedge)
            &&& steps[3].1 == Action::Serialize(
                HedgeResponse {
                    hedged_amount: to_hedge,
                    hedge_price: hedged.hedge_price,
                    liquidation_price: hedged.liquidation_price,
                    client_to_vekslak: if request.direction == Direction::Buy {
                        product(counter, sum(integer(1), fee))
                    } else {
                        amount
                    },
                    vekslak_to_client: if request.direction == Direction::Buy {
                        amount
                    } else {
                        product(counter, difference(integer(1), fee))
                    },
                },
            )
        }),
        steps[4] == (Stage::Closed, Action::RespondText(text)),
{
}

/// Law: a trade of a government currency that meets no failure is served from the
/// price of bitcoin to the answer. What is hedged is the native worth of the part
/// of the amount, and what is told is settled in bitcoin, at the price of the
/// hedge.
pub proof fn trades_of_government_currencies_are_served(
    price: Double,
    body: Vec<u8>,
    request: HedgeRequest,
    hedged: Hedged,
    text: String,
    id: GovShitcoinId,
    rate: Price,
    priced: &mut ConversionTable,
    read: &mut ConversionTable,
    parsed: &mut ConversionTable,
    settled: &mut ConversionTable,
    answered: &mut ConversionTable,
    start: (Stage, Action),
    steps: Seq<(Stage, Action)>,
)
    requires
        request.currency@ != "sats"@,
        old(priced).names().contains_key(request.currency@),
        old(priced).names()[request.currency@] == id,
        request.target_currency@ == "sats"@ || old(priced).names().contains_key(
            request.target_currency@,
        ),
        id.0 == 0 ==> rate == integer(1),
        id.0 > 0 ==> rate == old(priced).rates()[id.0 - 1],
        call_ensures(Double::is_percentage, (request.sat_fee_percentage,), true),
        steps.len() == 5,
        call_ensures(open, (Route::Hedge,), start),
        call_ensures(step, (start.0, Event::PriceFetched(Ok(price)), priced), steps[0]),
        *old(read) == *final(priced),
        call_ensures(step, (steps[0].0, Event::BodyRead(Ok(body)), read), steps[1]),
        *old(parsed) == *final(read),
        call_ensures(step, (steps[1].0, Event::RequestParsed(Ok(request)), parsed), steps[2]),
        *old(settled) == *final(parsed),
        call_ensures(step, (steps[2].0, Event::HedgeMade(Ok(hedged)), settled), steps[3]),
        *old(answered) == *final(settled),
        call_ensures(step, (steps[3].0, Event::Serialized(Ok(text)), answered), steps[4]),
    ensures
        start.1 == Action::FetchPrice,
        steps[0].1 == Action::ReadBody,
        steps[1].1 == Action::ParseRequest(body),
        ({
            let amount = number(request.amount);
            let fee = number(request.fee);
            let earned = product(
                fee,
                difference(integer(1), quotient(number(request.sat_fee_percentage), integer(100))),
            );
            let part = if request.direction == Direction::Sell {
                product(amount, difference(integer(1), earned))
            } else {
                product(negation(amount), sum(integer(1), earned))
            };
            let counter = quotient(rounding(product(amount, rate)), hedged.hedge_price);
            let to_hedge = rounding(product(rounding(part), rate));
            &&& steps[2].1 == Action::Hedge(to_hedge)
            &&& steps[3].1 == Action::Serialize(
                HedgeResponse {
                    hedged_amount: to_hedge,
                    hedge_price: hedged.hedge_price,
                    liquidation_price: hedged.liquidation_price,
                    client_to_vekslak: if request.direction == Direction::Buy {
                        product(counter, sum(integer(1), fee))
                    } else {
                        amount
                    },
                    vekslak_to_client: if request.direction == Direction::Buy {
                        amount
                    } else {
                        product(counter, difference(integer(1), fee))
                    },
                },
            )
        }),
        steps[4] == (Stage::Closed, Action::RespondText(text)),
{
}

} // verus!
