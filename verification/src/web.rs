//! Serving requests: which there are, and the steps that lead to an answer.

use crate::conversion::{ConversionTable, Currency};
use crate::error::{ErrorInfo, RequestError, ResultExt};
use crate::hedge::{
    prepare_hedge, requested_trade, Fault, HedgeRequest, HedgeResponse, Hedged, PendingHedge,
    Refusal,
};
use crate::number::{number, Double, Expr};
use crate::text::same_text;
use vstd::pervasive::unreached;
use vstd::prelude::*;
use vstd::string::*;

verus! {

/// What a request is for.
#[derive(Clone, Copy, Debug, PartialEq, Eq, Structural)]
pub enum Route {
    /// The page that clients start from.
    Index,
    /// A trade.
    Hedge,
    /// Nothing that is served.
    Unknown,
}

/// What a request with this method for this path is for, where all that is
/// served lies below `root_path`.
pub open spec fn routed(root_path: Seq<char>, method: Seq<char>, path: Seq<char>) -> Route {
    if method == "GET"@ && path == root_path + "/"@ {
        Route::Index
    } else if method == "POST"@ && path == root_path + "/hedge"@ {
        Route::Hedge
    } else {
        Route::Unknown
    }
}

/// What a request with this method for this path is for.
pub fn route(root_path: &str, method: &str, path: &str) -> (route: Route)
    ensures
        route == routed(root_path@, method@, path@),
{
    let index = root_path.to_owned().concat("/");
    let hedge = root_path.to_owned().concat("/hedge");
    if same_text(method, "GET") && same_text(path, index.as_str()) {
        Route::Index
    } else if same_text(method, "POST") && same_text(path, hedge.as_str()) {
        Route::Hedge
    } else {
        Route::Unknown
    }
}

/// How far a trade has been served.
#[derive(Debug, PartialEq, Eq)]
pub enum Stage {
    /// The exchange was asked for the price of bitcoin.
    FetchingPrice,
    /// The body of the request is being read.
    ReadingBody,
    /// The body of the request is being parsed.
    ParsingRequest,
    /// The exchange is making the hedge of a trade.
    Hedging(PendingHedge),
    /// The answer is being written down.
    Serializing,
    /// Nothing is left to do.
    Closed,
}

/// What happened while a trade was served.
#[derive(Debug)]
pub enum Event {
    /// The exchange told the price of bitcoin.
    PriceFetched(Result<Double, ErrorInfo>),
    /// The body of the request was read.
    BodyRead(Result<Vec<u8>, hyper::Error>),
    /// The body of the request was parsed.
    RequestParsed(Result<HedgeRequest, ErrorInfo>),
    /// The exchange made the hedge.
    HedgeMade(Result<Hedged, ErrorInfo>),
    /// The answer was written down.
    Serialized(Result<String, ErrorInfo>),
}

/// What is to be done next for a request.
#[derive(Debug)]
pub enum Action {
    /// Read the start page, for [`answer_page`].
    ReadIndex,
    /// Ask the exchange for the price of bitcoin.
    FetchPrice,
    /// Read the body of the request.
    ReadBody,
    /// Parse the body of the request.
    ParseRequest(Vec<u8>),
    /// Hedge this amount of the native currency.
    Hedge(Expr),
    /// Write this answer down.
    Serialize(HedgeResponse),
    /// Answer with this page.
    RespondPage(Vec<u8>),
    /// Answer with this text.
    RespondText(String),
    /// Answer that the request failed.
    Fail(RequestError),
    /// Give up without an answer.
    Abort(Fault),
}

impl Stage {
    /// Whether an event can happen at this stage.
    pub open spec fn expects(self, event: Event) -> bool {
        match self {
            Stage::FetchingPrice => event is PriceFetched,
            Stage::ReadingBody => event is BodyRead,
            Stage::ParsingRequest => event is RequestParsed,
            Stage::Hedging(_) => event is HedgeMade,
            Stage::Serializing => event is Serialized,
            Stage::Closed => false,
        }
    }

    /// Whether a trade that is being hedged can be settled with a table.
    pub open spec fn valid(self, table: ConversionTable) -> bool {
        self matches Stage::Hedging(trade) ==> trade.convertible(table)
    }

    /// How many more events this stage can lead to.
    pub open spec fn remaining(self) -> nat {
        match self {
            Stage::FetchingPrice => 5,
            Stage::ReadingBody => 4,
            Stage::ParsingRequest => 3,
            Stage::Hedging(_) => 2,
            Stage::Serializing => 1,
            Stage::Closed => 0,
        }
    }
}

/// Whether a stage and an action are where a request on a route begins. Only
/// trades have further stages.
pub open spec fn opens(route: Route, stage: Stage, action: Action) -> bool {
    match route {
        Route::Index => stage == Stage::Closed && action == Action::ReadIndex,
        Route::Hedge => stage == Stage::FetchingPrice && action == Action::FetchPrice,
        Route::Unknown => {
            &&& stage == Stage::Closed
            &&& action matches Action::Fail(error)
            &&& error.valid()
            &&& error.blames_client(404, "path not found"@, None)
        },
    }
}

/// Begins to serve a request.
pub fn open(route: Route) -> (start: (Stage, Action))
    ensures
        opens(route, start.0, start.1),
{
    match route {
        Route::Index => (Stage::Closed, Action::ReadIndex),
        Route::Hedge => (Stage::FetchingPrice, Action::FetchPrice),
        Route::Unknown => (Stage::Closed, Action::Fail(RequestError::not_found())),
    }
}

/// Answers with the start page, once it was read.
pub fn answer_page(read: Result<Vec<u8>, ErrorInfo>) -> (action: Action)
    ensures
        action == (match read {
            Ok(page) => Action::RespondPage(page),
            Err(_) => Action::Fail(RequestError::Internal),
        }),
{
    match read.internal() {
        Ok(page) => Action::RespondPage(page),
        Err(error) => Action::Fail(error),
    }
}

/// Whether a stage and an action are what follows from a request that could be
/// parsed.
pub open spec fn follows_request(
    request: HedgeRequest,
    table: ConversionTable,
    next: Stage,
    action: Action,
) -> bool {
    match (table.decoded(request.currency@), table.decoded(request.target_currency@)) {
        (None, _) => {
            &&& next == Stage::Closed
            &&& action matches Action::Fail(error)
            &&& error.valid()
            &&& error.blames_client(400, "invalid currency"@, None)
        },
        (Some(_), None) => {
            &&& next == Stage::Closed
            &&& action matches Action::Fail(error)
            &&& error.valid()
            &&& error.blames_client(400, "invalid target currency"@, None)
        },
        (Some(currency), Some(target)) => if request.sat_fee_percentage.percentage() {
            let trade = requested_trade(request, currency, target, table);
            &&& next == Stage::Hedging(trade)
            &&& action == Action::Hedge(trade.to_hedge.value)
        } else {
            &&& next == Stage::Closed
            &&& action == Action::Abort(Fault::InvalidPercentage(request.sat_fee_percentage))
        },
    }
}

/// Whether a stage and an action are what follows from an event, with the table
/// as it is after the event.
pub open spec fn follows(
    stage: Stage,
    event: Event,
    table: ConversionTable,
    next: Stage,
    action: Action,
) -> bool {
    match (stage, event) {
        (Stage::FetchingPrice, Event::PriceFetched(result)) => match result {
            Ok(_) => next == Stage::ReadingBody && action == Action::ReadBody,
            Err(_) => next == Stage::Closed && action == Action::Fail(RequestError::Internal),
        },
        (Stage::ReadingBody, Event::BodyRead(result)) => match result {
            Ok(bytes) => next == Stage::ParsingRequest && action == Action::ParseRequest(bytes),
            Err(error) => next == Stage::Closed && action == Action::Fail(
                RequestError::Hyper(error),
            ),
        },
        (Stage::ParsingRequest, Event::RequestParsed(result)) => match result {
            Ok(request) => follows_request(request, table, next, action),
            Err(cause) => {
                &&& next == Stage::Closed
                &&& action matches Action::Fail(error)
                &&& error.valid()
                &&& error.blames_client(400, "invalid request"@, Some(cause))
            },
        },
        (Stage::Hedging(trade), Event::HedgeMade(result)) => match result {
            Ok(hedged) => if trade.sats_for_sats() {
                next == Stage::Closed && action == Action::Abort(Fault::SatsForSats)
            } else {
                next == Stage::Serializing && action == Action::Serialize(
                    trade.settlement(table, hedged),
                )
            },
            Err(_) => next == Stage::Closed && action == Action::Fail(RequestError::Internal),
        },
        (Stage::Serializing, Event::Serialized(result)) => {
            &&& next == Stage::Closed
            &&& action == (match result {
                Ok(text) => Action::RespondText(text),
                Err(_) => Action::Fail(RequestError::Internal),
            })
        },
        _ => false,
    }
}

/// Whether `after` is the table that an event leaves behind: a price that was
/// fetched is the one by which sats are converted from then on, and nothing
/// else changes.
pub open spec fn updated(before: ConversionTable, event: Event, after: ConversionTable) -> bool {
    &&& after.rates() == before.rates()
    &&& after.names() == before.names()
    &&& after.btc() == (match event {
        Event::PriceFetched(Ok(price)) => number(price),
        _ => before.btc(),
    })
}

/// Serves a trade further: what follows from an event.
pub fn step(stage: Stage, event: Event, table: &mut ConversionTable) -> (next: (Stage, Action))
    requires
        stage.expects(event),
        stage.valid(*old(table)),
        old(table).valid(),
    ensures
        final(table).valid(),
        updated(*old(table), event, *final(table)),
        follows(stage, event, *final(table), next.0, next.1),
        next.0.valid(*final(table)),
        next.0.remaining() < stage.remaining(),
{
    match (stage, event) {
        (Stage::FetchingPrice, Event::PriceFetched(result)) => match result.internal() {
            Ok(price) => {
                table.update_btc_price(Expr::Number(price));
                (Stage::ReadingBody, Action::ReadBody)
            },
            Err(error) => (Stage::Closed, Action::Fail(error)),
        },
        (Stage::ReadingBody, Event::BodyRead(result)) => match result {
            Ok(bytes) => (Stage::ParsingRequest, Action::ParseRequest(bytes)),
            Err(error) => (Stage::Closed, Action::Fail(RequestError::from(error))),
        },
        (Stage::ParsingRequest, Event::RequestParsed(result)) => {
            match result.client(400, "invalid request") {
                Ok(request) => match prepare_hedge(table, request) {
                    Ok(trade) => {
                        let to_hedge = trade.to_hedge.value.clone();
                        (Stage::Hedging(trade), Action::Hedge(to_hedge))
                    },
                    Err(Refusal::Answer(error)) => (Stage::Closed, Action::Fail(error)),
                    Err(Refusal::Abort(fault)) => (Stage::Closed, Action::Abort(fault)),
                },
                Err(error) => (Stage::Closed, Action::Fail(error)),
            }
        },
        (Stage::Hedging(trade), Event::HedgeMade(result)) => match result.internal() {
            Ok(hedged) => {
                if trade.is_sats_for_sats() {
                    (Stage::Closed, Action::Abort(Fault::SatsForSats))
                } else {
                    (Stage::Serializing, Action::Serialize(trade.settle(table, hedged)))
                }
            },
            Err(error) => (Stage::Closed, Action::Fail(error)),
        },
        (Stage::Serializing, Event::Serialized(result)) => match result.internal() {
            Ok(text) => (Stage::Closed, Action::RespondText(text)),
            Err(error) => (Stage::Closed, Action::Fail(error)),
        },
        _ => unreached(),
    }
}

/// Law: nothing is hedged but a request that names two known currencies and
/// a share of the fee from zero to a hundred per cent, and what is hedged is
/// what that request asks for.
pub proof fn only_sound_requests_are_hedged(
    stage: Stage,
    event: Event,
    table: ConversionTable,
    next: Stage,
    action: Action,
)
    requires
        follows(stage, event, table, next, action),
        action is Hedge,
    ensures
        event matches Event::RequestParsed(Ok(request)) && {
            &&& table.decoded(request.currency@) matches Some(currency)
            &&& table.decoded(request.target_currency@) matches Some(target)
            &&& request.sat_fee_percentage.percentage()
            &&& next == Stage::Hedging(requested_trade(request, currency, target, table))
            &&& action == Action::Hedge(next->Hedging_0.to_hedge.value)
        },
{
}

/// Law: a request is hedged at most once. No stage from the hedge on leads to
/// another one, and every event brings the request closer to its end.
pub proof fn a_request_is_hedged_once(
    stage: Stage,
    event: Event,
    table: ConversionTable,
    next: Stage,
    action: Action,
)
    requires
        follows(stage, event, table, next, action),
    ensures
        next.remaining() < stage.remaining(),
        action is Hedge ==> next.remaining() == 2,
        stage.remaining() <= 2 ==> !(action is Hedge),
{
}

/// Law: whatever is not served is answered as not found, and nothing is done
/// for it.
pub proof fn unknown_requests_are_not_found(
    root_path: Seq<char>,
    method: Seq<char>,
    path: Seq<char>,
    stage: Stage,
    action: Action,
)
    requires
        opens(routed(root_path, method, path), stage, action),
        !(method == "GET"@ && path == root_path + "/"@),
        !(method == "POST"@ && path == root_path + "/hedge"@),
    ensures
        stage == Stage::Closed,
        action is Fail,
        action->Fail_0.answer() == Some((404u16, "path not found"@)),
{
}

/// Law: what a refused trade is answered. Failures of the desk and of the
/// exchange are not explained to the client, a request that cannot be parsed is
/// explained in full, and where the connection failed there is no answer. No
/// other trade is refused.
pub proof fn refused_trades_are_answered(
    stage: Stage,
    event: Event,
    table: ConversionTable,
    next: Stage,
    action: Action,
)
    requires
        follows(stage, event, table, next, action),
    ensures
        action is Fail ==> next == Stage::Closed,
        (match event {
            Event::PriceFetched(Err(_)) | Event::HedgeMade(Err(_)) | Event::Serialized(Err(_)) => {
                &&& action is Fail
                &&& action->Fail_0.answer() == Some((500u16, Seq::<char>::empty()))
            },
            Event::BodyRead(Err(error)) => {
                &&& action == Action::Fail(RequestError::Hyper(error))
                &&& action->Fail_0.answer() is None
            },
            Event::RequestParsed(Err(cause)) => {
                &&& action is Fail
                &&& action->Fail_0.answer() == Some(
                    (400u16, "invalid request"@ + ": "@ + cause.text()),
                )
            },
            Event::RequestParsed(Ok(request)) => {
                if table.decoded(request.currency@) is None {
                    &&& action is Fail
                    &&& action->Fail_0.answer() == Some((400u16, "invalid currency"@))
                } else if table.decoded(request.target_currency@) is None {
                    &&& action is Fail
                    &&& action->Fail_0.answer() == Some((400u16, "invalid target currency"@))
                } else {
                    !(action is Fail)
                }
            },
            _ => !(action is Fail),
        }),
{
}

/// Law: a trade that meets no failure is hedged and settled with the price of
/// bitcoin that was fetched for it, as its request asks for.
pub proof fn undisturbed_trade(
    before: ConversionTable,
    price: Double,
    body: Vec<u8>,
    request: HedgeRequest,
    hedged: Hedged,
    text: String,
    table: ConversionTable,
    stages: Seq<Stage>,
    actions: Seq<Action>,
)
    requires
        before.decoded(request.currency@) is Some,
        before.decoded(request.target_currency@) is Some,
        request.sat_fee_percentage.percentage(),
        before.decoded(request.currency@) != Some(Currency::Sats) || before.decoded(
            request.target_currency@,
        ) != Some(Currency::Sats),
        stages.len() == 6,
        actions.len() == 6,
        opens(Route::Hedge, stages[0], actions[0]),
        updated(before, Event::PriceFetched(Ok(price)), table),
        follows(stages[0], Event::PriceFetched(Ok(price)), table, stages[1], actions[1]),
        follows(stages[1], Event::BodyRead(Ok(body)), table, stages[2], actions[2]),
        follows(stages[2], Event::RequestParsed(Ok(request)), table, stages[3], actions[3]),
        follows(stages[3], Event::HedgeMade(Ok(hedged)), table, stages[4], actions[4]),
        follows(stages[4], Event::Serialized(Ok(text)), table, stages[5], actions[5]),
    ensures
        table.btc() == number(price),
        ({
            let trade = requested_trade(
                request,
                before.decoded(request.currency@)->Some_0,
                before.decoded(request.target_currency@)->Some_0,
                table,
            );
            &&& actions == seq![
                Action::FetchPrice,
                Action::ReadBody,
                Action::ParseRequest(body),
                Action::Hedge(trade.to_hedge.value),
                Action::Serialize(trade.settlement(table, hedged)),
                Action::RespondText(text),
            ]
            &&& stages[5] == Stage::Closed
        }),
{
}

} // verus!
