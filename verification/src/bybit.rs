//! Hedging on the ByBit exchange: which requests it is sent, how they are
//! signed, and what its replies mean.

use crate::error::ErrorInfo;
use crate::hedge::{Direction, Hedged};
use crate::number::{integer, number, Double, Expr, SIGN_BIT};
use crate::text::{decimal, hex, lower_hex, push_decimal, same_text};
use vstd::arithmetic::power2::{lemma2_to64, pow2};
use vstd::pervasive::unreached;
use vstd::prelude::*;
use vstd::string::*;
use vstd::utf8::encode_utf8;

verus! {

/// How long the first look at an order is put off, in milliseconds.
pub const FIRST_DELAY: u64 = 500;

/// Delays of at least so many milliseconds grow no further.
pub const LONG_DELAY: u64 = 60_000;

/// The message authentication code that HMAC-SHA256 gives for a message and a
/// key.
pub uninterp spec fn hmac_sha256(message: Seq<u8>, key: Seq<u8>) -> Seq<u8>;

/// Whether the bits of a message, and those of a key, can be counted in a
/// machine word. The block that is hashed before the message has 64 bytes.
pub open spec fn countable(message: Seq<u8>, key: Seq<u8>) -> bool {
    8 * (message.len() + 64) <= usize::MAX && 8 * key.len() <= usize::MAX
}

/// Calls `hmac_sha256::HMAC::mac`: 32 bytes that depend on the message and the
/// key alone. It counts the bits that it hashes in a machine word, which must
/// not overflow.
#[verifier::external_body]
fn mac(message: &[u8], key: &[u8]) -> (code: [u8; 32])
    requires
        countable(message@, key@),
    ensures
        code@ == hmac_sha256(message@, key@),
{
    hmac_sha256::HMAC::mac(message, key)
}

/// An order at the market price: which way, and how many contracts.
#[derive(Clone, Copy, Debug, PartialEq, Eq, Structural)]
pub struct MarketOrder {
    pub side: Direction,
    pub qty: u64,
}

/// The order that hedges a signed amount: the nearest whole number of
/// contracts. Amounts that round to zero are on the selling side.
pub open spec fn market_order(amount: Double) -> MarketOrder {
    MarketOrder {
        side: if !amount.negative() && amount.magnitude() > 0 {
            Direction::Buy
        } else {
            Direction::Sell
        },
        qty: amount.magnitude(),
    }
}

/// The name of a side of an order.
pub open spec fn side_name(side: Direction) -> Seq<char> {
    match side {
        Direction::Buy => "Buy"@,
        Direction::Sell => "Sell"@,
    }
}

/// The name of a side of an order.
fn side_text(side: Direction) -> (name: &'static str)
    ensures
        name@ == side_name(side),
{
    match side {
        Direction::Buy => "Buy",
        Direction::Sell => "Sell",
    }
}

impl MarketOrder {
    /// The order that hedges a signed amount.
    pub fn hedging(amount: Double) -> (order: MarketOrder)
        requires
            !amount.nan(),
            !amount.zero(),
        ensures
            order == market_order(amount),
    {
        let qty: u64 = amount.round_magnitude();
        let side = if amount.bits < SIGN_BIT && qty > 0 {
            Direction::Buy
        } else {
            Direction::Sell
        };
        MarketOrder { side, qty }
    }
}

/// A request to the exchange: where it goes, and what is sent along.
#[derive(Debug, PartialEq, Eq)]
pub struct SignedRequest {
    pub url: String,
    pub body: String,
}

impl Clone for SignedRequest {
    fn clone(&self) -> (copy: SignedRequest)
        ensures
            copy == *self,
    {
        SignedRequest { url: self.url.clone(), body: self.body.clone() }
    }
}

/// What the exchange replies to an order, or to a question about one.
#[derive(Debug, PartialEq, Eq)]
pub struct ByBitOrderResponse {
    pub result: Option<ByBitOrderResult>,
    pub ret_msg: Option<String>,
}

/// What the exchange knows of an order.
#[derive(Debug, PartialEq, Eq)]
pub struct ByBitOrderResult {
    pub price: Double,
    pub order_id: String,
    pub last_exec_price: Double,
}

/// The prices of everything that the exchange trades in.
#[derive(Debug, PartialEq, Eq)]
pub struct ByBitTickerResponse {
    pub result: Vec<ByBitTickerItem>,
}

/// The price of one thing that the exchange trades in.
#[derive(Debug, PartialEq, Eq)]
pub struct ByBitTickerItem {
    pub symbol: String,
    pub last_price: String,
}

impl ByBitTickerResponse {
    /// Whether an entry tells the price of bitcoin.
    pub open spec fn lists_btc(self) -> bool {
        exists|i: int|
            0 <= i < self.result@.len() && (#[trigger] self.result@[i]).symbol@ == "BTCUSD"@
    }

    /// Whether entry `i` is the first one that tells the price of bitcoin.
    pub open spec fn first_btc(self, i: int) -> bool {
        &&& 0 <= i < self.result@.len()
        &&& self.result@[i].symbol@ == "BTCUSD"@
        &&& forall|j: int| 0 <= j < i ==> (#[trigger] self.result@[j]).symbol@ != "BTCUSD"@
    }

    /// The price of bitcoin, as the exchange writes it, or what to say if the
    /// exchange did not tell it.
    pub fn btc_price(&self) -> (price: Result<String, String>)
        ensures
            (match price {
                Ok(text) => exists|i: int| #[trigger]
                    self.first_btc(i) && text == self.result@[i].last_price,
                Err(message) => {
                    &&& message@ == "Ticker for BTCUSD not found"@
                    &&& !self.lists_btc()
                },
            }),
    {
        let mut i: usize = 0;
        while i < self.result.len()
            invariant
                i <= self.result@.len(),
                forall|j: int| 0 <= j < i ==> (#[trigger] self.result@[j]).symbol@ != "BTCUSD"@,
            decreases self.result@.len() - i,
        {
            if same_text(self.result[i].symbol.as_str(), "BTCUSD") {
                assert(self.first_btc(i as int));
                return Ok(self.result[i].last_price.clone());
            }
            i = i + 1;
        }
        Err("Ticker for BTCUSD not found".to_owned())
    }
}

/// An order in the form in which the exchange takes it as a document.
#[derive(Debug, PartialEq, Eq)]
pub struct ByBitOrderRequest<'a> {
    pub api_key: &'a str,
    pub side: &'a str,
    pub symbol: &'a str,
    pub order_type: &'a str,
    pub qty: u64,
    pub time_in_force: &'a str,
    pub timestamp: u64,
}

impl<'a> ByBitOrderRequest<'a> {
    /// The order that hedges a signed amount, made at a time in seconds.
    pub fn new(api_key: &'a str, value: Double, timestamp: u64) -> (request: ByBitOrderRequest<'a>)
        requires
            !value.nan(),
            !value.zero(),
        ensures
            request.api_key@ == api_key@,
            request.side@ == side_name(market_order(value).side),
            request.symbol@ == "BTCUSD"@,
            request.order_type@ == "Market"@,
            request.qty == market_order(value).qty,
            request.time_in_force@ == "GoodTillCancel"@,
            request.timestamp == timestamp,
    {
        let order = MarketOrder::hedging(value);
        ByBitOrderRequest {
            api_key,
            side: side_text(order.side),
            symbol: "BTCUSD",
            order_type: "Market",
            qty: order.qty,
            time_in_force: "GoodTillCancel",
            timestamp,
        }
    }
}

/// Access to the exchange: the account, and the address of the exchange.
pub struct ByBitProvider {
    pub api_key: String,
    pub api_secret: String,
    pub base: String,
}

/// How far a hedge has got.
#[derive(Debug, PartialEq, Eq)]
pub enum HedgeStage {
    /// The order was sent at `timestamp`.
    Placing { timestamp: u128 },
    /// The next look at the order is `delay` milliseconds away.
    Waiting { query: SignedRequest, delay: u64 },
    /// The exchange was asked what became of the order.
    Querying { query: SignedRequest, delay: u64 },
    /// Nothing is left to do.
    Closed,
}

/// What happened on the way to a hedge.
#[derive(Debug, PartialEq, Eq)]
pub enum HedgeEvent {
    /// The exchange replied.
    Reply(ByBitOrderResponse),
    /// The exchange could not be reached, or its reply could not be read.
    Lost(ErrorInfo),
    /// The delay is over.
    Elapsed,
}

/// What is to be done next for a hedge.
#[derive(Debug, PartialEq, Eq)]
pub enum HedgeAction {
    /// Send this as a new order.
    Post(SignedRequest),
    /// Wait for so many milliseconds.
    Sleep(u64),
    /// Ask the exchange this.
    Get(SignedRequest),
    /// The hedge is made.
    Done(Hedged),
    /// The hedge failed, for this reason.
    Fail(ErrorInfo),
}

impl HedgeStage {
    /// Whether an event can happen at this stage.
    pub open spec fn expects(self, event: HedgeEvent) -> bool {
        match self {
            HedgeStage::Placing { .. } => event is Reply || event is Lost,
            HedgeStage::Waiting { .. } => event is Elapsed,
            HedgeStage::Querying { .. } => event is Reply || event is Lost,
            HedgeStage::Closed => false,
        }
    }
}

/// The delay that follows a delay of `delay` milliseconds.
pub open spec fn next_delay(delay: u64) -> u64 {
    if delay < LONG_DELAY {
        (2 * delay) as u64
    } else {
        delay
    }
}

impl ByBitProvider {
    /// What an order for `order` at the time `timestamp` says.
    pub open spec fn order_data(self, order: MarketOrder, timestamp: u128) -> Seq<char> {
        "api_key="@ + self.api_key@ + "&order_type=Market&qty="@ + decimal(order.qty as nat)
            + "&side="@ + side_name(order.side)
            + "&symbol=BTCUSD&time_in_force=GoodTillCancel&timestamp="@ + decimal(timestamp as nat)
    }

    /// What a question about an order says that was sent at the time
    /// `timestamp`.
    pub open spec fn query_data(self, order_id: Seq<char>, timestamp: u128) -> Seq<char> {
        "api_key="@ + self.api_key@ + "&order_id="@ + order_id + "&symbol=BTCUSD&timestamp="@
            + decimal(timestamp as nat)
    }

    /// The authentication code of a text under the secret of the account.
    pub open spec fn code(self, data: Seq<char>) -> Seq<u8> {
        hmac_sha256(encode_utf8(data), encode_utf8(self.api_secret@))
    }

    /// Whether a text has an authentication code.
    pub open spec fn signable(self, data: Seq<char>) -> bool {
        countable(encode_utf8(data), encode_utf8(self.api_secret@))
    }

    /// The address that `data` with the authentication code `code` is sent to.
    pub open spec fn address(self, path: Seq<char>, data: Seq<char>, code: Seq<u8>) -> Seq<char> {
        self.base@ + path + "?"@ + data + "&sign="@ + hex(code)
    }

    /// Whether a request carries `data`, and goes to `path` with the signature
    /// of that data, which has 64 digits.
    pub open spec fn signs(self, request: SignedRequest, path: Seq<char>, data: Seq<char>) -> bool {
        &&& request.body@ == data
        &&& request.url@ == self.address(path, data, self.code(data))
        &&& hex(self.code(data)).len() == 64
    }

    /// What an order for `order` at the time `timestamp` says.
    pub fn order_text(&self, order: MarketOrder, timestamp: u128) -> (data: String)
        ensures
            data@ == self.order_data(order, timestamp),
    {
        let mut data = "api_key=".to_owned();
        data.append(self.api_key.as_str());
        data.append("&order_type=Market&qty=");
        push_decimal(&mut data, order.qty as u128);
        data.append("&side=");
        data.append(side_text(order.side));
        data.append("&symbol=BTCUSD&time_in_force=GoodTillCancel&timestamp=");
        push_decimal(&mut data, timestamp);
        data
    }

    /// What a question about an order says that was sent at the time
    /// `timestamp`.
    pub fn query_text(&self, order_id: &str, timestamp: u128) -> (data: String)
        ensures
            data@ == self.query_data(order_id@, timestamp),
    {
        let mut data = "api_key=".to_owned();
        data.append(self.api_key.as_str());
        data.append("&order_id=");
        data.append(order_id);
        data.append("&symbol=BTCUSD&timestamp=");
        push_decimal(&mut data, timestamp);
        data
    }

    /// Whether a text is short enough to be signed.
    pub fn can_sign(&self, data: &str) -> (answer: bool)
        ensures
            answer == self.signable(data@),
    {
        let limit: usize = usize::MAX / 8;
        let message = data.as_bytes();
        let key = self.api_secret.as_str().as_bytes();
        message.len() <= limit - 64 && key.len() <= limit
    }

    /// The address that `data` with the authentication code `code` is sent to.
    pub fn signed_url(&self, path: &str, data: &str, code: &[u8]) -> (url: String)
        ensures
            url@ == self.address(path@, data@, code@),
    {
        let mut url = self.base.clone();
        url.append(path);
        url.append("?");
        url.append(data);
        url.append("&sign=");
        url.append(lower_hex(code).as_str());
        url
    }

    /// The request that sends `data` to `path`, signed.
    pub fn sign(&self, path: &str, data: String) -> (request: SignedRequest)
        requires
            self.signable(data@),
        ensures
            self.signs(request, path@, data@),
    {
        let code = mac(data.as_str().as_bytes(), self.api_secret.as_str().as_bytes());
        let url = self.signed_url(path, data.as_str(), &code);
        SignedRequest { url, body: data }
    }

    /// Starts to hedge a signed amount at a time in milliseconds: orders the
    /// nearest whole number of contracts.
    pub fn hedge(&self, amount: Double, timestamp: u128) -> (start: (HedgeStage, HedgeAction))
        requires
            !amount.nan(),
            !amount.zero(),
            self.signable(self.order_data(market_order(amount), timestamp)),
        ensures
            start.0 == (HedgeStage::Placing { timestamp }),
            start.1 is Post,
            self.signs(
                start.1->Post_0,
                "/v2/private/order/create"@,
                self.order_data(market_order(amount), timestamp),
            ),
    {
        let data = self.order_text(MarketOrder::hedging(amount), timestamp);
        (
            HedgeStage::Placing { timestamp },
            HedgeAction::Post(self.sign("/v2/private/order/create", data)),
        )
    }

    /// Whether whatever an event asks to be signed can be signed.
    pub open spec fn can_follow(self, stage: HedgeStage, event: HedgeEvent) -> bool {
        match (stage, event) {
            (HedgeStage::Placing { timestamp }, HedgeEvent::Reply(response)) => {
                response.result matches Some(order) ==> self.signable(
                    self.query_data(order.order_id@, timestamp),
                )
            },
            _ => true,
        }
    }

    /// Whether the stage and the action are what follows from an event.
    ///
    /// An order that the exchange took is looked at after a delay, and again
    /// after ever longer ones, until it has a price at which it was executed.
    /// That price is the price of the hedge. Where the exchange cannot be
    /// reached, the hedge fails and nothing more is sent.
    pub open spec fn follows(
        self,
        stage: HedgeStage,
        event: HedgeEvent,
        next: HedgeStage,
        action: HedgeAction,
    ) -> bool {
        match (stage, event) {
            (HedgeStage::Placing { timestamp }, HedgeEvent::Reply(response)) => {
                match response.result {
                    Some(order) => {
                        &&& next matches HedgeStage::Waiting { query, delay }
                        &&& delay == FIRST_DELAY
                        &&& self.signs(
                            query,
                            "/v2/private/order"@,
                            self.query_data(order.order_id@, timestamp),
                        )
                        &&& action == HedgeAction::Sleep(FIRST_DELAY)
                    },
                    None => {
                        &&& next == HedgeStage::Closed
                        &&& action matches HedgeAction::Fail(reason)
                        &&& reason.source is None
                        &&& reason.message@ == (match response.ret_msg {
                            Some(message) => message@,
                            None => "failed to hedge"@,
                        })
                    },
                }
            },
            (HedgeStage::Waiting { query, delay }, HedgeEvent::Elapsed) => {
                &&& next == HedgeStage::Querying { query, delay }
                &&& action == HedgeAction::Get(query)
            },
            (HedgeStage::Querying { query, delay }, HedgeEvent::Reply(response)) => {
                match response.result {
                    Some(order) => if order.last_exec_price.zero() {
                        &&& next == HedgeStage::Waiting { query, delay: next_delay(delay) }
                        &&& action == HedgeAction::Sleep(next_delay(delay))
                    } else {
                        &&& next == HedgeStage::Closed
                        &&& action == HedgeAction::Done(
                            Hedged {
                                hedge_price: number(order.last_exec_price),
                                liquidation_price: integer(0),
                            },
                        )
                    },
                    None => {
                        &&& next == HedgeStage::Closed
                        &&& action matches HedgeAction::Fail(reason)
                        &&& reason.source is None
                        &&& reason.message@ == "failed to get hedge last executed price"@
                    },
                }
            },
            (HedgeStage::Placing { .. }, HedgeEvent::Lost(failure))
            | (HedgeStage::Querying { .. }, HedgeEvent::Lost(failure)) => {
                &&& next == HedgeStage::Closed
                &&& action == HedgeAction::Fail(failure)
            },
            _ => false,
        }
    }

    /// What follows from an event.
    pub fn step(&self, stage: HedgeStage, event: HedgeEvent) -> (next: (HedgeStage, HedgeAction))
        requires
            stage.expects(event),
            self.can_follow(stage, event),
        ensures
            self.follows(stage, event, next.0, next.1),
    {
        match (stage, event) {
            (HedgeStage::Placing { timestamp }, HedgeEvent::Reply(response)) => {
                match response.result {
                    Some(order) => {
                        let data = self.query_text(order.order_id.as_str(), timestamp);
                        let query = self.sign("/v2/private/order", data);
                        (
                            HedgeStage::Waiting { query, delay: FIRST_DELAY },
                            HedgeAction::Sleep(FIRST_DELAY),
                        )
                    },
                    None => {
                        let reason = match response.ret_msg {
                            Some(message) => message,
                            None => "failed to hedge".to_owned(),
                        };
                        let reason = ErrorInfo { message: reason, source: None };
                        (HedgeStage::Closed, HedgeAction::Fail(reason))
                    },
                }
            },
            (HedgeStage::Waiting { query, delay }, HedgeEvent::Elapsed) => {
                let question = query.clone();
                (HedgeStage::Querying { query, delay }, HedgeAction::Get(question))
            },
            (HedgeStage::Querying { query, delay }, HedgeEvent::Reply(response)) => {
                match response.result {
                    Some(order) => {
                        if !order.last_exec_price.is_zero() {
                            let hedged = Hedged {
                                hedge_price: Expr::Number(order.last_exec_price),
                                liquidation_price: Expr::Integer(0),
                            };
                            return (HedgeStage::Closed, HedgeAction::Done(hedged));
                        }
                        let longer: u64 = if delay < LONG_DELAY {
                            delay * 2
                        } else {
                            delay
                        };
                        (HedgeStage::Waiting { query, delay: longer }, HedgeAction::Sleep(longer))
                    },
                    None => {
                        let reason = ErrorInfo {
                            message: "failed to get hedge last executed price".to_owned(),
                            source: None,
                        };
                        (HedgeStage::Closed, HedgeAction::Fail(reason))
                    },
                }
            },
            (HedgeStage::Placing { .. }, HedgeEvent::Lost(failure)) => {
                (HedgeStage::Closed, HedgeAction::Fail(failure))
            },
            (HedgeStage::Querying { .. }, HedgeEvent::Lost(failure)) => {
                (HedgeStage::Closed, HedgeAction::Fail(failure))
            },
            _ => unreached(),
        }
    }

    /// The address that tells all prices.
    pub fn tickers_url(&self) -> (url: String)
        ensures
            url@ == self.base@ + "/v2/public/tickers"@,
    {
        let mut url = self.base.clone();
        url.append("/v2/public/tickers");
        url
    }
}

/// The delay before look number `looks` at an order, counting from zero.
pub open spec fn delay_before(looks: nat) -> u64
    decreases looks,
{
    if looks == 0 {
        FIRST_DELAY
    } else {
        next_delay(delay_before((looks - 1) as nat))
    }
}

/// Law: delays double seven times, from half a second to 64 seconds, and stay
/// there.
pub proof fn delays_double_seven_times(looks: nat)
    ensures
        delay_before(looks) == FIRST_DELAY * pow2(if looks < 7 { looks } else { 7 }),
        FIRST_DELAY <= delay_before(looks) <= 64_000,
        delay_before(looks) <= delay_before(looks + 1),
    decreases looks,
{
    lemma2_to64();
    if looks > 0 {
        delays_double_seven_times((looks - 1) as nat);
    }
}

/// Law: a look at an order that finds no price asks the same question again,
/// after the next delay.
pub proof fn fruitless_looks_repeat_the_question(
    provider: ByBitProvider,
    query: SignedRequest,
    looks: nat,
    response: ByBitOrderResponse,
    asking: HedgeStage,
    question: HedgeAction,
    waiting: HedgeStage,
    pause: HedgeAction,
)
    requires
        provider.follows(
            HedgeStage::Waiting { query, delay: delay_before(looks) },
            HedgeEvent::Elapsed,
            asking,
            question,
        ),
        response.result matches Some(order) && order.last_exec_price.zero(),
        provider.follows(asking, HedgeEvent::Reply(response), waiting, pause),
    ensures
        question == HedgeAction::Get(query),
        waiting == (HedgeStage::Waiting { query, delay: delay_before(looks + 1) }),
        pause == HedgeAction::Sleep(delay_before(looks + 1)),
{
}

/// Law: a hedge orders once. Nothing that happens after the order was sent leads
/// to another order.
pub proof fn a_hedge_orders_once(
    provider: ByBitProvider,
    stage: HedgeStage,
    event: HedgeEvent,
    next: HedgeStage,
    action: HedgeAction,
)
    requires
        provider.follows(stage, event, next, action),
    ensures
        !(action is Post),
        !(next is Placing),
        next is Closed <==> action is Done || action is Fail,
{
}

/// Law: a hedge that lost the exchange fails with what was lost, and ends.
pub proof fn lost_exchanges_end_the_hedge(
    provider: ByBitProvider,
    stage: HedgeStage,
    failure: ErrorInfo,
    next: HedgeStage,
    action: HedgeAction,
)
    requires
        provider.follows(stage, HedgeEvent::Lost(failure), next, action),
    ensures
        next == HedgeStage::Closed,
        action == HedgeAction::Fail(failure),
        forall|event: HedgeEvent| !next.expects(event),
{
}

/// Law: a hedge is reported as made only once the exchange told a price at which
/// the order was executed, and at that price.
pub proof fn hedges_are_made_at_the_executed_price(
    provider: ByBitProvider,
    stage: HedgeStage,
    event: HedgeEvent,
    next: HedgeStage,
    hedged: Hedged,
)
    requires
        provider.follows(stage, event, next, HedgeAction::Done(hedged)),
    ensures
        stage is Querying,
        event matches HedgeEvent::Reply(response) && {
            &&& response.result matches Some(order)
            &&& !order.last_exec_price.zero()
            &&& hedged.hedge_price == number(order.last_exec_price)
        },
{
}

/// Law: amounts of opposite sign are hedged by orders of the same size, on
/// opposite sides unless the size is zero.
pub proof fn opposite_amounts_have_opposite_orders(amount: Double)
    requires
        !amount.nan(),
    ensures
        market_order(amount.opposite()).qty == market_order(amount).qty,
        market_order(amount).qty > 0 ==> market_order(amount.opposite()).side != market_order(
            amount,
        ).side,
        market_order(amount).qty == 0 ==> market_order(amount).side == Direction::Sell
            && market_order(amount.opposite()).side == Direction::Sell,
{
    amount.opposite_keeps_magnitude();
}

} // verus!
