//! What holds of hedges on the exchange.

use crate::bybit::{
    hmac_sha256, ByBitOrderRequest, ByBitOrderResponse, ByBitProvider, ByBitTickerResponse,
    HedgeAction, HedgeEvent, HedgeStage, MarketOrder, SignedRequest,
};
use crate::error::ErrorInfo;
use crate::hedge::{Direction, Hedged};
use crate::laws::number::lemma_zero;
use crate::laws::text::{is_decimal_digit, is_hex_digit, lemma_decimal, lemma_hex};
use crate::number::{integer, number, Double};
use crate::text::{decimal, hex};
use vstd::arithmetic::power2::{lemma2_to64, pow2};
use vstd::prelude::*;
use vstd::utf8::encode_utf8;

verus! {

/// Whether `part` stands in `text` at `at`.
pub open spec fn stands_at(text: Seq<char>, part: Seq<char>, at: int) -> bool {
    0 <= at && at + part.len() <= text.len() && text.subrange(at, at + part.len()) == part
}

/// Whether `part` stands in `text` somewhere.
pub open spec fn stands_in(text: Seq<char>, part: Seq<char>) -> bool {
    exists|at: int| stands_at(text, part, at)
}

/// An order as it is posted.
pub open spec fn posted(
    api_key: Seq<char>,
    qty: nat,
    side: Seq<char>,
    timestamp: nat,
) -> Seq<char> {
    "api_key="@ + api_key + "&order_type=Market&qty="@ + decimal(qty) + "&side="@ + side
        + "&symbol=BTCUSD&time_in_force=GoodTillCancel&timestamp="@ + decimal(timestamp)
}

/// A question as it is asked.
pub open spec fn asked(api_key: Seq<char>, order_id: Seq<char>, timestamp: nat) -> Seq<char> {
    "api_key="@ + api_key + "&order_id="@ + order_id + "&symbol=BTCUSD&timestamp="@ + decimal(
        timestamp,
    )
}

/// Whether a request carries `data` and goes to the address with that data and
/// its signature, which is the code of the data under the secret.
pub open spec fn carries(
    provider: ByBitProvider,
    request: SignedRequest,
    path: Seq<char>,
    data: Seq<char>,
) -> bool {
    let signature = hex(hmac_sha256(encode_utf8(data), encode_utf8(provider.api_secret@)));
    &&& request.body@ == data
    &&& request.url@ == provider.base@ + path + "?"@ + data + "&sign="@ + signature
    &&& signature.len() == 64
    &&& forall|i: int| 0 <= i < 64 ==> is_hex_digit(#[trigger] signature[i])
}

/// Texts that end in the same way are the same before that.
proof fn lemma_same_end(a: Seq<char>, b: Seq<char>, end: Seq<char>)
    requires
        a + end == b + end,
    ensures
        a == b,
{
    assert((a + end).len() == (b + end).len());
    assert(a =~= (a + end).subrange(0, a.len() as int));
    assert(b =~= (b + end).subrange(0, b.len() as int));
}

/// Texts that begin in the same way are the same after that.
proof fn lemma_same_start(start: Seq<char>, a: Seq<char>, b: Seq<char>)
    requires
        start + a == start + b,
    ensures
        a == b,
{
    assert((start + a).len() == (start + b).len());
    assert(a =~= (start + a).skip(start.len() as int));
    assert(b =~= (start + b).skip(start.len() as int));
}

/// A text that ends in digits tells where they begin.
proof fn lemma_digits_at_the_end(a: Seq<char>, m: nat, b: Seq<char>, n: nat)
    requires
        a + decimal(m) == b + decimal(n),
        a.len() > 0,
        b.len() > 0,
        !is_decimal_digit(a.last()),
        !is_decimal_digit(b.last()),
    ensures
        a == b,
        m == n,
{
    lemma_decimal(m);
    lemma_decimal(n);
    let left = a + decimal(m);
    let right = b + decimal(n);
    assert(left.len() == right.len());
    if a.len() < b.len() {
        assert(right[b.len() - 1] == b.last());
        assert(left[b.len() - 1] == decimal(m)[b.len() - 1 - a.len()]);
    }
    if b.len() < a.len() {
        assert(left[a.len() - 1] == a.last());
        assert(right[a.len() - 1] == decimal(n)[a.len() - 1 - b.len()]);
    }
    assert(a =~= left.subrange(0, a.len() as int));
    assert(b =~= right.subrange(0, b.len() as int));
    lemma_same_start(a, decimal(m), decimal(n));
}

/// Orders as they are posted differ where their parts do.
proof fn lemma_posted_tells(
    k1: Seq<char>,
    q1: nat,
    s1: Seq<char>,
    t1: nat,
    k2: Seq<char>,
    q2: nat,
    s2: Seq<char>,
    t2: nat,
)
    requires
        posted(k1, q1, s1, t1) == posted(k2, q2, s2, t2),
        s1 == "Buy"@ || s1 == "Sell"@,
        s2 == "Buy"@ || s2 == "Sell"@,
    ensures
        k1 == k2,
        q1 == q2,
        s1 == s2,
        t1 == t2,
{
    reveal_strlit("Buy");
    reveal_strlit("Sell");
    reveal_strlit("api_key=");
    reveal_strlit("&order_type=Market&qty=");
    reveal_strlit("&side=");
    reveal_strlit("&symbol=BTCUSD&time_in_force=GoodTillCancel&timestamp=");
    let start = "api_key="@;
    let middle = "&order_type=Market&qty="@;
    let end = "&symbol=BTCUSD&time_in_force=GoodTillCancel&timestamp="@;
    let a1 = start + k1 + middle;
    let a2 = start + k2 + middle;
    let b1 = a1 + decimal(q1) + "&side="@;
    let b2 = a2 + decimal(q2) + "&side="@;
    assert((b1 + s1 + end).last() == '=');
    assert((b2 + s2 + end).last() == '=');
    lemma_digits_at_the_end(b1 + s1 + end, t1, b2 + s2 + end, t2);
    lemma_same_end(b1 + s1, b2 + s2, end);
    assert((b1 + s1).last() == s1.last());
    assert((b2 + s2).last() == s2.last());
    assert(s1 == s2);
    lemma_same_end(b1, b2, s1);
    lemma_same_end(a1 + decimal(q1), a2 + decimal(q2), "&side="@);
    assert(a1.last() == '=' && a2.last() == '=');
    lemma_digits_at_the_end(a1, q1, a2, q2);
    lemma_same_end(start + k1, start + k2, middle);
    lemma_same_start(start, k1, k2);
}

/// A posted order has its side between the quantity and the symbol.
proof fn lemma_side_stands_in(api_key: Seq<char>, qty: nat, side: Seq<char>, timestamp: nat)
    requires
        side == "Buy"@ || side == "Sell"@,
    ensures
        side == "Buy"@ ==> stands_in(posted(api_key, qty, side, timestamp), "&side=Buy&"@),
        side == "Sell"@ ==> stands_in(posted(api_key, qty, side, timestamp), "&side=Sell&"@),
{
    reveal_strlit("Buy");
    reveal_strlit("Sell");
    reveal_strlit("&side=");
    reveal_strlit("&side=Buy&");
    reveal_strlit("&side=Sell&");
    reveal_strlit("&symbol=BTCUSD&time_in_force=GoodTillCancel&timestamp=");
    let before = "api_key="@ + api_key + "&order_type=Market&qty="@ + decimal(qty);
    let text = posted(api_key, qty, side, timestamp);
    let at = before.len() as int;
    if side == "Buy"@ {
        assert(text.subrange(at, at + 10) =~= "&side=Buy&"@);
        assert(stands_at(text, "&side=Buy&"@, at));
    } else {
        assert(text.subrange(at, at + 11) =~= "&side=Sell&"@);
        assert(stands_at(text, "&side=Sell&"@, at));
    }
}

/// Law: an order is for the nearest whole number of contracts. It buys where the
/// amount is positive and does not round to zero, and sells where not.
pub proof fn orders_take_the_side_of_the_amount(amount: Double, qty: u64, order: MarketOrder)
    requires
        call_ensures(Double::round_magnitude, (amount,), qty),
        call_ensures(MarketOrder::hedging, (amount,), order),
    ensures
        order.qty == qty,
        amount.bits < 0x8000_0000_0000_0000 && qty > 0 ==> order.side == Direction::Buy,
        amount.bits >= 0x8000_0000_0000_0000 || qty == 0 ==> order.side == Direction::Sell,
{
}

/// Law: an order says the account, the quantity, the side and the time that it
/// is for.
pub proof fn orders_say_what_they_are_for(
    provider: ByBitProvider,
    order: MarketOrder,
    timestamp: u128,
    data: String,
)
    requires
        call_ensures(ByBitProvider::order_text, (&provider, order, timestamp), data),
    ensures
        order.side == Direction::Buy ==> data@ == posted(
            provider.api_key@,
            order.qty as nat,
            "Buy"@,
            timestamp as nat,
        ),
        order.side == Direction::Sell ==> data@ == posted(
            provider.api_key@,
            order.qty as nat,
            "Sell"@,
            timestamp as nat,
        ),
        order.side == Direction::Buy ==> stands_in(data@, "&side=Buy&"@),
        order.side == Direction::Sell ==> stands_in(data@, "&side=Sell&"@),
{
    let side = if order.side == Direction::Buy {
        "Buy"@
    } else {
        "Sell"@
    };
    lemma_side_stands_in(provider.api_key@, order.qty as nat, side, timestamp as nat);
}

/// Law: the account, the quantity, the side and the time can be read from an
/// order. Orders that differ in any of them have different texts.
pub proof fn orders_can_be_told_apart(
    one: ByBitProvider,
    order: MarketOrder,
    timestamp: u128,
    other: ByBitProvider,
    other_order: MarketOrder,
    other_timestamp: u128,
    data: String,
    other_data: String,
)
    requires
        call_ensures(ByBitProvider::order_text, (&one, order, timestamp), data),
        call_ensures(ByBitProvider::order_text, (&other, other_order, other_timestamp), other_data),
        data@ == other_data@,
    ensures
        one.api_key@ == other.api_key@,
        order.qty == other_order.qty,
        order.side == other_order.side,
        timestamp == other_timestamp,
{
    orders_say_what_they_are_for(one, order, timestamp, data);
    orders_say_what_they_are_for(other, other_order, other_timestamp, other_data);
    let side = if order.side == Direction::Buy {
        "Buy"@
    } else {
        "Sell"@
    };
    let other_side = if other_order.side == Direction::Buy {
        "Buy"@
    } else {
        "Sell"@
    };
    lemma_posted_tells(
        one.api_key@,
        order.qty as nat,
        side,
        timestamp as nat,
        other.api_key@,
        other_order.qty as nat,
        other_side,
        other_timestamp as nat,
    );
    reveal_strlit("Buy");
    reveal_strlit("Sell");
    assert("Buy"@.len() != "Sell"@.len());
}

/// Law: a question says the account, the order and the time of the order.
/// Questions of one account that differ in any of them have different texts.
pub proof fn questions_can_be_told_apart(
    provider: ByBitProvider,
    order_id: &str,
    timestamp: u128,
    other_id: &str,
    other_timestamp: u128,
    data: String,
    other_data: String,
)
    requires
        call_ensures(ByBitProvider::query_text, (&provider, order_id, timestamp), data),
        call_ensures(ByBitProvider::query_text, (&provider, other_id, other_timestamp), other_data),
    ensures
        data@ == asked(provider.api_key@, order_id@, timestamp as nat),
        data@ == other_data@ ==> order_id@ == other_id@ && timestamp == other_timestamp,
{
    if data@ == other_data@ {
        reveal_strlit("&symbol=BTCUSD&timestamp=");
        let end = "&symbol=BTCUSD&timestamp="@;
        let start = "api_key="@ + provider.api_key@ + "&order_id="@;
        let a = start + order_id@;
        let b = start + other_id@;
        assert((a + end).last() == '=');
        assert((b + end).last() == '=');
        lemma_digits_at_the_end(a + end, timestamp as nat, b + end, other_timestamp as nat);
        lemma_same_end(a, b, end);
        lemma_same_start(start, order_id@, other_id@);
    }
}

/// Law: a text can be signed where its bits and those of the secret can be
/// counted.
pub proof fn short_texts_can_be_signed(provider: ByBitProvider, data: &str, answer: bool)
    requires
        call_ensures(ByBitProvider::can_sign, (&provider, data), answer),
    ensures
        answer <==> 8 * (encode_utf8(data@).len() + 64) <= usize::MAX && 8 * encode_utf8(
            provider.api_secret@,
        ).len() <= usize::MAX,
{
}

/// Law: an address has the path, the data and the code in base sixteen, in this
/// order.
pub proof fn addresses_have_all_parts(
    provider: ByBitProvider,
    path: &str,
    data: &str,
    code: &[u8],
    url: String,
)
    requires
        call_ensures(ByBitProvider::signed_url, (&provider, path, data, code), url),
    ensures
        url@ == provider.base@ + path@ + "?"@ + data@ + "&sign="@ + hex(code@),
{
}

/// Law: every text that can be signed is sent as it is, with its code under the
/// secret as the signature.
pub proof fn texts_are_sent_signed(
    provider: ByBitProvider,
    path: &str,
    text: &str,
    data: String,
    request: SignedRequest,
)
    requires
        text@ == data@,
        call_ensures(ByBitProvider::can_sign, (&provider, text), true),
        call_ensures(ByBitProvider::sign, (&provider, path, data), request),
    ensures
        call_requires(ByBitProvider::sign, (&provider, path, data)),
        carries(provider, request, path@, data@),
{
    lemma_hex(hmac_sha256(encode_utf8(data@), encode_utf8(provider.api_secret@)));
}

/// Law: a copy of a request is the same request.
pub proof fn copies_of_requests_are_the_same(request: SignedRequest, copy: SignedRequest)
    requires
        call_ensures(SignedRequest::clone, (&request,), copy),
    ensures
        copy == request,
{
}

/// Law: a hedge begins with one order for the amount, which is posted to the
/// exchange. It buys where the amount is positive and does not round to zero, and
/// sells where not.
pub proof fn hedges_begin_with_an_order(
    provider: ByBitProvider,
    amount: Double,
    timestamp: u128,
    qty: u64,
    start: (HedgeStage, HedgeAction),
)
    requires
        call_ensures(Double::round_magnitude, (amount,), qty),
        call_ensures(ByBitProvider::hedge, (&provider, amount, timestamp), start),
    ensures
        start.0 == (HedgeStage::Placing { timestamp }),
        start.1 is Post,
        ({
            let request = start.1->Post_0;
            let buys = amount.bits < 0x8000_0000_0000_0000 && qty > 0;
            let side = if buys {
                "Buy"@
            } else {
                "Sell"@
            };
            &&& carries(
                provider,
                request,
                "/v2/private/order/create"@,
                posted(provider.api_key@, qty as nat, side, timestamp as nat),
            )
            &&& buys ==> stands_in(request.body@, "&side=Buy&"@)
            &&& !buys ==> stands_in(request.body@, "&side=Sell&"@)
        }),
{
    let side = if amount.bits < 0x8000_0000_0000_0000 && qty > 0 {
        "Buy"@
    } else {
        "Sell"@
    };
    let data = posted(provider.api_key@, qty as nat, side, timestamp as nat);
    lemma_hex(hmac_sha256(encode_utf8(data), encode_utf8(provider.api_secret@)));
    lemma_side_stands_in(provider.api_key@, qty as nat, side, timestamp as nat);
}

/// Law: hedges that post the same text hedge the same number of contracts on the
/// same side, at the same time and for the same account.
pub proof fn hedges_can_be_told_apart(
    one: ByBitProvider,
    amount: Double,
    timestamp: u128,
    other: ByBitProvider,
    other_amount: Double,
    other_timestamp: u128,
    qty: u64,
    other_qty: u64,
    start: (HedgeStage, HedgeAction),
    other_start: (HedgeStage, HedgeAction),
)
    requires
        call_ensures(Double::round_magnitude, (amount,), qty),
        call_ensures(Double::round_magnitude, (other_amount,), other_qty),
        call_ensures(ByBitProvider::hedge, (&one, amount, timestamp), start),
        call_ensures(ByBitProvider::hedge, (&other, other_amount, other_timestamp), other_start),
        start.1->Post_0.body@ == other_start.1->Post_0.body@,
    ensures
        one.api_key@ == other.api_key@,
        timestamp == other_timestamp,
        qty == other_qty,
        qty > 0 ==> (amount.bits < 0x8000_0000_0000_0000 <==> other_amount.bits
            < 0x8000_0000_0000_0000),
{
    hedges_begin_with_an_order(one, amount, timestamp, qty, start);
    hedges_begin_with_an_order(other, other_amount, other_timestamp, other_qty, other_start);
    let side = if amount.bits < 0x8000_0000_0000_0000 && qty > 0 {
        "Buy"@
    } else {
        "Sell"@
    };
    let other_side = if other_amount.bits < 0x8000_0000_0000_0000 && other_qty > 0 {
        "Buy"@
    } else {
        "Sell"@
    };
    lemma_posted_tells(
        one.api_key@,
        qty as nat,
        side,
        timestamp as nat,
        other.api_key@,
        other_qty as nat,
        other_side,
        other_timestamp as nat,
    );
    reveal_strlit("Buy");
    reveal_strlit("Sell");
    assert("Buy"@.len() != "Sell"@.len());
}

/// Law: every amount that is a number and not zero can be hedged, where its order
/// can be signed.
pub proof fn sound_amounts_can_be_hedged(
    provider: ByBitProvider,
    amount: Double,
    timestamp: u128,
    order: MarketOrder,
    data: String,
    text: &str,
)
    requires
        call_ensures(Double::is_nan, (amount,), false),
        call_ensures(Double::is_zero, (amount,), false),
        call_ensures(MarketOrder::hedging, (amount,), order),
        call_ensures(ByBitProvider::order_text, (&provider, order, timestamp), data),
        text@ == data@,
        call_ensures(ByBitProvider::can_sign, (&provider, text), true),
    ensures
        call_requires(MarketOrder::hedging, (amount,)),
        call_requires(ByBitProvider::hedge, (&provider, amount, timestamp)),
{
}

/// Law: an order that the exchange took is looked at after half a second, by a
/// question about that order.
pub proof fn taken_orders_are_looked_at(
    provider: ByBitProvider,
    timestamp: u128,
    response: ByBitOrderResponse,
    next: (HedgeStage, HedgeAction),
)
    requires
        response.result is Some,
        call_ensures(
            ByBitProvider::step,
            (&provider, HedgeStage::Placing { timestamp }, HedgeEvent::Reply(response)),
            next,
        ),
    ensures
        next.1 == HedgeAction::Sleep(500),
        (match next.0 {
            HedgeStage::Waiting { query, delay } => {
                &&& delay == 500
                &&& carries(
                    provider,
                    query,
                    "/v2/private/order"@,
                    asked(
                        provider.api_key@,
                        response.result->Some_0.order_id@,
                        timestamp as nat,
                    ),
                )
            },
            _ => false,
        }),
{
    let data = asked(provider.api_key@, response.result->Some_0.order_id@, timestamp as nat);
    lemma_hex(hmac_sha256(encode_utf8(data), encode_utf8(provider.api_secret@)));
}

/// Law: every order that the exchange took can be followed, where the question
/// about it can be signed.
pub proof fn taken_orders_can_be_followed(
    provider: ByBitProvider,
    timestamp: u128,
    response: ByBitOrderResponse,
    order_id: &str,
    data: String,
    text: &str,
)
    requires
        response.result is Some,
        order_id@ == response.result->Some_0.order_id@,
        call_ensures(ByBitProvider::query_text, (&provider, order_id, timestamp), data),
        text@ == data@,
        call_ensures(ByBitProvider::can_sign, (&provider, text), true),
    ensures
        call_requires(
            ByBitProvider::step,
            (&provider, HedgeStage::Placing { timestamp }, HedgeEvent::Reply(response)),
        ),
{
}

/// Law: an order that the exchange did not take fails, with the reason that the
/// exchange gave, if it gave one.
pub proof fn refused_orders_fail(
    provider: ByBitProvider,
    timestamp: u128,
    response: ByBitOrderResponse,
    next: (HedgeStage, HedgeAction),
)
    requires
        response.result is None,
        call_ensures(
            ByBitProvider::step,
            (&provider, HedgeStage::Placing { timestamp }, HedgeEvent::Reply(response)),
            next,
        ),
    ensures
        call_requires(
            ByBitProvider::step,
            (&provider, HedgeStage::Placing { timestamp }, HedgeEvent::Reply(response)),
        ),
        next.0 == HedgeStage::Closed,
        next.1 is Fail,
        next.1->Fail_0.source is None,
        response.ret_msg is Some ==> next.1->Fail_0.message@ == response.ret_msg->Some_0@,
        response.ret_msg is None ==> next.1->Fail_0.message@ == "failed to hedge"@,
{
}

/// Law: when a delay is over, the question is asked.
pub proof fn delays_end_in_the_question(
    provider: ByBitProvider,
    query: SignedRequest,
    delay: u64,
    next: (HedgeStage, HedgeAction),
)
    requires
        call_ensures(
            ByBitProvider::step,
            (&provider, HedgeStage::Waiting { query, delay }, HedgeEvent::Elapsed),
            next,
        ),
    ensures
        call_requires(
            ByBitProvider::step,
            (&provider, HedgeStage::Waiting { query, delay }, HedgeEvent::Elapsed),
        ),
        next.0 == (HedgeStage::Querying { query, delay }),
        next.1 == HedgeAction::Get(query),
{
}

/// Law: an order that was executed makes the hedge, whatever was waited for and
/// whatever was asked: at the executed price, and with no liquidation price.
pub proof fn executed_orders_make_the_hedge(
    provider: ByBitProvider,
    query: SignedRequest,
    delay: u64,
    response: ByBitOrderResponse,
    next: (HedgeStage, HedgeAction),
)
    requires
        response.result is Some,
        response.result->Some_0.last_exec_price.bits != 0,
        response.result->Some_0.last_exec_price.bits != 0x8000_0000_0000_0000,
        call_ensures(
            ByBitProvider::step,
            (&provider, HedgeStage::Querying { query, delay }, HedgeEvent::Reply(response)),
            next,
        ),
    ensures
        call_requires(
            ByBitProvider::step,
            (&provider, HedgeStage::Querying { query, delay }, HedgeEvent::Reply(response)),
        ),
        next.0 == HedgeStage::Closed,
        next.1 == HedgeAction::Done(
            Hedged {
                hedge_price: number(response.result->Some_0.last_exec_price),
                liquidation_price: integer(0),
            },
        ),
{
    lemma_zero(response.result->Some_0.last_exec_price);
}

/// Law: an order that was not executed, so that its executed price is zero, is
/// looked at again by the same question. The delay doubles until it is at least a
/// minute.
pub proof fn other_orders_are_looked_at_again(
    provider: ByBitProvider,
    query: SignedRequest,
    delay: u64,
    response: ByBitOrderResponse,
    next: (HedgeStage, HedgeAction),
)
    requires
        response.result is Some,
        response.result->Some_0.last_exec_price.bits == 0
            || response.result->Some_0.last_exec_price.bits == 0x8000_0000_0000_0000,
        call_ensures(
            ByBitProvider::step,
            (&provider, HedgeStage::Querying { query, delay }, HedgeEvent::Reply(response)),
            next,
        ),
    ensures
        call_requires(
            ByBitProvider::step,
            (&provider, HedgeStage::Querying { query, delay }, HedgeEvent::Reply(response)),
        ),
        ({
            let longer = if delay < 60_000 {
                (2 * delay) as u64
            } else {
                delay
            };
            &&& next.0 == (HedgeStage::Waiting { query, delay: longer })
            &&& next.1 == HedgeAction::Sleep(longer)
        }),
{
}

/// Law: a reply that tells nothing of the order ends the hedge.
pub proof fn forgotten_orders_fail(
    provider: ByBitProvider,
    query: SignedRequest,
    delay: u64,
    response: ByBitOrderResponse,
    next: (HedgeStage, HedgeAction),
)
    requires
        response.result is None,
        call_ensures(
            ByBitProvider::step,
            (&provider, HedgeStage::Querying { query, delay }, HedgeEvent::Reply(response)),
            next,
        ),
    ensures
        call_requires(
            ByBitProvider::step,
            (&provider, HedgeStage::Querying { query, delay }, HedgeEvent::Reply(response)),
        ),
        next.0 == HedgeStage::Closed,
        next.1 is Fail,
        next.1->Fail_0.source is None,
        next.1->Fail_0.message@ == "failed to get hedge last executed price"@,
{
}

/// Law: where the exchange is lost, the hedge fails with what was lost, whether
/// the order or a question was on its way.
pub proof fn lost_replies_fail(
    provider: ByBitProvider,
    stage: HedgeStage,
    failure: ErrorInfo,
    next: (HedgeStage, HedgeAction),
)
    requires
        stage is Placing || stage is Querying,
        call_ensures(ByBitProvider::step, (&provider, stage, HedgeEvent::Lost(failure)), next),
    ensures
        call_requires(ByBitProvider::step, (&provider, stage, HedgeEvent::Lost(failure))),
        next.0 == HedgeStage::Closed,
        next.1 == HedgeAction::Fail(failure),
{
}

/// Law: nothing that happens leads to another order. A hedge is over exactly
/// where it is reported as made or failed, and it is made only by a look at the
/// order.
pub proof fn steps_lead_to_no_other_order(
    provider: ByBitProvider,
    stage: HedgeStage,
    event: HedgeEvent,
    next: (HedgeStage, HedgeAction),
)
    requires
        call_ensures(ByBitProvider::step, (&provider, stage, event), next),
    ensures
        !(next.1 is Post),
        !(next.0 is Placing),
        next.0 is Closed <==> next.1 is Done || next.1 is Fail,
        next.0 is Waiting <==> next.1 is Sleep,
        next.0 is Querying <==> next.1 is Get,
        next.1 is Done ==> stage is Querying && event is Reply,
{
}

/// Law: a hedge whose order is executed in the end is made, however many looks
/// found no price before. Every look asks the question about the order that the
/// exchange took, and the delays before the looks double seven times, from half a
/// second.
pub proof fn patient_hedges_are_made(
    provider: ByBitProvider,
    timestamp: u128,
    taken: ByBitOrderResponse,
    waits: Seq<(HedgeStage, HedgeAction)>,
    looks: Seq<(HedgeStage, HedgeAction)>,
    replies: Seq<ByBitOrderResponse>,
    fruitless: nat,
    end: (HedgeStage, HedgeAction),
)
    requires
        taken.result is Some,
        waits.len() == fruitless + 1,
        looks.len() == fruitless + 1,
        replies.len() == fruitless + 1,
        call_ensures(
            ByBitProvider::step,
            (&provider, HedgeStage::Placing { timestamp }, HedgeEvent::Reply(taken)),
            waits[0],
        ),
        forall|i: int|
            0 <= i <= fruitless ==> call_ensures(
                ByBitProvider::step,
                (&provider, waits[i].0, HedgeEvent::Elapsed),
                #[trigger] looks[i],
            ),
        forall|i: int|
            0 <= i < fruitless ==> (#[trigger] replies[i]).result is Some
                && replies[i].result->Some_0.last_exec_price.bits == 0 && call_ensures(
                ByBitProvider::step,
                (&provider, looks[i].0, HedgeEvent::Reply(replies[i])),
                waits[i + 1],
            ),
        replies[fruitless as int].result is Some,
        replies[fruitless as int].result->Some_0.last_exec_price.bits != 0,
        replies[fruitless as int].result->Some_0.last_exec_price.bits != 0x8000_0000_0000_0000,
        call_ensures(
            ByBitProvider::step,
            (
                &provider,
                looks[fruitless as int].0,
                HedgeEvent::Reply(replies[fruitless as int]),
            ),
            end,
        ),
    ensures
        forall|i: int|
            0 <= i <= fruitless ==> (#[trigger] waits[i]).1 == HedgeAction::Sleep(
                (500 * pow2(if i < 7 { i as nat } else { 7 })) as u64,
            ),
        forall|i: int|
            0 <= i <= fruitless ==> (#[trigger] looks[i]).1 is Get && carries(
                provider,
                looks[i].1->Get_0,
                "/v2/private/order"@,
                asked(provider.api_key@, taken.result->Some_0.order_id@, timestamp as nat),
            ),
        end.0 == HedgeStage::Closed,
        end.1 == HedgeAction::Done(
            Hedged {
                hedge_price: number(replies[fruitless as int].result->Some_0.last_exec_price),
                liquidation_price: integer(0),
            },
        ),
{
    taken_orders_are_looked_at(provider, timestamp, taken, waits[0]);
    let query = waits[0].0->Waiting_query;
    assert forall|i: int| 0 <= i <= fruitless implies (#[trigger] waits[i]).1
        == HedgeAction::Sleep((500 * pow2(if i < 7 { i as nat } else { 7 })) as u64) && waits[i].0
        == (HedgeStage::Waiting {
        query,
        delay: (500 * pow2(if i < 7 { i as nat } else { 7 })) as u64,
    }) && looks[i].1 == HedgeAction::Get(query) && looks[i].0 == (HedgeStage::Querying {
        query,
        delay: (500 * pow2(if i < 7 { i as nat } else { 7 })) as u64,
    }) by {
        lemma_waits(provider, query, waits, looks, replies, i as nat);
    }
    let delay = (500 * pow2(if fruitless < 7 { fruitless } else { 7 })) as u64;
    executed_orders_make_the_hedge(provider, query, delay, replies[fruitless as int], end);
}

/// After `i` fruitless looks the hedge waits for the next one.
proof fn lemma_waits(
    provider: ByBitProvider,
    query: SignedRequest,
    waits: Seq<(HedgeStage, HedgeAction)>,
    looks: Seq<(HedgeStage, HedgeAction)>,
    replies: Seq<ByBitOrderResponse>,
    i: nat,
)
    requires
        waits[0].0 == (HedgeStage::Waiting { query, delay: 500 }),
        waits[0].1 == HedgeAction::Sleep(500),
        forall|j: int|
            0 <= j <= i ==> call_ensures(
                ByBitProvider::step,
                (&provider, waits[j].0, HedgeEvent::Elapsed),
                #[trigger] looks[j],
            ),
        forall|j: int|
            0 <= j < i ==> (#[trigger] replies[j]).result is Some
                && replies[j].result->Some_0.last_exec_price.bits == 0 && call_ensures(
                ByBitProvider::step,
                (&provider, looks[j].0, HedgeEvent::Reply(replies[j])),
                waits[j + 1],
            ),
    ensures
        ({
            let delay = (500 * pow2(if i < 7 { i } else { 7 })) as u64;
            &&& waits[i as int].0 == (HedgeStage::Waiting { query, delay })
            &&& waits[i as int].1 == HedgeAction::Sleep(delay)
            &&& looks[i as int].0 == (HedgeStage::Querying { query, delay })
            &&& looks[i as int].1 == HedgeAction::Get(query)
        }),
    decreases i,
{
    lemma2_to64();
    let delay = (500 * pow2(if i < 7 { i } else { 7 })) as u64;
    if i > 0 {
        let before = (i - 1) as nat;
        lemma_waits(provider, query, waits, looks, replies, before);
        let shorter = (500 * pow2(if before < 7 { before } else { 7 })) as u64;
        let response = replies[before as int];
        other_orders_are_looked_at_again(
            provider,
            query,
            shorter,
            response,
            waits[before as int + 1],
        );
    }
    delays_end_in_the_question(provider, query, delay, looks[i as int]);
}

/// Law: the price of bitcoin is that of the first ticker for it, whatever
/// tickers are around it.
pub proof fn first_tickers_tell_the_price(
    tickers: ByBitTickerResponse,
    i: int,
    price: Result<String, String>,
)
    requires
        0 <= i < tickers.result@.len(),
        tickers.result@[i].symbol@ == "BTCUSD"@,
        forall|j: int| 0 <= j < i ==> (#[trigger] tickers.result@[j]).symbol@ != "BTCUSD"@,
        call_ensures(ByBitTickerResponse::btc_price, (&tickers,), price),
    ensures
        price == Ok::<String, String>(tickers.result@[i].last_price),
{
    if price is Err {
        assert(tickers.lists_btc());
    } else {
        let found = choose|k: int| #[trigger]
            tickers.first_btc(k) && price->Ok_0 == tickers.result@[k].last_price;
        assert(tickers.result@[found].symbol@ == "BTCUSD"@);
        assert(found == i);
    }
}

/// Law: without a ticker for bitcoin there is no price, and the reason says so.
pub proof fn missing_tickers_are_reported(
    tickers: ByBitTickerResponse,
    price: Result<String, String>,
)
    requires
        forall|j: int|
            0 <= j < tickers.result@.len() ==> (#[trigger] tickers.result@[j]).symbol@
                != "BTCUSD"@,
        call_ensures(ByBitTickerResponse::btc_price, (&tickers,), price),
    ensures
        price is Err,
        price->Err_0@ == "Ticker for BTCUSD not found"@,
{
}

/// Law: all prices are asked for in one place.
pub proof fn prices_are_asked_for(provider: ByBitProvider, url: String)
    requires
        call_ensures(ByBitProvider::tickers_url, (&provider,), url),
    ensures
        url@ == provider.base@ + "/v2/public/tickers"@,
{
}

/// Law: an order as a document says what the order as a text does.
pub proof fn documents_say_what_they_are_for<'a>(
    api_key: &'a str,
    value: Double,
    timestamp: u64,
    order: MarketOrder,
    request: ByBitOrderRequest<'a>,
)
    requires
        call_ensures(MarketOrder::hedging, (value,), order),
        call_ensures(ByBitOrderRequest::new, (api_key, value, timestamp), request),
    ensures
        request.api_key@ == api_key@,
        order.side == Direction::Buy ==> request.side@ == "Buy"@,
        order.side == Direction::Sell ==> request.side@ == "Sell"@,
        request.symbol@ == "BTCUSD"@,
        request.order_type@ == "Market"@,
        request.qty == order.qty,
        request.time_in_force@ == "GoodTillCancel"@,
        request.timestamp == timestamp,
{
}

} // verus!
