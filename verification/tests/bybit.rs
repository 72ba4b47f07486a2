use vekslosh::bybit::{
    ByBitOrderRequest, ByBitOrderResponse, ByBitOrderResult, ByBitProvider, ByBitTickerItem,
    ByBitTickerResponse, HedgeAction, HedgeEvent, HedgeStage, MarketOrder, SignedRequest,
};
use vekslosh::error::ErrorInfo;
use vekslosh::hedge::Direction;
use vekslosh::number::{Double, Expr};

fn double(value: f64) -> Double {
    Double::from_bits(value.to_bits())
}

fn provider() -> ByBitProvider {
    ByBitProvider {
        api_key: "key".to_string(),
        api_secret: "Jefe".to_string(),
        base: "https://api.example".to_string(),
    }
}

fn order(order_id: &str, last_exec_price: f64) -> ByBitOrderResponse {
    ByBitOrderResponse {
        result: Some(ByBitOrderResult {
            price: double(1.0),
            order_id: order_id.to_string(),
            last_exec_price: double(last_exec_price),
        }),
        ret_msg: Some("OK".to_string()),
    }
}

fn failure(message: &str) -> ErrorInfo {
    ErrorInfo { message: message.to_string(), source: None }
}

fn placed(amount: f64) -> MarketOrder {
    MarketOrder::hedging(double(amount))
}

#[test]
fn sign_of_the_amount_decides_the_side() {
    assert_eq!(placed(12.4), MarketOrder { side: Direction::Buy, qty: 12 });
    assert_eq!(placed(-12.5), MarketOrder { side: Direction::Sell, qty: 13 });
    assert_eq!(placed(f64::INFINITY), MarketOrder { side: Direction::Buy, qty: u64::MAX });
    assert_eq!(placed(f64::NEG_INFINITY), MarketOrder { side: Direction::Sell, qty: u64::MAX });
}

#[test]
fn amounts_that_round_to_zero_are_sold() {
    assert_eq!(placed(0.4), MarketOrder { side: Direction::Sell, qty: 0 });
    assert_eq!(placed(-0.4), MarketOrder { side: Direction::Sell, qty: 0 });
    assert_eq!(placed(0.5), MarketOrder { side: Direction::Buy, qty: 1 });
    assert_eq!(placed(-0.5), MarketOrder { side: Direction::Sell, qty: 1 });
}

#[test]
fn signature_is_that_of_the_data() {
    let request = provider().sign("/path", "what do ya want for nothing?".to_string());
    assert_eq!(request.body, "what do ya want for nothing?");
    assert_eq!(
        request.url,
        "https://api.example/path?what do ya want for nothing?&sign=\
         5bdcc146bf60754e6a042426089575c75a003f089d2739839dec58b964ec3843"
    );
}

#[test]
fn address_carries_the_code() {
    assert_eq!(
        provider().signed_url("/p", "a=b", &[0xca, 0xfe, 0x01]),
        "https://api.example/p?a=b&sign=cafe01"
    );
}

#[test]
fn ordinary_texts_can_be_signed() {
    assert!(provider().can_sign(""));
    assert!(provider().can_sign(&"x".repeat(100_000)));
}

#[test]
fn order_is_posted_first() {
    let (stage, action) = provider().hedge(double(-1234.6), 1_650_000_000_123);
    assert_eq!(stage, HedgeStage::Placing { timestamp: 1_650_000_000_123 });
    let data = "api_key=key&order_type=Market&qty=1235&side=Sell&symbol=BTCUSD\
                &time_in_force=GoodTillCancel&timestamp=1650000000123";
    let expected = provider().sign("/v2/private/order/create", data.to_string());
    assert_eq!(expected.url.split("&sign=").last().map(str::len), Some(64));
    assert!(expected.url.starts_with("https://api.example/v2/private/order/create?api_key=key&"));
    assert_eq!(action, HedgeAction::Post(expected));
}

fn query() -> SignedRequest {
    let data = "api_key=key&order_id=id-1&symbol=BTCUSD&timestamp=77";
    provider().sign("/v2/private/order", data.to_string())
}

#[test]
fn taken_order_is_looked_at_after_half_a_second() {
    let reply = HedgeEvent::Reply(order("id-1", 0.0));
    let (stage, action) = provider().step(HedgeStage::Placing { timestamp: 77 }, reply);
    assert_eq!(stage, HedgeStage::Waiting { query: query(), delay: 500 });
    assert_eq!(action, HedgeAction::Sleep(500));
    let (stage, action) = provider().step(stage, HedgeEvent::Elapsed);
    assert_eq!(stage, HedgeStage::Querying { query: query(), delay: 500 });
    assert_eq!(action, HedgeAction::Get(query()));
}

#[test]
fn refused_order_fails_with_the_message_of_the_exchange() {
    let response =
        ByBitOrderResponse { result: None, ret_msg: Some("insufficient balance".to_string()) };
    let (stage, action) =
        provider().step(HedgeStage::Placing { timestamp: 77 }, HedgeEvent::Reply(response));
    assert_eq!(stage, HedgeStage::Closed);
    assert_eq!(action, HedgeAction::Fail(failure("insufficient balance")));
}

#[test]
fn refused_order_without_a_message_fails_too() {
    let response = ByBitOrderResponse { result: None, ret_msg: None };
    let (stage, action) =
        provider().step(HedgeStage::Placing { timestamp: 77 }, HedgeEvent::Reply(response));
    assert_eq!(stage, HedgeStage::Closed);
    assert_eq!(action, HedgeAction::Fail(failure("failed to hedge")));
}

#[test]
fn delays_double_up_to_a_minute() {
    let mut stage = HedgeStage::Waiting { query: query(), delay: 500 };
    let mut delays = Vec::new();
    for _ in 0..10 {
        let (asking, question) = provider().step(stage, HedgeEvent::Elapsed);
        assert_eq!(question, HedgeAction::Get(query()));
        let (waiting, pause) =
            provider().step(asking, HedgeEvent::Reply(order("other", if delays.len() % 2 == 0 {
                0.0
            } else {
                -0.0
            })));
        match pause {
            HedgeAction::Sleep(delay) => delays.push(delay),
            other => panic!("{:?}", other),
        }
        stage = waiting;
    }
    assert_eq!(
        delays,
        [1000, 2000, 4000, 8000, 16_000, 32_000, 64_000, 64_000, 64_000, 64_000]
    );
}

#[test]
fn executed_order_ends_the_hedge() {
    for price in [39_999.5, -1.0, 5e-324, f64::NAN] {
        let stage = HedgeStage::Querying { query: query(), delay: 4000 };
        let (stage, action) = provider().step(stage, HedgeEvent::Reply(order("id-1", price)));
        assert_eq!(stage, HedgeStage::Closed);
        match action {
            HedgeAction::Done(hedged) => {
                assert_eq!(hedged.hedge_price, Expr::Number(double(price)));
                assert_eq!(hedged.liquidation_price, Expr::Integer(0));
            }
            other => panic!("{:?}", other),
        }
    }
}

#[test]
fn vanished_order_fails() {
    let stage = HedgeStage::Querying { query: query(), delay: 4000 };
    let response = ByBitOrderResponse { result: None, ret_msg: Some("gone".to_string()) };
    let (stage, action) = provider().step(stage, HedgeEvent::Reply(response));
    assert_eq!(stage, HedgeStage::Closed);
    assert_eq!(
        action,
        HedgeAction::Fail(failure("failed to get hedge last executed price"))
    );
}

#[test]
fn lost_exchange_ends_the_hedge() {
    for stage in [
        HedgeStage::Placing { timestamp: 77 },
        HedgeStage::Querying { query: query(), delay: 4000 },
    ] {
        let lost = || ErrorInfo {
            message: "request failed".to_string(),
            source: Some(Box::new(failure("timed out"))),
        };
        let (stage, action) = provider().step(stage, HedgeEvent::Lost(lost()));
        assert_eq!(stage, HedgeStage::Closed);
        assert_eq!(action, HedgeAction::Fail(lost()));
    }
}

#[test]
fn prices_are_asked_for_at_the_tickers() {
    assert_eq!(provider().tickers_url(), "https://api.example/v2/public/tickers");
}

fn ticker(symbol: &str, last_price: &str) -> ByBitTickerItem {
    ByBitTickerItem { symbol: symbol.to_string(), last_price: last_price.to_string() }
}

#[test]
fn first_bitcoin_ticker_tells_the_price() {
    let response = ByBitTickerResponse {
        result: vec![ticker("ETHUSD", "1"), ticker("BTCUSD", "2"), ticker("BTCUSD", "3")],
    };
    assert_eq!(response.btc_price(), Ok("2".to_string()));
}

#[test]
fn missing_bitcoin_ticker_is_an_error() {
    let message = "Ticker for BTCUSD not found".to_string();
    assert_eq!(ByBitTickerResponse { result: vec![] }.btc_price(), Err(message.clone()));
    let response = ByBitTickerResponse { result: vec![ticker("BTCUSDT", "2")] };
    assert_eq!(response.btc_price(), Err(message));
}

#[test]
fn order_documents_say_what_is_ordered() {
    let request = ByBitOrderRequest::new("key", double(9.5), 1_650_000_000);
    assert_eq!(
        request,
        ByBitOrderRequest {
            api_key: "key",
            side: "Buy",
            symbol: "BTCUSD",
            order_type: "Market",
            qty: 10,
            time_in_force: "GoodTillCancel",
            timestamp: 1_650_000_000,
        }
    );
    let request = ByBitOrderRequest::new("key", double(-9.4), 5);
    assert_eq!((request.side, request.qty, request.timestamp), ("Sell", 9, 5));
}
