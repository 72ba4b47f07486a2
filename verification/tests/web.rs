use vekslosh::conversion::ConversionTable;
use vekslosh::error::{ErrorInfo, RequestError};
use vekslosh::hedge::{Direction, Fault, HedgeRequest, Hedged};
use vekslosh::number::{Double, Expr};
use vekslosh::web::{answer_page, open, route, step, Action, Event, Route, Stage};

fn double(value: f64) -> Double {
    Double::from_bits(value.to_bits())
}

fn known(value: f64) -> Expr {
    Expr::Number(double(value))
}

fn eval(e: &Expr) -> f64 {
    match e {
        Expr::Number(value) => f64::from_bits(value.to_bits()),
        Expr::Integer(value) => *value as f64,
        Expr::Negation(e) => -eval(e),
        Expr::Rounding(e) => eval(e).round(),
        Expr::Sum(a, b) => eval(a) + eval(b),
        Expr::Difference(a, b) => eval(a) - eval(b),
        Expr::Product(a, b) => eval(a) * eval(b),
        Expr::Quotient(a, b) => eval(a) / eval(b),
    }
}

fn table() -> ConversionTable {
    let mut table = ConversionTable::new(known(50_000.0), "USD".to_string());
    table.register_shitcoin(known(2.0), "EUR".to_string());
    table
}

fn request(currency: &str, target: &str) -> HedgeRequest {
    HedgeRequest {
        direction: Direction::Buy,
        amount: double(100_000_000.0),
        currency: currency.to_string(),
        target_currency: target.to_string(),
        fee: double(0.125),
        sat_fee_percentage: double(50.0),
    }
}

fn failure(message: &str) -> ErrorInfo {
    ErrorInfo { message: message.to_string(), source: None }
}

fn answer(action: Action) -> (u16, String) {
    match action {
        Action::Fail(error) => {
            let answer = error.into_response().unwrap();
            (answer.status, answer.body)
        }
        other => panic!("{:?}", other),
    }
}

#[test]
fn two_routes_are_served() {
    assert_eq!(route("", "GET", "/"), Route::Index);
    assert_eq!(route("", "POST", "/hedge"), Route::Hedge);
    for (method, path) in [
        ("POST", "/"),
        ("GET", "/hedge"),
        ("get", "/"),
        ("GET", ""),
        ("GET", "/index.html"),
        ("POST", "/hedge/"),
        ("PUT", "/hedge"),
    ] {
        assert_eq!(route("", method, path), Route::Unknown);
    }
}

#[test]
fn routes_lie_below_the_root() {
    assert_eq!(route("/desk", "GET", "/desk/"), Route::Index);
    assert_eq!(route("/desk", "POST", "/desk/hedge"), Route::Hedge);
    assert_eq!(route("/desk", "GET", "/"), Route::Unknown);
}

#[test]
fn unknown_requests_are_answered_at_once() {
    let (stage, action) = open(Route::Unknown);
    assert_eq!(stage, Stage::Closed);
    assert_eq!(answer(action), (404, "path not found".to_string()));
}

#[test]
fn start_page_is_read_and_served() {
    let (stage, action) = open(Route::Index);
    assert_eq!(stage, Stage::Closed);
    assert!(matches!(action, Action::ReadIndex));
    assert!(matches!(answer_page(Ok(vec![1, 2])), Action::RespondPage(page) if page == [1, 2]));
    assert_eq!(answer(answer_page(Err(failure("no such file")))), (500, String::new()));
}

#[test]
fn trade_is_served_in_order() {
    let mut table = table();
    let (stage, action) = open(Route::Hedge);
    assert!(matches!(action, Action::FetchPrice));
    let (stage, action) = step(stage, Event::PriceFetched(Ok(double(40_000.0))), &mut table);
    assert!(matches!(action, Action::ReadBody));
    let (stage, action) = step(stage, Event::BodyRead(Ok(vec![123, 125])), &mut table);
    assert!(matches!(action, Action::ParseRequest(body) if body == [123, 125]));
    let (stage, action) =
        step(stage, Event::RequestParsed(Ok(request("sats", "EUR"))), &mut table);
    assert!(matches!(action, Action::Hedge(amount) if eval(&amount) == 37_500.0));
    let hedged = Hedged { hedge_price: known(32_000.0), liquidation_price: known(1.0) };
    let (stage, action) = step(stage, Event::HedgeMade(Ok(hedged)), &mut table);
    match action {
        Action::Serialize(response) => {
            assert_eq!(eval(&response.hedged_amount), 37_500.0);
            assert_eq!(eval(&response.hedge_price), 32_000.0);
            assert_eq!(eval(&response.liquidation_price), 1.0);
            assert_eq!(eval(&response.client_to_vekslak), 18_000.0);
            assert_eq!(eval(&response.vekslak_to_client), 100_000_000.0);
        }
        other => panic!("{:?}", other),
    }
    let (stage, action) = step(stage, Event::Serialized(Ok("{}".to_string())), &mut table);
    assert!(matches!(action, Action::RespondText(text) if text == "{}"));
    assert_eq!(stage, Stage::Closed);
}

#[test]
fn failures_of_the_desk_are_not_explained() {
    let mut table = table();
    let (stage, action) =
        step(Stage::FetchingPrice, Event::PriceFetched(Err(failure("offline"))), &mut table);
    assert_eq!(stage, Stage::Closed);
    assert_eq!(answer(action), (500, String::new()));

    let (stage, _) = step(
        Stage::ParsingRequest,
        Event::RequestParsed(Ok(request("sats", "EUR"))),
        &mut table,
    );
    let (stage, action) = step(stage, Event::HedgeMade(Err(failure("no funds"))), &mut table);
    assert_eq!(stage, Stage::Closed);
    assert_eq!(answer(action), (500, String::new()));

    let (stage, action) =
        step(Stage::Serializing, Event::Serialized(Err(failure("too deep"))), &mut table);
    assert_eq!(stage, Stage::Closed);
    assert_eq!(answer(action), (500, String::new()));
}

#[test]
fn requests_that_cannot_be_parsed_are_explained() {
    let (stage, action) = step(
        Stage::ParsingRequest,
        Event::RequestParsed(Err(failure("expected value at line 1"))),
        &mut table(),
    );
    assert_eq!(stage, Stage::Closed);
    assert_eq!(answer(action), (400, "invalid request: expected value at line 1".to_string()));
}

#[test]
fn requests_with_unknown_currencies_are_refused() {
    let refused = |currency: &str, target: &str| {
        let event = Event::RequestParsed(Ok(request(currency, target)));
        let (stage, action) = step(Stage::ParsingRequest, event, &mut table());
        assert_eq!(stage, Stage::Closed);
        answer(action)
    };
    assert_eq!(refused("GBP", "EUR"), (400, "invalid currency".to_string()));
    assert_eq!(refused("sats", "GBP"), (400, "invalid target currency".to_string()));
}

#[test]
fn impossible_shares_are_given_up() {
    let mut wrong = request("sats", "EUR");
    wrong.sat_fee_percentage = double(100.5);
    let (stage, action) =
        step(Stage::ParsingRequest, Event::RequestParsed(Ok(wrong)), &mut table());
    assert_eq!(stage, Stage::Closed);
    assert!(matches!(
        action,
        Action::Abort(Fault::InvalidPercentage(share)) if share == double(100.5)
    ));
}

#[test]
fn sats_for_sats_are_given_up_after_the_hedge() {
    let mut table = table();
    let event = Event::RequestParsed(Ok(request("sats", "sats")));
    let (stage, action) = step(Stage::ParsingRequest, event, &mut table);
    assert!(matches!(action, Action::Hedge(_)));
    let hedged = Hedged { hedge_price: known(32_000.0), liquidation_price: known(1.0) };
    let (stage, action) = step(stage, Event::HedgeMade(Ok(hedged)), &mut table);
    assert_eq!(stage, Stage::Closed);
    assert!(matches!(action, Action::Abort(Fault::SatsForSats)));
}

#[test]
fn lost_connections_are_passed_on() {
    let (sender, body) = hyper::Body::channel();
    sender.abort();
    let error = match futures::executor::block_on(hyper::body::to_bytes(body)) {
        Ok(_) => panic!("an aborted body was read"),
        Err(error) => error,
    };
    let message = error.to_string();
    let (stage, action) = step(Stage::ReadingBody, Event::BodyRead(Err(error)), &mut table());
    assert_eq!(stage, Stage::Closed);
    match action {
        Action::Fail(RequestError::Hyper(kept)) => assert_eq!(kept.to_string(), message),
        other => panic!("{:?}", other),
    }
}
