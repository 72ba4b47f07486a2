use vekslosh::conversion::{Amount, ConversionTable, Currency, GovShitcoinId};
use vekslosh::earn_percentage::SatEarnPercentage;
use vekslosh::error::RequestError;
use vekslosh::hedge::{
    compute_hedge_amount, prepare_hedge, Direction, Fault, HedgeRequest, Hedged, Refusal,
};
use vekslosh::mock::MockProvider;
use vekslosh::number::{Double, Expr};

fn double(value: f64) -> Double {
    Double::from_bits(value.to_bits())
}

fn known(value: f64) -> Expr {
    Expr::Number(double(value))
}

fn eval(e: &Expr) -> f64 {
    match e {
        Expr::Number(value) => f64::from_bits(value.to_bits()),
        Expr::Integer(value) => *value as f64,
        Expr::Negation(e) => -eval(e),
        Expr::Rounding(e) => eval(e).round(),
        Expr::Sum(a, b) => eval(a) + eval(b),
        Expr::Difference(a, b) => eval(a) - eval(b),
        Expr::Product(a, b) => eval(a) * eval(b),
        Expr::Quotient(a, b) => eval(a) / eval(b),
    }
}

fn table() -> ConversionTable {
    let mut table = ConversionTable::new(known(50_000.0), "USD".to_string());
    table.register_shitcoin(known(2.0), "EUR".to_string());
    table.update_btc_price(known(40_000.0));
    table
}

fn request(direction: Direction, amount: f64, currency: &str, target: &str) -> HedgeRequest {
    HedgeRequest {
        direction,
        amount: double(amount),
        currency: currency.to_string(),
        target_currency: target.to_string(),
        fee: double(0.125),
        sat_fee_percentage: double(50.0),
    }
}

fn hedge(amount: f64, currency: Currency, direction: Direction) -> f64 {
    let hedge = compute_hedge_amount(
        Amount { value: known(amount), currency },
        known(0.125),
        SatEarnPercentage::new(double(50.0)),
        &table(),
        direction,
    );
    assert_eq!(hedge.currency, Currency::GovShitcoin(GovShitcoinId(0)));
    eval(&hedge.value)
}

#[test]
fn hedge_is_positive_where_the_client_gets_bitcoin() {
    // 1 - 0.125 * 0.5 is 0.9375.
    assert_eq!(hedge(100_000_000.0, Currency::Sats, Direction::Buy), 37_500.0);
    assert_eq!(hedge(1600.0, Currency::GovShitcoin(GovShitcoinId(1)), Direction::Sell), 3000.0);
}

#[test]
fn hedge_is_negative_where_the_desk_gets_bitcoin() {
    // 1 + 0.125 * 0.5 is 1.0625.
    assert_eq!(hedge(100_000_000.0, Currency::Sats, Direction::Sell), -42_500.0);
    assert_eq!(hedge(1600.0, Currency::GovShitcoin(GovShitcoinId(1)), Direction::Buy), -3400.0);
}

#[test]
fn hedge_is_computed_step_by_step() {
    let hedge = compute_hedge_amount(
        Amount { value: known(7.0), currency: Currency::Sats },
        known(0.1),
        SatEarnPercentage::new(double(30.0)),
        &table(),
        Direction::Sell,
    );
    let rest = Expr::Integer(1).minus(known(30.0).over(Expr::Integer(100)));
    let part =
        known(7.0).negated().times(Expr::Integer(1).plus(known(0.1).times(rest))).rounded();
    assert_eq!(
        hedge.value,
        part.over(Expr::Integer(100_000_000)).times(known(40_000.0)).rounded()
    );
}

fn settle(direction: Direction, amount: f64, currency: &str, target: &str) -> [f64; 5] {
    let table = table();
    let trade = prepare_hedge(&table, request(direction, amount, currency, target)).unwrap();
    assert!(!trade.is_sats_for_sats());
    let hedged = Hedged { hedge_price: known(32_000.0), liquidation_price: known(1.0) };
    let response = trade.settle(&table, hedged);
    [
        eval(&response.hedged_amount),
        eval(&response.hedge_price),
        eval(&response.liquidation_price),
        eval(&response.client_to_vekslak),
        eval(&response.vekslak_to_client),
    ]
}

#[test]
fn bought_sats_are_paid_in_the_target_currency() {
    // 1 BTC at 32000 USD is 16000 EUR, and 18000 EUR with the fee.
    assert_eq!(
        settle(Direction::Buy, 1e8, "sats", "EUR"),
        [37_500.0, 32_000.0, 1.0, 18_000.0, 1e8]
    );
}

#[test]
fn sold_sats_bring_the_target_currency() {
    assert_eq!(
        settle(Direction::Sell, 1e8, "sats", "EUR"),
        [-42_500.0, 32_000.0, 1.0, 1e8, 14_000.0]
    );
}

#[test]
fn bought_government_currency_is_paid_in_bitcoin() {
    // 1600 EUR are 3200 USD, a tenth of a bitcoin.
    assert_eq!(
        settle(Direction::Buy, 1600.0, "EUR", "sats"),
        [-3400.0, 32_000.0, 1.0, 0.1 * 1.125, 1600.0]
    );
}

#[test]
fn sold_government_currency_brings_bitcoin() {
    assert_eq!(
        settle(Direction::Sell, 1600.0, "EUR", "sats"),
        [3000.0, 32_000.0, 1.0, 1600.0, 0.1 * 0.875]
    );
}

#[test]
fn target_does_not_matter_for_government_currency() {
    assert_eq!(
        settle(Direction::Sell, 1600.0, "EUR", "USD"),
        settle(Direction::Sell, 1600.0, "EUR", "sats")
    );
}

#[test]
fn settlement_does_not_depend_on_the_price_in_the_table() {
    let mut table = table();
    let trade = prepare_hedge(&table, request(Direction::Buy, 1e8, "sats", "EUR")).unwrap();
    table.update_btc_price(known(1.0));
    let hedged = MockProvider.hedge(&trade.to_hedge.value);
    let response = trade.settle(&table, hedged);
    assert_eq!(eval(&response.hedged_amount), 37_500.0);
    assert_eq!(eval(&response.client_to_vekslak), 28_125.0);
}

#[test]
fn sats_for_sats_are_noticed() {
    let trade = prepare_hedge(&table(), request(Direction::Buy, 1e8, "sats", "sats")).unwrap();
    assert!(trade.is_sats_for_sats());
}

fn refusal(request: HedgeRequest) -> Refusal {
    prepare_hedge(&table(), request).unwrap_err()
}

#[test]
fn unknown_currency_is_refused() {
    let refusal = refusal(request(Direction::Buy, 1.0, "GBP", "GBP"));
    assert!(matches!(
        refusal,
        Refusal::Answer(RequestError::Client { code: 400, message: "invalid currency", error: None })
    ));
}

#[test]
fn unknown_target_currency_is_refused() {
    let refusal = refusal(request(Direction::Buy, 1.0, "EUR", "GBP"));
    assert!(matches!(
        refusal,
        Refusal::Answer(RequestError::Client {
            code: 400,
            message: "invalid target currency",
            error: None
        })
    ));
}

#[test]
fn shares_beyond_a_hundred_per_cent_are_a_fault() {
    for share in [100.5, -0.5, f64::NAN, f64::INFINITY] {
        let mut request = request(Direction::Buy, 1.0, "EUR", "USD");
        request.sat_fee_percentage = double(share);
        assert!(matches!(
            refusal(request),
            Refusal::Abort(Fault::InvalidPercentage(value)) if value == double(share)
        ));
    }
}

#[test]
fn currencies_are_looked_at_before_the_share() {
    let mut request = request(Direction::Buy, 1.0, "GBP", "USD");
    request.sat_fee_percentage = double(200.0);
    assert!(matches!(refusal(request), Refusal::Answer(_)));
}

#[test]
fn mock_exchange_has_fixed_prices() {
    let hedged = MockProvider.hedge(&known(12.0));
    assert_eq!(eval(&hedged.hedge_price), 50_000.0);
    assert_eq!(eval(&hedged.liquidation_price), 40_000.0);
    assert_eq!(eval(&MockProvider.fetch_price()), 50_000.0);
}
