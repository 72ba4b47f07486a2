use vekslosh::conversion::{Amount, ConversionTable, Currency, GovShitcoinId};
use vekslosh::earn_percentage::SatEarnPercentage;
use vekslosh::number::{Double, Expr};

fn known(value: f64) -> Expr {
    Expr::Number(Double::from_bits(value.to_bits()))
}

fn eval(e: &Expr) -> f64 {
    match e {
        Expr::Number(value) => f64::from_bits(value.to_bits()),
        Expr::Integer(value) => *value as f64,
        Expr::Negation(e) => -eval(e),
        Expr::Rounding(e) => eval(e).round(),
        Expr::Sum(a, b) => eval(a) + eval(b),
        Expr::Difference(a, b) => eval(a) - eval(b),
        Expr::Product(a, b) => eval(a) * eval(b),
        Expr::Quotient(a, b) => eval(a) / eval(b),
    }
}

fn table() -> ConversionTable {
    let mut table = ConversionTable::new(known(50_000.0), "USD".to_string());
    table.register_shitcoin(known(1.132), "EUR".to_string());
    table.register_shitcoin(known(0.044138), "CZK".to_string());
    table
}

fn gov(id: usize) -> Currency {
    Currency::GovShitcoin(GovShitcoinId(id))
}

fn worth(table: &ConversionTable, value: f64, currency: Currency) -> f64 {
    let native = table.to_native(Amount { value: known(value), currency });
    assert_eq!(native.currency, table.native_currency());
    eval(&native.value)
}

#[test]
fn names_are_decoded() {
    let table = table();
    assert_eq!(table.decode_currency("sats"), Some(Currency::Sats));
    assert_eq!(table.decode_currency("USD"), Some(gov(0)));
    assert_eq!(table.decode_currency("EUR"), Some(gov(1)));
    assert_eq!(table.decode_currency("CZK"), Some(gov(2)));
    assert_eq!(table.decode_currency("usd"), None);
    assert_eq!(table.decode_currency(""), None);
}

#[test]
fn native_currency_is_number_zero() {
    assert_eq!(table().native_currency(), gov(0));
    assert_eq!(worth(&table(), 12.4, gov(0)), 12.0);
}

#[test]
fn ids_are_issued_in_order() {
    let mut table = ConversionTable::new(known(1.0), "USD".to_string());
    assert_eq!(table.register_shitcoin(known(2.0), "A".to_string()), GovShitcoinId(1));
    assert_eq!(table.register_shitcoin(known(3.0), "B".to_string()), GovShitcoinId(2));
    assert_eq!(table.register_shitcoin(known(4.0), "A".to_string()), GovShitcoinId(3));
    assert_eq!(table.decode_currency("A"), Some(gov(3)));
    assert_eq!(table.decode_currency("B"), Some(gov(2)));
    // The first currency lost its name, not its price.
    assert_eq!(worth(&table, 10.0, gov(1)), 20.0);
}

#[test]
fn name_of_sats_cannot_be_taken() {
    let mut table = table();
    assert_eq!(table.register_shitcoin(known(2.0), "sats".to_string()), GovShitcoinId(3));
    assert_eq!(table.decode_currency("sats"), Some(Currency::Sats));
}

#[test]
fn registering_keeps_other_prices() {
    let mut table = table();
    let before = [worth(&table, 100.0, gov(1)), worth(&table, 1e6, gov(2))];
    table.register_shitcoin(known(7.0), "X".to_string());
    assert_eq!([worth(&table, 100.0, gov(1)), worth(&table, 1e6, gov(2))], before);
    assert_eq!(worth(&table, 100.0, gov(3)), 700.0);
}

#[test]
fn every_registered_currency_has_a_rate() {
    let mut table = table();
    assert_eq!(table.shitcoin_rate(GovShitcoinId(0)), Expr::Integer(1));
    assert_eq!(table.shitcoin_rate(GovShitcoinId(1)), known(1.132));
    assert_eq!(table.shitcoin_rate(GovShitcoinId(2)), known(0.044138));
    table.update_price(GovShitcoinId(0), known(9.0));
    table.update_btc_price(known(8.0));
    table.register_shitcoin(known(7.0), "USD".to_string());
    assert_eq!(table.shitcoin_rate(GovShitcoinId(0)), Expr::Integer(1));
    assert_eq!(table.shitcoin_rate(GovShitcoinId(1)), known(9.0));
    assert_eq!(table.shitcoin_rate(GovShitcoinId(3)), known(7.0));
}

#[test]
fn government_currencies_are_converted_by_their_rate() {
    let table = table();
    assert_eq!(worth(&table, 1000.0, gov(1)), 1132.0);
    assert_eq!(worth(&table, 1000.0, gov(2)), 44.0);
    assert_eq!(
        table.to_native(Amount { value: known(3.0), currency: gov(2) }).value,
        known(3.0).times(known(0.044138)).rounded()
    );
}

#[test]
fn initial_price_of_bitcoin_is_per_sat() {
    // The price that a new table was made with is divided once when the table
    // is made, and amounts are divided again when they are converted.
    let table = table();
    assert_eq!(
        table.to_native(Amount { value: known(1e16), currency: Currency::Sats }).value,
        known(1e16)
            .over(Expr::Integer(100_000_000))
            .times(known(50_000.0).over(Expr::Integer(100_000_000)))
            .rounded()
    );
    assert_eq!(worth(&table, 1e16, Currency::Sats), 50_000.0);
}

#[test]
fn updated_price_of_bitcoin_is_per_bitcoin() {
    let mut table = table();
    let euros = worth(&table, 1000.0, gov(1));
    table.update_btc_price(known(40_000.0));
    assert_eq!(worth(&table, 100_000_000.0, Currency::Sats), 40_000.0);
    assert_eq!(worth(&table, 1_000_000.0, Currency::Sats), 400.0);
    assert_eq!(worth(&table, 1000.0, gov(1)), euros);
    assert_eq!(table.decode_currency("EUR"), Some(gov(1)));
}

#[test]
fn update_price_counts_entries_from_zero() {
    let mut table = table();
    table.update_price(GovShitcoinId(0), known(2.0));
    assert_eq!(worth(&table, 10.0, gov(0)), 10.0);
    assert_eq!(worth(&table, 10.0, gov(1)), 20.0);
    table.update_price(GovShitcoinId(1), known(3.0));
    assert_eq!(worth(&table, 10.0, gov(1)), 20.0);
    assert_eq!(worth(&table, 10.0, gov(2)), 30.0);
}

#[test]
fn native_amounts_are_converted_back() {
    let table = table();
    let euros = table.from_native(known(1132.0), gov(1));
    assert_eq!(eval(&euros.value), 1000.0);
    assert_eq!(euros.currency, gov(1));
    assert_eq!(euros.value, known(1132.0).over(known(1.132)).rounded());
    let dollars = table.from_native(known(10.5), gov(0));
    assert_eq!(eval(&dollars.value), 11.0);
    assert_eq!(dollars.currency, gov(0));
}

#[test]
fn amounts_are_negated_and_scaled() {
    let amount = Amount { value: known(3.0), currency: gov(1) };
    let opposite = -amount.clone();
    assert_eq!(eval(&opposite.value), -3.0);
    assert_eq!(opposite.currency, gov(1));
    let scaled = amount * known(1.5);
    assert_eq!(eval(&scaled.value), 5.0);
    assert_eq!(scaled.value, known(3.0).times(known(1.5)).rounded());
    assert_eq!(scaled.currency, gov(1));
}

#[test]
fn fee_is_shared_between_sats_and_native_currency() {
    for (value, sats, native) in [(0.0, 0.0, 1.0), (25.0, 0.25, 0.75), (100.0, 1.0, 0.0)] {
        let new = || SatEarnPercentage::new(Double::from_bits(f64::to_bits(value)));
        assert_eq!(eval(&new().into_inner()), sats);
        assert_eq!(eval(&new().gov_shitcoin_earn_percentage()), native);
    }
    assert_eq!(
        SatEarnPercentage::new(Double::from_bits((-0.0f64).to_bits())).into_inner(),
        known(-0.0).over(Expr::Integer(100))
    );
}
