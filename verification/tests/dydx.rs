use normify::exchange::dydx::DydxHandler;
use normify::{Currency, Exchange, ExchangeHandler, Instrument, InstrumentType, MarketType};

#[test]
fn dydx_test_normalize_perpetual() {
    let instrument_name = "BTC-USD";
    let exchange = DydxHandler;
    let market_type = MarketType::OrderBook;
    let expected_instrument = Instrument::new(
        Exchange::Dydx,
        market_type,
        InstrumentType::Perpetual { base: Currency::new("BTC"), quote: Currency::new("USD") },
    );
    assert_eq!(exchange.normalize(MarketType::OrderBook, instrument_name), Some(expected_instrument));
}

#[test]
fn dydx_test_normalize_unknown() {
    let instrument_name = "BTC-PERP".to_string();
    let exchange = DydxHandler;
    assert_eq!(exchange.normalize(MarketType::Ticker, &instrument_name), None);
}

#[test]
fn dydx_test_denorm_perp() {
    let instrument = Instrument::new(
        Exchange::Dydx,
        MarketType::OrderBook,
        InstrumentType::Perpetual { base: Currency::new("btc"), quote: Currency::new("USD") },
    );
    let exchange = DydxHandler;
    assert_eq!(exchange.denormalize(&instrument), Some(String::from("BTC-USD")));
}

#[test]
fn dydx_quote_is_not_the_perp_keyword() {
    assert_eq!(DydxHandler.normalize(MarketType::OrderBook, "BTC-PERP"), None);
    assert_eq!(DydxHandler.normalize(MarketType::OrderBook, "BTC-perp"), None);
}

#[test]
fn dydx_rejects_other_shapes_and_markets() {
    assert_eq!(DydxHandler.normalize(MarketType::OrderBook, "BTC"), None);
    assert_eq!(DydxHandler.normalize(MarketType::OrderBook, "BTC-USD-PERP"), None);
    assert_eq!(DydxHandler.normalize(MarketType::OrderBook, "BTC-USD-20250528"), None);
    assert_eq!(DydxHandler.normalize(MarketType::PublicTrade, "BTC-USD"), None);
    assert!(!DydxHandler.supports_market_type(&MarketType::Ticker));
    let spot = InstrumentType::Spot { base: Currency::new("BTC"), quote: Currency::new("USD") };
    assert!(!DydxHandler.supports_instrument_type(&spot));
    let instrument = Instrument::new(Exchange::Dydx, MarketType::OrderBook, spot);
    assert_eq!(DydxHandler.denormalize(&instrument), None);
}

#[test]
fn dydx_round_trip() {
    let instrument = DydxHandler.normalize(MarketType::OrderBook, "ETH-USD").unwrap();
    assert_eq!(DydxHandler.denormalize(&instrument), Some(String::from("ETH-USD")));
}
