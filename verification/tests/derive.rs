use normify::exchange::derive::DeriveHandler;
use normify::{Currency, Exchange, ExchangeHandler, Instrument, InstrumentType, MarketType, OptionKind};

#[test]
fn derive_test_normalize_option() {
    let instrument_name = "BTC-20250328-100000-C".to_string();
    let exchange = DeriveHandler;
    let market_type = MarketType::OrderBook;
    let expected_instrument = Instrument::new(
        Exchange::Derive,
        market_type,
        InstrumentType::Option {
            base: Currency::new("BTC"),
            quote: Currency::new("USD"),
            expiry: String::from("20250328"),
            strike: 100000,
            kind: OptionKind::Call,
        },
    );
    let result = exchange.normalize(MarketType::OrderBook, &instrument_name);
    println!("{:?}", result);
    assert_eq!(result, Some(expected_instrument));
}

#[test]
fn derive_test_normalize_perpetual() {
    let instrument_name = "BTC-PERP".to_string();
    let exchange = DeriveHandler;
    let market_type = MarketType::OrderBook;
    let expected_instrument = Instrument::new(
        Exchange::Derive,
        market_type,
        InstrumentType::Perpetual { base: Currency::new("BTC"), quote: Currency::new("USD") },
    );
    assert_eq!(exchange.normalize(MarketType::OrderBook, &instrument_name), Some(expected_instrument));
}

#[test]
fn derive_test_normalize_unknown() {
    let instrument_name = "BTC-28MAR25-100000-C".to_string();
    let exchange = DeriveHandler;
    assert_eq!(exchange.normalize(MarketType::OrderBook, &instrument_name), None);
}

#[test]
fn derive_test_denorm_option() {
    let instrument = Instrument::new(
        Exchange::Derive,
        MarketType::OrderBook,
        InstrumentType::Option {
            base: Currency::new("BTC"),
            quote: Currency::new("USD"),
            expiry: String::from("20250328"),
            strike: 100000,
            kind: OptionKind::Call,
        },
    );
    let exchange = DeriveHandler;
    assert_eq!(exchange.denormalize(&instrument), Some(String::from("BTC-20250328-100000-C")));
}

#[test]
fn derive_test_denorm_perp() {
    let instrument = Instrument::new(
        Exchange::Derive,
        MarketType::OrderBook,
        InstrumentType::Perpetual { base: Currency::new("BTC"), quote: Currency::new("USD") },
    );
    let exchange = DeriveHandler;
    assert_eq!(exchange.denormalize(&instrument), Some(String::from("BTC-PERP")));
}

#[test]
fn derive_keyword_is_all_lower_or_all_upper() {
    let expected = Instrument::new(
        Exchange::Derive,
        MarketType::Ticker,
        InstrumentType::Perpetual { base: Currency::new("ETH"), quote: Currency::new("USD") },
    );
    assert_eq!(DeriveHandler.normalize(MarketType::Ticker, "eth-perp"), Some(expected));
    assert_eq!(DeriveHandler.normalize(MarketType::Ticker, "ETH-Perp"), None);
}

#[test]
fn derive_rejects_futures_and_spot() {
    let future = Instrument::new(
        Exchange::Derive,
        MarketType::OrderBook,
        InstrumentType::Future {
            base: Currency::new("BTC"),
            quote: Currency::new("USD"),
            expiry: String::from("20250328"),
        },
    );
    let spot = Instrument::new(
        Exchange::Derive,
        MarketType::OrderBook,
        InstrumentType::Spot { base: Currency::new("BTC"), quote: Currency::new("USD") },
    );
    assert_eq!(DeriveHandler.denormalize(&future), None);
    assert_eq!(DeriveHandler.denormalize(&spot), None);
    assert!(!DeriveHandler.supports_instrument_type(&spot.instrument_type));
    assert!(DeriveHandler.supports_market_type(&MarketType::Funding));
    assert_eq!(DeriveHandler.normalize(MarketType::OrderBook, "BTC-USD-20250528"), None);
}

#[test]
fn derive_round_trip_default_quote() {
    for raw in ["BTC-PERP", "BTC-20250328-100000-C", "ETH-20300101-2500-P"] {
        let instrument = DeriveHandler.normalize(MarketType::OrderBook, raw).unwrap();
        assert_eq!(DeriveHandler.denormalize(&instrument), Some(String::from(raw)));
    }
}
