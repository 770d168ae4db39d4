use normify::exchange::deribit::DeribitHandler;
use normify::{Currency, Exchange, ExchangeHandler, Instrument, InstrumentType, MarketType, OptionKind};

#[test]
fn test_normalize_future() {
    let instrument_name = "BTC-28MAR25";
    let exchange = DeribitHandler;
    let market_type = MarketType::OrderBook;
    let expected_instrument = Instrument::new(
        Exchange::Deribit,
        market_type,
        InstrumentType::Future {
            base: Currency::new("BTC"),
            quote: Currency::new("USD"),
            expiry: String::from("20250328"),
        },
    );
    let result = exchange.normalize(MarketType::OrderBook, instrument_name);
    println!("{:?}", result);
    assert_eq!(result, Some(expected_instrument));
}

#[test]
fn deribit_test_normalize_option() {
    let instrument_name = "BTC-28MAR25-100000-C";
    let exchange = DeribitHandler;
    let market_type = MarketType::OrderBook;
    let expected_instrument = Instrument::new(
        Exchange::Deribit,
        market_type,
        InstrumentType::Option {
            base: Currency::new("BTC"),
            quote: Currency::new("USD"),
            expiry: String::from("20250328"),
            strike: 100000,
            kind: OptionKind::Call,
        },
    );
    let result = exchange.normalize(MarketType::OrderBook, instrument_name);
    println!("{:?}", result);
    assert_eq!(result, Some(expected_instrument));
}

#[test]
fn deribit_test_normalize_perpetual1() {
    let instrument_name = "BTC-PERPETUAL";
    let exchange = DeribitHandler;
    let market_type = MarketType::OrderBook;
    let expected_instrument = Instrument::new(
        Exchange::Deribit,
        market_type,
        InstrumentType::Perpetual { base: Currency::new("BTC"), quote: Currency::new("USD") },
    );
    let result = exchange.normalize(MarketType::OrderBook, instrument_name);
    println!("{:?}", result);
    assert_eq!(result, Some(expected_instrument));
}

#[test]
fn test_normalize_perpetual2() {
    let instrument_name = "SOL_USDC-PERPETUAL";
    let exchange = DeribitHandler;
    let market_type = MarketType::OrderBook;
    let expected_instrument = Instrument::new(
        Exchange::Deribit,
        market_type,
        InstrumentType::Perpetual { base: Currency::new("SOL"), quote: Currency::new("USDC") },
    );
    let result = exchange.normalize(MarketType::OrderBook, instrument_name);
    println!("{:?}", result);
    assert_eq!(result, Some(expected_instrument));
}

#[test]
fn test_normalize_spot() {
    let instrument_name = "BTC_USD";
    let exchange = DeribitHandler;
    let market_type = MarketType::OrderBook;
    let expected_instrument = Instrument::new(
        Exchange::Deribit,
        market_type,
        InstrumentType::Spot { base: Currency::new("BTC"), quote: Currency::new("USD") },
    );
    let result = exchange.normalize(MarketType::OrderBook, instrument_name);
    println!("{:?}", result);
    assert_eq!(result, Some(expected_instrument));
}

#[test]
fn deribit_test_normalize_unknown() {
    let instrument_name = "BTC-USD-20250528";
    let exchange = DeribitHandler;
    assert_eq!(exchange.normalize(MarketType::OrderBook, instrument_name), None);
}

#[test]
fn test_denorm_future() {
    let instrument = Instrument::new(
        Exchange::Deribit,
        MarketType::OrderBook,
        InstrumentType::Future {
            base: Currency::new("BTC"),
            quote: Currency::new("USD"),
            expiry: String::from("20250328"),
        },
    );
    let exchange = DeribitHandler;
    assert_eq!(exchange.denormalize(&instrument), Some(String::from("BTC-28MAR25")));
}

#[test]
fn deribit_test_denorm_option() {
    let instrument = Instrument::new(
        Exchange::Deribit,
        MarketType::OrderBook,
        InstrumentType::Option {
            base: Currency::new("BTC"),
            quote: Currency::new("USD"),
            expiry: String::from("20250328"),
            strike: 100000,
            kind: OptionKind::Call,
        },
    );
    let exchange = DeribitHandler;
    assert_eq!(exchange.denormalize(&instrument), Some(String::from("BTC-28MAR25-100000-C")));
}

#[test]
fn deribit_test_denorm_perp1() {
    let instrument = Instrument::new(
        Exchange::Deribit,
        MarketType::OrderBook,
        InstrumentType::Perpetual { base: Currency::new("BTC"), quote: Currency::new("USD") },
    );
    let exchange = DeribitHandler;
    assert_eq!(exchange.denormalize(&instrument), Some(String::from("BTC-PERPETUAL")));
}

#[test]
fn test_denorm_perp2() {
    let instrument = Instrument::new(
        Exchange::Deribit,
        MarketType::OrderBook,
        InstrumentType::Perpetual { base: Currency::new("SOL"), quote: Currency::new("USDC") },
    );
    let exchange = DeribitHandler;
    assert_eq!(exchange.denormalize(&instrument), Some(String::from("SOL_USDC-PERPETUAL")));
}

#[test]
fn test_denorm_spot() {
    let instrument = Instrument::new(
        Exchange::Deribit,
        MarketType::OrderBook,
        InstrumentType::Spot { base: Currency::new("BTC"), quote: Currency::new("USD") },
    );
    let exchange = DeribitHandler;
    assert_eq!(exchange.denormalize(&instrument), Some(String::from("BTC_USD")));
}

#[test]
fn deribit_rejects_other_venues_instrument() {
    let instrument = Instrument::new(
        Exchange::Aevo,
        MarketType::OrderBook,
        InstrumentType::Perpetual { base: Currency::new("BTC"), quote: Currency::new("USD") },
    );
    assert_eq!(DeribitHandler.denormalize(&instrument), None);
}

#[test]
fn deribit_reads_keyword_in_any_case() {
    let expected = Instrument::new(
        Exchange::Deribit,
        MarketType::Funding,
        InstrumentType::Perpetual { base: Currency::new("ETH"), quote: Currency::new("USD") },
    );
    assert_eq!(DeribitHandler.normalize(MarketType::Funding, "eth-Perpetual"), Some(expected));
}

#[test]
fn deribit_rejects_bad_option_fields() {
    assert_eq!(DeribitHandler.normalize(MarketType::OrderBook, "BTC-28MAR25-1e5-C"), None);
    assert_eq!(DeribitHandler.normalize(MarketType::OrderBook, "BTC-28MAR25-100000-X"), None);
    assert_eq!(DeribitHandler.normalize(MarketType::OrderBook, "BTC-31FEB25-100000-C"), None);
    assert_eq!(DeribitHandler.normalize(MarketType::OrderBook, "BTC-20250328-100000-C"), None);
    assert_eq!(DeribitHandler.normalize(MarketType::OrderBook, "BTC-28MAR25-100000.5-C"), None);
}

#[test]
fn deribit_reads_option_kind_words() {
    let result = DeribitHandler.normalize(MarketType::OrderBook, "BTC-28MAR25-100000-put");
    let expected = Instrument::new(
        Exchange::Deribit,
        MarketType::OrderBook,
        InstrumentType::Option {
            base: Currency::new("BTC"),
            quote: Currency::new("USD"),
            expiry: String::from("20250328"),
            strike: 100000,
            kind: OptionKind::Put,
        },
    );
    assert_eq!(result, Some(expected));
}

#[test]
fn deribit_spot_needs_exactly_two_parts() {
    assert_eq!(DeribitHandler.normalize(MarketType::OrderBook, "BTC"), None);
    assert_eq!(DeribitHandler.normalize(MarketType::OrderBook, "BTC_USD_X"), None);
}

#[test]
fn deribit_supports_everything() {
    assert!(DeribitHandler.supports_market_type(&MarketType::Funding));
    assert!(DeribitHandler.supports_instrument_type(&InstrumentType::Spot {
        base: Currency::new("BTC"),
        quote: Currency::new("USD"),
    }));
}

#[test]
fn deribit_round_trip_default_quote() {
    for raw in ["BTC-PERPETUAL", "BTC-28MAR25", "BTC-28MAR25-100000-C", "ETH-01JAN30-2500-P", "BTC_USD"] {
        let instrument = DeribitHandler.normalize(MarketType::OrderBook, raw).unwrap();
        assert_eq!(DeribitHandler.denormalize(&instrument), Some(String::from(raw)));
    }
}
