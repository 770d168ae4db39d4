use normify::{
    parse_standard_format, to_exchange_format, Currency, Exchange, ExchangeHandler, Instrument,
    InstrumentError, InstrumentType, MarketType, OptionKind,
};

#[test]
fn test_denormalize_option() {
    let standard_format = "o.o.BTC-USD-20250528-100000-C.deribit";
    let denormalized_instrument = parse_standard_format(standard_format);
    assert!(denormalized_instrument.is_ok());
}

#[test]
fn test_denormalize_future() {
    let standard_format = "o.f.BTC-USD-20250528.deribit";
    let denormalized_instrument = parse_standard_format(standard_format);
    assert!(denormalized_instrument.is_ok());
}

#[test]
fn test_denormalize_perpetual() {
    let standard_format = "o.p.BTC-USD.deribit";
    let denormalized_instrument = parse_standard_format(standard_format);
    assert!(denormalized_instrument.is_ok());
}

#[test]
fn test_denormalize_spot() {
    let standard_format = "o.s.BTC-USD.deribit";
    let denormalized_instrument = parse_standard_format(standard_format);
    assert!(denormalized_instrument.is_ok());
}

#[test]
fn test_denormalize_invalid() {
    let standard_format = "o.o.BTC-USD.deribit";
    let denormalized_instrument = parse_standard_format(standard_format);
    assert!(denormalized_instrument.is_err());
}

#[test]
fn parse_reads_every_field() {
    let parsed = parse_standard_format("t.option.btc-usd-20250328-100000-p. Deribit ").unwrap();
    let expected = Instrument::new(
        Exchange::Deribit,
        MarketType::Ticker,
        InstrumentType::Option {
            base: Currency::new("BTC"),
            quote: Currency::new("USD"),
            expiry: String::from("20250328"),
            strike: 100000,
            kind: OptionKind::Put,
        },
    );
    assert_eq!(parsed, expected);
}

#[test]
fn parse_wrong_field_count_is_invalid_format() {
    match parse_standard_format("o.p.BTC-USD") {
        Err(InstrumentError::InvalidFormat(m)) => {
            assert_eq!(m, "Invalid instrument format: o.p.BTC-USD")
        }
        other => panic!("{:?}", other),
    }
    assert!(matches!(
        parse_standard_format("o.p.BTC-USD.deribit.x"),
        Err(InstrumentError::InvalidFormat(_))
    ));
}

#[test]
fn parse_unknown_names_are_parse_errors() {
    match parse_standard_format("o.p.BTC-USD.binance") {
        Err(InstrumentError::ParseError(m)) => assert_eq!(m, "Invalid exchange name: binance"),
        other => panic!("{:?}", other),
    }
    match parse_standard_format("x.p.BTC-USD.deribit") {
        Err(InstrumentError::ParseError(m)) => assert_eq!(m, "Invalid market type"),
        other => panic!("{:?}", other),
    }
}

#[test]
fn parse_wrong_arity_is_invalid_format() {
    match parse_standard_format("o.f.BTC-USD.deribit") {
        Err(InstrumentError::InvalidFormat(m)) => {
            assert_eq!(m, "Invalid instrument format: f.BTC-USD")
        }
        other => panic!("{:?}", other),
    }
    assert!(matches!(
        parse_standard_format("o.z.BTC-USD.deribit"),
        Err(InstrumentError::InvalidFormat(_))
    ));
}

#[test]
fn parse_unsupported_by_exchange() {
    match parse_standard_format("o.s.BTC-USD.dydx") {
        Err(InstrumentError::UnsupportedByExchange(m)) => {
            assert_eq!(m, "Instrument not supported by dydx")
        }
        other => panic!("{:?}", other),
    }
    assert!(matches!(
        parse_standard_format("f.p.BTC-USD.paradex"),
        Err(InstrumentError::UnsupportedByExchange(_))
    ));
    assert!(matches!(
        parse_standard_format("o.f.BTC-USD-20250328.aevo"),
        Err(InstrumentError::UnsupportedByExchange(_))
    ));
}

#[test]
fn error_sentences() {
    assert_eq!(InstrumentError::InvalidFormat(String::from("a")).to_string(), "Invalid format: a");
    assert_eq!(
        InstrumentError::UnsupportedByExchange(String::from("b")).to_string(),
        "Unsupported by exchange: b"
    );
    assert_eq!(InstrumentError::InvalidDate(String::from("c")).to_string(), "Invalid date format: c");
    assert_eq!(InstrumentError::ParseError(String::from("d")).to_string(), "Parsing error: d");
}

#[test]
fn to_exchange_format_collapses_errors() {
    assert_eq!(to_exchange_format("o.p.BTC-USD"), None);
    assert_eq!(to_exchange_format("o.p.BTC-USD.nowhere"), None);
    assert_eq!(to_exchange_format("o.s.BTC-USD.paradex"), None);
    assert_eq!(
        to_exchange_format("o.o.BTC-USD-20250328-90000-C.aevo"),
        Some(String::from("BTC-28MAR25-90000-C"))
    );
}

#[test]
fn scenario_deribit_option() {
    let raw = "BTC-28MAR25-100000-C";
    let canonical = "o.o.BTC-USD-20250328-100000-C.deribit";
    let instrument = Exchange::Deribit.handler().normalize(MarketType::OrderBook, raw).unwrap();
    assert_eq!(instrument.standard_format(), Some(String::from(canonical)));
    assert_eq!(parse_standard_format(canonical).unwrap(), instrument);
    assert_eq!(to_exchange_format(canonical), Some(String::from(raw)));
}

#[test]
fn scenario_deribit_perpetual_other_quote() {
    let raw = "SOL_USDC-PERPETUAL";
    let canonical = "o.p.SOL-USDC.deribit";
    let instrument = Exchange::Deribit.handler().normalize(MarketType::OrderBook, raw).unwrap();
    assert_eq!(instrument.standard_format(), Some(String::from(canonical)));
    assert_eq!(parse_standard_format(canonical).unwrap(), instrument);
    assert_eq!(to_exchange_format(canonical), Some(String::from(raw)));
}

#[test]
fn scenario_derive_option() {
    let raw = "BTC-20250328-100000-C";
    let canonical = "o.o.BTC-USD-20250328-100000-C.derive";
    let instrument = Exchange::Derive.handler().normalize(MarketType::OrderBook, raw).unwrap();
    assert_eq!(instrument.standard_format(), Some(String::from(canonical)));
    assert_eq!(parse_standard_format(canonical).unwrap(), instrument);
    assert_eq!(to_exchange_format(canonical), Some(String::from(raw)));
}

#[test]
fn scenario_dydx_perpetual() {
    let raw = "BTC-USD";
    let canonical = "o.p.BTC-USD.dydx";
    let instrument = Exchange::Dydx.handler().normalize(MarketType::OrderBook, raw).unwrap();
    assert_eq!(instrument.standard_format(), Some(String::from(canonical)));
    assert_eq!(parse_standard_format(canonical).unwrap(), instrument);
    assert_eq!(to_exchange_format(canonical), Some(String::from(raw)));
}

#[test]
fn scenario_paradex_perpetual() {
    let raw = "BTC-USD-PERP";
    let canonical = "o.p.BTC-USD.paradex";
    let instrument = Exchange::Paradex.handler().normalize(MarketType::OrderBook, raw).unwrap();
    assert_eq!(instrument.standard_format(), Some(String::from(canonical)));
    assert_eq!(parse_standard_format(canonical).unwrap(), instrument);
    assert_eq!(to_exchange_format(canonical), Some(String::from(raw)));
}

#[test]
fn scenario_malformed_for_every_venue() {
    for exchange in [Exchange::Deribit, Exchange::Dydx, Exchange::Derive, Exchange::Paradex, Exchange::Aevo] {
        assert_eq!(exchange.handler().normalize(MarketType::OrderBook, "BTC-USD-20250528"), None);
    }
}

#[test]
fn handler_speaks_for_its_venue() {
    for exchange in [Exchange::Deribit, Exchange::Dydx, Exchange::Derive, Exchange::Paradex, Exchange::Aevo] {
        let instrument = Instrument::new(
            exchange,
            MarketType::OrderBook,
            InstrumentType::Perpetual { base: Currency::new("BTC"), quote: Currency::new("EUR") },
        );
        assert!(exchange.handler().denormalize(&instrument).is_some());
        let other = if exchange == Exchange::Dydx { Exchange::Aevo } else { Exchange::Dydx };
        assert_eq!(other.handler().denormalize(&instrument), None);
    }
}

#[test]
fn expiry_that_is_no_canonical_date_is_refused() {
    for text in [
        "o.f.BTC-USD-2025XX99.deribit",
        "o.f.BTC-USD-someday.deribit",
        "o.f.BTC-USD-20250230.deribit",
        "o.f.BTC-USD-2025328.deribit",
        "o.f.BTC-USD-28MAR25.deribit",
        "o.f.BTC-USD-+12345678.deribit",
        "o.o.BTC-USD-2025XX99-100000-C.deribit",
        "o.o.BTC-USD-20251301-100000-C.derive",
        "o.o.BTC-USDC-20250431-100000-C.aevo",
        "o.o.BTC-USDC-28MAR25-100000-C.aevo",
    ] {
        assert!(matches!(parse_standard_format(text), Err(InstrumentError::InvalidFormat(_))));
        assert_eq!(to_exchange_format(text), None);
    }
    match parse_standard_format("o.f.BTC-USD-2025XX99.deribit") {
        Err(InstrumentError::InvalidFormat(m)) => {
            assert_eq!(m, "Invalid instrument format: f.BTC-USD-2025XX99")
        }
        other => panic!("{:?}", other),
    }
}

#[test]
fn parsed_expiry_is_eight_digits_of_a_day_that_exists() {
    for text in [
        "o.f.BTC-USD-20240229.deribit",
        "o.o.BTC-USD-00010101-1-P.derive",
        "t.o.BTC-USDC-99991231-1-C.aevo",
    ] {
        let instrument = parse_standard_format(text).unwrap();
        let expiry = instrument.instrument_type.expiry().unwrap();
        assert_eq!(expiry.len(), 8);
        assert!(expiry.chars().all(|c| c.is_ascii_digit()));
    }
}

#[test]
fn option_with_unreadable_expiry_has_no_standard_format() {
    let option = InstrumentType::Option {
        base: Currency::new("BTC"),
        quote: Currency::new("USD"),
        expiry: String::from("someday"),
        strike: 1,
        kind: OptionKind::Call,
    };
    assert_eq!(option.standard_format(), None);
    let instrument = Instrument::new(Exchange::Deribit, MarketType::OrderBook, option);
    assert_eq!(instrument.standard_format(), None);
}

#[test]
fn standard_format_of_each_kind() {
    let future = InstrumentType::Future {
        base: Currency::new("btc"),
        quote: Currency::new("usd"),
        expiry: String::from("20250328"),
    };
    assert_eq!(future.standard_format(), Some(String::from("f.BTC-USD-20250328")));
    let spot = InstrumentType::Spot { base: Currency::new("btc"), quote: Currency::new("usd") };
    assert_eq!(spot.standard_format(), Some(String::from("s.BTC-USD")));
    let instrument = Instrument::new(Exchange::Aevo, MarketType::Funding, spot);
    assert_eq!(instrument.standard_format(), Some(String::from("f.s.BTC-USD.aevo")));
}

#[test]
fn handlers_tell_what_their_venue_has() {
    let spot = InstrumentType::Spot { base: Currency::new("BTC"), quote: Currency::new("USD") };
    let perpetual =
        InstrumentType::Perpetual { base: Currency::new("BTC"), quote: Currency::new("USD") };
    assert!(Exchange::Deribit.handler().supports_instrument_type(&spot));
    assert!(!Exchange::Derive.handler().supports_instrument_type(&spot));
    assert!(!Exchange::Aevo.handler().supports_instrument_type(&spot));
    assert!(!Exchange::Dydx.handler().supports_instrument_type(&spot));
    assert!(!Exchange::Paradex.handler().supports_instrument_type(&spot));
    for exchange in [Exchange::Deribit, Exchange::Dydx, Exchange::Derive, Exchange::Paradex, Exchange::Aevo] {
        assert!(exchange.handler().supports_instrument_type(&perpetual));
        assert!(exchange.handler().supports_market_type(&MarketType::OrderBook));
    }
    assert!(Exchange::Deribit.handler().supports_market_type(&MarketType::Funding));
    assert!(Exchange::Derive.handler().supports_market_type(&MarketType::PublicTrade));
    assert!(Exchange::Aevo.handler().supports_market_type(&MarketType::Ticker));
    assert!(!Exchange::Aevo.handler().supports_market_type(&MarketType::Funding));
    assert!(!Exchange::Dydx.handler().supports_market_type(&MarketType::Ticker));
    assert!(!Exchange::Paradex.handler().supports_market_type(&MarketType::PublicTrade));
}

#[test]
fn instrument_with_unsound_expiry_has_no_name() {
    for expiry in ["2025XX99", "someday", "20250230", "28MAR25", "2025 328", ""] {
        let future = InstrumentType::Future {
            base: Currency::new("BTC"),
            quote: Currency::new("USD"),
            expiry: String::from(expiry),
        };
        assert!(!future.has_sound_expiry());
        let future = Instrument::new(Exchange::Deribit, MarketType::OrderBook, future);
        assert_eq!(Exchange::Deribit.handler().denormalize(&future), None);
        for exchange in [Exchange::Deribit, Exchange::Derive, Exchange::Aevo] {
            let option = Instrument::new(
                exchange,
                MarketType::OrderBook,
                InstrumentType::Option {
                    base: Currency::new("BTC"),
                    quote: Currency::new("USD"),
                    expiry: String::from(expiry),
                    strike: 100000,
                    kind: OptionKind::Call,
                },
            );
            assert_eq!(exchange.handler().denormalize(&option), None);
        }
    }
    let sound = InstrumentType::Future {
        base: Currency::new("BTC"),
        quote: Currency::new("USD"),
        expiry: String::from("20250328"),
    };
    assert!(sound.has_sound_expiry());
    let perpetual =
        InstrumentType::Perpetual { base: Currency::new("BTC"), quote: Currency::new("USD") };
    assert!(perpetual.has_sound_expiry());
}
