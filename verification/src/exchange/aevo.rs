//! Aevo: perpetuals and options, on the order book and ticker markets;
//! dates as `28MAR25`; quotes in USDC unless the name says otherwise.

use vstd::prelude::*;
use crate::date::DatePattern;
use crate::exchange::{
    option_name, option_written, perpetual_name, perpetual_written, read_option, read_perpetual,
    write_option, write_perpetual, ExchangeHandler,
};
use crate::model::{
    Exchange, Instrument, InstrumentType, InstrumentTypeView, InstrumentView, MarketType,
};
use crate::text::{eq_ignore_case, same_ignoring_case};
use crate::tokens::{split, split_text};

verus! {

/// The handler for Aevo.
pub struct Aevohandler;

/// Whether Aevo publishes a market type: the order book and the ticker.
pub open spec fn supports_market(market_type: MarketType) -> bool {
    market_type == MarketType::OrderBook || market_type == MarketType::Ticker
}

/// Whether Aevo trades a kind of instrument: perpetuals and options.
pub open spec fn supports_kind(instrument_type: InstrumentTypeView) -> bool {
    instrument_type is Perpetual || instrument_type is Option
}

/// The instrument that an Aevo name writes, for a market type that Aevo
/// publishes. Its tokens between `-` are `BASE[_QUOTE]` and the word `PERP`
/// in any case, or `BASE`, a date, a strike and an option kind.
pub open spec fn normalized(market_type: MarketType, name: Seq<char>) -> Option<InstrumentView> {
    let tokens = split(name, '-');
    if !supports_market(market_type) {
        None
    } else if tokens.len() == 2 && same_ignoring_case(tokens[1], "perp"@) {
        Some(perpetual_written(Exchange::Aevo, market_type, "usdc"@, tokens[0]))
    } else if tokens.len() == 4 {
        option_written(
            Exchange::Aevo,
            market_type,
            DatePattern::DayMonthYear,
            "usdc"@,
            tokens[0],
            tokens[1],
            tokens[2],
            tokens[3],
        )
    } else {
        None
    }
}

/// The Aevo name of an instrument; nothing for an instrument of another
/// venue, of a kind that Aevo does not trade, of a market type that it
/// does not publish or with an expiry that is no canonical date.
pub open spec fn denormalized(instrument: InstrumentView) -> Option<Seq<char>> {
    if instrument.exchange != Exchange::Aevo || !supports_kind(instrument.instrument_type)
        || !supports_market(instrument.market_type) || !instrument.has_sound_expiry() {
        None
    } else {
        match instrument.instrument_type {
            InstrumentTypeView::Option { base, expiry, strike, kind, .. } => Some(
                option_name(DatePattern::DayMonthYear, base, expiry, strike, kind),
            ),
            InstrumentTypeView::Perpetual { base, quote } => Some(
                perpetual_name("usdc"@, "PERP"@, base, quote),
            ),
            _ => None,
        }
    }
}

impl ExchangeHandler for Aevohandler {
    open spec fn venue(&self) -> Exchange {
        Exchange::Aevo
    }

    open spec fn normalized(&self, market_type: MarketType, name: Seq<char>) -> Option<
        InstrumentView,
    > {
        normalized(market_type, name)
    }

    open spec fn denormalized(&self, instrument: InstrumentView) -> Option<Seq<char>> {
        denormalized(instrument)
    }

    open spec fn supports_market(&self, market_type: MarketType) -> bool {
        supports_market(market_type)
    }

    open spec fn supports_kind(&self, instrument_type: InstrumentTypeView) -> bool {
        supports_kind(instrument_type)
    }

    fn normalize(&self, market_type: MarketType, instrument_name: &str) -> (r: Option<Instrument>) {
        if !self.supports_market_type(&market_type) {
            return None;
        }
        let tokens = split_text(instrument_name, '-');
        if tokens.len() == 2 && eq_ignore_case(tokens[1].as_str(), "perp") {
            Some(read_perpetual(Exchange::Aevo, market_type, "usdc", tokens[0].as_str()))
        } else if tokens.len() == 4 {
            read_option(
                Exchange::Aevo,
                market_type,
                DatePattern::DayMonthYear,
                "usdc",
                tokens[0].as_str(),
                tokens[1].as_str(),
                tokens[2].as_str(),
                tokens[3].as_str(),
            )
        } else {
            None
        }
    }

    fn denormalize(&self, instrument: &Instrument) -> (r: Option<String>) {
        match instrument.exchange {
            Exchange::Aevo => {},
            _ => {
                return None;
            },
        }
        if !self.supports_instrument_type(&instrument.instrument_type) {
            return None;
        }
        if !self.supports_market_type(&instrument.market_type) {
            return None;
        }
        if !instrument.instrument_type.has_sound_expiry() {
            return None;
        }
        match &instrument.instrument_type {
            InstrumentType::Option { base, expiry, strike, kind, .. } => Some(
                write_option(
                    DatePattern::DayMonthYear,
                    base.as_ref(),
                    expiry.as_str(),
                    *strike,
                    *kind,
                ),
            ),
            InstrumentType::Perpetual { base, quote } => Some(
                write_perpetual("usdc", "PERP", base.as_ref(), quote.as_ref()),
            ),
            _ => None,
        }
    }

    fn supports_market_type(&self, market_type: &MarketType) -> (r: bool) {
        matches!(market_type, MarketType::OrderBook) || matches!(market_type, MarketType::Ticker)
    }

    fn supports_instrument_type(&self, instrument_type: &InstrumentType) -> (r: bool) {
        matches!(instrument_type, InstrumentType::Perpetual { .. }) || matches!(
            instrument_type,
            InstrumentType::Option { .. }
        )
    }
}

} // verus!
