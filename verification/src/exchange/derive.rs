//! Derive: perpetuals and options; dates as `20250328`; quotes in USD.

use vstd::prelude::*;
use crate::date::DatePattern;
use crate::exchange::{
    option_name, option_written, read_option, write_option, ExchangeHandler,
};
use crate::model::{
    Currency, Exchange, Instrument, InstrumentType, InstrumentTypeView, InstrumentView,
    MarketType,
};
use crate::text::{same_text, upper};
use crate::tokens::{join_pair, joined, split, split_text};

verus! {

/// The handler for Derive.
pub struct DeriveHandler;

/// Whether Derive trades a kind of instrument: options and perpetuals.
pub open spec fn supports_kind(instrument_type: InstrumentTypeView) -> bool {
    instrument_type is Option || instrument_type is Perpetual
}

/// The instrument that a Derive name writes. Its tokens between `-` are
/// `BASE` and the word `perp` or `PERP`, or `BASE`, a date, a strike and an
/// option kind.
pub open spec fn normalized(market_type: MarketType, name: Seq<char>) -> Option<InstrumentView> {
    let tokens = split(name, '-');
    if tokens.len() == 2 && (tokens[1] == "perp"@ || tokens[1] == "PERP"@) {
        Some(
            InstrumentView {
                exchange: Exchange::Derive,
                market_type,
                instrument_type: InstrumentTypeView::Perpetual {
                    base: upper(tokens[0]),
                    quote: upper("usd"@),
                },
            },
        )
    } else if tokens.len() == 4 {
        option_written(
            Exchange::Derive,
            market_type,
            DatePattern::YearMonthDay,
            "usd"@,
            tokens[0],
            tokens[1],
            tokens[2],
            tokens[3],
        )
    } else {
        None
    }
}

/// The Derive name of an instrument; nothing for an instrument of another
/// venue, of a kind that Derive does not trade or with an expiry that is no
/// canonical date. The name carries no quote.
pub open spec fn denormalized(instrument: InstrumentView) -> Option<Seq<char>> {
    if instrument.exchange != Exchange::Derive || !instrument.has_sound_expiry() {
        None
    } else {
        match instrument.instrument_type {
            InstrumentTypeView::Option { base, expiry, strike, kind, .. } => Some(
                option_name(DatePattern::YearMonthDay, base, expiry, strike, kind),
            ),
            InstrumentTypeView::Perpetual { base, .. } => Some(joined(base, '-', "PERP"@)),
            _ => None,
        }
    }
}

impl ExchangeHandler for DeriveHandler {
    open spec fn venue(&self) -> Exchange {
        Exchange::Derive
    }

    open spec fn normalized(&self, market_type: MarketType, name: Seq<char>) -> Option<
        InstrumentView,
    > {
        normalized(market_type, name)
    }

    open spec fn denormalized(&self, instrument: InstrumentView) -> Option<Seq<char>> {
        denormalized(instrument)
    }

    open spec fn supports_market(&self, market_type: MarketType) -> bool {
        true
    }

    open spec fn supports_kind(&self, instrument_type: InstrumentTypeView) -> bool {
        supports_kind(instrument_type)
    }

    fn normalize(&self, market_type: MarketType, instrument_name: &str) -> (r: Option<Instrument>) {
        let tokens = split_text(instrument_name, '-');
        if tokens.len() == 2 && (same_text(tokens[1].as_str(), "perp") || same_text(
            tokens[1].as_str(),
            "PERP",
        )) {
            Some(
                Instrument::new(
                    Exchange::Derive,
                    market_type,
                    InstrumentType::Perpetual {
                        base: Currency::new(tokens[0].as_str()),
                        quote: Currency::new("usd"),
                    },
                ),
            )
        } else if tokens.len() == 4 {
            read_option(
                Exchange::Derive,
                market_type,
                DatePattern::YearMonthDay,
                "usd",
                tokens[0].as_str(),
                tokens[1].as_str(),
                tokens[2].as_str(),
                tokens[3].as_str(),
            )
        } else {
            None
        }
    }

    fn denormalize(&self, instrument: &Instrument) -> (r: Option<String>) {
        match instrument.exchange {
            Exchange::Derive => {},
            _ => {
                return None;
            },
        }
        if !self.supports_instrument_type(&instrument.instrument_type) {
            return None;
        }
        if !instrument.instrument_type.has_sound_expiry() {
            return None;
        }
        match &instrument.instrument_type {
            InstrumentType::Option { base, expiry, strike, kind, .. } => Some(
                write_option(
                    DatePattern::YearMonthDay,
                    base.as_ref(),
                    expiry.as_str(),
                    *strike,
                    *kind,
                ),
            ),
            InstrumentType::Perpetual { base, .. } => Some(join_pair(base.as_ref(), '-', "PERP")),
            _ => None,
        }
    }

    fn supports_market_type(&self, market_type: &MarketType) -> (r: bool) {
        true
    }

    fn supports_instrument_type(&self, instrument_type: &InstrumentType) -> (r: bool) {
        matches!(instrument_type, InstrumentType::Option { .. }) || matches!(
            instrument_type,
            InstrumentType::Perpetual { .. }
        )
    }
}

} // verus!
