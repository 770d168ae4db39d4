//! Paradex: perpetuals on the order book market, named `BASE-QUOTE-PERP`.

use vstd::prelude::*;
use crate::exchange::ExchangeHandler;
use crate::model::{
    Currency, Exchange, Instrument, InstrumentType, InstrumentTypeView, InstrumentView,
    MarketType,
};
use crate::text::{same_text, upper};
use crate::tokens::{join_pair, joined, split, split_text};

verus! {

/// The handler for Paradex.
pub struct ParadexHandler;

/// Whether Paradex publishes a market type: the order book only.
pub open spec fn supports_market(market_type: MarketType) -> bool {
    market_type == MarketType::OrderBook
}

/// Whether Paradex trades a kind of instrument: perpetuals only.
pub open spec fn supports_kind(instrument_type: InstrumentTypeView) -> bool {
    instrument_type is Perpetual
}

/// The instrument that a Paradex name writes, on the order book market:
/// the three tokens `BASE-QUOTE-PERP`, the last one `perp` or `PERP`.
pub open spec fn normalized(market_type: MarketType, name: Seq<char>) -> Option<InstrumentView> {
    let tokens = split(name, '-');
    if supports_market(market_type) && tokens.len() == 3 && (tokens[2] == "perp"@ || tokens[2]
        == "PERP"@) {
        Some(
            InstrumentView {
                exchange: Exchange::Paradex,
                market_type,
                instrument_type: InstrumentTypeView::Perpetual {
                    base: upper(tokens[0]),
                    quote: upper(tokens[1]),
                },
            },
        )
    } else {
        None
    }
}

/// The Paradex name of an instrument; nothing for an instrument of another
/// venue, of a kind that Paradex does not trade or of a market type that it
/// does not publish.
pub open spec fn denormalized(instrument: InstrumentView) -> Option<Seq<char>> {
    if instrument.exchange != Exchange::Paradex || !supports_market(instrument.market_type) {
        None
    } else {
        match instrument.instrument_type {
            InstrumentTypeView::Perpetual { base, quote } => Some(
                joined(joined(base, '-', quote), '-', "PERP"@),
            ),
            _ => None,
        }
    }
}

impl ExchangeHandler for ParadexHandler {
    open spec fn venue(&self) -> Exchange {
        Exchange::Paradex
    }

    open spec fn normalized(&self, market_type: MarketType, name: Seq<char>) -> Option<
        InstrumentView,
    > {
        normalized(market_type, name)
    }

    open spec fn denormalized(&self, instrument: InstrumentView) -> Option<Seq<char>> {
        denormalized(instrument)
    }

    open spec fn supports_market(&self, market_type: MarketType) -> bool {
        supports_market(market_type)
    }

    open spec fn supports_kind(&self, instrument_type: InstrumentTypeView) -> bool {
        supports_kind(instrument_type)
    }

    fn normalize(&self, market_type: MarketType, instrument_name: &str) -> (r: Option<Instrument>) {
        if !self.supports_market_type(&market_type) {
            return None;
        }
        let tokens = split_text(instrument_name, '-');
        if tokens.len() == 3 && (same_text(tokens[2].as_str(), "perp") || same_text(
            tokens[2].as_str(),
            "PERP",
        )) {
            Some(
                Instrument::new(
                    Exchange::Paradex,
                    market_type,
                    InstrumentType::Perpetual {
                        base: Currency::new(tokens[0].as_str()),
                        quote: Currency::new(tokens[1].as_str()),
                    },
                ),
            )
        } else {
            None
        }
    }

    fn denormalize(&self, instrument: &Instrument) -> (r: Option<String>) {
        match instrument.exchange {
            Exchange::Paradex => {},
            _ => {
                return None;
            },
        }
        if !self.supports_instrument_type(&instrument.instrument_type) {
            return None;
        }
        if !self.supports_market_type(&instrument.market_type) {
            return None;
        }
        match &instrument.instrument_type {
            InstrumentType::Perpetual { base, quote } => {
                let pair = join_pair(base.as_ref(), '-', quote.as_ref());
                Some(join_pair(pair.as_str(), '-', "PERP"))
            },
            _ => None,
        }
    }

    fn supports_market_type(&self, market_type: &MarketType) -> (r: bool) {
        matches!(market_type, MarketType::OrderBook)
    }

    fn supports_instrument_type(&self, instrument_type: &InstrumentType) -> (r: bool) {
        matches!(instrument_type, InstrumentType::Perpetual { .. })
    }
}

} // verus!
