//! dYdX: perpetuals on the order book market, named `BASE-QUOTE`.

use vstd::prelude::*;
use crate::exchange::ExchangeHandler;
use crate::model::{
    Currency, Exchange, Instrument, InstrumentType, InstrumentTypeView, InstrumentView,
    MarketType,
};
use crate::text::{eq_ignore_case, same_ignoring_case, upper};
use crate::tokens::{join_pair, joined, split, split_text};

verus! {

/// The handler for dYdX.
pub struct DydxHandler;

/// Whether dYdX publishes a market type: the order book only.
pub open spec fn supports_market(market_type: MarketType) -> bool {
    market_type == MarketType::OrderBook
}

/// Whether dYdX trades a kind of instrument: perpetuals only.
pub open spec fn supports_kind(instrument_type: InstrumentTypeView) -> bool {
    instrument_type is Perpetual
}

/// The instrument that a dYdX name writes, on the order book market: the
/// two tokens `BASE-QUOTE`, where the quote is not the word `perp` in any
/// case.
pub open spec fn normalized(market_type: MarketType, name: Seq<char>) -> Option<InstrumentView> {
    let tokens = split(name, '-');
    if supports_market(market_type) && tokens.len() == 2 && !same_ignoring_case(
        tokens[1],
        "perp"@,
    ) {
        Some(
            InstrumentView {
                exchange: Exchange::Dydx,
                market_type,
                instrument_type: InstrumentTypeView::Perpetual {
                    base: upper(tokens[0]),
                    quote: upper(tokens[1]),
                },
            },
        )
    } else {
        None
    }
}

/// The dYdX name of an instrument; nothing for an instrument of another
/// venue, of a kind that dYdX does not trade or of a market type that it
/// does not publish.
pub open spec fn denormalized(instrument: InstrumentView) -> Option<Seq<char>> {
    if instrument.exchange != Exchange::Dydx || !supports_market(instrument.market_type) {
        None
    } else {
        match instrument.instrument_type {
            InstrumentTypeView::Perpetual { base, quote } => Some(joined(base, '-', quote)),
            _ => None,
        }
    }
}

impl ExchangeHandler for DydxHandler {
    open spec fn venue(&self) -> Exchange {
        Exchange::Dydx
    }

    open spec fn normalized(&self, market_type: MarketType, name: Seq<char>) -> Option<
        InstrumentView,
    > {
        normalized(market_type, name)
    }

    open spec fn denormalized(&self, instrument: InstrumentView) -> Option<Seq<char>> {
        denormalized(instrument)
    }

    open spec fn supports_market(&self, market_type: MarketType) -> bool {
        supports_market(market_type)
    }

    open spec fn supports_kind(&self, instrument_type: InstrumentTypeView) -> bool {
        supports_kind(instrument_type)
    }

    fn normalize(&self, market_type: MarketType, instrument_name: &str) -> (r: Option<Instrument>) {
        if !self.supports_market_type(&market_type) {
            return None;
        }
        let tokens = split_text(instrument_name, '-');
        if tokens.len() == 2 && !eq_ignore_case(tokens[1].as_str(), "perp") {
            Some(
                Instrument::new(
                    Exchange::Dydx,
                    market_type,
                    InstrumentType::Perpetual {
                        base: Currency::new(tokens[0].as_str()),
                        quote: Currency::new(tokens[1].as_str()),
                    },
                ),
            )
        } else {
            None
        }
    }

    fn denormalize(&self, instrument: &Instrument) -> (r: Option<String>) {
        match instrument.exchange {
            Exchange::Dydx => {},
            _ => {
                return None;
            },
        }
        if !self.supports_instrument_type(&instrument.instrument_type) {
            return None;
        }
        if !self.supports_market_type(&instrument.market_type) {
            return None;
        }
        match &instrument.instrument_type {
            InstrumentType::Perpetual { base, quote } => Some(
                join_pair(base.as_ref(), '-', quote.as_ref()),
            ),
            _ => None,
        }
    }

    fn supports_market_type(&self, market_type: &MarketType) -> (r: bool) {
        matches!(market_type, MarketType::OrderBook)
    }

    fn supports_instrument_type(&self, instrument_type: &InstrumentType) -> (r: bool) {
        matches!(instrument_type, InstrumentType::Perpetual { .. })
    }
}

} // verus!
