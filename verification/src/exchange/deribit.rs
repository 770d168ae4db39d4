//! Deribit: perpetuals, futures, options and spot pairs; dates as
//! `28MAR25`; quotes in USD unless the name says otherwise.

use vstd::prelude::*;
use crate::date::{
    canonical_expiry, denormalize_expiry, normalize_expiry, parse_expiry_date, read_date,
    venue_expiry, DatePattern,
};
use crate::exchange::{
    option_name, option_written, perpetual_name, perpetual_written, read_option, read_perpetual,
    write_option, write_perpetual, ExchangeHandler,
};
use crate::model::{
    Currency, Exchange, Instrument, InstrumentType, InstrumentTypeView, InstrumentView,
    MarketType,
};
use crate::text::{eq_ignore_case, same_ignoring_case, upper};
use crate::tokens::{join_pair, joined, split, split_text};

verus! {

/// The handler for Deribit.
pub struct DeribitHandler;

/// The future that the tokens `BASE-EXPIRY` write; the expiry is stored in
/// canonical form.
pub open spec fn future_written(market_type: MarketType, base: Seq<char>, expiry: Seq<char>) -> Option<
    InstrumentView,
> {
    match canonical_expiry(expiry) {
        Some(canonical) => Some(
            InstrumentView {
                exchange: Exchange::Deribit,
                market_type,
                instrument_type: InstrumentTypeView::Future {
                    base: upper(base),
                    quote: upper("usd"@),
                    expiry: canonical,
                },
            },
        ),
        None => None,
    }
}

/// The spot pair that the single token `BASE_QUOTE` writes.
pub open spec fn spot_written(market_type: MarketType, token: Seq<char>) -> Option<InstrumentView> {
    let parts = split(token, '_');
    if parts.len() == 2 {
        Some(
            InstrumentView {
                exchange: Exchange::Deribit,
                market_type,
                instrument_type: InstrumentTypeView::Spot {
                    base: upper(parts[0]),
                    quote: upper(parts[1]),
                },
            },
        )
    } else {
        None
    }
}

/// The instrument that a Deribit name writes. Its tokens between `-` are,
/// tried in this order: `BASE[_QUOTE]` and the word `PERPETUAL` in any
/// case; `BASE` and a date; `BASE`, a date, a strike and an option kind; or
/// `BASE_QUOTE` alone.
pub open spec fn normalized(market_type: MarketType, name: Seq<char>) -> Option<InstrumentView> {
    let tokens = split(name, '-');
    if tokens.len() == 2 && same_ignoring_case(tokens[1], "perpetual"@) {
        Some(perpetual_written(Exchange::Deribit, market_type, "usd"@, tokens[0]))
    } else if tokens.len() == 2 && read_date(tokens[1], DatePattern::DayMonthYear) is Some {
        future_written(market_type, tokens[0], tokens[1])
    } else if tokens.len() == 4 {
        option_written(
            Exchange::Deribit,
            market_type,
            DatePattern::DayMonthYear,
            "usd"@,
            tokens[0],
            tokens[1],
            tokens[2],
            tokens[3],
        )
    } else if tokens.len() == 1 {
        spot_written(market_type, tokens[0])
    } else {
        None
    }
}

/// The Deribit name of an instrument; nothing for an instrument of another
/// venue or with an expiry that is no canonical date.
pub open spec fn denormalized(instrument: InstrumentView) -> Option<Seq<char>> {
    if instrument.exchange != Exchange::Deribit || !instrument.has_sound_expiry() {
        None
    } else {
        match instrument.instrument_type {
            InstrumentTypeView::Future { base, expiry, .. } => Some(
                joined(base, '-', venue_expiry(expiry, DatePattern::DayMonthYear)),
            ),
            InstrumentTypeView::Option { base, expiry, strike, kind, .. } => Some(
                option_name(DatePattern::DayMonthYear, base, expiry, strike, kind),
            ),
            InstrumentTypeView::Spot { base, quote } => Some(joined(base, '_', quote)),
            InstrumentTypeView::Perpetual { base, quote } => Some(
                perpetual_name("usd"@, "PERPETUAL"@, base, quote),
            ),
        }
    }
}

impl ExchangeHandler for DeribitHandler {
    open spec fn venue(&self) -> Exchange {
        Exchange::Deribit
    }

    open spec fn normalized(&self, market_type: MarketType, name: Seq<char>) -> Option<
        InstrumentView,
    > {
        normalized(market_type, name)
    }

    open spec fn denormalized(&self, instrument: InstrumentView) -> Option<Seq<char>> {
        denormalized(instrument)
    }

    open spec fn supports_market(&self, market_type: MarketType) -> bool {
        true
    }

    open spec fn supports_kind(&self, instrument_type: InstrumentTypeView) -> bool {
        true
    }

    fn normalize(&self, market_type: MarketType, instrument_name: &str) -> (r: Option<Instrument>) {
        let tokens = split_text(instrument_name, '-');
        if tokens.len() == 2 && eq_ignore_case(tokens[1].as_str(), "perpetual") {
            Some(read_perpetual(Exchange::Deribit, market_type, "usd", tokens[0].as_str()))
        } else if tokens.len() == 2 && parse_expiry_date(
            tokens[1].as_str(),
            DatePattern::DayMonthYear,
        ).is_some() {
            match normalize_expiry(tokens[1].as_str()) {
                Ok(expiry) => Some(
                    Instrument::new(
                        Exchange::Deribit,
                        market_type,
                        InstrumentType::Future {
                            base: Currency::new(tokens[0].as_str()),
                            quote: Currency::new("usd"),
                            expiry,
                        },
                    ),
                ),
                Err(_) => None,
            }
        } else if tokens.len() == 4 {
            read_option(
                Exchange::Deribit,
                market_type,
                DatePattern::DayMonthYear,
                "usd",
                tokens[0].as_str(),
                tokens[1].as_str(),
                tokens[2].as_str(),
                tokens[3].as_str(),
            )
        } else if tokens.len() == 1 {
            let parts = split_text(tokens[0].as_str(), '_');
            if parts.len() == 2 {
                Some(
                    Instrument::new(
                        Exchange::Deribit,
                        market_type,
                        InstrumentType::Spot {
                            base: Currency::new(parts[0].as_str()),
                            quote: Currency::new(parts[1].as_str()),
                        },
                    ),
                )
            } else {
                None
            }
        } else {
            None
        }
    }

    fn denormalize(&self, instrument: &Instrument) -> (r: Option<String>) {
        match instrument.exchange {
            Exchange::Deribit => {},
            _ => {
                return None;
            },
        }
        if !instrument.instrument_type.has_sound_expiry() {
            return None;
        }
        match &instrument.instrument_type {
            InstrumentType::Future { base, expiry, .. } => {
                let day = denormalize_expiry(expiry.as_str(), DatePattern::DayMonthYear);
                Some(join_pair(base.as_ref(), '-', day.as_str()))
            },
            InstrumentType::Option { base, expiry, strike, kind, .. } => Some(
                write_option(
                    DatePattern::DayMonthYear,
                    base.as_ref(),
                    expiry.as_str(),
                    *strike,
                    *kind,
                ),
            ),
            InstrumentType::Spot { base, quote } => Some(
                join_pair(base.as_ref(), '_', quote.as_ref()),
            ),
            InstrumentType::Perpetual { base, quote } => Some(
                write_perpetual("usd", "PERPETUAL", base.as_ref(), quote.as_ref()),
            ),
        }
    }

    fn supports_market_type(&self, market_type: &MarketType) -> (r: bool) {
        true
    }

    fn supports_instrument_type(&self, instrument_type: &InstrumentType) -> (r: bool) {
        true
    }
}

} // verus!
