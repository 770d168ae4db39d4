//! The canonical instrument format,
//! `<market type>.<kind>.<inner name>.<venue>`, read into an instrument and
//! turned into the venue's own name.

use vstd::prelude::*;
use vstd::string::StringExecFns;
use crate::error::{InstrumentError, InstrumentErrorView, InstrumentResult};
use crate::exchange::{venue_denormalized, ExchangeHandler};
use crate::model::{
    instrument_type_parsed, Exchange, Instrument, InstrumentType, InstrumentView, MarketType,
};
use crate::text::{followed_by, opt_text};
use crate::tokens::{join_pair, joined, split, split_text};

verus! {

/// The outcome of reading a canonical text, as plain values.
pub open spec fn result_view(r: Result<Instrument, InstrumentError>) -> Result<
    InstrumentView,
    InstrumentErrorView,
> {
    match r {
        Ok(instrument) => Ok(instrument@),
        Err(error) => Err(error@),
    }
}

/// The instrument that a canonical text writes, or why it writes none.
///
/// The text has four fields between dots. A different number of fields is
/// an invalid format. The fourth field names the venue and the first the
/// market type; an unknown name is a parse error, the venue's first. The
/// second and third field are the kind code and the inner name; where they
/// write no instrument type the format is invalid, as it is where the
/// expiry of a future or an option is no canonical date. The instrument
/// has to have a name on its venue, else it is unsupported by the exchange.
pub open spec fn standard_parsed(text: Seq<char>) -> Result<InstrumentView, InstrumentErrorView> {
    let fields = split(text, '.');
    if fields.len() != 4 {
        Err(InstrumentErrorView::InvalidFormat("Invalid instrument format: "@ + text))
    } else {
        match Exchange::named(fields[3]) {
            None => Err(InstrumentErrorView::ParseError(Exchange::unknown_name_message(fields[3]))),
            Some(exchange) => match MarketType::named(fields[0]) {
                None => Err(InstrumentErrorView::ParseError("Invalid market type"@)),
                Some(market_type) => match instrument_type_parsed(fields[1], fields[2]) {
                    None => Err(
                        InstrumentErrorView::InvalidFormat(
                            "Invalid instrument format: "@ + joined(fields[1], '.', fields[2]),
                        ),
                    ),
                    Some(instrument_type) => {
                        let instrument = InstrumentView { exchange, market_type, instrument_type };
                        if venue_denormalized(exchange, instrument) is Some {
                            Ok(instrument)
                        } else {
                            Err(
                                InstrumentErrorView::UnsupportedByExchange(
                                    "Instrument not supported by "@ + exchange.name(),
                                ),
                            )
                        }
                    },
                },
            },
        }
    }
}

/// The venue's own name of the instrument that a canonical text writes;
/// nothing when the text writes no instrument.
pub open spec fn exchange_format(text: Seq<char>) -> Option<Seq<char>> {
    match standard_parsed(text) {
        Ok(instrument) => venue_denormalized(instrument.exchange, instrument),
        Err(_) => None,
    }
}

/// Reads an instrument from a text in the canonical format, such as
/// `o.p.BTC-USD.deribit`. An instrument that is read has a name on its
/// venue, and its expiry, if it has one, is a canonical date.
pub fn parse_standard_format(instrument_str: &str) -> (r: InstrumentResult<Instrument>)
    ensures
        result_view(r) == standard_parsed(instrument_str@),
        r matches Ok(instrument) ==> venue_denormalized(instrument.exchange, instrument@) is Some,
        r matches Ok(instrument) ==> instrument@.has_sound_expiry(),
{
    let fields = split_text(instrument_str, '.');
    if fields.len() != 4 {
        return Err(
            InstrumentError::InvalidFormat(followed_by("Invalid instrument format: ", instrument_str)),
        );
    }
    let exchange = match Exchange::try_from(fields[3].as_str()) {
        Ok(exchange) => exchange,
        Err(message) => {
            return Err(InstrumentError::ParseError(message));
        },
    };
    let market_type = match MarketType::try_from(fields[0].as_str()) {
        Ok(market_type) => market_type,
        Err(message) => {
            return Err(InstrumentError::ParseError(String::from_str(message)));
        },
    };
    let instrument_type = match InstrumentType::from_str(fields[1].as_str(), fields[2].as_str()) {
        Some(instrument_type) => instrument_type,
        None => {
            let unread = join_pair(fields[1].as_str(), '.', fields[2].as_str());
            return Err(
                InstrumentError::InvalidFormat(
                    followed_by("Invalid instrument format: ", unread.as_str()),
                ),
            );
        },
    };
    let instrument = Instrument::new(exchange, market_type, instrument_type);
    if exchange.handler().denormalize(&instrument).is_some() {
        Ok(instrument)
    } else {
        Err(
            InstrumentError::UnsupportedByExchange(
                followed_by("Instrument not supported by ", exchange.to_string().as_str()),
            ),
        )
    }
}

/// Turns a text in the canonical format into the venue's own instrument
/// name; nothing when the text writes no instrument of its venue.
pub fn to_exchange_format(instrument_str: &str) -> (r: Option<String>)
    ensures
        opt_text(r) == exchange_format(instrument_str@),
        r is Some <==> standard_parsed(instrument_str@) is Ok,
{
    match parse_standard_format(instrument_str) {
        Ok(instrument) => instrument.exchange.handler().denormalize(&instrument),
        Err(_) => None,
    }
}

} // verus!
