//! The venue handlers: one grammar per venue for reading a venue-native
//! instrument name into an instrument and for writing it back.

pub mod aevo;
pub mod deribit;
pub mod derive;
pub mod dydx;
pub mod paradex;

use vstd::prelude::*;
use crate::date::{
    canonical_expiry, denormalize_expiry, lemma_canonical_expiry, normalize_expiry,
    parse_expiry_date, read_date, venue_expiry, DatePattern,
};
use crate::decimal::{decimal, decimal_text, parse_u64, parse_u64_text};
use crate::model::{
    opt_view, Currency, Exchange, Instrument, InstrumentType, InstrumentTypeView, InstrumentView,
    MarketType, OptionKind,
};
use crate::text::{opt_text, upper};
use crate::tokens::{join_pair, joined, split, split_once, split_text_once};

verus! {

/// What every venue handler does: it reads a venue-native name into an
/// instrument, writes an instrument back as the venue names it, and tells
/// which market types and instrument types the venue has.
pub trait ExchangeHandler {
    /// The venue that the handler speaks for.
    spec fn venue(&self) -> Exchange;

    /// The instrument that a venue-native name writes, if it writes one.
    spec fn normalized(&self, market_type: MarketType, name: Seq<char>) -> Option<InstrumentView>;

    /// The venue-native name of an instrument, if the venue has it.
    spec fn denormalized(&self, instrument: InstrumentView) -> Option<Seq<char>>;

    /// Whether the venue publishes this market type.
    spec fn supports_market(&self, market_type: MarketType) -> bool;

    /// Whether the venue trades this kind of instrument.
    spec fn supports_kind(&self, instrument_type: InstrumentTypeView) -> bool;

    /// Reads a venue-native instrument name. What is read is an instrument
    /// of this venue and of the market type asked for, with an expiry, if
    /// it has one, in the canonical form of a day that exists; nothing is
    /// read for a market type that the venue does not publish.
    fn normalize(&self, market_type: MarketType, instrument_name: &str) -> (r: Option<Instrument>)
        ensures
            opt_view(r) == self.normalized(market_type, instrument_name@),
            !self.supports_market(market_type) ==> r is None,
            r matches Some(instrument) ==> instrument.exchange == self.venue()
                && instrument.market_type == market_type && instrument@.has_sound_expiry(),
    ;

    /// Writes an instrument as the venue names it. An instrument of
    /// another venue, of a market type that the venue does not publish, of
    /// a kind that it does not trade or with an expiry that is no
    /// canonical date has no name.
    fn denormalize(&self, instrument: &Instrument) -> (r: Option<String>)
        ensures
            opt_text(r) == self.denormalized(instrument@),
            instrument.exchange != self.venue() ==> r is None,
            !self.supports_market(instrument.market_type) ==> r is None,
            !self.supports_kind(instrument.instrument_type@) ==> r is None,
            !instrument@.has_sound_expiry() ==> r is None,
    ;

    /// Tells whether the venue publishes this market type.
    fn supports_market_type(&self, market_type: &MarketType) -> (r: bool)
        ensures
            r == self.supports_market(*market_type),
    ;

    /// Tells whether the venue trades this kind of instrument.
    fn supports_instrument_type(&self, instrument_type: &InstrumentType) -> (r: bool)
        ensures
            r == self.supports_kind(instrument_type@),
    ;
}

/// A perpetual read from the token in front of the keyword: `BASE_QUOTE`
/// cut at its first `_`, or `BASE` alone with the venue's default quote.
pub open spec fn perpetual_written(
    exchange: Exchange,
    market_type: MarketType,
    default_quote: Seq<char>,
    token: Seq<char>,
) -> InstrumentView {
    let (base, quote) = match split_once(token, '_') {
        Some((base, quote)) => (base, quote),
        None => (token, default_quote),
    };
    InstrumentView {
        exchange,
        market_type,
        instrument_type: InstrumentTypeView::Perpetual { base: upper(base), quote: upper(quote) },
    }
}

/// An option built from its base, its canonical expiry and the venue's
/// strike and kind tokens; nothing when the strike is no number or the kind
/// is unknown.
pub open spec fn option_built(
    exchange: Exchange,
    market_type: MarketType,
    quote: Seq<char>,
    base: Seq<char>,
    expiry: Seq<char>,
    strike: Seq<char>,
    kind: Seq<char>,
) -> Option<InstrumentView> {
    if parse_u64(strike) is Some && OptionKind::named(kind) is Some {
        Some(
            InstrumentView {
                exchange,
                market_type,
                instrument_type: InstrumentTypeView::Option {
                    base: upper(base),
                    quote: upper(quote),
                    expiry,
                    strike: parse_u64(strike).unwrap(),
                    kind: OptionKind::named(kind).unwrap(),
                },
            },
        )
    } else {
        None
    }
}

/// The option that the tokens `BASE-EXPIRY-STRIKE-KIND` write on a venue
/// that writes dates in `pattern` and quotes in `quote`. The expiry has to
/// be a date in the venue's pattern; it is stored in canonical form.
pub open spec fn option_written(
    exchange: Exchange,
    market_type: MarketType,
    pattern: DatePattern,
    quote: Seq<char>,
    base: Seq<char>,
    expiry: Seq<char>,
    strike: Seq<char>,
    kind: Seq<char>,
) -> Option<InstrumentView> {
    if read_date(expiry, pattern) is Some && canonical_expiry(expiry) is Some {
        option_built(
            exchange,
            market_type,
            quote,
            base,
            canonical_expiry(expiry).unwrap(),
            strike,
            kind,
        )
    } else {
        None
    }
}

/// The venue-native name of an option: `BASE-EXPIRY-STRIKE-KIND`, the
/// expiry in the venue's pattern.
pub open spec fn option_name(
    pattern: DatePattern,
    base: Seq<char>,
    expiry: Seq<char>,
    strike: u64,
    kind: OptionKind,
) -> Seq<char> {
    joined(
        joined(joined(base, '-', venue_expiry(expiry, pattern)), '-', decimal(strike as nat)),
        '-',
        kind.letter(),
    )
}

/// The venue-native name of a perpetual: the base, with `_QUOTE` behind it
/// unless the quote is the venue's default, then `-` and the keyword.
pub open spec fn perpetual_name(
    default_quote: Seq<char>,
    keyword: Seq<char>,
    base: Seq<char>,
    quote: Seq<char>,
) -> Seq<char> {
    if crate::text::same_ignoring_case(quote, default_quote) {
        joined(base, '-', keyword)
    } else {
        joined(joined(base, '_', quote), '-', keyword)
    }
}

/// Reads a perpetual from the token in front of the keyword.
pub fn read_perpetual(
    exchange: Exchange,
    market_type: MarketType,
    default_quote: &str,
    token: &str,
) -> (r: Instrument)
    ensures
        r@ == perpetual_written(exchange, market_type, default_quote@, token@),
{
    let instrument_type = match split_text_once(token, '_') {
        Some((base, quote)) => InstrumentType::Perpetual {
            base: Currency::new(base.as_str()),
            quote: Currency::new(quote.as_str()),
        },
        None => InstrumentType::Perpetual {
            base: Currency::new(token),
            quote: Currency::new(default_quote),
        },
    };
    Instrument::new(exchange, market_type, instrument_type)
}

/// Builds an option from its base, its canonical expiry and the venue's
/// strike and kind tokens.
pub fn build_option(
    exchange: Exchange,
    market_type: MarketType,
    quote: &str,
    base: &str,
    expiry: String,
    strike: &str,
    kind: &str,
) -> (r: Option<Instrument>)
    ensures
        opt_view(r) == option_built(exchange, market_type, quote@, base@, expiry@, strike@, kind@),
{
    let strike = match parse_u64_text(strike) {
        Some(strike) => strike,
        None => {
            return None;
        },
    };
    let kind = match OptionKind::try_from(kind) {
        Ok(kind) => kind,
        Err(_) => {
            return None;
        },
    };
    Some(
        Instrument::new(
            exchange,
            market_type,
            InstrumentType::Option {
                base: Currency::new(base),
                quote: Currency::new(quote),
                expiry,
                strike,
                kind,
            },
        ),
    )
}

/// Reads an option from the tokens `BASE-EXPIRY-STRIKE-KIND`. Its expiry
/// is the canonical form of a day that exists.
pub fn read_option(
    exchange: Exchange,
    market_type: MarketType,
    pattern: DatePattern,
    quote: &str,
    base: &str,
    expiry: &str,
    strike: &str,
    kind: &str,
) -> (r: Option<Instrument>)
    ensures
        opt_view(r) == option_written(
            exchange,
            market_type,
            pattern,
            quote@,
            base@,
            expiry@,
            strike@,
            kind@,
        ),
        r matches Some(instrument) ==> instrument@.has_sound_expiry(),
{
    if parse_expiry_date(expiry, pattern).is_none() {
        return None;
    }
    match normalize_expiry(expiry) {
        Ok(canonical) => build_option(exchange, market_type, quote, base, canonical, strike, kind),
        Err(_) => None,
    }
}

/// Writes the venue-native name of an option.
pub fn write_option(pattern: DatePattern, base: &str, expiry: &str, strike: u64, kind: OptionKind) -> (r:
    String)
    ensures
        r@ == option_name(pattern, base@, expiry@, strike, kind),
{
    let day = denormalize_expiry(expiry, pattern);
    let dated = join_pair(base, '-', day.as_str());
    let struck = join_pair(dated.as_str(), '-', decimal_text(strike).as_str());
    join_pair(struck.as_str(), '-', kind.to_string().as_str())
}

/// Writes the venue-native name of a perpetual.
pub fn write_perpetual(default_quote: &str, keyword: &str, base: &str, quote: &str) -> (r: String)
    ensures
        r@ == perpetual_name(default_quote@, keyword@, base@, quote@),
{
    if crate::text::eq_ignore_case(quote, default_quote) {
        join_pair(base, '-', keyword)
    } else {
        let pair = join_pair(base, '_', quote);
        join_pair(pair.as_str(), '-', keyword)
    }
}

/// The handler of one of the venues.
pub enum Handler {
    Deribit(deribit::DeribitHandler),
    Dydx(dydx::DydxHandler),
    Derive(derive::DeriveHandler),
    Paradex(paradex::ParadexHandler),
    Aevo(aevo::Aevohandler),
}

/// The instrument that a venue-native name writes on a venue.
pub open spec fn venue_normalized(exchange: Exchange, market_type: MarketType, name: Seq<char>) -> Option<
    InstrumentView,
> {
    match exchange {
        Exchange::Deribit => deribit::normalized(market_type, name),
        Exchange::Dydx => dydx::normalized(market_type, name),
        Exchange::Derive => derive::normalized(market_type, name),
        Exchange::Paradex => paradex::normalized(market_type, name),
        Exchange::Aevo => aevo::normalized(market_type, name),
    }
}

/// The name that a venue gives an instrument.
pub open spec fn venue_denormalized(exchange: Exchange, instrument: InstrumentView) -> Option<
    Seq<char>,
> {
    match exchange {
        Exchange::Deribit => deribit::denormalized(instrument),
        Exchange::Dydx => dydx::denormalized(instrument),
        Exchange::Derive => derive::denormalized(instrument),
        Exchange::Paradex => paradex::denormalized(instrument),
        Exchange::Aevo => aevo::denormalized(instrument),
    }
}

/// Whether a venue publishes a market type.
pub open spec fn venue_supports_market(exchange: Exchange, market_type: MarketType) -> bool {
    match exchange {
        Exchange::Deribit => true,
        Exchange::Dydx => dydx::supports_market(market_type),
        Exchange::Derive => true,
        Exchange::Paradex => paradex::supports_market(market_type),
        Exchange::Aevo => aevo::supports_market(market_type),
    }
}

/// Whether a venue trades a kind of instrument.
pub open spec fn venue_supports_kind(exchange: Exchange, instrument_type: InstrumentTypeView) -> bool {
    match exchange {
        Exchange::Deribit => true,
        Exchange::Dydx => dydx::supports_kind(instrument_type),
        Exchange::Derive => derive::supports_kind(instrument_type),
        Exchange::Paradex => paradex::supports_kind(instrument_type),
        Exchange::Aevo => aevo::supports_kind(instrument_type),
    }
}

/// Whether a venue has names of this many tokens between `-`.
pub open spec fn known_arity(exchange: Exchange, tokens: nat) -> bool {
    match exchange {
        Exchange::Deribit => tokens == 1 || tokens == 2 || tokens == 4,
        Exchange::Dydx => tokens == 2,
        Exchange::Derive => tokens == 2 || tokens == 4,
        Exchange::Paradex => tokens == 3,
        Exchange::Aevo => tokens == 2 || tokens == 4,
    }
}

/// A venue reads no instrument from a name whose number of tokens fits none
/// of its shapes, nor for a market type that it does not publish.
pub proof fn lemma_rejects_unknown_shape(exchange: Exchange, market_type: MarketType, name: Seq<char>)
    requires
        !known_arity(exchange, split(name, '-').len()) || !venue_supports_market(
            exchange,
            market_type,
        ),
    ensures
        venue_normalized(exchange, market_type, name) is None,
{
}

/// What a venue reads it can write: an instrument read from a venue-native
/// name is of that venue and of the market type asked for, its expiry, if
/// it has one, is a canonical date, and it has a name on that venue.
pub proof fn lemma_normalized_has_name(exchange: Exchange, market_type: MarketType, name: Seq<char>)
    requires
        venue_normalized(exchange, market_type, name) is Some,
    ensures
        venue_normalized(exchange, market_type, name).unwrap().exchange == exchange,
        venue_normalized(exchange, market_type, name).unwrap().market_type == market_type,
        venue_normalized(exchange, market_type, name).unwrap().has_sound_expiry(),
        venue_denormalized(exchange, venue_normalized(exchange, market_type, name).unwrap())
            is Some,
{
    let tokens = split(name, '-');
    if tokens.len() >= 2 && canonical_expiry(tokens[1]) is Some {
        lemma_canonical_expiry(tokens[1]);
    }
}

impl ExchangeHandler for Handler {
    open spec fn venue(&self) -> Exchange {
        match self {
            Handler::Deribit(_) => Exchange::Deribit,
            Handler::Dydx(_) => Exchange::Dydx,
            Handler::Derive(_) => Exchange::Derive,
            Handler::Paradex(_) => Exchange::Paradex,
            Handler::Aevo(_) => Exchange::Aevo,
        }
    }

    open spec fn normalized(&self, market_type: MarketType, name: Seq<char>) -> Option<
        InstrumentView,
    > {
        venue_normalized(self.venue(), market_type, name)
    }

    open spec fn denormalized(&self, instrument: InstrumentView) -> Option<Seq<char>> {
        venue_denormalized(self.venue(), instrument)
    }

    open spec fn supports_market(&self, market_type: MarketType) -> bool {
        venue_supports_market(self.venue(), market_type)
    }

    open spec fn supports_kind(&self, instrument_type: InstrumentTypeView) -> bool {
        venue_supports_kind(self.venue(), instrument_type)
    }

    fn normalize(&self, market_type: MarketType, instrument_name: &str) -> (r: Option<Instrument>) {
        match self {
            Handler::Deribit(h) => h.normalize(market_type, instrument_name),
            Handler::Dydx(h) => h.normalize(market_type, instrument_name),
            Handler::Derive(h) => h.normalize(market_type, instrument_name),
            Handler::Paradex(h) => h.normalize(market_type, instrument_name),
            Handler::Aevo(h) => h.normalize(market_type, instrument_name),
        }
    }

    fn denormalize(&self, instrument: &Instrument) -> (r: Option<String>) {
        match self {
            Handler::Deribit(h) => h.denormalize(instrument),
            Handler::Dydx(h) => h.denormalize(instrument),
            Handler::Derive(h) => h.denormalize(instrument),
            Handler::Paradex(h) => h.denormalize(instrument),
            Handler::Aevo(h) => h.denormalize(instrument),
        }
    }

    fn supports_market_type(&self, market_type: &MarketType) -> (r: bool) {
        match self {
            Handler::Deribit(h) => h.supports_market_type(market_type),
            Handler::Dydx(h) => h.supports_market_type(market_type),
            Handler::Derive(h) => h.supports_market_type(market_type),
            Handler::Paradex(h) => h.supports_market_type(market_type),
            Handler::Aevo(h) => h.supports_market_type(market_type),
        }
    }

    fn supports_instrument_type(&self, instrument_type: &InstrumentType) -> (r: bool) {
        match self {
            Handler::Deribit(h) => h.supports_instrument_type(instrument_type),
            Handler::Dydx(h) => h.supports_instrument_type(instrument_type),
            Handler::Derive(h) => h.supports_instrument_type(instrument_type),
            Handler::Paradex(h) => h.supports_instrument_type(instrument_type),
            Handler::Aevo(h) => h.supports_instrument_type(instrument_type),
        }
    }
}

impl Exchange {
    /// The handler of this venue.
    pub fn handler(&self) -> (r: Handler)
        ensures
            r.venue() == *self,
    {
        match self {
            Exchange::Deribit => Handler::Deribit(deribit::DeribitHandler),
            Exchange::Dydx => Handler::Dydx(dydx::DydxHandler),
            Exchange::Derive => Handler::Derive(derive::DeriveHandler),
            Exchange::Paradex => Handler::Paradex(paradex::ParadexHandler),
            Exchange::Aevo => Handler::Aevo(aevo::Aevohandler),
        }
    }
}

} // verus!
