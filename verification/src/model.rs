//! The canonical data model: venues, market types, currencies and
//! instruments.

use vstd::prelude::*;
use vstd::string::StringExecFns;
use crate::date::{
    expiry_status, format_expiry_date, is_canonical_date, is_date_expired, is_date_expired_at,
    read_canonical_date, read_stored_date, rendered, status_view, stored_date, DatePattern,
    Moment,
};
use crate::decimal::{decimal, decimal_text, parse_u64, parse_u64_text};
use crate::error::InstrumentErrorView;
use crate::text::{
    eq_ignore_case, followed_by, lemma_upper_twice, opt_text, same_ignoring_case, to_upper, trim,
    trim_text, upper,
};
use crate::tokens::{join_pair, joined, split, split_text};

verus! {

/// The supported trading venues.
#[derive(Copy, Clone, Debug, PartialEq, Eq, Hash, Structural)]
pub enum Exchange {
    Deribit,
    Dydx,
    Derive,
    Paradex,
    Aevo,
}

/// The kinds of market data a venue publishes for an instrument.
#[derive(Copy, Clone, Debug, PartialEq, Eq, Hash, Structural)]
pub enum MarketType {
    OrderBook,
    PublicTrade,
    Ticker,
    Funding,
}

/// The right an option gives: to buy (call) or to sell (put).
#[derive(Copy, Clone, Debug, PartialEq, Eq, Hash, Structural)]
pub enum OptionKind {
    Call,
    Put,
}

/// An asset symbol in canonical form: every ASCII letter in upper case.
#[derive(Debug, PartialEq, Eq, Hash)]
pub struct Currency {
    symbol: String,
}

/// The kinds of instrument, each with its fields. An expiry is a date in the
/// canonical form `YYYYMMDD`.
#[derive(Debug, PartialEq, Clone, Eq, Hash)]
pub enum InstrumentType {
    /// A futures contract, `BASE-QUOTE-EXPIRY`.
    Future { base: Currency, quote: Currency, expiry: String },
    /// An options contract, `BASE-QUOTE-EXPIRY-STRIKE-KIND`.
    Option { base: Currency, quote: Currency, expiry: String, strike: u64, kind: OptionKind },
    /// A spot pair, `BASE-QUOTE`.
    Spot { base: Currency, quote: Currency },
    /// A perpetual contract, `BASE-QUOTE`.
    Perpetual { base: Currency, quote: Currency },
}

/// A trading instrument: where it trades, which market data is meant, and
/// what it is.
#[derive(Debug, PartialEq, Clone, Eq, Hash)]
pub struct Instrument {
    pub exchange: Exchange,
    pub market_type: MarketType,
    pub instrument_type: InstrumentType,
}

/// An instrument type as plain values.
pub enum InstrumentTypeView {
    Future { base: Seq<char>, quote: Seq<char>, expiry: Seq<char> },
    Option { base: Seq<char>, quote: Seq<char>, expiry: Seq<char>, strike: u64, kind: OptionKind },
    Spot { base: Seq<char>, quote: Seq<char> },
    Perpetual { base: Seq<char>, quote: Seq<char> },
}

/// An instrument as plain values.
pub struct InstrumentView {
    pub exchange: Exchange,
    pub market_type: MarketType,
    pub instrument_type: InstrumentTypeView,
}

impl View for Currency {
    type V = Seq<char>;

    closed spec fn view(&self) -> Seq<char> {
        self.symbol@
    }
}

impl Clone for Currency {
    fn clone(&self) -> (r: Currency)
        ensures
            r@ == self@,
    {
        proof {
            use_type_invariant(self);
        }
        Currency { symbol: self.symbol.clone() }
    }
}

impl View for InstrumentType {
    type V = InstrumentTypeView;

    open spec fn view(&self) -> InstrumentTypeView {
        match *self {
            InstrumentType::Future { base, quote, expiry } => InstrumentTypeView::Future {
                base: base@,
                quote: quote@,
                expiry: expiry@,
            },
            InstrumentType::Option {
                base,
                quote,
                expiry,
                strike,
                kind,
            } => InstrumentTypeView::Option {
                base: base@,
                quote: quote@,
                expiry: expiry@,
                strike,
                kind,
            },
            InstrumentType::Spot { base, quote } => InstrumentTypeView::Spot {
                base: base@,
                quote: quote@,
            },
            InstrumentType::Perpetual { base, quote } => InstrumentTypeView::Perpetual {
                base: base@,
                quote: quote@,
            },
        }
    }
}

impl View for Instrument {
    type V = InstrumentView;

    open spec fn view(&self) -> InstrumentView {
        InstrumentView {
            exchange: self.exchange,
            market_type: self.market_type,
            instrument_type: self.instrument_type@,
        }
    }
}

/// An optional instrument type as plain values.
pub open spec fn opt_type_view(o: Option<InstrumentType>) -> Option<InstrumentTypeView> {
    match o {
        Some(t) => Some(t@),
        None => None,
    }
}

/// An optional instrument as plain values.
pub open spec fn opt_view(o: Option<Instrument>) -> Option<InstrumentView> {
    match o {
        Some(i) => Some(i@),
        None => None,
    }
}

impl Currency {
    #[verifier::type_invariant]
    spec fn is_canonical(self) -> bool {
        Currency::canonical(self.symbol@) == self.symbol@
    }

    /// The canonical form of a symbol: every ASCII letter in upper case.
    pub open spec fn canonical(symbol: Seq<char>) -> Seq<char> {
        upper(symbol)
    }

    /// The currency with this symbol, in any case.
    pub fn new(symbol: &str) -> (r: Currency)
        ensures
            r@ == Currency::canonical(symbol@),
    {
        let canonical = to_upper(symbol);
        proof {
            lemma_upper_twice(symbol@);
        }
        Currency { symbol: canonical }
    }

    /// The canonical symbol.
    pub fn as_ref(&self) -> (r: &str)
        ensures
            r@ == self@,
            Currency::canonical(r@) == r@,
    {
        proof {
            use_type_invariant(self);
        }
        self.symbol.as_str()
    }
}

/// A canonical symbol is its own canonical form: the currency made of a
/// currency's symbol is that currency again, whatever the case of the
/// symbol it was first made of.
pub proof fn lemma_canonical_once(symbol: Seq<char>)
    ensures
        Currency::canonical(Currency::canonical(symbol)) == Currency::canonical(symbol),
{
    lemma_upper_twice(symbol);
}

impl Exchange {
    /// The venue's name, in lower case.
    pub open spec fn name(self) -> Seq<char> {
        match self {
            Exchange::Deribit => "deribit"@,
            Exchange::Dydx => "dydx"@,
            Exchange::Derive => "derive"@,
            Exchange::Paradex => "paradex"@,
            Exchange::Aevo => "aevo"@,
        }
    }

    /// The venue that a text names: its name in any case, with white space
    /// allowed around it.
    pub open spec fn named(text: Seq<char>) -> Option<Exchange> {
        let word = trim(text);
        if same_ignoring_case(word, "deribit"@) {
            Some(Exchange::Deribit)
        } else if same_ignoring_case(word, "dydx"@) {
            Some(Exchange::Dydx)
        } else if same_ignoring_case(word, "derive"@) {
            Some(Exchange::Derive)
        } else if same_ignoring_case(word, "paradex"@) {
            Some(Exchange::Paradex)
        } else if same_ignoring_case(word, "aevo"@) {
            Some(Exchange::Aevo)
        } else {
            None
        }
    }

    /// The message for a text that names no venue.
    pub open spec fn unknown_name_message(text: Seq<char>) -> Seq<char> {
        "Invalid exchange name: "@ + text
    }

    /// The venue's name, in lower case.
    pub fn to_string(&self) -> (r: String)
        ensures
            r@ == self.name(),
    {
        String::from_str(
            match self {
                Exchange::Deribit => "deribit",
                Exchange::Dydx => "dydx",
                Exchange::Derive => "derive",
                Exchange::Paradex => "paradex",
                Exchange::Aevo => "aevo",
            },
        )
    }

    /// Reads a venue's name, in any case and with white space around it.
    pub fn try_from(value: &str) -> (r: Result<Exchange, String>)
        ensures
            match r {
                Ok(exchange) => Exchange::named(value@) == Some(exchange),
                Err(message) => Exchange::named(value@) is None && message@
                    == Exchange::unknown_name_message(value@),
            },
    {
        let word = trim_text(value);
        let word = word.as_str();
        if eq_ignore_case(word, "deribit") {
            Ok(Exchange::Deribit)
        } else if eq_ignore_case(word, "dydx") {
            Ok(Exchange::Dydx)
        } else if eq_ignore_case(word, "derive") {
            Ok(Exchange::Derive)
        } else if eq_ignore_case(word, "paradex") {
            Ok(Exchange::Paradex)
        } else if eq_ignore_case(word, "aevo") {
            Ok(Exchange::Aevo)
        } else {
            Err(followed_by("Invalid exchange name: ", value))
        }
    }
}

impl MarketType {
    /// The one-letter code of the market type.
    pub open spec fn code(self) -> Seq<char> {
        match self {
            MarketType::OrderBook => "o"@,
            MarketType::PublicTrade => "p"@,
            MarketType::Ticker => "t"@,
            MarketType::Funding => "f"@,
        }
    }

    /// The market type that a text names: its code or its full word, in any
    /// case, with white space allowed around it.
    pub open spec fn named(text: Seq<char>) -> Option<MarketType> {
        let word = trim(text);
        if same_ignoring_case(word, "o"@) || same_ignoring_case(word, "orderbook"@) {
            Some(MarketType::OrderBook)
        } else if same_ignoring_case(word, "p"@) || same_ignoring_case(word, "publictrade"@)
            || same_ignoring_case(word, "trade"@) {
            Some(MarketType::PublicTrade)
        } else if same_ignoring_case(word, "t"@) || same_ignoring_case(word, "ticker"@) {
            Some(MarketType::Ticker)
        } else if same_ignoring_case(word, "f"@) || same_ignoring_case(word, "funding"@) {
            Some(MarketType::Funding)
        } else {
            None
        }
    }

    /// The one-letter code of the market type.
    pub fn to_string(&self) -> (r: String)
        ensures
            r@ == self.code(),
    {
        String::from_str(
            match self {
                MarketType::OrderBook => "o",
                MarketType::PublicTrade => "p",
                MarketType::Ticker => "t",
                MarketType::Funding => "f",
            },
        )
    }

    /// Reads a market type from its code or its full word.
    pub fn try_from(value: &str) -> (r: Result<MarketType, &'static str>)
        ensures
            match r {
                Ok(market_type) => MarketType::named(value@) == Some(market_type),
                Err(message) => MarketType::named(value@) is None && message@
                    == "Invalid market type"@,
            },
    {
        let word = trim_text(value);
        let word = word.as_str();
        if eq_ignore_case(word, "o") || eq_ignore_case(word, "orderbook") {
            Ok(MarketType::OrderBook)
        } else if eq_ignore_case(word, "p") || eq_ignore_case(word, "publictrade")
            || eq_ignore_case(word, "trade") {
            Ok(MarketType::PublicTrade)
        } else if eq_ignore_case(word, "t") || eq_ignore_case(word, "ticker") {
            Ok(MarketType::Ticker)
        } else if eq_ignore_case(word, "f") || eq_ignore_case(word, "funding") {
            Ok(MarketType::Funding)
        } else {
            Err("Invalid market type")
        }
    }
}

impl OptionKind {
    /// The letter of the option kind: `C` or `P`.
    pub open spec fn letter(self) -> Seq<char> {
        match self {
            OptionKind::Call => "C"@,
            OptionKind::Put => "P"@,
        }
    }

    /// The option kind that a text names: `c` or `call`, `p` or `put`, in
    /// any case.
    pub open spec fn named(text: Seq<char>) -> Option<OptionKind> {
        if same_ignoring_case(text, "c"@) || same_ignoring_case(text, "call"@) {
            Some(OptionKind::Call)
        } else if same_ignoring_case(text, "p"@) || same_ignoring_case(text, "put"@) {
            Some(OptionKind::Put)
        } else {
            None
        }
    }

    /// The message for a text that names no option kind.
    pub open spec fn unknown_name_message(text: Seq<char>) -> Seq<char> {
        "Invalid option kind: "@ + text
    }

    /// The letter of the option kind.
    pub fn to_string(&self) -> (r: String)
        ensures
            r@ == self.letter(),
    {
        String::from_str(
            match self {
                OptionKind::Call => "C",
                OptionKind::Put => "P",
            },
        )
    }

    /// Reads an option kind from its letter or its full word.
    pub fn try_from(value: &str) -> (r: Result<OptionKind, String>)
        ensures
            match r {
                Ok(kind) => OptionKind::named(value@) == Some(kind),
                Err(message) => OptionKind::named(value@) is None && message@
                    == OptionKind::unknown_name_message(value@),
            },
    {
        if eq_ignore_case(value, "c") || eq_ignore_case(value, "call") {
            Ok(OptionKind::Call)
        } else if eq_ignore_case(value, "p") || eq_ignore_case(value, "put") {
            Ok(OptionKind::Put)
        } else {
            Err(followed_by("Invalid option kind: ", value))
        }
    }
}

impl InstrumentTypeView {
    /// The base currency.
    pub open spec fn base(self) -> Seq<char> {
        match self {
            InstrumentTypeView::Future { base, .. } => base,
            InstrumentTypeView::Option { base, .. } => base,
            InstrumentTypeView::Spot { base, .. } => base,
            InstrumentTypeView::Perpetual { base, .. } => base,
        }
    }

    /// The quote currency.
    pub open spec fn quote(self) -> Seq<char> {
        match self {
            InstrumentTypeView::Future { quote, .. } => quote,
            InstrumentTypeView::Option { quote, .. } => quote,
            InstrumentTypeView::Spot { quote, .. } => quote,
            InstrumentTypeView::Perpetual { quote, .. } => quote,
        }
    }

    /// The expiry of a future or an option.
    pub open spec fn expiry(self) -> Option<Seq<char>> {
        match self {
            InstrumentTypeView::Future { expiry, .. } => Some(expiry),
            InstrumentTypeView::Option { expiry, .. } => Some(expiry),
            _ => None,
        }
    }

    /// Whether the expiry, if there is one, is a canonical date: eight
    /// ASCII digits `YYYYMMDD` that name a day that exists.
    pub open spec fn has_sound_expiry(self) -> bool {
        match self.expiry() {
            Some(expiry) => is_canonical_date(expiry),
            None => true,
        }
    }

    /// The kind code and the inner name of the canonical format, joined by a
    /// dot: `o.BTC-USD-20250328-100000-C`. The expiry of an option is
    /// written as the day that the date parser reads from it; an option
    /// whose expiry is no canonical date has no such text.
    pub open spec fn standard_text(self) -> Option<Seq<char>> {
        match self {
            InstrumentTypeView::Future { base, quote, expiry } => Some(
                "f."@ + joined(joined(base, '-', quote), '-', expiry),
            ),
            InstrumentTypeView::Option {
                base,
                quote,
                expiry,
                strike,
                kind,
            } => match stored_date(expiry) {
                Some(date) => Some(
                    "o."@ + joined(
                        joined(
                            joined(
                                joined(base, '-', quote),
                                '-',
                                rendered(date, DatePattern::YearMonthDay),
                            ),
                            '-',
                            decimal(strike as nat),
                        ),
                        '-',
                        kind.letter(),
                    ),
                ),
                None => None,
            },
            InstrumentTypeView::Spot { base, quote } => Some("s."@ + joined(base, '-', quote)),
            InstrumentTypeView::Perpetual { base, quote } => Some(
                "p."@ + joined(base, '-', quote),
            ),
        }
    }
}

impl InstrumentView {
    /// The instrument in the canonical format
    /// `<market type>.<kind>.<inner name>.<venue>`, if it has one.
    pub open spec fn standard_text(self) -> Option<Seq<char>> {
        match self.instrument_type.standard_text() {
            Some(inner) => Some(
                joined(joined(self.market_type.code(), '.', inner), '.', self.exchange.name()),
            ),
            None => None,
        }
    }

    /// Whether the expiry of the instrument, if it has one, is a canonical
    /// date: eight ASCII digits `YYYYMMDD` that name a day that exists.
    pub open spec fn has_sound_expiry(self) -> bool {
        self.instrument_type.has_sound_expiry()
    }

    /// Whether the instrument has an expiry that is over at the time `now`.
    /// An instrument without expiry, or with an expiry from which the date
    /// parser reads no date, is never over.
    pub open spec fn expired_at(self, now: Moment) -> bool {
        match self.instrument_type.expiry() {
            Some(expiry) => expiry_status(expiry, now) == Ok::<bool, InstrumentErrorView>(true),
            None => false,
        }
    }
}

/// The instrument type that a kind code and an inner name of the canonical
/// format write. The kind is `o`/`option`, `f`/`future`, `p`/`perpetual` or
/// `s`/`spot` in any case; the inner name has five, three, two and two
/// tokens between `-` for these kinds. The expiry of an option or a future
/// has to be a canonical date, the strike a number and the option kind a
/// known one.
pub open spec fn instrument_type_parsed(kind: Seq<char>, name: Seq<char>) -> Option<
    InstrumentTypeView,
> {
    let word = trim(kind);
    let parts = split(name, '-');
    if same_ignoring_case(word, "o"@) || same_ignoring_case(word, "option"@) {
        if parts.len() == 5 && OptionKind::named(parts[4]) is Some && parse_u64(parts[3]) is Some
            && is_canonical_date(parts[2]) {
            Some(
                InstrumentTypeView::Option {
                    base: upper(parts[0]),
                    quote: upper(parts[1]),
                    expiry: parts[2],
                    strike: parse_u64(parts[3]).unwrap(),
                    kind: OptionKind::named(parts[4]).unwrap(),
                },
            )
        } else {
            None
        }
    } else if same_ignoring_case(word, "f"@) || same_ignoring_case(word, "future"@) {
        if parts.len() == 3 && is_canonical_date(parts[2]) {
            Some(
                InstrumentTypeView::Future {
                    base: upper(parts[0]),
                    quote: upper(parts[1]),
                    expiry: parts[2],
                },
            )
        } else {
            None
        }
    } else if same_ignoring_case(word, "p"@) || same_ignoring_case(word, "perpetual"@) {
        if parts.len() == 2 {
            Some(InstrumentTypeView::Perpetual { base: upper(parts[0]), quote: upper(parts[1]) })
        } else {
            None
        }
    } else if same_ignoring_case(word, "s"@) || same_ignoring_case(word, "spot"@) {
        if parts.len() == 2 {
            Some(InstrumentTypeView::Spot { base: upper(parts[0]), quote: upper(parts[1]) })
        } else {
            None
        }
    } else {
        None
    }
}

impl InstrumentType {
    /// Reads an instrument type from its kind code and its inner name. The
    /// expiry of what is read, if it has one, is a canonical date.
    pub fn from_str(kind: &str, instrument_name: &str) -> (r: Option<InstrumentType>)
        ensures
            opt_type_view(r) == instrument_type_parsed(kind@, instrument_name@),
            r matches Some(instrument_type) ==> instrument_type@.has_sound_expiry(),
    {
        let parts = split_text(instrument_name, '-');
        let word = trim_text(kind);
        let word = word.as_str();
        if eq_ignore_case(word, "o") || eq_ignore_case(word, "option") {
            if parts.len() != 5 {
                return None;
            }
            let kind = match OptionKind::try_from(parts[4].as_str()) {
                Ok(kind) => kind,
                Err(_) => {
                    return None;
                },
            };
            let strike = match parse_u64_text(parts[3].as_str()) {
                Some(strike) => strike,
                None => {
                    return None;
                },
            };
            if read_canonical_date(parts[2].as_str()).is_none() {
                return None;
            }
            Some(
                InstrumentType::Option {
                    base: Currency::new(parts[0].as_str()),
                    quote: Currency::new(parts[1].as_str()),
                    expiry: parts[2].clone(),
                    strike,
                    kind,
                },
            )
        } else if eq_ignore_case(word, "f") || eq_ignore_case(word, "future") {
            if parts.len() != 3 || read_canonical_date(parts[2].as_str()).is_none() {
                return None;
            }
            Some(
                InstrumentType::Future {
                    base: Currency::new(parts[0].as_str()),
                    quote: Currency::new(parts[1].as_str()),
                    expiry: parts[2].clone(),
                },
            )
        } else if eq_ignore_case(word, "p") || eq_ignore_case(word, "perpetual") {
            if parts.len() != 2 {
                return None;
            }
            Some(
                InstrumentType::Perpetual {
                    base: Currency::new(parts[0].as_str()),
                    quote: Currency::new(parts[1].as_str()),
                },
            )
        } else if eq_ignore_case(word, "s") || eq_ignore_case(word, "spot") {
            if parts.len() != 2 {
                return None;
            }
            Some(
                InstrumentType::Spot {
                    base: Currency::new(parts[0].as_str()),
                    quote: Currency::new(parts[1].as_str()),
                },
            )
        } else {
            None
        }
    }

    /// The base currency's symbol.
    pub fn base(&self) -> (r: &str)
        ensures
            r@ == self@.base(),
    {
        match self {
            InstrumentType::Future { base, .. } => base.as_ref(),
            InstrumentType::Option { base, .. } => base.as_ref(),
            InstrumentType::Spot { base, .. } => base.as_ref(),
            InstrumentType::Perpetual { base, .. } => base.as_ref(),
        }
    }

    /// The quote currency's symbol.
    pub fn quote(&self) -> (r: &str)
        ensures
            r@ == self@.quote(),
    {
        match self {
            InstrumentType::Future { quote, .. } => quote.as_ref(),
            InstrumentType::Option { quote, .. } => quote.as_ref(),
            InstrumentType::Spot { quote, .. } => quote.as_ref(),
            InstrumentType::Perpetual { quote, .. } => quote.as_ref(),
        }
    }

    /// Tells whether the expiry, if there is one, is a canonical date.
    pub fn has_sound_expiry(&self) -> (r: bool)
        ensures
            r == self@.has_sound_expiry(),
    {
        match self.expiry() {
            Some(expiry) => read_canonical_date(expiry).is_some(),
            None => true,
        }
    }

    /// The expiry of a future or an option.
    pub fn expiry(&self) -> (r: Option<&str>)
        ensures
            match r {
                Some(expiry) => self@.expiry() == Some(expiry@),
                None => self@.expiry() is None,
            },
    {
        match self {
            InstrumentType::Future { expiry, .. } => Some(expiry.as_str()),
            InstrumentType::Option { expiry, .. } => Some(expiry.as_str()),
            _ => None,
        }
    }

    /// The kind code and the inner name of the canonical format, joined by
    /// a dot. An option whose expiry is no canonical date has none.
    pub fn standard_format(&self) -> (r: Option<String>)
        ensures
            opt_text(r) == self@.standard_text(),
    {
        let pair = join_pair(self.base(), '-', self.quote());
        match self {
            InstrumentType::Future { expiry, .. } => {
                let inner = join_pair(pair.as_str(), '-', expiry.as_str());
                Some(followed_by("f.", inner.as_str()))
            },
            InstrumentType::Option { expiry, strike, kind, .. } => {
                match read_stored_date(expiry.as_str()) {
                    Some(date) => {
                        let day = format_expiry_date(date, DatePattern::YearMonthDay);
                        let dated = join_pair(pair.as_str(), '-', day.as_str());
                        let struck = join_pair(dated.as_str(), '-', decimal_text(*strike).as_str());
                        let inner = join_pair(struck.as_str(), '-', kind.to_string().as_str());
                        Some(followed_by("o.", inner.as_str()))
                    },
                    None => None,
                }
            },
            InstrumentType::Spot { .. } => Some(followed_by("s.", pair.as_str())),
            InstrumentType::Perpetual { .. } => Some(followed_by("p.", pair.as_str())),
        }
    }
}

impl Instrument {
    /// The instrument with these fields.
    pub fn new(exchange: Exchange, market_type: MarketType, instrument_type: InstrumentType) -> (r:
        Instrument)
        ensures
            r.exchange == exchange,
            r.market_type == market_type,
            r.instrument_type == instrument_type,
    {
        Instrument { exchange, market_type, instrument_type }
    }

    /// The instrument in the canonical format, if it has one.
    pub fn standard_format(&self) -> (r: Option<String>)
        ensures
            opt_text(r) == self@.standard_text(),
    {
        match self.instrument_type.standard_format() {
            Some(inner) => {
                let head = join_pair(self.market_type.to_string().as_str(), '.', inner.as_str());
                Some(join_pair(head.as_str(), '.', self.exchange.to_string().as_str()))
            },
            None => None,
        }
    }

    /// Whether the instrument's expiry is over at the time `now`.
    pub fn is_expired_at(&self, now: Moment) -> (r: bool)
        ensures
            r == self@.expired_at(now),
    {
        match self.instrument_type.expiry() {
            Some(expiry) => match is_date_expired_at(expiry, now) {
                Ok(expired) => expired,
                Err(_) => false,
            },
            None => false,
        }
    }

    /// Whether the instrument's expiry is over by now, by the UTC clock.
    pub fn is_expired(&self) -> (r: bool)
        ensures
            exists|now: Moment| r == self@.expired_at(now),
    {
        match self.instrument_type.expiry() {
            Some(expiry) => {
                let status = is_date_expired(expiry);
                let expired = match status {
                    Ok(expired) => expired,
                    Err(_) => false,
                };
                proof {
                    let now = choose|now: Moment|
                        status_view(status) == expiry_status(expiry@, now);
                    assert(expired == self@.expired_at(now));
                }
                expired
            },
            None => {
                assert(!self@.expired_at(arbitrary()));
                false
            },
        }
    }
}

} // verus!
