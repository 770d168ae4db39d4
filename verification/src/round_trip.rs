//! What a venue writes it reads back: an instrument in a venue's own terms
//! has a name on that venue, and the venue reads that name as the same
//! instrument.

use vstd::prelude::*;
use crate::date::{
    first_reading, lemma_canonical_form, month_name, read_date, reads_back_canonical, rendered,
    two_digits, venue_expiry, venue_rendering, CivilDate, DatePattern,
};
use crate::exchange::deribit::future_written;
use crate::decimal::{decimal, is_digit, lemma_decimal_free, lemma_parse_decimal};
use crate::codec::{exchange_format, standard_parsed};
use crate::error::InstrumentErrorView;
use crate::exchange::{
    option_name, option_written, perpetual_name, perpetual_written, venue_denormalized,
    venue_normalized, venue_supports_market,
};
use crate::model::{
    instrument_type_parsed, Exchange, InstrumentTypeView, InstrumentView, MarketType, OptionKind,
};
use crate::text::{
    is_space, lemma_upper_keeps, lemma_upper_word, lower, lower_char, same_ignoring_case, trim,
    upper,
};
use crate::tokens::{
    joined, lemma_joined_free, lemma_split_append, lemma_split_once_joined, lemma_split_pair,
    lemma_split_whole, split,
};

verus! {

/// A currency symbol as venues write it: in upper case, without `-` or `_`.
pub open spec fn is_symbol(s: Seq<char>) -> bool {
    upper(s) == s && !s.contains('-') && !s.contains('_')
}

/// The pattern in which a venue writes dates.
pub open spec fn date_pattern(exchange: Exchange) -> DatePattern {
    match exchange {
        Exchange::Derive => DatePattern::YearMonthDay,
        _ => DatePattern::DayMonthYear,
    }
}

/// The quote currency that a venue's names leave out.
pub open spec fn default_quote(exchange: Exchange) -> Seq<char> {
    match exchange {
        Exchange::Aevo => upper("usdc"@),
        _ => upper("usd"@),
    }
}

/// A date that a venue writes and reads: a day that exists, in a year of
/// four digits, which the date parser reads back from the venue's writing
/// and from the canonical form.
pub open spec fn is_venue_date(exchange: Exchange, date: CivilDate) -> bool {
    let token = venue_rendering(date, date_pattern(exchange));
    &&& date.is_valid()
    &&& 0 <= date.year <= 9999
    &&& read_date(token, date_pattern(exchange)) is Some
    &&& first_reading(token) == Some(date)
    &&& reads_back_canonical(date)
}

/// A canonical expiry of a date that the venue writes and reads.
pub open spec fn is_venue_expiry(exchange: Exchange, expiry: Seq<char>) -> bool {
    exists|date: CivilDate|
        is_venue_date(exchange, date) && expiry == rendered(date, DatePattern::YearMonthDay)
}

/// An instrument in a venue's own terms: of that venue, of a market type
/// and a kind that the venue has, with symbols as venues write them, with
/// the venue's default quote wherever its names carry none, and with an
/// expiry that the venue writes and reads.
pub open spec fn is_native(exchange: Exchange, instrument: InstrumentView) -> bool {
    &&& instrument.exchange == exchange
    &&& venue_supports_market(exchange, instrument.market_type)
    &&& match instrument.instrument_type {
        InstrumentTypeView::Perpetual { base, quote } => {
            &&& is_symbol(base)
            &&& upper(quote) == quote
            &&& !quote.contains('-')
            &&& exchange == Exchange::Derive ==> quote == default_quote(exchange)
            &&& exchange == Exchange::Dydx ==> !same_ignoring_case(quote, "perp"@)
        },
        InstrumentTypeView::Spot { base, quote } => {
            &&& exchange == Exchange::Deribit
            &&& is_symbol(base)
            &&& is_symbol(quote)
        },
        InstrumentTypeView::Future { base, quote, expiry } => {
            &&& exchange == Exchange::Deribit
            &&& is_symbol(base)
            &&& quote == default_quote(exchange)
            &&& is_venue_expiry(exchange, expiry)
        },
        InstrumentTypeView::Option { base, quote, expiry, .. } => {
            &&& exchange == Exchange::Deribit || exchange == Exchange::Derive || exchange
                == Exchange::Aevo
            &&& is_symbol(base)
            &&& quote == default_quote(exchange)
            &&& is_venue_expiry(exchange, expiry)
        },
    }
}

/// The keywords of the venues: they hold no `-`, and the upper-case ones
/// are the lower-case ones in another case.
proof fn lemma_keywords()
    ensures
        same_ignoring_case("PERPETUAL"@, "perpetual"@),
        same_ignoring_case("PERP"@, "perp"@),
        !"PERPETUAL"@.contains('-'),
        !"PERP"@.contains('-'),
        "perpetual"@.len() == 9,
        "PERP"@ != "perp"@,
{
    reveal_strlit("PERPETUAL");
    reveal_strlit("perpetual");
    reveal_strlit("PERP");
    reveal_strlit("perp");
    assert(lower("PERPETUAL"@) =~= lower("perpetual"@));
    assert(lower("PERP"@) =~= lower("perp"@));
    assert("PERP"@[0] != "perp"@[0]);
    let long = "PERPETUAL"@;
    assert(long[0] != '-' && long[1] != '-' && long[2] != '-' && long[3] != '-' && long[4] != '-'
        && long[5] != '-' && long[6] != '-' && long[7] != '-' && long[8] != '-');
    let short = "PERP"@;
    assert(short[0] != '-' && short[1] != '-' && short[2] != '-' && short[3] != '-');
}

/// The letter of an option kind names that kind and holds no `-` or `.`.
proof fn lemma_kind_letter(kind: OptionKind)
    ensures
        OptionKind::named(kind.letter()) == Some(kind),
        !kind.letter().contains('-'),
        !kind.letter().contains('.'),
{
    reveal_strlit("C");
    reveal_strlit("P");
    reveal_strlit("c");
    reveal_strlit("p");
    reveal_strlit("call");
    reveal_strlit("put");
    assert(lower("C"@) =~= lower("c"@));
    assert(lower("P"@) =~= lower("p"@));
    assert(lower("P"@)[0] != lower("c"@)[0]);
    assert(lower("P"@).len() != lower("call"@).len());
    assert(kind.letter().len() == 1 && kind.letter()[0] != '-' && kind.letter()[0] != '.');
}

/// A number below a hundred is written as two digits.
proof fn lemma_two_digits(n: int)
    requires
        0 <= n <= 99,
    ensures
        two_digits(n).len() == 2,
        is_digit(two_digits(n)[0]),
        is_digit(two_digits(n)[1]),
{
}

/// The name of a month has three characters, none of them `-` or `.`.
proof fn lemma_month_name(month: int)
    requires
        1 <= month <= 12,
    ensures
        month_name(month).len() == 3,
        forall|i: int|
            0 <= i < 3 ==> (#[trigger] month_name(month)[i]) != '-' && month_name(month)[i] != '.',
{
}

/// A date in a four-digit year is written without `-` and `.`, in mixed
/// case as in upper case, and in the pattern day-month-year it has seven
/// characters.
proof fn lemma_rendering_plain(date: CivilDate, pattern: DatePattern)
    requires
        date.is_valid(),
        0 <= date.year <= 9999,
    ensures
        !rendered(date, pattern).contains('-'),
        !rendered(date, pattern).contains('.'),
        !venue_rendering(date, pattern).contains('-'),
        pattern == DatePattern::DayMonthYear ==> venue_rendering(date, pattern).len() == 7,
{
    let year: int = date.year as int;
    let day = two_digits(date.day as int);
    let month = two_digits(date.month as int);
    let name = month_name(date.month as int);
    let century = two_digits(year / 100);
    let tail = two_digits(year % 100);
    lemma_two_digits(date.day as int);
    lemma_two_digits(date.month as int);
    lemma_two_digits(year / 100);
    lemma_two_digits(year % 100);
    lemma_month_name(date.month as int);
    let text = rendered(date, pattern);
    assert forall|i: int| 0 <= i < text.len() implies text[i] != '-' && text[i] != '.' by {
        match pattern {
            DatePattern::DayMonthYear => {
                assert(text == day + name + tail);
                assert(text[i] == if i < 2 {
                    day[i]
                } else if i < 5 {
                    name[i - 2]
                } else {
                    tail[i - 5]
                });
            },
            DatePattern::YearMonthDay => {
                assert(text == century + tail + month + day);
                assert(text[i] == if i < 2 {
                    century[i]
                } else if i < 4 {
                    tail[i - 2]
                } else if i < 6 {
                    month[i - 4]
                } else {
                    day[i - 6]
                });
            },
            DatePattern::DayMonthFullYear => {
                assert(text == day + name + (century + tail));
                assert(text[i] == if i < 2 {
                    day[i]
                } else if i < 5 {
                    name[i - 2]
                } else if i < 7 {
                    century[i - 5]
                } else {
                    tail[i - 7]
                });
            },
        }
    }
    lemma_upper_keeps(text, '-');
}

/// A perpetual whose name may carry its quote: the name has two tokens, the
/// keyword last, and the first token writes the base and the quote.
proof fn lemma_perpetual_tokens(
    exchange: Exchange,
    market_type: MarketType,
    default: Seq<char>,
    keyword: Seq<char>,
    base: Seq<char>,
    quote: Seq<char>,
)
    requires
        is_symbol(base),
        upper(quote) == quote,
        !quote.contains('-'),
        !keyword.contains('-'),
    ensures
        split(perpetual_name(default, keyword, base, quote), '-').len() == 2,
        split(perpetual_name(default, keyword, base, quote), '-')[1] == keyword,
        perpetual_written(
            exchange,
            market_type,
            default,
            split(perpetual_name(default, keyword, base, quote), '-')[0],
        ) == (InstrumentView {
            exchange,
            market_type,
            instrument_type: InstrumentTypeView::Perpetual { base, quote },
        }),
{
    if same_ignoring_case(quote, default) {
        lemma_split_pair(base, keyword, '-');
        lemma_upper_word(quote, default);
    } else {
        let pair = joined(base, '_', quote);
        lemma_joined_free(base, '_', quote, '-');
        lemma_split_pair(pair, keyword, '-');
        lemma_split_once_joined(base, quote, '_');
    }
}

/// An option's name has four tokens, and they write the option.
proof fn lemma_option_tokens(
    exchange: Exchange,
    market_type: MarketType,
    default: Seq<char>,
    base: Seq<char>,
    date: CivilDate,
    strike: u64,
    kind: OptionKind,
)
    requires
        is_symbol(base),
        is_venue_date(exchange, date),
    ensures
        ({
            let pattern = date_pattern(exchange);
            let expiry = rendered(date, DatePattern::YearMonthDay);
            let tokens = split(option_name(pattern, base, expiry, strike, kind), '-');
            &&& tokens.len() == 4
            &&& option_written(
                exchange,
                market_type,
                pattern,
                default,
                tokens[0],
                tokens[1],
                tokens[2],
                tokens[3],
            ) == Some(
                InstrumentView {
                    exchange,
                    market_type,
                    instrument_type: InstrumentTypeView::Option {
                        base,
                        quote: upper(default),
                        expiry,
                        strike,
                        kind,
                    },
                },
            )
        }),
{
    let pattern = date_pattern(exchange);
    let token = venue_rendering(date, pattern);
    let number = decimal(strike as nat);
    let letter = kind.letter();
    lemma_canonical_form(date);
    lemma_rendering_plain(date, pattern);
    lemma_decimal_free(strike as nat, '-');
    lemma_parse_decimal(strike);
    lemma_kind_letter(kind);
    lemma_split_pair(base, token, '-');
    lemma_split_append(joined(base, '-', token), number, '-');
    lemma_split_append(joined(joined(base, '-', token), '-', number), letter, '-');
}

/// A Deribit future's name has two tokens, and they write the future.
proof fn lemma_future_tokens(market_type: MarketType, base: Seq<char>, date: CivilDate)
    requires
        is_symbol(base),
        is_venue_date(Exchange::Deribit, date),
    ensures
        ({
            let token = venue_rendering(date, DatePattern::DayMonthYear);
            let tokens = split(joined(base, '-', token), '-');
            &&& tokens == seq![base, token]
            &&& !same_ignoring_case(token, "perpetual"@)
            &&& venue_expiry(rendered(date, DatePattern::YearMonthDay), DatePattern::DayMonthYear)
                == token
            &&& future_written(market_type, base, token) == Some(
                InstrumentView {
                    exchange: Exchange::Deribit,
                    market_type,
                    instrument_type: InstrumentTypeView::Future {
                        base,
                        quote: upper("usd"@),
                        expiry: rendered(date, DatePattern::YearMonthDay),
                    },
                },
            )
        }),
{
    let token = venue_rendering(date, DatePattern::DayMonthYear);
    lemma_keywords();
    lemma_canonical_form(date);
    lemma_rendering_plain(date, DatePattern::DayMonthYear);
    lemma_split_pair(base, token, '-');
    assert(lower(token).len() != lower("perpetual"@).len());
}

/// An instrument in a venue's own terms has a name on that venue, and the
/// venue reads that name as the same instrument.
pub proof fn lemma_instrument_round_trip(exchange: Exchange, instrument: InstrumentView)
    requires
        is_native(exchange, instrument),
    ensures
        venue_denormalized(exchange, instrument) is Some,
        venue_normalized(
            exchange,
            instrument.market_type,
            venue_denormalized(exchange, instrument).unwrap(),
        ) == Some(instrument),
{
    let market_type = instrument.market_type;
    lemma_keywords();
    match instrument.instrument_type {
        InstrumentTypeView::Perpetual { base, quote } => {
            match exchange {
                Exchange::Deribit => {
                    lemma_perpetual_tokens(
                        exchange,
                        market_type,
                        "usd"@,
                        "PERPETUAL"@,
                        base,
                        quote,
                    );
                },
                Exchange::Aevo => {
                    lemma_perpetual_tokens(exchange, market_type, "usdc"@, "PERP"@, base, quote);
                },
                Exchange::Derive => {
                    lemma_split_pair(base, "PERP"@, '-');
                },
                Exchange::Dydx => {
                    lemma_split_pair(base, quote, '-');
                },
                Exchange::Paradex => {
                    lemma_split_pair(base, quote, '-');
                    lemma_split_append(joined(base, '-', quote), "PERP"@, '-');
                },
            }
        },
        InstrumentTypeView::Spot { base, quote } => {
            let name = joined(base, '_', quote);
            lemma_joined_free(base, '_', quote, '-');
            lemma_split_whole(name, '-');
            lemma_split_pair(base, quote, '_');
        },
        InstrumentTypeView::Future { base, quote, expiry } => {
            let date = choose|date: CivilDate|
                is_venue_date(exchange, date) && expiry == rendered(
                    date,
                    DatePattern::YearMonthDay,
                );
            lemma_canonical_form(date);
            lemma_future_tokens(market_type, base, date);
        },
        InstrumentTypeView::Option { base, quote, expiry, strike, kind } => {
            let date = choose|date: CivilDate|
                is_venue_date(exchange, date) && expiry == rendered(
                    date,
                    DatePattern::YearMonthDay,
                );
            lemma_canonical_form(date);
            match exchange {
                Exchange::Aevo => {
                    lemma_option_tokens(exchange, market_type, "usdc"@, base, date, strike, kind);
                },
                _ => {
                    lemma_option_tokens(exchange, market_type, "usd"@, base, date, strike, kind);
                },
            }
        },
    }
}

/// A venue reads a name that it writes, and writes it again the same: for
/// every name of an instrument in the venue's own terms, reading it and
/// writing what was read gives the name back.
pub proof fn lemma_name_round_trip(exchange: Exchange, market_type: MarketType, name: Seq<char>)
    requires
        exists|instrument: InstrumentView|
            is_native(exchange, instrument) && instrument.market_type == market_type
                && venue_denormalized(exchange, instrument) == Some(name),
    ensures
        venue_normalized(exchange, market_type, name) is Some,
        venue_denormalized(exchange, venue_normalized(exchange, market_type, name).unwrap())
            == Some(name),
{
    let instrument = choose|instrument: InstrumentView|
        is_native(exchange, instrument) && instrument.market_type == market_type
            && venue_denormalized(exchange, instrument) == Some(name);
    lemma_instrument_round_trip(exchange, instrument);
}

/// Trimming leaves a word as it is that has no white space at its ends.
proof fn lemma_trim_word(s: Seq<char>)
    requires
        s.len() > 0,
        !is_space(s[0]),
        !is_space(s.last()),
    ensures
        trim(s) == s,
{
}

/// Words of different lengths are different in any case.
proof fn lemma_other_length(a: Seq<char>, b: Seq<char>)
    requires
        a.len() != b.len(),
    ensures
        !same_ignoring_case(a, b),
{
    assert(lower(a).len() != lower(b).len());
}

/// Words that start with different letters are different in any case.
proof fn lemma_other_start(a: Seq<char>, b: Seq<char>)
    requires
        a.len() > 0,
        b.len() > 0,
        lower_char(a[0]) != lower_char(b[0]),
    ensures
        !same_ignoring_case(a, b),
{
    assert(lower(a)[0] != lower(b)[0]);
}

/// The name of a venue names that venue and holds no `.`.
proof fn lemma_exchange_name(exchange: Exchange)
    ensures
        Exchange::named(exchange.name()) == Some(exchange),
        !exchange.name().contains('.'),
{
    reveal_strlit("deribit");
    reveal_strlit("dydx");
    reveal_strlit("derive");
    reveal_strlit("paradex");
    reveal_strlit("aevo");
    let name = exchange.name();
    lemma_trim_word(name);
    match exchange {
        Exchange::Deribit => {
            assert(name[0] != '.' && name[1] != '.' && name[2] != '.' && name[3] != '.' && name[4]
                != '.' && name[5] != '.' && name[6] != '.');
        },
        Exchange::Dydx => {
            lemma_other_length(name, "deribit"@);
            assert(name[0] != '.' && name[1] != '.' && name[2] != '.' && name[3] != '.');
        },
        Exchange::Derive => {
            lemma_other_length(name, "deribit"@);
            lemma_other_length(name, "dydx"@);
            assert(name[0] != '.' && name[1] != '.' && name[2] != '.' && name[3] != '.' && name[4]
                != '.' && name[5] != '.');
        },
        Exchange::Paradex => {
            lemma_other_start(name, "deribit"@);
            lemma_other_length(name, "dydx"@);
            lemma_other_length(name, "derive"@);
            assert(name[0] != '.' && name[1] != '.' && name[2] != '.' && name[3] != '.' && name[4]
                != '.' && name[5] != '.' && name[6] != '.');
        },
        Exchange::Aevo => {
            lemma_other_length(name, "deribit"@);
            lemma_other_start(name, "dydx"@);
            lemma_other_length(name, "derive"@);
            lemma_other_length(name, "paradex"@);
            assert(name[0] != '.' && name[1] != '.' && name[2] != '.' && name[3] != '.');
        },
    }
}

/// The code of a market type names that market type and holds no `.`.
proof fn lemma_market_code(market_type: MarketType)
    ensures
        MarketType::named(market_type.code()) == Some(market_type),
        !market_type.code().contains('.'),
{
    reveal_strlit("o");
    reveal_strlit("p");
    reveal_strlit("t");
    reveal_strlit("f");
    reveal_strlit("orderbook");
    reveal_strlit("publictrade");
    reveal_strlit("trade");
    reveal_strlit("ticker");
    let code = market_type.code();
    lemma_trim_word(code);
    assert(code.len() == 1 && code[0] != '.');
    if market_type != MarketType::OrderBook {
        lemma_other_start(code, "o"@);
        lemma_other_length(code, "orderbook"@);
        if market_type != MarketType::PublicTrade {
            lemma_other_start(code, "p"@);
            lemma_other_length(code, "publictrade"@);
            lemma_other_length(code, "trade"@);
            if market_type != MarketType::Ticker {
                lemma_other_start(code, "t"@);
                lemma_other_length(code, "ticker"@);
            }
        }
    }
}

/// The code letter of an instrument kind in the canonical format.
pub open spec fn kind_code(instrument_type: InstrumentTypeView) -> Seq<char> {
    match instrument_type {
        InstrumentTypeView::Future { .. } => seq!['f'],
        InstrumentTypeView::Option { .. } => seq!['o'],
        InstrumentTypeView::Spot { .. } => seq!['s'],
        InstrumentTypeView::Perpetual { .. } => seq!['p'],
    }
}

/// The inner name of an instrument in the canonical format: its fields
/// joined by `-`.
pub open spec fn inner_name(instrument_type: InstrumentTypeView) -> Seq<char> {
    match instrument_type {
        InstrumentTypeView::Future { base, quote, expiry } => joined(
            joined(base, '-', quote),
            '-',
            expiry,
        ),
        InstrumentTypeView::Option { base, quote, expiry, strike, kind } => joined(
            joined(joined(joined(base, '-', quote), '-', expiry), '-', decimal(strike as nat)),
            '-',
            kind.letter(),
        ),
        InstrumentTypeView::Spot { base, quote } => joined(base, '-', quote),
        InstrumentTypeView::Perpetual { base, quote } => joined(base, '-', quote),
    }
}

/// The default quotes of the venues hold no `-`.
proof fn lemma_default_quote(exchange: Exchange)
    ensures
        !default_quote(exchange).contains('-'),
        upper(default_quote(exchange)) == default_quote(exchange),
{
    reveal_strlit("usd");
    reveal_strlit("usdc");
    let usd = "usd"@;
    let usdc = "usdc"@;
    assert(usd[0] != '-' && usd[1] != '-' && usd[2] != '-');
    assert(usdc[0] != '-' && usdc[1] != '-' && usdc[2] != '-' && usdc[3] != '-');
    lemma_upper_keeps(usd, '-');
    lemma_upper_keeps(usdc, '-');
}

/// The kind code and the inner name of an instrument in a venue's own
/// terms hold no `.` and write the instrument's type.
proof fn lemma_inner_name(exchange: Exchange, instrument: InstrumentView)
    requires
        is_native(exchange, instrument),
        !instrument.instrument_type.base().contains('.'),
        !instrument.instrument_type.quote().contains('.'),
    ensures
        instrument.instrument_type.standard_text() == Some(
            joined(kind_code(instrument.instrument_type), '.', inner_name(instrument.instrument_type)),
        ),
        !kind_code(instrument.instrument_type).contains('.'),
        !inner_name(instrument.instrument_type).contains('.'),
        instrument_type_parsed(
            kind_code(instrument.instrument_type),
            inner_name(instrument.instrument_type),
        ) == Some(instrument.instrument_type),
{
    reveal_strlit("o");
    reveal_strlit("f");
    reveal_strlit("p");
    reveal_strlit("s");
    reveal_strlit("o.");
    reveal_strlit("f.");
    reveal_strlit("p.");
    reveal_strlit("s.");
    reveal_strlit("option");
    reveal_strlit("future");
    reveal_strlit("perpetual");
    let code = kind_code(instrument.instrument_type);
    let name = inner_name(instrument.instrument_type);
    lemma_trim_word(code);
    lemma_default_quote(exchange);
    assert(code.len() == 1 && code[0] != '.');
    match instrument.instrument_type {
        InstrumentTypeView::Perpetual { base, quote } => {
            assert("p."@ + name =~= joined(code, '.', name));
            lemma_joined_free(base, '-', quote, '.');
            lemma_split_pair(base, quote, '-');
            lemma_other_start(code, "o"@);
            lemma_other_length(code, "option"@);
            lemma_other_start(code, "f"@);
            lemma_other_length(code, "future"@);
            assert(code =~= "p"@);
        },
        InstrumentTypeView::Spot { base, quote } => {
            assert("s."@ + name =~= joined(code, '.', name));
            lemma_joined_free(base, '-', quote, '.');
            lemma_split_pair(base, quote, '-');
            lemma_other_start(code, "o"@);
            lemma_other_length(code, "option"@);
            lemma_other_start(code, "f"@);
            lemma_other_length(code, "future"@);
            lemma_other_start(code, "p"@);
            lemma_other_length(code, "perpetual"@);
            assert(code =~= "s"@);
        },
        InstrumentTypeView::Future { base, quote, expiry } => {
            let date = choose|date: CivilDate|
                is_venue_date(exchange, date) && expiry == rendered(
                    date,
                    DatePattern::YearMonthDay,
                );
            lemma_rendering_plain(date, DatePattern::YearMonthDay);
            lemma_canonical_form(date);
            assert("f."@ + name =~= joined(code, '.', name));
            lemma_joined_free(base, '-', quote, '.');
            lemma_joined_free(joined(base, '-', quote), '-', expiry, '.');
            lemma_split_pair(base, quote, '-');
            lemma_split_append(joined(base, '-', quote), expiry, '-');
            lemma_other_start(code, "o"@);
            lemma_other_length(code, "option"@);
            assert(code =~= "f"@);
        },
        InstrumentTypeView::Option { base, quote, expiry, strike, kind } => {
            let date = choose|date: CivilDate|
                is_venue_date(exchange, date) && expiry == rendered(
                    date,
                    DatePattern::YearMonthDay,
                );
            let number = decimal(strike as nat);
            let letter = kind.letter();
            lemma_rendering_plain(date, DatePattern::YearMonthDay);
            lemma_canonical_form(date);
            lemma_decimal_free(strike as nat, '-');
            lemma_decimal_free(strike as nat, '.');
            lemma_parse_decimal(strike);
            lemma_kind_letter(kind);
            assert("o."@ + name =~= joined(code, '.', name));
            let pair = joined(base, '-', quote);
            let dated = joined(pair, '-', expiry);
            let struck = joined(dated, '-', number);
            lemma_joined_free(base, '-', quote, '.');
            lemma_joined_free(pair, '-', expiry, '.');
            lemma_joined_free(dated, '-', number, '.');
            lemma_joined_free(struck, '-', letter, '.');
            lemma_split_pair(base, quote, '-');
            lemma_split_append(pair, expiry, '-');
            lemma_split_append(dated, number, '-');
            lemma_split_append(struck, letter, '-');
            assert(code =~= "o"@);
        },
    }
}

/// The canonical text of an instrument in a venue's own terms is read back
/// as that instrument, and it turns into the name that the venue gives the
/// instrument. The symbols must hold no `.`, which parts the fields of the
/// canonical text.
pub proof fn lemma_standard_round_trip(exchange: Exchange, instrument: InstrumentView)
    requires
        is_native(exchange, instrument),
        !instrument.instrument_type.base().contains('.'),
        !instrument.instrument_type.quote().contains('.'),
    ensures
        instrument.standard_text() is Some,
        standard_parsed(instrument.standard_text().unwrap()) == Ok::<
            InstrumentView,
            InstrumentErrorView,
        >(instrument),
        exchange_format(instrument.standard_text().unwrap()) == venue_denormalized(
            exchange,
            instrument,
        ),
{
    let market = instrument.market_type.code();
    let code = kind_code(instrument.instrument_type);
    let name = inner_name(instrument.instrument_type);
    let venue = exchange.name();
    lemma_exchange_name(exchange);
    lemma_market_code(instrument.market_type);
    lemma_inner_name(exchange, instrument);
    lemma_instrument_round_trip(exchange, instrument);
    let text = instrument.standard_text().unwrap();
    assert(text =~= joined(joined(joined(market, '.', code), '.', name), '.', venue));
    lemma_split_pair(market, code, '.');
    lemma_split_append(joined(market, '.', code), name, '.');
    lemma_split_append(joined(joined(market, '.', code), '.', name), venue, '.');
}

} // verus!
