//! Instrument names across trading venues: each venue's own instrument
//! names are read into one typed, venue-independent model of the
//! instrument and written back, and that model has one canonical text
//! form.

pub mod codec;
pub mod date;
pub mod decimal;
pub mod error;
pub mod exchange;
pub mod model;
pub mod round_trip;
pub mod text;
pub mod tokens;

pub use codec::{parse_standard_format, to_exchange_format};
pub use date::{
    denormalize_expiry, format_expiry_date, is_date_expired, normalize_expiry, parse_expiry_date,
    CivilDate, DatePattern, Moment,
};
pub use error::{InstrumentError, InstrumentResult};
pub use exchange::{ExchangeHandler, Handler};
pub use model::{Currency, Exchange, Instrument, InstrumentType, MarketType, OptionKind};
