//! The errors of the library.

use vstd::prelude::*;
use crate::text::followed_by;

verus! {

/// Why a text was refused.
#[derive(Debug, Clone, PartialEq, Eq)]
pub enum InstrumentError {
    /// The text has the wrong number of fields or tokens.
    InvalidFormat(String),
    /// The instrument is well formed but the venue does not trade it.
    UnsupportedByExchange(String),
    /// A date token matches no accepted pattern.
    InvalidDate(String),
    /// A venue or market type name is unknown.
    ParseError(String),
}

/// What an operation gives that can refuse its input.
pub type InstrumentResult<T> = Result<T, InstrumentError>;

/// An error as plain values.
pub enum InstrumentErrorView {
    InvalidFormat(Seq<char>),
    UnsupportedByExchange(Seq<char>),
    InvalidDate(Seq<char>),
    ParseError(Seq<char>),
}

impl View for InstrumentError {
    type V = InstrumentErrorView;

    open spec fn view(&self) -> InstrumentErrorView {
        match *self {
            InstrumentError::InvalidFormat(m) => InstrumentErrorView::InvalidFormat(m@),
            InstrumentError::UnsupportedByExchange(m) => InstrumentErrorView::UnsupportedByExchange(
                m@,
            ),
            InstrumentError::InvalidDate(m) => InstrumentErrorView::InvalidDate(m@),
            InstrumentError::ParseError(m) => InstrumentErrorView::ParseError(m@),
        }
    }
}

impl InstrumentError {
    /// The error as a sentence.
    pub open spec fn message(self) -> Seq<char> {
        match self {
            InstrumentError::InvalidFormat(m) => "Invalid format: "@ + m@,
            InstrumentError::UnsupportedByExchange(m) => "Unsupported by exchange: "@ + m@,
            InstrumentError::InvalidDate(m) => "Invalid date format: "@ + m@,
            InstrumentError::ParseError(m) => "Parsing error: "@ + m@,
        }
    }

    /// The error as a sentence.
    pub fn to_string(&self) -> (r: String)
        ensures
            r@ == self.message(),
    {
        match self {
            InstrumentError::InvalidFormat(m) => followed_by("Invalid format: ", m.as_str()),
            InstrumentError::UnsupportedByExchange(m) => followed_by(
                "Unsupported by exchange: ",
                m.as_str(),
            ),
            InstrumentError::InvalidDate(m) => followed_by("Invalid date format: ", m.as_str()),
            InstrumentError::ParseError(m) => followed_by("Parsing error: ", m.as_str()),
        }
    }
}

} // verus!
