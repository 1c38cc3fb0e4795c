use vstd::prelude::*;

verus! {

/// Why a payment link was refused.
#[derive(Debug, Clone, PartialEq, Eq)]
pub enum ParseError {
    /// The input is not a URL at all; `message` is the URL parser's own
    /// description of the failure.
    InvalidUrl { message: String },
    /// The URL's host is absent or is not the wallet's link host.
    UnsupportedHost { host: String },
    /// A required query parameter is absent.
    MissingParam { name: &'static str },
    /// `id` is the raw `master_currency_id` value (not necessarily numeric).
    UnsupportedCurrency { id: String },
    /// The `to` value is not a 20-byte hex address.
    InvalidAddress { value: String },
    /// The `amount` value is not a hex-encoded 256-bit unsigned integer.
    InvalidAmount { value: String, reason: String },
}

/// The mathematical value of a [`ParseError`]: every text as a sequence of
/// characters.
pub enum ParseErrorView {
    InvalidUrl { message: Seq<char> },
    UnsupportedHost { host: Seq<char> },
    MissingParam { name: Seq<char> },
    UnsupportedCurrency { id: Seq<char> },
    InvalidAddress { value: Seq<char> },
    InvalidAmount { value: Seq<char>, reason: Seq<char> },
}

impl View for ParseError {
    type V = ParseErrorView;

    open spec fn view(&self) -> ParseErrorView {
        match self {
            ParseError::InvalidUrl { message } => ParseErrorView::InvalidUrl { message: message@ },
            ParseError::UnsupportedHost { host } => ParseErrorView::UnsupportedHost { host: host@ },
            ParseError::MissingParam { name } => ParseErrorView::MissingParam { name: name@ },
            ParseError::UnsupportedCurrency { id } => ParseErrorView::UnsupportedCurrency {
                id: id@,
            },
            ParseError::InvalidAddress { value } => ParseErrorView::InvalidAddress {
                value: value@,
            },
            ParseError::InvalidAmount { value, reason } => ParseErrorView::InvalidAmount {
                value: value@,
                reason: reason@,
            },
        }
    }
}

} // verus!
