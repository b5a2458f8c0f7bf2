//! The failures that the library reports to its callers.

use vstd::prelude::*;
use vstd::string::StringExecFns;

verus! {

/// Why a request could not be prepared or an answer could not be used.
#[derive(Debug, Clone, Copy, PartialEq, Eq, Structural)]
pub enum MarketError {
    /// The symbol names no market that the upstream knows.
    UnsupportedSymbol,
    /// The interval is not one of the supported tokens.
    UnsupportedInterval,
    /// The upstream answered a candle request without data.
    EmptyKlineData,
    /// The upstream answered a quote request without data.
    EmptyQuoteData,
    /// The upstream's price is no number.
    InvalidPrice,
    /// The upstream's answer is not of the expected shape.
    MalformedBody,
}

impl MarketError {
    /// The text of the failure.
    pub open spec fn message_spec(self) -> Seq<char> {
        match self {
            MarketError::UnsupportedSymbol => "unsupported symbol"@,
            MarketError::UnsupportedInterval => "unsupported interval"@,
            MarketError::EmptyKlineData => "empty kline data"@,
            MarketError::EmptyQuoteData => "empty quote data"@,
            MarketError::InvalidPrice => "invalid price"@,
            MarketError::MalformedBody => "malformed body"@,
        }
    }

    /// A short description, for logs.
    pub fn message(&self) -> (r: String)
        ensures
            r@ == self.message_spec(),
    {
        match self {
            MarketError::UnsupportedSymbol => String::from_str("unsupported symbol"),
            MarketError::UnsupportedInterval => String::from_str("unsupported interval"),
            MarketError::EmptyKlineData => String::from_str("empty kline data"),
            MarketError::EmptyQuoteData => String::from_str("empty quote data"),
            MarketError::InvalidPrice => String::from_str("invalid price"),
            MarketError::MalformedBody => String::from_str("malformed body"),
        }
    }
}

/// The text that names an interval token that was refused.
pub fn refused_interval_text(token: &str) -> (r: String)
    ensures
        r@ == "unsupported interval: "@ + token@,
{
    let mut text = String::from_str("unsupported interval: ");
    text.append(token);
    text
}

} // verus!
