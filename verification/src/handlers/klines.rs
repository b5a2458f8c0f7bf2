//! The candle endpoint: what to ask the upstream, and how to answer.

use crate::error::MarketError;
use crate::models::kline::Kline;
use crate::services::ashare::{kline_request_of, kline_request_url};
use vstd::prelude::*;
use vstd::string::StringExecFns;

verus! {

/// The records that the endpoint asks for.
pub const REQUEST_LIMIT: u16 = 200;

/// The status of an answer that carries candles.
pub const STATUS_OK: u16 = 200;

/// The status of an answer when the upstream gave none.
pub const STATUS_BAD_GATEWAY: u16 = 502;

/// The parameters of a candle request.
#[derive(Debug, Clone)]
pub struct KlineQuery {
    pub interval: Option<String>,
}

/// The answer to a candle request.
#[derive(Debug, Clone, PartialEq, Eq)]
pub enum KlinesReply {
    /// The candles that the upstream gave.
    Candles(Vec<Kline>),
    /// The upstream could not be asked or gave nothing usable. The reason is
    /// not passed on.
    Unavailable,
}

impl KlineQuery {
    /// The interval that the query names, and one minute where it names none.
    pub open spec fn interval_of(self) -> Seq<char> {
        match self.interval {
            Some(token) => token@,
            None => "1m"@,
        }
    }

    /// The interval that the query names, and one minute where it names none.
    pub fn interval_or_default(&self) -> (token: String)
        ensures
            token@ == self.interval_of(),
    {
        match &self.interval {
            Some(token) => token.clone(),
            None => String::from_str("1m"),
        }
    }
}

impl KlinesReply {
    /// The status code of the answer.
    pub open spec fn status_of(self) -> u16 {
        match self {
            KlinesReply::Candles(_) => STATUS_OK,
            KlinesReply::Unavailable => STATUS_BAD_GATEWAY,
        }
    }

    /// The text of the answer where it carries no candles.
    pub open spec fn message_of(self) -> Option<Seq<char>> {
        match self {
            KlinesReply::Candles(_) => None,
            KlinesReply::Unavailable => Some("failed to fetch klines from Ashare service"@),
        }
    }

    /// The status code of the answer.
    pub fn status(&self) -> (code: u16)
        ensures
            code == self.status_of(),
    {
        match self {
            KlinesReply::Candles(_) => STATUS_OK,
            KlinesReply::Unavailable => STATUS_BAD_GATEWAY,
        }
    }

    /// The text of the answer where it carries no candles.
    pub fn message(&self) -> (text: Option<String>)
        ensures
            match text {
                Some(t) => self.message_of() == Some(t@),
                None => self.message_of() is None,
            },
    {
        match self {
            KlinesReply::Candles(_) => None,
            KlinesReply::Unavailable => Some(
                String::from_str("failed to fetch klines from Ashare service"),
            ),
        }
    }
}

/// The address that the endpoint asks for the candles of `symbol`, or why it
/// cannot ask.
pub fn klines_request(symbol: &str, query: &KlineQuery) -> (r: Result<String, MarketError>)
    ensures
        match r {
            Ok(url) => kline_request_of(symbol@, query.interval_of(), REQUEST_LIMIT) == Ok::<
                Seq<char>,
                MarketError,
            >(url@),
            Err(e) => kline_request_of(symbol@, query.interval_of(), REQUEST_LIMIT) == Err::<
                Seq<char>,
                MarketError,
            >(e),
        },
{
    let interval = query.interval_or_default();
    kline_request_url(symbol, interval.as_str(), REQUEST_LIMIT)
}

/// The answer for what fetching gave: the candles, or, where fetching gave
/// none, that the upstream is unavailable, whatever went wrong.
pub fn get_klines(fetched: Option<Vec<Kline>>) -> (reply: KlinesReply)
    ensures
        reply == match fetched {
            Some(klines) => KlinesReply::Candles(klines),
            None => KlinesReply::Unavailable,
        },
{
    match fetched {
        Some(klines) => KlinesReply::Candles(klines),
        None => KlinesReply::Unavailable,
    }
}

} // verus!
