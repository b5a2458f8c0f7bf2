//! The answer to a request for the latest price.

use crate::models::price::PriceUpdate;
use vstd::prelude::*;
use vstd::string::StringExecFns;

verus! {

/// The status of an answer that carries the latest tick.
pub const STATUS_OK: u16 = 200;

/// The status of an answer while no tick was published.
pub const STATUS_NOT_READY: u16 = 503;

/// The answer to a request for the latest price.
#[derive(Debug, Clone, PartialEq, Eq)]
pub enum PriceReply {
    /// The latest tick.
    Ready(PriceUpdate),
    /// Nothing was published yet.
    NotReady,
}

impl PriceReply {
    /// The status code of the answer.
    pub open spec fn status_of(self) -> u16 {
        match self {
            PriceReply::Ready(_) => STATUS_OK,
            PriceReply::NotReady => STATUS_NOT_READY,
        }
    }

    /// The text of the answer where it carries no tick.
    pub open spec fn message_of(self) -> Option<Seq<char>> {
        match self {
            PriceReply::Ready(_) => None,
            PriceReply::NotReady => Some("price not ready"@),
        }
    }

    /// The status code of the answer.
    pub fn status(&self) -> (code: u16)
        ensures
            code == self.status_of(),
    {
        match self {
            PriceReply::Ready(_) => STATUS_OK,
            PriceReply::NotReady => STATUS_NOT_READY,
        }
    }

    /// The text of the answer where it carries no tick.
    pub fn message(&self) -> (text: Option<String>)
        ensures
            match text {
                Some(t) => self.message_of() == Some(t@),
                None => self.message_of() is None,
            },
    {
        match self {
            PriceReply::Ready(_) => None,
            PriceReply::NotReady => Some(String::from_str("price not ready")),
        }
    }
}

/// The answer for what the hub holds: the tick, or that none is there yet.
pub fn get_btc_price(latest: Option<PriceUpdate>) -> (reply: PriceReply)
    ensures
        reply == match latest {
            Some(tick) => PriceReply::Ready(tick),
            None => PriceReply::NotReady,
        },
{
    match latest {
        Some(tick) => PriceReply::Ready(tick),
        None => PriceReply::NotReady,
    }
}

} // verus!
