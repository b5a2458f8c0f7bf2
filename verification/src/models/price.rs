//! Price observations.

use vstd::prelude::*;

verus! {

/// One observation of a symbol's price.
///
/// The price travels as the bit pattern of its IEEE-754 double, so that a tick
/// is a plain value that can be stored, compared and handed on without loss.
/// `ts_ms` is the observation's own time in milliseconds since the Unix epoch,
/// not the time of reception.
#[derive(Debug, PartialEq, Eq)]
pub struct PriceUpdate {
    pub symbol: String,
    pub price_bits: u64,
    pub ts_ms: i64,
}

/// What a `PriceUpdate` holds, as mathematical values.
pub struct PriceUpdateView {
    pub symbol: Seq<char>,
    pub price_bits: u64,
    pub ts_ms: i64,
}

impl View for PriceUpdate {
    type V = PriceUpdateView;

    open spec fn view(&self) -> PriceUpdateView {
        PriceUpdateView { symbol: self.symbol@, price_bits: self.price_bits, ts_ms: self.ts_ms }
    }
}

impl Clone for PriceUpdate {
    fn clone(&self) -> (r: Self)
        ensures
            r@ == self@,
    {
        PriceUpdate { symbol: self.symbol.clone(), price_bits: self.price_bits, ts_ms: self.ts_ms }
    }
}

/// The view of an optional tick.
pub open spec fn option_view(tick: Option<PriceUpdate>) -> Option<PriceUpdateView> {
    match tick {
        Some(t) => Some(t@),
        None => None,
    }
}

/// A ticker quote as the upstream sends it: the price is still decimal text.
#[derive(Debug, Clone)]
pub struct BinanceTickerPrice {
    pub symbol: String,
    pub price: String,
}

} // verus!
