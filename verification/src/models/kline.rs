//! Candles.

use vstd::prelude::*;

verus! {

/// One bar of a symbol over an interval.
///
/// `open_time` is in milliseconds since the Unix epoch. Each of the five
/// quantities travels as the bit pattern of its IEEE-754 double, so that a
/// candle is a plain value that can be stored, compared and handed on without
/// loss.
#[derive(Debug, Clone, Copy, PartialEq, Eq, Structural)]
pub struct Kline {
    pub open_time: i64,
    pub open: u64,
    pub high: u64,
    pub low: u64,
    pub close: u64,
    pub volume: u64,
}

/// A bar as the upstream writes it: the opening time is read, the five
/// quantities are still the upstream's decimal text, unchanged.
#[derive(Debug, Clone, PartialEq, Eq)]
pub struct KlineText {
    pub open_time: i64,
    pub open: String,
    pub high: String,
    pub low: String,
    pub close: String,
    pub volume: String,
}

/// What a `KlineText` holds, as mathematical values.
pub struct KlineTextView {
    pub open_time: i64,
    pub open: Seq<char>,
    pub high: Seq<char>,
    pub low: Seq<char>,
    pub close: Seq<char>,
    pub volume: Seq<char>,
}

impl View for KlineText {
    type V = KlineTextView;

    open spec fn view(&self) -> KlineTextView {
        KlineTextView {
            open_time: self.open_time,
            open: self.open@,
            high: self.high@,
            low: self.low@,
            close: self.close@,
            volume: self.volume@,
        }
    }
}

/// What was read of a bar's five texts: for each the bits of the number that
/// it spells, or `None` where it spells none.
#[derive(Debug, Clone, Copy, PartialEq, Eq, Structural)]
pub struct Quantities {
    pub open: Option<u64>,
    pub high: Option<u64>,
    pub low: Option<u64>,
    pub close: Option<u64>,
    pub volume: Option<u64>,
}

/// The bit pattern of the double `0.0`.
pub const ZERO_BITS: u64 = 0;

/// The bits of a quantity: those that were read, and those of zero where
/// nothing could be read.
pub open spec fn bits_or_zero_of(parsed: Option<u64>) -> u64 {
    match parsed {
        Some(b) => b,
        None => ZERO_BITS,
    }
}

/// The candle that opens at `open_time` with the quantities that were read. A
/// quantity that could not be read is zero: it never keeps the candle out.
pub open spec fn kline_of(open_time: i64, read: Quantities) -> Kline {
    Kline {
        open_time,
        open: bits_or_zero_of(read.open),
        high: bits_or_zero_of(read.high),
        low: bits_or_zero_of(read.low),
        close: bits_or_zero_of(read.close),
        volume: bits_or_zero_of(read.volume),
    }
}

/// The bits of the number that a quantity's text spells, and those of zero
/// for a text that spells none: a quantity that cannot be read never fails,
/// it counts as zero.
pub fn bits_or_zero(parsed: Option<u64>) -> (bits: u64)
    ensures
        bits == bits_or_zero_of(parsed),
{
    match parsed {
        Some(b) => b,
        None => ZERO_BITS,
    }
}

/// The candle of a bar whose texts were read: it opens when the bar opens,
/// and each quantity is what was read of its text, or zero.
pub fn kline_from_text(bar: &KlineText, read: Quantities) -> (k: Kline)
    ensures
        k == kline_of(bar.open_time, read),
{
    Kline {
        open_time: bar.open_time,
        open: bits_or_zero(read.open),
        high: bits_or_zero(read.high),
        low: bits_or_zero(read.low),
        close: bits_or_zero(read.close),
        volume: bits_or_zero(read.volume),
    }
}

} // verus!
