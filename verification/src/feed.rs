//! The streaming feed: what the adapter does after each thing that happens
//! on its connection to the upstream.
//!
//! The caller owns the connection. It reports what happened as a `FeedEvent`
//! and performs the `FeedAction` that `react` answers with. No action ends
//! the feed: it runs as long as the caller does.

use crate::clock::{signed_of, to_signed};
use crate::models::kline::{bits_or_zero, bits_or_zero_of};
use crate::models::price::PriceUpdate;
use vstd::prelude::*;
use vstd::string::StringExecFns;

verus! {

/// How long the feed waits before it connects again.
#[derive(Debug, Clone, Copy, PartialEq, Eq, Structural)]
pub struct RetryPolicy {
    /// Milliseconds to wait after a failed attempt to connect.
    pub connect_retry_ms: u64,
    /// Milliseconds to wait after a connection that was up has ended.
    pub reconnect_ms: u64,
}

/// What happened on the connection.
#[derive(Debug, Clone, Copy, PartialEq, Eq, Structural)]
pub enum FeedEvent {
    /// The connection is up.
    Connected,
    /// The attempt to connect failed.
    ConnectFailed,
    /// A trade arrived: what was read of its price text, which is the bits
    /// of the number that it spells or `None` where it spells none, and the
    /// trade's own time.
    Trade { price_bits: Option<u64>, event_time: u64 },
    /// A frame arrived that holds no trade.
    Noise,
    /// The connection ended: by its end, by an error, or closed by the peer.
    StreamEnded,
    /// The wait is over.
    DelayElapsed,
}

/// What the caller does next.
#[derive(Debug, Clone, PartialEq, Eq)]
pub enum FeedAction {
    /// Open the connection.
    Connect,
    /// Read the next frame.
    Read,
    /// Publish the tick, then read the next frame.
    Publish(PriceUpdate),
    /// Wait this many milliseconds, then report `DelayElapsed`.
    Sleep(u64),
}

/// What an action is, as mathematical values.
pub enum FeedActionView {
    Connect,
    Read,
    Publish { symbol: Seq<char>, price_bits: u64, ts_ms: i64 },
    Sleep(u64),
}

impl View for FeedAction {
    type V = FeedActionView;

    open spec fn view(&self) -> FeedActionView {
        match *self {
            FeedAction::Connect => FeedActionView::Connect,
            FeedAction::Read => FeedActionView::Read,
            FeedAction::Publish(tick) => FeedActionView::Publish {
                symbol: tick.symbol@,
                price_bits: tick.price_bits,
                ts_ms: tick.ts_ms,
            },
            FeedAction::Sleep(ms) => FeedActionView::Sleep(ms),
        }
    }
}

/// The action for an event. It depends on the event alone: however often the
/// connection has failed before, the wait is the policy's. Every trade is
/// published; one whose price text spells no number is published at zero.
pub open spec fn reaction_of(policy: RetryPolicy, event: FeedEvent) -> FeedActionView {
    match event {
        FeedEvent::Connected => FeedActionView::Read,
        FeedEvent::ConnectFailed => FeedActionView::Sleep(policy.connect_retry_ms),
        FeedEvent::Trade { price_bits, event_time } => FeedActionView::Publish {
            symbol: "BTCUSDT"@,
            price_bits: bits_or_zero_of(price_bits),
            ts_ms: signed_of(event_time),
        },
        FeedEvent::Noise => FeedActionView::Read,
        FeedEvent::StreamEnded => FeedActionView::Sleep(policy.reconnect_ms),
        FeedEvent::DelayElapsed => FeedActionView::Connect,
    }
}

impl RetryPolicy {
    /// Five seconds after a failed attempt, two after a connection has ended.
    pub fn standard() -> (policy: Self)
        ensures
            policy == (RetryPolicy { connect_retry_ms: 5000, reconnect_ms: 2000 }),
    {
        RetryPolicy { connect_retry_ms: 5000, reconnect_ms: 2000 }
    }
}

/// The tick of a trade of the streamed symbol. The price is what was read of
/// the trade's price text, and zero where nothing could be read. The trade's
/// time is taken over bit for bit: the same number wherever it fits the
/// tick's signed time.
pub fn trade_update(price_bits: Option<u64>, event_time: u64) -> (tick: PriceUpdate)
    ensures
        tick.symbol@ == "BTCUSDT"@,
        tick.price_bits == bits_or_zero_of(price_bits),
        tick.ts_ms == signed_of(event_time),
{
    PriceUpdate {
        symbol: String::from_str("BTCUSDT"),
        price_bits: bits_or_zero(price_bits),
        ts_ms: to_signed(event_time),
    }
}

/// What the feed does first.
pub fn start() -> (action: FeedAction)
    ensures
        action@ == FeedActionView::Connect,
{
    FeedAction::Connect
}

/// What the feed does after an event.
pub fn react(policy: &RetryPolicy, event: FeedEvent) -> (action: FeedAction)
    ensures
        action@ == reaction_of(*policy, event),
{
    match event {
        FeedEvent::Connected => FeedAction::Read,
        FeedEvent::ConnectFailed => FeedAction::Sleep(policy.connect_retry_ms),
        FeedEvent::Trade { price_bits, event_time } => FeedAction::Publish(
            trade_update(price_bits, event_time),
        ),
        FeedEvent::Noise => FeedAction::Read,
        FeedEvent::StreamEnded => FeedAction::Sleep(policy.reconnect_ms),
        FeedEvent::DelayElapsed => FeedAction::Connect,
    }
}

/// What happened in a round of polling.
#[derive(Debug, Clone, PartialEq, Eq)]
pub enum PollEvent {
    /// A round is due.
    RoundDue,
    /// The fetch for the symbol at `index` has ended: with a tick, or with
    /// none where it failed.
    Fetched { index: usize, tick: Option<PriceUpdate> },
}

/// What the poller does after publishing.
#[derive(Debug, Clone, Copy, PartialEq, Eq, Structural)]
pub enum PollNext {
    /// Fetch the symbol at this index.
    Fetch(usize),
    /// Wait this many milliseconds, then report `RoundDue`.
    Sleep(u64),
}

/// The answer to a polling event: the tick to publish, if there is one, and
/// what to do then.
#[derive(Debug, Clone, PartialEq, Eq)]
pub struct PollStep {
    pub publish: Option<PriceUpdate>,
    pub next: PollNext,
}

/// What follows the fetch at `index` in a round over `symbols` symbols: the
/// next symbol, or the wait for the next round after the last one.
pub open spec fn after_fetch(symbols: usize, period_ms: u64, index: usize) -> PollNext {
    if index < symbols && index + 1 < symbols {
        PollNext::Fetch((index + 1) as usize)
    } else {
        PollNext::Sleep(period_ms)
    }
}

/// The answer to a polling event. A round starts at the first symbol, or
/// waits at once where there is none. A fetched tick is published; a failed
/// fetch publishes nothing, and what follows is the same either way.
pub open spec fn poll_step_of(symbols: usize, period_ms: u64, event: PollEvent) -> PollStep {
    match event {
        PollEvent::RoundDue => PollStep {
            publish: None,
            next: if symbols > 0 {
                PollNext::Fetch(0)
            } else {
                PollNext::Sleep(period_ms)
            },
        },
        PollEvent::Fetched { index, tick } => PollStep {
            publish: tick,
            next: after_fetch(symbols, period_ms, index),
        },
    }
}

/// What the poller does after an event, in rounds over `symbols` symbols that
/// are `period_ms` milliseconds apart.
pub fn poll_react(symbols: usize, period_ms: u64, event: PollEvent) -> (step: PollStep)
    ensures
        step == poll_step_of(symbols, period_ms, event),
{
    match event {
        PollEvent::RoundDue => PollStep {
            publish: None,
            next: if symbols > 0 {
                PollNext::Fetch(0)
            } else {
                PollNext::Sleep(period_ms)
            },
        },
        PollEvent::Fetched { index, tick } => {
            let next = if index < symbols && index + 1 < symbols {
                PollNext::Fetch(index + 1)
            } else {
                PollNext::Sleep(period_ms)
            };
            PollStep { publish: tick, next }
        },
    }
}

/// A failed fetch holds nothing up: what follows the fetch of a symbol is the
/// same whether it gave a tick or failed.
pub proof fn lemma_failed_fetch_blocks_nothing(
    symbols: usize,
    period_ms: u64,
    index: usize,
    tick: PriceUpdate,
)
    ensures
        poll_step_of(symbols, period_ms, PollEvent::Fetched { index, tick: None }).next
            == poll_step_of(symbols, period_ms, PollEvent::Fetched { index, tick: Some(tick) }).next,
        poll_step_of(symbols, period_ms, PollEvent::Fetched { index, tick: None }).publish is None,
{
}

/// The wait after a failure does not grow: the action for a failed attempt,
/// and the one for a connection that ended, are the same after any history.
pub proof fn lemma_retry_delay_is_constant(policy: RetryPolicy)
    ensures
        reaction_of(policy, FeedEvent::ConnectFailed) == FeedActionView::Sleep(
            policy.connect_retry_ms,
        ),
        reaction_of(policy, FeedEvent::StreamEnded) == FeedActionView::Sleep(policy.reconnect_ms),
        reaction_of(policy, FeedEvent::DelayElapsed) == FeedActionView::Connect,
{
}

} // verus!
