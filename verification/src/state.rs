//! The distribution hub: the latest tick and the fan-out to subscribers.

use crate::models::price::{option_view, PriceUpdate, PriceUpdateView};
use tokio::sync::broadcast::{Receiver, Sender};
use vstd::prelude::*;

verus! {

/// The sending half of tokio's broadcast channel, carried as an opaque value.
#[verifier::external_type_specification]
#[verifier::external_body]
#[verifier::reject_recursive_types(T)]
pub struct ExSender<T>(Sender<T>);

/// The receiving half of tokio's broadcast channel, carried as an opaque value.
#[verifier::external_type_specification]
#[verifier::external_body]
#[verifier::reject_recursive_types(T)]
pub struct ExReceiver<T>(Receiver<T>);

/// The latest value after a tick is published: that tick, whatever was there.
pub open spec fn publish_of(before: Option<PriceUpdateView>, tick: PriceUpdateView) -> Option<
    PriceUpdateView,
> {
    Some(tick)
}

/// The latest value after `ticks` are published one after the other, starting
/// from `start`.
pub open spec fn latest_after(start: Option<PriceUpdateView>, ticks: Seq<PriceUpdateView>) -> Option<
    PriceUpdateView,
>
    decreases ticks.len(),
{
    if ticks.len() == 0 {
        start
    } else {
        publish_of(latest_after(start, ticks.drop_last()), ticks.last())
    }
}

/// Pending ticks that the channel keeps for each subscriber.
pub const CHANNEL_CAPACITY: usize = 32;

/// The hub's state: the most recent tick, and the channel that carries every
/// tick to the subscribers of the moment.
pub struct AppState {
    latest: Option<PriceUpdate>,
    tx: Sender<PriceUpdate>,
}

/// Whether a number is a power of two.
pub open spec fn is_power_of_two(n: nat) -> bool
    decreases n,
{
    n == 1 || (n > 1 && n % 2 == 0 && is_power_of_two(n / 2))
}

/// The position that follows `p` in a channel: positions count up and start
/// again at zero after the last one.
pub open spec fn position_after(p: u64) -> u64 {
    if p == u64::MAX {
        0
    } else {
        (p + 1) as u64
    }
}

/// The capacity that `tokio::sync::broadcast::channel` was called with when
/// it made the channel of this sender: the pending ticks that the channel
/// keeps for each receiver. Tokio rounds a capacity up to a power of two, so
/// for a power of two it keeps exactly that many.
pub uninterp spec fn channel_limit(tx: Sender<PriceUpdate>) -> usize;

/// The position at which the sender's channel writes the next value that it
/// takes: tokio's `Shared.tail.pos`. It starts at zero, and goes one further
/// with each value that is sent while there is a receiver.
pub uninterp spec fn channel_tail(tx: Sender<PriceUpdate>) -> u64;

/// The position from which a receiver reads next: tokio's `Receiver.next`.
/// The receiver yields the values that the channel took at this position and
/// after it, and none from before.
pub uninterp spec fn receiver_next(rx: Receiver<PriceUpdate>) -> u64;

/// Calls `tokio::sync::broadcast::channel` and keeps the sender. The call
/// panics on a capacity of zero or above `usize::MAX / 2`, which `requires`
/// leaves out, as it does a capacity that tokio would round up. The sender's
/// channel was made with the capacity given and has taken nothing; nothing
/// else is claimed of it.
#[verifier::external_body]
fn open_channel(capacity: usize) -> (tx: Sender<PriceUpdate>)
    requires
        0 < capacity <= usize::MAX / 2,
        is_power_of_two(capacity as nat),
    ensures
        channel_limit(tx) == capacity,
        channel_tail(tx) == 0,
{
    let (tx, _) = tokio::sync::broadcast::channel(capacity);
    tx
}

/// Calls `Sender::send`, which hands the value to every receiver of the
/// moment without waiting for any of them. Returns whether there was a
/// receiver. With one, the channel takes the value at its tail, which goes
/// one position further; with none the value is dropped and the tail stays.
/// The capacity stays as it was made.
#[verifier::external_body]
fn offer(tx: &mut Sender<PriceUpdate>, update: PriceUpdate) -> (delivered: bool)
    ensures
        channel_limit(*final(tx)) == channel_limit(*old(tx)),
        delivered ==> channel_tail(*final(tx)) == position_after(channel_tail(*old(tx))),
        !delivered ==> channel_tail(*final(tx)) == channel_tail(*old(tx)),
{
    tx.send(update).is_ok()
}

/// Calls `Sender::subscribe`: a receiver that reads from the channel's tail
/// of the moment on, so that it yields what is sent from now on and nothing
/// that was sent before. Tokio gives up beyond a quarter of `usize::MAX`
/// receivers at once, more than a machine can hold.
#[verifier::external_body]
fn join(tx: &Sender<PriceUpdate>) -> (rx: Receiver<PriceUpdate>)
    ensures
        receiver_next(rx) == channel_tail(*tx),
{
    tx.subscribe()
}

impl AppState {
    /// The most recent tick, or `None` while nothing was published.
    pub closed spec fn latest_view(&self) -> Option<PriceUpdateView> {
        option_view(self.latest)
    }

    /// The pending ticks that the hub's channel keeps for each subscriber.
    pub closed spec fn capacity(&self) -> usize {
        channel_limit(self.tx)
    }

    /// The position of the next tick that the hub's channel takes for its
    /// subscribers: zero at first, and one further with each tick that is
    /// published while there is a subscriber.
    pub closed spec fn taken(&self) -> u64 {
        channel_tail(self.tx)
    }

    /// A hub that has seen no tick, with a channel that keeps
    /// `CHANNEL_CAPACITY` pending ticks for each subscriber and has taken
    /// none.
    pub fn new() -> (state: Self)
        ensures
            state.latest_view() is None,
            state.capacity() == CHANNEL_CAPACITY,
            state.taken() == 0,
    {
        proof {
            reveal_with_fuel(is_power_of_two, 6);
        }
        AppState { latest: None, tx: open_channel(CHANNEL_CAPACITY) }
    }

    /// Registers a subscriber. Its receiver starts where the hub's channel
    /// stands: it sees the ticks published after this call, and none of those
    /// published before.
    pub fn subscribe(&self) -> (rx: Receiver<PriceUpdate>)
        ensures
            receiver_next(rx) == self.taken(),
    {
        join(&self.tx)
    }

    /// Publishes a tick: it becomes the latest value and is offered to every
    /// subscriber of the moment. With a subscriber the channel takes the tick
    /// and goes one position further; with none only the latest value
    /// changes. The channel stays the one that the hub was made with.
    pub fn set_latest(&mut self, update: PriceUpdate)
        ensures
            final(self).latest_view() == publish_of(old(self).latest_view(), update@),
            final(self).latest_view() == Some(update@),
            final(self).capacity() == old(self).capacity(),
            final(self).taken() == old(self).taken() || final(self).taken() == position_after(
                old(self).taken(),
            ),
    {
        self.latest = Some(update.clone());
        let _ = offer(&mut self.tx, update);
    }

    /// The most recent tick.
    pub fn latest(&self) -> (r: Option<PriceUpdate>)
        ensures
            option_view(r) == self.latest_view(),
    {
        match &self.latest {
            Some(t) => Some(t.clone()),
            None => None,
        }
    }
}

/// The last write wins: after any run of publishes that is not empty, the
/// latest value is the tick of the last one, whatever stood there before.
pub proof fn lemma_last_write_wins(start: Option<PriceUpdateView>, ticks: Seq<PriceUpdateView>)
    requires
        ticks.len() > 0,
    ensures
        latest_after(start, ticks) == Some(ticks.last()),
{
}

/// The latest value is absent only before the first publish: with no publish
/// it is what it was, and after one or more it is present. So a value that is
/// present never becomes absent again.
pub proof fn lemma_absent_only_before_first_publish(
    start: Option<PriceUpdateView>,
    ticks: Seq<PriceUpdateView>,
)
    ensures
        ticks.len() == 0 ==> latest_after(start, ticks) == start,
        ticks.len() > 0 ==> latest_after(start, ticks) is Some,
        start is Some ==> latest_after(start, ticks) is Some,
        latest_after(start, ticks) is None <==> (start is None && ticks.len() == 0),
{
}

} // verus!
