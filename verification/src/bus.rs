//! The event bus: every subscriber receives, in order, the events that are
//! published after it subscribed.

use crate::ipc::{IPCEvent, IPCEventView};
use tokio::sync::broadcast::{Receiver, Sender};
use vstd::prelude::*;

verus! {

/// The sending half of tokio's broadcast channel. Nothing inside it is known
/// to the verifier.
#[verifier::external_type_specification]
#[verifier::external_body]
#[verifier::reject_recursive_types(T)]
pub struct ExSender<T>(Sender<T>);

/// The receiving half of tokio's broadcast channel. Nothing inside it is
/// known to the verifier.
#[verifier::external_type_specification]
#[verifier::external_body]
#[verifier::reject_recursive_types(T)]
pub struct ExReceiver<T>(Receiver<T>);

/// The number of events that the bus is asked to keep for a subscriber that
/// lags behind. The channel keeps at least as many, rounding the number up to
/// a power of two; beyond what it keeps, the oldest are dropped for that
/// subscriber.
pub const EVENT_CAPACITY: usize = 100;

/// The values that a channel has taken for its receivers since it was
/// opened, oldest first. A value is taken when it is sent while a receiver is
/// alive; the channel keeps the latest of them for receivers that lag.
pub uninterp spec fn accepted(tx: Sender<IPCEvent>) -> Seq<IPCEventView>;

/// The number of values that the channel had taken when a receiver joined
/// it. The receiver is handed none of those, and the values taken after them
/// in their order, but for the oldest where it lags behind by more than the
/// channel keeps.
pub uninterp spec fn joined_at(rx: Receiver<IPCEvent>) -> nat;

/// `tokio::sync::broadcast::channel`, of which the receiving half is dropped
/// at once: a channel without subscribers, which has taken no value yet. The
/// call panics on a capacity of zero or above half of `usize::MAX`, which
/// `requires` leaves out.
#[verifier::external_body]
fn open_channel(capacity: usize) -> (tx: Sender<IPCEvent>)
    requires
        0 < capacity <= usize::MAX / 2,
    ensures
        accepted(tx) == Seq::<IPCEventView>::empty(),
{
    let (tx, _) = tokio::sync::broadcast::channel(capacity);
    tx
}

/// `tokio::sync::broadcast::Sender::send`. With no receiver alive the channel
/// hands the value back and takes nothing; otherwise it takes the value as
/// its latest for every receiver and returns how many there are, which is
/// then at least one.
#[verifier::external_body]
fn send_to_subscribers(tx: &mut Sender<IPCEvent>, event: IPCEvent) -> (r: Result<usize, IPCEvent>)
    ensures
        r matches Ok(n) ==> n >= 1 && accepted(*final(tx)) == accepted(*old(tx)).push(event@),
        r matches Err(back) ==> back == event && accepted(*final(tx)) == accepted(*old(tx)),
{
    match tx.send(event) {
        Ok(n) => Ok(n),
        Err(e) => Err(e.0),
    }
}

/// `tokio::sync::broadcast::Sender::subscribe`. The receiver that comes back
/// receives the values sent after this call, so it joins the channel where
/// the channel stands. The call panics when a quarter of `usize::MAX`
/// receivers are alive at once; each of them occupies memory, so no process
/// reaches that number.
#[verifier::external_body]
fn add_subscriber(tx: &Sender<IPCEvent>) -> (rx: Receiver<IPCEvent>)
    ensures
        joined_at(rx) == accepted(*tx).len(),
{
    tx.subscribe()
}

/// The publishing side of the bus, with the record of what was handed to it.
pub struct EventBus {
    tx: Sender<IPCEvent>,
    log: Ghost<Seq<IPCEventView>>,
}

impl EventBus {
    /// The events handed to the bus since it was made, oldest first.
    pub closed spec fn offered(&self) -> Seq<IPCEventView> {
        self.log@
    }

    /// The events that the bus has taken for its subscribers since it was
    /// made, oldest first: those handed to it while somebody was subscribed.
    pub closed spec fn delivered(&self) -> Seq<IPCEventView> {
        accepted(self.tx)
    }

    /// A bus without subscribers to which nothing was handed yet.
    pub fn new() -> (bus: Self)
        ensures
            bus.offered() == Seq::<IPCEventView>::empty(),
            bus.delivered() == Seq::<IPCEventView>::empty(),
    {
        EventBus { tx: open_channel(EVENT_CAPACITY), log: Ghost(Seq::empty()) }
    }

    /// A new subscriber. It sees the events published from now on, none of
    /// the earlier ones.
    pub fn subscribe(&self) -> (rx: Receiver<IPCEvent>)
        ensures
            joined_at(rx) == self.delivered().len(),
    {
        add_subscriber(&self.tx)
    }

    /// Hands an event to the bus. The result is the number of subscribers it
    /// was stored for, or the event itself where nobody is subscribed.
    pub fn publish(&mut self, event: IPCEvent) -> (r: Result<usize, IPCEvent>)
        ensures
            final(self).offered() == old(self).offered().push(event@),
            r matches Ok(n) ==> n >= 1,
            r matches Err(back) ==> back == event,
            r is Ok ==> final(self).delivered() == old(self).delivered().push(event@),
            r is Err ==> final(self).delivered() == old(self).delivered(),
    {
        let ghost announced = event@;
        let r = send_to_subscribers(&mut self.tx, event);
        self.log = Ghost(self.log@.push(announced));
        r
    }
}

} // verus!
