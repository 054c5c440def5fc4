//! The shared browser state: one snapshot, changed in one place, and every
//! change announced on the event bus with the snapshot that results.

use crate::bus::{EventBus, joined_at};
use crate::engine::blink::{LifecycleEvent, LifecycleEventView, reduce, reduce_spec};
use crate::error::BrowserError;
use crate::ipc::{
    BrowserEngine, BrowserState, BrowserStateView, IPCEvent, IPCEventView, NetworkRoute,
    PrivacyMode,
};
use tokio::sync::broadcast::Receiver;
use vstd::prelude::*;

verus! {

/// A change of the browser state, by what causes it.
#[derive(Debug, PartialEq, Eq)]
pub enum StateChange {
    /// A notification of the active engine.
    Lifecycle(LifecycleEvent),
    /// The privacy policy holder took a new mode.
    PrivacyMode(PrivacyMode),
    /// The network policy holder took a new route.
    NetworkRoute(NetworkRoute),
    /// The engine manager put another engine in use.
    Engine(BrowserEngine),
}

pub enum StateChangeView {
    Lifecycle(LifecycleEventView),
    PrivacyMode(PrivacyMode),
    NetworkRoute(NetworkRoute),
    Engine(BrowserEngine),
}

impl View for StateChange {
    type V = StateChangeView;

    open spec fn view(&self) -> StateChangeView {
        match *self {
            StateChange::Lifecycle(event) => StateChangeView::Lifecycle(event@),
            StateChange::PrivacyMode(mode) => StateChangeView::PrivacyMode(mode),
            StateChange::NetworkRoute(route) => StateChangeView::NetworkRoute(route),
            StateChange::Engine(engine) => StateChangeView::Engine(engine),
        }
    }
}

/// The browser state after a change.
pub open spec fn apply_spec(state: BrowserStateView, change: StateChangeView) -> BrowserStateView {
    match change {
        StateChangeView::Lifecycle(event) => reduce_spec(state, event),
        StateChangeView::PrivacyMode(mode) => BrowserStateView { privacy_mode: mode, ..state },
        StateChangeView::NetworkRoute(route) => BrowserStateView { network_route: route, ..state },
        StateChangeView::Engine(engine) => BrowserStateView { current_engine: engine, ..state },
    }
}

/// Only the engine manager's change names another engine as the one in use.
pub proof fn lemma_engine_changes_by_switch_only(state: BrowserStateView, change: StateChangeView)
    ensures
        apply_spec(state, change).current_engine == (match change {
            StateChangeView::Engine(engine) => engine,
            _ => state.current_engine,
        }),
{
}

/// Of all changes, one kind alone leaves a certificate beside a connection
/// that is not secure: a notification that the connection is no longer
/// secure, while it carries a certificate or one is still shown.
pub proof fn lemma_certificate_consistency(state: BrowserStateView, change: StateChangeView)
    requires
        state.certificate_consistent(),
    ensures
        !apply_spec(state, change).certificate_consistent() <==> (change matches StateChangeView::Lifecycle(
            LifecycleEventView::SecurityStateChanged { secure, certificate },
        ) && !secure && (certificate is Some || state.certificate_info is Some)),
{
}

/// The browser state together with the bus on which its changes are
/// announced. Whoever holds it exclusively is the one writer.
pub struct SharedState {
    state: BrowserState,
    bus: EventBus,
}

impl View for SharedState {
    type V = BrowserStateView;

    closed spec fn view(&self) -> BrowserStateView {
        self.state@
    }
}

impl SharedState {
    /// The events handed to the bus so far, oldest first.
    pub closed spec fn offered(&self) -> Seq<IPCEventView> {
        self.bus.offered()
    }

    /// The events that the bus has taken for its subscribers so far, oldest
    /// first: those handed to it while somebody was subscribed.
    pub closed spec fn delivered(&self) -> Seq<IPCEventView> {
        self.bus.delivered()
    }

    /// Whether, since `before`, the bus has taken for its subscribers
    /// nothing, or the one announcement of the state as it is now.
    pub open spec fn delivered_since(&self, before: &Self) -> bool {
        ||| self.delivered() == before.delivered()
        ||| {
            &&& self.offered() == before.offered().push(IPCEventView::StateUpdate(self@))
            &&& self.delivered() == before.delivered().push(IPCEventView::StateUpdate(self@))
        }
    }

    /// The state of a browser that has loaded nothing, with nothing announced.
    pub fn new() -> (shared: Self)
        ensures
            shared@ == BrowserStateView::initial(),
            shared.offered() == Seq::<IPCEventView>::empty(),
            shared.delivered() == Seq::<IPCEventView>::empty(),
    {
        SharedState { state: BrowserState::default(), bus: EventBus::new() }
    }

    /// A copy of the state as it is now.
    pub fn read(&self) -> (snapshot: BrowserState)
        ensures
            snapshot@ == self@,
    {
        self.state.clone()
    }

    /// A new subscriber, which sees what is announced from now on.
    pub fn subscribe(&self) -> (rx: Receiver<IPCEvent>)
        ensures
            joined_at(rx) == self.delivered().len(),
    {
        self.bus.subscribe()
    }

    /// Hands an event that is no change of the state to the bus. The result
    /// is the number of subscribers, or the event where there is none.
    pub fn send_event(&mut self, event: IPCEvent) -> (r: Result<usize, IPCEvent>)
        ensures
            final(self)@ == old(self)@,
            final(self).offered() == old(self).offered().push(event@),
            r matches Ok(n) ==> n >= 1,
            r matches Err(back) ==> back == event,
            r is Ok ==> final(self).delivered() == old(self).delivered().push(event@),
            r is Err ==> final(self).delivered() == old(self).delivered(),
    {
        self.bus.publish(event)
    }

    /// Takes the outcome of what stands behind a change: where it ended
    /// well, the change is made and the state that results is announced,
    /// once; where it failed, nothing is changed and nothing announced. The
    /// outcome is handed on.
    pub fn commit(
        &mut self,
        outcome: Result<(), BrowserError>,
        change: StateChange,
    ) -> (r: Result<(), BrowserError>)
        ensures
            r == outcome,
            r is Ok ==> {
                &&& final(self)@ == apply_spec(old(self)@, change@)
                &&& final(self).offered() == old(self).offered().push(
                    IPCEventView::StateUpdate(final(self)@),
                )
            },
            r is Err ==> {
                &&& final(self)@ == old(self)@
                &&& final(self).offered() == old(self).offered()
                &&& final(self).delivered() == old(self).delivered()
            },
            final(self).delivered_since(old(self)),
    {
        match outcome {
            Ok(done) => {
                let _ = self.apply(change);
                Ok(done)
            },
            Err(e) => Err(e),
        }
    }

    /// Makes a change and announces the state that results, once. The result
    /// is the number of subscribers that the announcement was stored for;
    /// that nobody is subscribed is no failure.
    pub fn apply(&mut self, change: StateChange) -> (delivered: usize)
        ensures
            final(self)@ == apply_spec(old(self)@, change@),
            final(self).offered() == old(self).offered().push(
                IPCEventView::StateUpdate(final(self)@),
            ),
            final(self).delivered() == if delivered > 0 {
                old(self).delivered().push(IPCEventView::StateUpdate(final(self)@))
            } else {
                old(self).delivered()
            },
    {
        match change {
            StateChange::Lifecycle(event) => reduce(&mut self.state, event),
            StateChange::PrivacyMode(mode) => {
                self.state.privacy_mode = mode;
            },
            StateChange::NetworkRoute(route) => {
                self.state.network_route = route;
            },
            StateChange::Engine(engine) => {
                self.state.current_engine = engine;
            },
        }
        match self.bus.publish(IPCEvent::StateUpdate(self.state.clone())) {
            Ok(n) => n,
            Err(_) => 0,
        }
    }
}

} // verus!
