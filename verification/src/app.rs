//! The command dispatcher: from a command to the operation on the engine in
//! use or on a policy holder, and to the one response that answers it.

use crate::engine::{
    Engine, EngineManager, EngineModel, Served, fails_with, mismatch_text, navigation_step,
    not_implemented_text, released, served_then,
};
use crate::engine::blink::EngineOpView;
use crate::engine::blink::{LifecycleEvent, lemma_reduce_keeps_policy_fields};
use crate::network::routed;
use crate::error::{BrowserError, BrowserErrorView, ErrorKind, outcome_of, respond, response_of};
use crate::ipc::{
    BrowserEngine, BrowserState, BrowserStateView, IPCCommand, IPCCommandView, IPCEvent,
    IPCEventView, IPCResponse,
};
use crate::network::NetworkManager;
use crate::security::{SecurityManager, entered};
use crate::state::{SharedState, StateChange, StateChangeView, apply_spec};
use crate::bus::joined_at;
use tokio::sync::broadcast::Receiver;
use vstd::prelude::*;

verus! {

/// The words of the failure to hand an event to a bus without subscribers.
pub open spec fn channel_closed_text() -> Seq<char> {
    "channel closed"@
}

/// Whether a response reports success, with nothing else in it.
pub open spec fn succeeded(response: IPCResponse<()>) -> bool {
    response@ == response_of(Ok(()))
}

/// Whether a response reports a failure of the given kind.
pub open spec fn failed_as(response: IPCResponse<()>, kind: ErrorKind) -> bool {
    &&& !response.success
    &&& response.data is None
    &&& response.error is Some
    &&& response.error->0@.code == kind.code_text()
}

/// Whether a response reports the failure of the given kind and message.
pub open spec fn failed_with(response: IPCResponse<()>, kind: ErrorKind, message: Seq<char>) -> bool {
    response@ == response_of(Err(BrowserErrorView { kind, message }))
}

/// The control plane: the engine manager, the policy holders and the shared
/// browser state, which names at all times the engine that is in use.
#[verifier::reject_recursive_types(E)]
pub struct App<
    E: Engine,
    S: SecurityManager,
    N: NetworkManager,
    L: Fn(BrowserEngine) -> Result<E, BrowserError>,
> {
    engine_manager: EngineManager<E, L>,
    network_manager: N,
    security_manager: S,
    shared_state: SharedState,
}

impl<
    E: Engine,
    S: SecurityManager,
    N: NetworkManager,
    L: Fn(BrowserEngine) -> Result<E, BrowserError>,
> App<E, S, N, L> {
    /// The engine in use.
    pub closed spec fn engine(&self) -> E {
        self.engine_manager.active()
    }

    /// The function that launches the adapters that the control plane
    /// switches to.
    pub closed spec fn launching(&self) -> L {
        self.engine_manager.launching()
    }

    /// The engines for which the control plane has launched an adapter,
    /// oldest first.
    pub closed spec fn launches(&self) -> Seq<BrowserEngine> {
        self.engine_manager.launches()
    }

    /// The adapters that the control plane has given up and released, and
    /// that its owner has not taken yet, oldest first.
    pub closed spec fn retired(&self) -> Seq<E> {
        self.engine_manager.retired()
    }

    /// The privacy policy holder.
    pub closed spec fn security(&self) -> S {
        self.security_manager
    }

    /// The network policy holder.
    pub closed spec fn network(&self) -> N {
        self.network_manager
    }

    /// The browser state.
    pub closed spec fn state(&self) -> BrowserStateView {
        self.shared_state@
    }

    /// The events handed to the bus so far, oldest first.
    pub closed spec fn offered(&self) -> Seq<IPCEventView> {
        self.shared_state.offered()
    }

    /// The events that the bus has taken for its subscribers so far, oldest
    /// first: those handed to it while somebody was subscribed.
    pub closed spec fn delivered(&self) -> Seq<IPCEventView> {
        self.shared_state.delivered()
    }

    /// Whether, since `before`, the bus has taken for its subscribers
    /// nothing, or the one announcement of the browser state as it is now.
    pub open spec fn delivered_since(&self, before: &Self) -> bool {
        ||| self.delivered() == before.delivered()
        ||| {
            &&& self.offered() == before.offered().push(IPCEventView::StateUpdate(self.state()))
            &&& self.delivered() == before.delivered().push(
                IPCEventView::StateUpdate(self.state()),
            )
        }
    }

    /// Whether the browser state names the engine in use. A new control
    /// plane is in step, and every operation on one that is in step leaves it
    /// so.
    pub open spec fn in_step(&self) -> bool {
        self.state().current_engine == self.engine().model().kind
    }

    /// A control plane around the given engine and policy holders, in the
    /// state of a browser that has loaded nothing. Where the engine is not
    /// the one that such a state names, the state is put right and announced.
    /// The adapters that it switches to are launched by `launch`, a function
    /// that takes every engine.
    pub fn new(
        initial_engine: E,
        security_manager: S,
        network_manager: N,
        launch: L,
    ) -> (app: Self)
        requires
            forall|engine: BrowserEngine| call_requires(launch, (engine,)),
        ensures
            app.in_step(),
            app.engine() == initial_engine,
            app.launching() == launch,
            app.launches() == Seq::<BrowserEngine>::empty(),
            app.retired() == Seq::<E>::empty(),
            app.security() == security_manager,
            app.network() == network_manager,
            app.state() == (BrowserStateView {
                current_engine: initial_engine.model().kind,
                ..BrowserStateView::initial()
            }),
            app.offered() == if initial_engine.model().kind == BrowserEngine::Blink {
                Seq::<IPCEventView>::empty()
            } else {
                seq![IPCEventView::StateUpdate(app.state())]
            },
            app.delivered() == Seq::<IPCEventView>::empty() || app.delivered() == app.offered(),
    {
        let kind = initial_engine.engine_type();
        let mut shared_state = SharedState::new();
        if kind != BrowserEngine::Blink {
            let _ = shared_state.apply(StateChange::Engine(kind));
        }
        App {
            engine_manager: EngineManager::new(initial_engine, launch),
            network_manager,
            security_manager,
            shared_state,
        }
    }

    pub fn engine_manager(&self) -> (manager: &EngineManager<E, L>)
        ensures
            manager.active() == self.engine(),
    {
        &self.engine_manager
    }

    pub fn security_manager(&self) -> (manager: &S)
        ensures
            *manager == self.security(),
    {
        &self.security_manager
    }

    pub fn network_manager(&self) -> (manager: &N)
        ensures
            *manager == self.network(),
    {
        &self.network_manager
    }

    /// A copy of the browser state as it is now.
    pub fn snapshot(&self) -> (state: BrowserState)
        ensures
            state@ == self.state(),
    {
        self.shared_state.read()
    }

    /// Hands over the adapters that the control plane has given up in its
    /// switches. Their pages were released; the owner lets go of them.
    pub fn take_retired(&mut self) -> (retired: Vec<E>)
        ensures
            retired@ == old(self).retired(),
            final(self).retired() == Seq::<E>::empty(),
            final(self).engine() == old(self).engine(),
            final(self).launching() == old(self).launching(),
            final(self).launches() == old(self).launches(),
            final(self).same_policy(old(self)),
            final(self).same_state(old(self)),
            final(self).delivered() == old(self).delivered(),
    {
        self.engine_manager.take_retired()
    }

    /// A new subscriber, which sees what is announced from now on.
    pub fn subscribe(&self) -> (rx: Receiver<IPCEvent>)
        ensures
            joined_at(rx) == self.delivered().len(),
    {
        self.shared_state.subscribe()
    }

    /// Hands an event to all subscribers. Without a subscriber the event is
    /// lost, which is an internal error.
    pub fn send_event(&mut self, event: IPCEvent) -> (r: Result<(), BrowserError>)
        ensures
            old(self).in_step() ==> final(self).in_step(),
            final(self).offered() == old(self).offered().push(event@),
            final(self).state() == old(self).state(),
            final(self).engine() == old(self).engine(),
            final(self).retired() == old(self).retired(),
            final(self).launches() == old(self).launches(),
            final(self).security() == old(self).security(),
            final(self).network() == old(self).network(),
            r is Ok ==> final(self).delivered() == old(self).delivered().push(event@),
            r is Err ==> fails_with(r, ErrorKind::Internal, channel_closed_text()),
            r is Err ==> final(self).delivered() == old(self).delivered(),
    {
        match self.shared_state.send_event(event) {
            Ok(_) => Ok(()),
            Err(_) => Err(BrowserError::new(ErrorKind::Internal, "channel closed")),
        }
    }

    /// Folds a notification of the engine in use into the browser state and
    /// announces the state that results, once. The result is the number of
    /// subscribers that the announcement was stored for.
    pub fn on_engine_event(&mut self, event: LifecycleEvent) -> (delivered: usize)
        ensures
            old(self).in_step() ==> final(self).in_step(),
            final(self).state() == apply_spec(
                old(self).state(),
                StateChangeView::Lifecycle(event@),
            ),
            final(self).offered() == old(self).offered().push(
                IPCEventView::StateUpdate(final(self).state()),
            ),
            final(self).delivered() == if delivered > 0 {
                old(self).delivered().push(IPCEventView::StateUpdate(final(self).state()))
            } else {
                old(self).delivered()
            },
            final(self).engine() == old(self).engine(),
            final(self).retired() == old(self).retired(),
            final(self).launches() == old(self).launches(),
            final(self).security() == old(self).security(),
            final(self).network() == old(self).network(),
    {
        proof {
            lemma_reduce_keeps_policy_fields(self.shared_state@, event@);
        }
        self.shared_state.apply(StateChange::Lifecycle(event))
    }
}

impl<
    E: Engine,
    S: SecurityManager,
    N: NetworkManager,
    L: Fn(BrowserEngine) -> Result<E, BrowserError>,
> App<E, S, N, L> {
    /// Whether the policy holders are those of `before`.
    pub open spec fn same_policy(&self, before: &Self) -> bool {
        self.security() == before.security() && self.network() == before.network()
    }

    /// Whether the engine in use has, since `before`, carried out the one
    /// operation `op`, and the response is the answer to how it ended.
    pub open spec fn served_by_engine(
        &self,
        before: &Self,
        op: EngineOpView,
        response: IPCResponse<()>,
    ) -> bool {
        let served = self.engine().model().served;
        &&& served.len() > 0
        &&& served == served_then(before.engine().model(), op, served.last().ended)
        &&& response@ == response_of(served.last().ended)
    }

    /// What a switch to an engine that is not reserved does to the control
    /// plane `before`, given what the launcher returned, and how it is
    /// answered.
    ///
    /// A launch that failed is answered with its own error, an adapter of
    /// another engine than the one asked for with a configuration error.
    /// Then, where the engine in use remembers an address, the new adapter
    /// is asked to navigate to it, once, and its refusal is the answer, a
    /// provider error. Where the switch succeeds, the adapter that was
    /// launched is in use, navigated to that address if there was one, and
    /// the browser state names the engine and is announced once. Where it
    /// fails, the engine in use and the browser state are as before. Of the
    /// two adapters, the one that is not in use afterwards is given up: its
    /// page is released, and it is kept for the owner to take.
    pub open spec fn switched(
        before: &Self,
        engine: BrowserEngine,
        launched: Result<E, BrowserError>,
        after: &Self,
        response: IPCResponse<()>,
    ) -> bool {
        let prior = before.engine().model().current_url;
        &&& launched is Err ==> after.retired() == before.retired()
        &&& launched is Ok ==> {
            &&& after.retired().len() == before.retired().len() + 1
            &&& after.retired().drop_last() == before.retired()
            &&& response.success ==> after.retired().last().model() == released(
                before.engine().model(),
            )
            &&& !response.success ==> {
                &&& !after.retired().last().model().has_page
                &&& after.retired().last().model().kind == launched->Ok_0.model().kind
                &&& after.retired().last().model().served.len() > 0
                &&& after.retired().last().model().served.last() == (Served {
                    op: EngineOpView::Close,
                    ended: Ok(()),
                })
            }
        }
        &&& launched is Err ==> response@ == response_of(Err(launched->Err_0@))
        &&& launched is Ok && launched->Ok_0.model().kind != engine ==> failed_with(
            response,
            ErrorKind::Configuration,
            mismatch_text(),
        )
        &&& launched is Ok && launched->Ok_0.model().kind == engine ==> {
            &&& prior.len() == 0 ==> response.success
            &&& !response.success ==> failed_as(response, ErrorKind::Provider)
            &&& !response.success ==> exists|tried: EngineModel|
                {
                    &&& #[trigger] navigation_step(launched->Ok_0.model(), prior, false, tried)
                    &&& tried.served.len() > 0
                    &&& tried.served == served_then(
                        launched->Ok_0.model(),
                        EngineOpView::Navigate { url: prior },
                        tried.served.last().ended,
                    )
                    &&& response@ == response_of(tried.served.last().ended)
                    &&& after.retired().last().model() == released(tried)
                }
        }
        &&& if response.success {
            &&& succeeded(response)
            &&& launched is Ok
            &&& after.engine().model().kind == engine
            &&& prior.len() == 0 ==> after.engine() == launched->Ok_0
            &&& prior.len() > 0 ==> {
                &&& after.engine().model().current_url == prior
                &&& navigation_step(launched->Ok_0.model(), prior, true, after.engine().model())
                &&& after.engine().model().served == served_then(
                    launched->Ok_0.model(),
                    EngineOpView::Navigate { url: prior },
                    Ok(()),
                )
            }
            &&& after.state() == apply_spec(before.state(), StateChangeView::Engine(engine))
            &&& after.announced_since(before)
        } else {
            &&& response@.well_formed()
            &&& response.data is None
            &&& after.engine() == before.engine()
            &&& after.same_state(before)
        }
    }

    /// Whether the browser state is that of `before` and nothing was handed
    /// to the bus since.
    pub open spec fn same_state(&self, before: &Self) -> bool {
        self.state() == before.state() && self.offered() == before.offered()
    }

    /// Whether, since `before`, the browser state was announced once as it is
    /// now, and nothing else handed to the bus.
    pub open spec fn announced_since(&self, before: &Self) -> bool {
        self.offered() == before.offered().push(IPCEventView::StateUpdate(self.state()))
    }

    /// The operation of the engine that carries out a command on the page.
    pub open spec fn page_op(command: IPCCommandView) -> EngineOpView {
        match command {
            IPCCommandView::Navigate { url } => EngineOpView::Navigate { url },
            IPCCommandView::Stop => EngineOpView::Stop,
            IPCCommandView::GoBack => EngineOpView::GoBack,
            IPCCommandView::GoForward => EngineOpView::GoForward,
            _ => EngineOpView::Reload,
        }
    }

    /// What a command does to the control plane `before`, and how it is
    /// answered.
    ///
    /// An operation on the page goes to the engine in use, which carries out
    /// that one operation; the answer is how it ended, and the browser state
    /// is not touched. A new privacy mode or network route goes to its policy
    /// holder, once; the answer is how that ended, and where it ended well
    /// the browser state takes the value and is announced. A switch to a
    /// reserved engine is refused with nothing touched and nothing launched;
    /// for any other the launcher is asked for an adapter, once, and the
    /// switch goes on as `switched` says. No other command launches.
    pub open spec fn dispatched(
        before: &Self,
        command: IPCCommandView,
        after: &Self,
        response: IPCResponse<()>,
    ) -> bool {
        &&& command is SwitchEngine || after.retired() == before.retired()
        &&& after.launches() == (match command {
            IPCCommandView::SwitchEngine { engine } => if engine.implemented() {
                before.launches().push(engine)
            } else {
                before.launches()
            },
            _ => before.launches(),
        })
        &&& match command {
            IPCCommandView::Navigate { url } => {
                &&& after.served_by_engine(before, Self::page_op(command), response)
                &&& succeeded(response) || failed_as(response, ErrorKind::Provider)
                &&& navigation_step(
                    before.engine().model(),
                    url,
                    response.success,
                    after.engine().model(),
                )
                &&& after.same_state(before)
                &&& after.same_policy(before)
            },
            IPCCommandView::SwitchEngine { engine } => {
                &&& after.same_policy(before)
                &&& if engine.implemented() {
                    exists|launched: Result<E, BrowserError>|
                        #[trigger] call_ensures(before.launching(), (engine,), launched)
                            && Self::switched(before, engine, launched, after, response)
                } else {
                    &&& failed_with(
                        response,
                        ErrorKind::NotImplemented,
                        not_implemented_text(engine),
                    )
                    &&& after.engine() == before.engine()
                    &&& after.retired() == before.retired()
                    &&& after.same_state(before)
                }
            },
            IPCCommandView::SetPrivacyMode { mode } => {
                let asked = after.security().model().asked;
                &&& after.engine() == before.engine()
                &&& after.network() == before.network()
                &&& asked.len() > 0
                &&& after.security().model() == entered(
                    before.security().model(),
                    mode,
                    asked.last().ended,
                )
                &&& response@ == response_of(asked.last().ended)
                &&& if response.success {
                    &&& after.state() == apply_spec(
                        before.state(),
                        StateChangeView::PrivacyMode(mode),
                    )
                    &&& after.announced_since(before)
                } else {
                    failed_as(response, ErrorKind::Policy) && after.same_state(before)
                }
            },
            IPCCommandView::SetNetworkRoute { route } => {
                let asked = after.network().model().asked;
                &&& after.engine() == before.engine()
                &&& after.security() == before.security()
                &&& asked.len() > 0
                &&& after.network().model() == routed(
                    before.network().model(),
                    route,
                    asked.last().ended,
                )
                &&& response@ == response_of(asked.last().ended)
                &&& if response.success {
                    &&& after.state() == apply_spec(
                        before.state(),
                        StateChangeView::NetworkRoute(route),
                    )
                    &&& after.announced_since(before)
                } else {
                    failed_as(response, ErrorKind::Policy) && after.same_state(before)
                }
            },
            _ => {
                &&& after.served_by_engine(before, Self::page_op(command), response)
                &&& succeeded(response) || failed_as(response, ErrorKind::Provider)
                &&& !before.engine().model().has_page ==> response.success
                &&& after.engine().model() == (EngineModel {
                    served: after.engine().model().served,
                    ..before.engine().model()
                })
                &&& after.same_state(before)
                &&& after.same_policy(before)
            },
        }
    }

    /// Carries out a command and answers it. Every command is answered, and
    /// answered once.
    pub fn handle_command(&mut self, command: IPCCommand) -> (response: IPCResponse<()>)
        ensures
            Self::dispatched(old(self), command@, final(self), response),
            final(self).launching() == old(self).launching(),
            final(self).delivered_since(old(self)),
            response@.well_formed(),
            old(self).in_step() ==> final(self).in_step(),
    {
        let ghost asked = command@;
        let outcome = match command {
            IPCCommand::Navigate { url } => self.engine_manager.current_engine_mut().navigate(url),
            IPCCommand::SwitchEngine { engine } => self.engine_manager.switch_engine(
                engine,
                &mut self.shared_state,
            ),
            IPCCommand::SetPrivacyMode { mode } => {
                let taken = self.security_manager.set_privacy_mode(&mode);
                self.shared_state.commit(taken, StateChange::PrivacyMode(mode))
            },
            IPCCommand::SetNetworkRoute { route } => {
                let taken = self.network_manager.set_route(&route);
                self.shared_state.commit(taken, StateChange::NetworkRoute(route))
            },
            IPCCommand::Reload => self.engine_manager.current_engine_mut().reload(),
            IPCCommand::Stop => self.engine_manager.current_engine_mut().stop(),
            IPCCommand::GoBack => self.engine_manager.current_engine_mut().go_back(),
            IPCCommand::GoForward => self.engine_manager.current_engine_mut().go_forward(),
        };
        let ghost ended = outcome_of(outcome);
        let response = respond(outcome);
        proof {
            match asked {
                IPCCommandView::SwitchEngine { engine } => {
                    if engine.implemented() {
                        let launched = choose|launched: Result<E, BrowserError>|
                            #[trigger] call_ensures(old(self).launching(), (engine,), launched)
                                && EngineManager::<E, L>::adopted(
                                old(self).engine(),
                                old(self).retired(),
                                old(self).shared_state,
                                engine,
                                launched,
                                outcome,
                                self.engine(),
                                self.retired(),
                                self.shared_state,
                            );
                        assert(Self::switched(old(self), engine, launched, self, response));
                    }
                },
                IPCCommandView::SetPrivacyMode { mode } => {
                    assert(self.security().model().asked.last().ended == ended);
                },
                IPCCommandView::SetNetworkRoute { route } => {
                    assert(self.network().model().asked.last().ended == ended);
                },
                _ => {
                    assert(self.engine().model().served.last().ended == ended);
                },
            }
        }
        response
    }
}

impl<
    E: Engine,
    S: SecurityManager,
    N: NetworkManager,
    L: Fn(BrowserEngine) -> Result<E, BrowserError>,
> App<E, S, N, L> {
    /// Whatever a command does, a change of the browser state is announced
    /// before the command is answered, once and as the state then is; and
    /// where nothing is announced, the state has not changed.
    pub proof fn lemma_command_announces_every_change(
        before: &Self,
        command: IPCCommandView,
        after: &Self,
        response: IPCResponse<()>,
    )
        requires
            Self::dispatched(before, command, after, response),
        ensures
            after.same_state(before) || after.announced_since(before),
            after.state() != before.state() ==> after.announced_since(before),
            !response.success ==> after.same_state(before),
    {
    }

    /// A switch to a reserved engine is refused: nothing is launched, and
    /// neither the engine in use nor the browser state is touched.
    pub proof fn lemma_reserved_engine_changes_nothing(
        before: &Self,
        engine: BrowserEngine,
        after: &Self,
        response: IPCResponse<()>,
    )
        requires
            !engine.implemented(),
            Self::dispatched(before, IPCCommandView::SwitchEngine { engine }, after, response),
        ensures
            failed_as(response, ErrorKind::NotImplemented),
            after.engine() == before.engine(),
            after.launches() == before.launches(),
            after.retired() == before.retired(),
            after.same_state(before),
    {
    }

    /// A switch that succeeds on an engine that remembers an address leaves
    /// the new adapter remembering that address, and the browser state in
    /// step with the new adapter.
    pub proof fn lemma_switch_keeps_the_address(
        before: &Self,
        engine: BrowserEngine,
        after: &Self,
        response: IPCResponse<()>,
    )
        requires
            Self::dispatched(before, IPCCommandView::SwitchEngine { engine }, after, response),
            response.success,
            before.engine().model().current_url.len() > 0,
        ensures
            after.engine().model().current_url == before.engine().model().current_url,
            after.in_step(),
    {
    }

    /// No command leaves a certificate beside a connection that is not
    /// secure; only a notification of the engine can, as
    /// `lemma_certificate_consistency` says.
    pub proof fn lemma_commands_keep_certificate_consistency(
        before: &Self,
        command: IPCCommandView,
        after: &Self,
        response: IPCResponse<()>,
    )
        requires
            Self::dispatched(before, command, after, response),
            before.state().certificate_consistent(),
        ensures
            after.state().certificate_consistent(),
    {
    }
}

} // verus!
