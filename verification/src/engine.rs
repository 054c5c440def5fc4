//! The contract that every rendering engine meets, and the manager that owns
//! the one engine in use.

pub mod blink;

use crate::engine::blink::EngineOpView;
use crate::error::{BrowserError, BrowserErrorView, ErrorKind, outcome_of};
use crate::ipc::{
    BrowserEngine, CertificateInfo, CertificateInfoView, IPCEventView, certificate_of, text_of,
};
use crate::state::{SharedState, StateChange, StateChangeView, apply_spec};
use vstd::prelude::*;

verus! {

/// An operation that an adapter has carried out, and how it ended.
pub struct Served {
    pub op: EngineOpView,
    pub ended: Result<(), BrowserErrorView>,
}

/// What an engine adapter remembers of its page, and what it was asked.
pub struct EngineModel {
    /// The operations that the adapter has carried out, oldest first.
    pub served: Seq<Served>,
    pub kind: BrowserEngine,
    /// Whether a page was opened in the browser.
    pub has_page: bool,
    /// The address of the last navigation that the browser accepted.
    pub current_url: Seq<char>,
    pub title: Option<Seq<char>>,
    pub favicon: Option<Seq<char>>,
    pub certificate_info: Option<CertificateInfoView>,
    pub is_secure: bool,
}

/// The record of an adapter after one more operation.
pub open spec fn served_then(
    before: EngineModel,
    op: EngineOpView,
    ended: Result<(), BrowserErrorView>,
) -> Seq<Served> {
    before.served.push(Served { op, ended })
}

/// How an operation on the page changes an adapter: it is recorded with its
/// outcome, and nothing else changes.
pub open spec fn page_operation(
    before: EngineModel,
    op: EngineOpView,
    ended: Result<(), BrowserErrorView>,
    after: EngineModel,
) -> bool {
    after == EngineModel { served: served_then(before, op, ended), ..before }
}

/// The adapter after its page was released: the release is recorded, no
/// page is open, and nothing else has changed.
pub open spec fn released(before: EngineModel) -> EngineModel {
    EngineModel {
        served: served_then(before, EngineOpView::Close, Ok(())),
        has_page: false,
        ..before
    }
}

/// How a navigation to `url` changes what an adapter remembers of its page:
/// the address is remembered if and only if the browser accepted the
/// navigation, a page exists afterwards if it did, a page that existed is
/// kept, and nothing else of the page changes.
pub open spec fn navigation_step(
    before: EngineModel,
    url: Seq<char>,
    accepted: bool,
    after: EngineModel,
) -> bool {
    &&& after == EngineModel {
        served: after.served,
        has_page: after.has_page,
        current_url: if accepted {
            url
        } else {
            before.current_url
        },
        ..before
    }
    &&& accepted ==> after.has_page
    &&& before.has_page ==> after.has_page
}

/// A rendering engine behind the control plane.
///
/// An operation has the adapter to itself until it returns, so that no two
/// operations on one adapter interleave. Every operation is recorded with its
/// outcome. The operations on the page change nothing of what the adapter
/// remembers of the page; only a navigation does. The accessors answer from
/// what the adapter remembers; none of them asks the browser.
pub trait Engine: Send + Sync {
    /// What the adapter remembers. It is spoken of in contracts and never
    /// computed when the program runs.
    spec fn model(&self) -> EngineModel;

    fn engine_type(&self) -> (kind: BrowserEngine)
        ensures
            kind == self.model().kind,
    ;

    /// Asks the browser to load `url`, opening a page first where none is
    /// open yet. The address is remembered once the browser has accepted the
    /// navigation, not before.
    fn navigate(&mut self, url: String) -> (r: Result<(), BrowserError>)
        ensures
            navigation_step(old(self).model(), url@, r is Ok, final(self).model()),
            final(self).model().served == served_then(
                old(self).model(),
                EngineOpView::Navigate { url: url@ },
                outcome_of(r),
            ),
            r matches Err(e) ==> e.kind == ErrorKind::Provider,
    ;

    /// Stops loading. Without a page there is nothing to stop.
    fn stop(&mut self) -> (r: Result<(), BrowserError>)
        ensures
            page_operation(
                old(self).model(),
                EngineOpView::Stop,
                outcome_of(r),
                final(self).model(),
            ),
            !old(self).model().has_page ==> r is Ok,
            r matches Err(e) ==> e.kind == ErrorKind::Provider,
    ;

    /// Reloads the page. Without a page there is nothing to reload.
    fn reload(&mut self) -> (r: Result<(), BrowserError>)
        ensures
            page_operation(
                old(self).model(),
                EngineOpView::Reload,
                outcome_of(r),
                final(self).model(),
            ),
            !old(self).model().has_page ==> r is Ok,
            r matches Err(e) ==> e.kind == ErrorKind::Provider,
    ;

    /// Goes one step back in the history of the page, if there is a page.
    fn go_back(&mut self) -> (r: Result<(), BrowserError>)
        ensures
            page_operation(
                old(self).model(),
                EngineOpView::GoBack,
                outcome_of(r),
                final(self).model(),
            ),
            !old(self).model().has_page ==> r is Ok,
            r matches Err(e) ==> e.kind == ErrorKind::Provider,
    ;

    /// Goes one step forward in the history of the page, if there is a page.
    fn go_forward(&mut self) -> (r: Result<(), BrowserError>)
        ensures
            page_operation(
                old(self).model(),
                EngineOpView::GoForward,
                outcome_of(r),
                final(self).model(),
            ),
            !old(self).model().has_page ==> r is Ok,
            r matches Err(e) ==> e.kind == ErrorKind::Provider,
    ;

    /// Releases the page, if one is open: the browser is asked to close it.
    /// That the browser fails to do so is no failure of the release.
    fn close(&mut self)
        ensures
            final(self).model() == released(old(self).model()),
    ;

    fn current_url(&self) -> (url: String)
        ensures
            url@ == self.model().current_url,
    ;

    fn title(&self) -> (title: Option<String>)
        ensures
            text_of(title) == self.model().title,
    ;

    fn favicon(&self) -> (favicon: Option<String>)
        ensures
            text_of(favicon) == self.model().favicon,
    ;

    fn certificate_info(&self) -> (info: Option<CertificateInfo>)
        ensures
            certificate_of(info) == self.model().certificate_info,
    ;

    fn is_secure(&self) -> (secure: bool)
        ensures
            secure == self.model().is_secure,
    ;
}

/// After any run of navigations, each of which kept to the contract, the
/// adapter remembers the address of the last one that the browser accepted,
/// and right after an accepted one the address of that one.
pub proof fn lemma_last_accepted_navigation_wins(
    states: Seq<EngineModel>,
    urls: Seq<Seq<char>>,
    accepted: Seq<bool>,
    last: int,
)
    requires
        states.len() == urls.len() + 1,
        accepted.len() == urls.len(),
        forall|i: int|
            0 <= i < urls.len() ==> navigation_step(
                #[trigger] states[i],
                urls[i],
                accepted[i],
                states[i + 1],
            ),
        0 <= last < urls.len(),
        accepted[last],
        forall|j: int| last < j < urls.len() ==> !accepted[j],
    ensures
        states[last + 1].current_url == urls[last],
        states.last().current_url == urls[last],
        states.last().kind == states[0].kind,
{
    assert(navigation_step(states[last], urls[last], accepted[last], states[last + 1]));
    lemma_rejected_navigations_keep_address(states, urls, accepted, last + 1, urls.len() as int);
    lemma_navigations_keep_kind(states, urls, accepted, urls.len() as int);
}

/// A run of navigations that the browser rejected leaves the remembered
/// address as it was.
pub proof fn lemma_rejected_navigations_keep_address(
    states: Seq<EngineModel>,
    urls: Seq<Seq<char>>,
    accepted: Seq<bool>,
    from: int,
    to: int,
)
    requires
        states.len() == urls.len() + 1,
        accepted.len() == urls.len(),
        forall|i: int|
            0 <= i < urls.len() ==> navigation_step(
                #[trigger] states[i],
                urls[i],
                accepted[i],
                states[i + 1],
            ),
        0 <= from <= to <= urls.len(),
        forall|j: int| from <= j < to ==> !accepted[j],
    ensures
        states[to].current_url == states[from].current_url,
    decreases to - from,
{
    if from < to {
        lemma_rejected_navigations_keep_address(states, urls, accepted, from, to - 1);
        assert(navigation_step(states[to - 1], urls[to - 1], accepted[to - 1], states[to]));
    }
}

/// No navigation changes which engine an adapter is, nor what it remembers
/// of the page's title, icon and certificate.
pub proof fn lemma_navigations_keep_kind(
    states: Seq<EngineModel>,
    urls: Seq<Seq<char>>,
    accepted: Seq<bool>,
    upto: int,
)
    requires
        states.len() == urls.len() + 1,
        accepted.len() == urls.len(),
        forall|i: int|
            0 <= i < urls.len() ==> navigation_step(
                #[trigger] states[i],
                urls[i],
                accepted[i],
                states[i + 1],
            ),
        0 <= upto <= urls.len(),
    ensures
        states[upto].kind == states[0].kind,
        states[upto].title == states[0].title,
        states[upto].favicon == states[0].favicon,
        states[upto].certificate_info == states[0].certificate_info,
        states[upto].is_secure == states[0].is_secure,
    decreases upto,
{
    if 0 < upto {
        lemma_navigations_keep_kind(states, urls, accepted, upto - 1);
        assert(navigation_step(states[upto - 1], urls[upto - 1], accepted[upto - 1], states[upto]));
    }
}

/// Whether an outcome is the failure of the given kind and message.
pub open spec fn fails_with(
    outcome: Result<(), BrowserError>,
    kind: ErrorKind,
    message: Seq<char>,
) -> bool {
    outcome is Err && outcome->Err_0@ == (BrowserErrorView { kind, message })
}

/// The words with which a reserved engine is refused.
pub open spec fn not_implemented_text(engine: BrowserEngine) -> Seq<char> {
    match engine {
        BrowserEngine::Blink => "Blink engine is not implemented"@,
        BrowserEngine::Gecko => "Gecko engine is not implemented"@,
        BrowserEngine::Webkit => "WebKit engine is not implemented"@,
        BrowserEngine::Servo => "Servo engine is not implemented"@,
    }
}

/// The words with which an adapter of another engine than the one asked for
/// is refused.
pub open spec fn mismatch_text() -> Seq<char> {
    "The adapter is not of the requested engine"@
}

/// The way to a new adapter: a function that launches the browser of an
/// engine, attaches an adapter to it and returns the adapter, or the reason
/// why there is none.
#[verifier::reject_recursive_types(E)]
pub struct Launcher<E, L: Fn(BrowserEngine) -> Result<E, BrowserError>> {
    launch: L,
    made: core::marker::PhantomData<E>,
    asked: Ghost<Seq<BrowserEngine>>,
}

impl<E, L: Fn(BrowserEngine) -> Result<E, BrowserError>> Launcher<E, L> {
    #[verifier::type_invariant]
    spec fn takes_every_engine(self) -> bool {
        forall|engine: BrowserEngine| call_requires(self.launch, (engine,))
    }

    /// The function that launches the adapters.
    pub closed spec fn function(&self) -> L {
        self.launch
    }

    /// The engines for which the function was asked for an adapter, oldest
    /// first.
    pub closed spec fn asked(&self) -> Seq<BrowserEngine> {
        self.asked@
    }

    /// A launcher around a function that takes every engine, as every
    /// function does that states no precondition of its own. It has
    /// launched nothing yet.
    pub fn new(launch: L) -> (launcher: Self)
        requires
            forall|engine: BrowserEngine| call_requires(launch, (engine,)),
        ensures
            launcher.function() == launch,
            launcher.asked() == Seq::<BrowserEngine>::empty(),
    {
        Launcher { launch, made: core::marker::PhantomData, asked: Ghost(Seq::empty()) }
    }

    /// Launches an adapter: the function is asked once, the outcome is what
    /// it returns for the engine, and the launch is recorded.
    pub fn call(&mut self, engine: BrowserEngine) -> (launched: Result<E, BrowserError>)
        ensures
            call_ensures(old(self).function(), (engine,), launched),
            final(self).function() == old(self).function(),
            final(self).asked() == old(self).asked().push(engine),
    {
        proof {
            use_type_invariant(&*self);
        }
        let launched = (self.launch)(engine);
        self.asked = Ghost(self.asked@.push(engine));
        launched
    }
}

/// Whether one adapter was retired from `before` to `after`: the adapter
/// that had `model`, with its page released.
pub open spec fn retired_one<E: Engine>(before: Seq<E>, model: EngineModel, after: Seq<E>) -> bool {
    &&& after.len() == before.len() + 1
    &&& after.drop_last() == before
    &&& after.last().model() == released(model)
}

/// Owns the one engine in use and replaces it on request. The adapters that
/// it gives up, it releases and keeps for its owner to take.
#[verifier::reject_recursive_types(E)]
pub struct EngineManager<E: Engine, L: Fn(BrowserEngine) -> Result<E, BrowserError>> {
    current_engine: E,
    launcher: Launcher<E, L>,
    retired: Vec<E>,
}

impl<E: Engine, L: Fn(BrowserEngine) -> Result<E, BrowserError>> EngineManager<E, L> {
    /// The engine in use.
    pub closed spec fn active(&self) -> E {
        self.current_engine
    }

    /// The function that launches the adapters that the manager switches to.
    pub closed spec fn launching(&self) -> L {
        self.launcher.function()
    }

    /// The engines for which the manager has launched an adapter, oldest
    /// first.
    pub closed spec fn launches(&self) -> Seq<BrowserEngine> {
        self.launcher.asked()
    }

    /// The adapters that the manager has given up and released, and that its
    /// owner has not taken yet, oldest first.
    pub closed spec fn retired(&self) -> Seq<E> {
        self.retired@
    }

    /// A manager of the given engine, which launches the adapters that it
    /// switches to by `launch`, a function that takes every engine.
    pub fn new(initial_engine: E, launch: L) -> (manager: Self)
        requires
            forall|engine: BrowserEngine| call_requires(launch, (engine,)),
        ensures
            manager.active() == initial_engine,
            manager.launching() == launch,
            manager.launches() == Seq::<BrowserEngine>::empty(),
            manager.retired() == Seq::<E>::empty(),
    {
        EngineManager {
            current_engine: initial_engine,
            launcher: Launcher::new(launch),
            retired: Vec::new(),
        }
    }

    /// Hands over the adapters that the manager has given up. Their pages
    /// were released; the owner lets go of them.
    pub fn take_retired(&mut self) -> (retired: Vec<E>)
        ensures
            retired@ == old(self).retired(),
            final(self).retired() == Seq::<E>::empty(),
            final(self).active() == old(self).active(),
            final(self).launching() == old(self).launching(),
            final(self).launches() == old(self).launches(),
    {
        let mut retired = Vec::new();
        std::mem::swap(&mut retired, &mut self.retired);
        retired
    }

    /// Gives an adapter up: releases its page and keeps it for the owner.
    fn retire(&mut self, engine: E)
        ensures
            retired_one(old(self).retired(), engine.model(), final(self).retired()),
            final(self).active() == old(self).active(),
            final(self).launching() == old(self).launching(),
            final(self).launches() == old(self).launches(),
    {
        let mut engine = engine;
        engine.close();
        self.retired.push(engine);
        assert(self.retired@.drop_last() =~= old(self).retired());
    }

    pub fn current_engine(&self) -> (engine: &E)
        ensures
            *engine == self.active(),
    {
        &self.current_engine
    }

    /// The engine in use, for an operation that changes what it remembers.
    pub fn current_engine_mut(&mut self) -> (engine: &mut E)
        ensures
            *engine == old(self).active(),
            final(self).active() == *final(engine),
            final(self).launching() == old(self).launching(),
            final(self).launches() == old(self).launches(),
            final(self).retired() == old(self).retired(),
    {
        &mut self.current_engine
    }

    /// Whether a switch to `engine_type` can be begun: a reserved engine is
    /// refused before anything is launched.
    pub fn check_switch(engine_type: BrowserEngine) -> (r: Result<(), BrowserError>)
        ensures
            engine_type.implemented() ==> r is Ok,
            !engine_type.implemented() ==> fails_with(
                r,
                ErrorKind::NotImplemented,
                not_implemented_text(engine_type),
            ),
    {
        match engine_type {
            BrowserEngine::Blink => Ok(()),
            BrowserEngine::Gecko => Err(
                BrowserError::new(ErrorKind::NotImplemented, "Gecko engine is not implemented"),
            ),
            BrowserEngine::Webkit => Err(
                BrowserError::new(ErrorKind::NotImplemented, "WebKit engine is not implemented"),
            ),
            BrowserEngine::Servo => Err(
                BrowserError::new(ErrorKind::NotImplemented, "Servo engine is not implemented"),
            ),
        }
    }

    /// Ends a switch to the adapter `fresh`, given how the navigation to the
    /// address of the engine in use went on it.
    ///
    /// Where that navigation failed, the failure is the result, `fresh` is
    /// given up, and the engine in use and the browser state stay as they
    /// were. Otherwise `fresh` is the engine in use from now on, the engine
    /// that was in use is given up, the browser state names `engine_type`,
    /// and that state is announced once. The adapter that is given up is
    /// released and kept for the owner.
    pub fn finish_switch(
        &mut self,
        engine_type: BrowserEngine,
        fresh: E,
        continuity: Result<(), BrowserError>,
        shared: &mut SharedState,
    ) -> (r: Result<(), BrowserError>)
        ensures
            r == continuity,
            final(self).launching() == old(self).launching(),
            final(self).launches() == old(self).launches(),
            retired_one(
                old(self).retired(),
                if r is Ok {
                    old(self).active().model()
                } else {
                    fresh.model()
                },
                final(self).retired(),
            ),
            r is Err ==> {
                &&& final(self).active() == old(self).active()
                &&& final(shared)@ == old(shared)@
                &&& final(shared).offered() == old(shared).offered()
                &&& final(shared).delivered() == old(shared).delivered()
            },
            final(shared).delivered_since(old(shared)),
            r is Ok ==> {
                &&& final(self).active() == fresh
                &&& final(shared)@ == apply_spec(old(shared)@, StateChangeView::Engine(engine_type))
                &&& final(shared).offered() == old(shared).offered().push(
                    IPCEventView::StateUpdate(final(shared)@),
                )
            },
    {
        let mut given_up = fresh;
        match continuity {
            Ok(done) => {
                std::mem::swap(&mut self.current_engine, &mut given_up);
                self.retire(given_up);
                let _ = shared.apply(StateChange::Engine(engine_type));
                Ok(done)
            },
            Err(e) => {
                self.retire(given_up);
                Err(e)
            },
        }
    }

    /// What `adopt` does with what was launched for `engine_type`, from the
    /// engine in use `active` and the shared state `shared` to `active_after`
    /// and `shared_after`, with the result `r`.
    ///
    /// A reserved engine is refused, whatever was launched. A launch that
    /// failed fails the switch with its own error, and so does an adapter of
    /// another engine than the one asked for, with a configuration error.
    /// Then, where the engine in use remembers an address, the new adapter
    /// is asked to navigate to it, once, and fails the switch with its
    /// provider error if it does not accept. Whenever the switch fails, the engine
    /// in use and the shared state are untouched. Where it succeeds, the
    /// adapter that was launched is in use, navigated to that address if
    /// there was one, and the shared state names the engine and is announced
    /// once. Of the two adapters, the one that is not in use afterwards is
    /// given up: its page is released, and it is kept for the owner.
    pub open spec fn adopted(
        active: E,
        retired: Seq<E>,
        shared: SharedState,
        engine_type: BrowserEngine,
        launched: Result<E, BrowserError>,
        r: Result<(), BrowserError>,
        active_after: E,
        retired_after: Seq<E>,
        shared_after: SharedState,
    ) -> bool {
        let prior = active.model().current_url;
        &&& launched is Err ==> retired_after == retired
        &&& launched is Ok ==> {
            &&& retired_after.len() == retired.len() + 1
            &&& retired_after.drop_last() == retired
            &&& r is Ok ==> retired_after.last().model() == released(active.model())
            &&& r is Err ==> {
                &&& !retired_after.last().model().has_page
                &&& retired_after.last().model().kind == launched->Ok_0.model().kind
                &&& retired_after.last().model().served.len() > 0
                &&& retired_after.last().model().served.last() == (Served {
                    op: EngineOpView::Close,
                    ended: Ok(()),
                })
            }
            &&& r is Err && (!engine_type.implemented() || launched->Ok_0.model().kind
                != engine_type) ==> retired_after.last().model() == released(
                launched->Ok_0.model(),
            )
        }
        &&& !engine_type.implemented() ==> fails_with(
            r,
            ErrorKind::NotImplemented,
            not_implemented_text(engine_type),
        )
        &&& engine_type.implemented() && launched is Err ==> r is Err && r->Err_0
            == launched->Err_0
        &&& engine_type.implemented() && launched is Ok && launched->Ok_0.model().kind
            != engine_type ==> fails_with(r, ErrorKind::Configuration, mismatch_text())
        &&& engine_type.implemented() && launched is Ok && launched->Ok_0.model().kind
            == engine_type ==> {
            &&& prior.len() == 0 ==> r is Ok
            &&& r matches Err(e) ==> e.kind == ErrorKind::Provider
            &&& r is Err ==> exists|tried: EngineModel|
                {
                    &&& #[trigger] navigation_step(launched->Ok_0.model(), prior, false, tried)
                    &&& tried.served == served_then(
                        launched->Ok_0.model(),
                        EngineOpView::Navigate { url: prior },
                        Err(r->Err_0@),
                    )
                    &&& retired_after.last().model() == released(tried)
                }
        }
        &&& r is Err ==> {
            &&& active_after == active
            &&& shared_after@ == shared@
            &&& shared_after.offered() == shared.offered()
            &&& shared_after.delivered() == shared.delivered()
        }
        &&& shared_after.delivered_since(&shared)
        &&& r is Ok ==> {
            &&& engine_type.implemented()
            &&& launched is Ok
            &&& active_after.model().kind == engine_type
            &&& prior.len() == 0 ==> active_after == launched->Ok_0
            &&& prior.len() > 0 ==> {
                &&& active_after.model().current_url == prior
                &&& navigation_step(launched->Ok_0.model(), prior, true, active_after.model())
                &&& active_after.model().served == served_then(
                    launched->Ok_0.model(),
                    EngineOpView::Navigate { url: prior },
                    Ok(()),
                )
            }
            &&& shared_after@ == apply_spec(shared@, StateChangeView::Engine(engine_type))
            &&& shared_after.offered() == shared.offered().push(
                IPCEventView::StateUpdate(shared_after@),
            )
        }
    }

    /// Puts the adapter that was launched for `engine_type` in use, as
    /// `adopted` says.
    pub fn adopt(
        &mut self,
        engine_type: BrowserEngine,
        launched: Result<E, BrowserError>,
        shared: &mut SharedState,
    ) -> (r: Result<(), BrowserError>)
        ensures
            Self::adopted(
                old(self).active(),
                old(self).retired(),
                *old(shared),
                engine_type,
                launched,
                r,
                final(self).active(),
                final(self).retired(),
                *final(shared),
            ),
            final(self).launching() == old(self).launching(),
            final(self).launches() == old(self).launches(),
    {
        match Self::check_switch(engine_type) {
            Err(e) => {
                match launched {
                    Ok(engine) => self.retire(engine),
                    Err(_) => {},
                }
                return Err(e);
            },
            Ok(_) => {},
        }
        let mut fresh = match launched {
            Ok(engine) => engine,
            Err(e) => {
                return Err(e);
            },
        };
        if fresh.engine_type() != engine_type {
            self.retire(fresh);
            return Err(
                BrowserError::new(
                    ErrorKind::Configuration,
                    "The adapter is not of the requested engine",
                ),
            );
        }
        let prior = self.current_engine.current_url();
        let continuity = if prior.as_str().is_empty() {
            Ok(())
        } else {
            fresh.navigate(prior)
        };
        self.finish_switch(engine_type, fresh, continuity, shared)
    }

    /// Switches to another engine: launches its adapter and puts it in use
    /// as `adopted` says.
    ///
    /// A reserved engine is refused and nothing is launched. For any other,
    /// the launcher is asked for an adapter, once, and what it returns is
    /// adopted. Whenever the switch fails, the engine in use and the
    /// shared state are untouched, and the engine in use answers the next
    /// command as before.
    pub fn switch_engine(
        &mut self,
        engine_type: BrowserEngine,
        shared: &mut SharedState,
    ) -> (r: Result<(), BrowserError>)
        ensures
            final(self).launching() == old(self).launching(),
            final(self).launches() == if engine_type.implemented() {
                old(self).launches().push(engine_type)
            } else {
                old(self).launches()
            },
            !engine_type.implemented() ==> fails_with(
                r,
                ErrorKind::NotImplemented,
                not_implemented_text(engine_type),
            ),
            !engine_type.implemented() ==> final(self).retired() == old(self).retired(),
            engine_type.implemented() ==> exists|launched: Result<E, BrowserError>|
                #[trigger] call_ensures(old(self).launching(), (engine_type,), launched)
                    && Self::adopted(
                    old(self).active(),
                    old(self).retired(),
                    *old(shared),
                    engine_type,
                    launched,
                    r,
                    final(self).active(),
                    final(self).retired(),
                    *final(shared),
                ),
            r is Err ==> {
                &&& final(self).active() == old(self).active()
                &&& final(shared)@ == old(shared)@
                &&& final(shared).offered() == old(shared).offered()
                &&& final(shared).delivered() == old(shared).delivered()
            },
            final(shared).delivered_since(old(shared)),
            r is Ok ==> {
                &&& engine_type.implemented()
                &&& final(self).active().model().kind == engine_type
                &&& old(self).active().model().current_url.len() > 0
                    ==> final(self).active().model().current_url
                    == old(self).active().model().current_url
                &&& final(shared)@ == apply_spec(old(shared)@, StateChangeView::Engine(engine_type))
                &&& final(shared).offered() == old(shared).offered().push(
                    IPCEventView::StateUpdate(final(shared)@),
                )
            },
    {
        match Self::check_switch(engine_type) {
            Err(e) => Err(e),
            Ok(_) => {
                let launched = self.launcher.call(engine_type);
                let ghost made = launched;
                let r = self.adopt(engine_type, launched, shared);
                proof {
                    assert(call_ensures(old(self).launching(), (engine_type,), made));
                }
                r
            },
        }
    }
}

} // verus!
