//! The adapter for the Blink engine: how it folds the browser's
//! notifications into the browser state, and how it carries out the
//! operations of the engine contract, one request to the browser at a time.

use crate::engine::{
    Engine, EngineModel, Served, navigation_step, page_operation, released, served_then,
};
use crate::error::{BrowserError, BrowserErrorView, ErrorKind, outcome_of};
use crate::ipc::{
    BrowserEngine, BrowserState, BrowserStateView, CertificateInfo, CertificateInfoView,
    certificate_of, text_of,
};
use vstd::prelude::*;
use vstd::string::StringExecFns;

verus! {

/// A notification of the browser about the life of a page.
#[derive(Debug, PartialEq, Eq)]
pub enum LifecycleEvent {
    NavigationStarted { url: String },
    NavigationCompleted { url: String },
    TitleChanged { title: String },
    SecurityStateChanged { secure: bool, certificate: Option<CertificateInfo> },
    /// Any notification that the adapter does not know.
    Other,
}

pub enum LifecycleEventView {
    NavigationStarted { url: Seq<char> },
    NavigationCompleted { url: Seq<char> },
    TitleChanged { title: Seq<char> },
    SecurityStateChanged { secure: bool, certificate: Option<CertificateInfoView> },
    Other,
}

impl View for LifecycleEvent {
    type V = LifecycleEventView;

    open spec fn view(&self) -> LifecycleEventView {
        match *self {
            LifecycleEvent::NavigationStarted { url } => LifecycleEventView::NavigationStarted {
                url: url@,
            },
            LifecycleEvent::NavigationCompleted { url } => LifecycleEventView::NavigationCompleted {
                url: url@,
            },
            LifecycleEvent::TitleChanged { title } => LifecycleEventView::TitleChanged {
                title: title@,
            },
            LifecycleEvent::SecurityStateChanged {
                secure,
                certificate,
            } => LifecycleEventView::SecurityStateChanged {
                secure,
                certificate: certificate_of(certificate),
            },
            LifecycleEvent::Other => LifecycleEventView::Other,
        }
    }
}

impl Clone for LifecycleEvent {
    fn clone(&self) -> (e: Self)
        ensures
            e == *self,
    {
        match self {
            LifecycleEvent::NavigationStarted { url } => LifecycleEvent::NavigationStarted {
                url: url.clone(),
            },
            LifecycleEvent::NavigationCompleted { url } => LifecycleEvent::NavigationCompleted {
                url: url.clone(),
            },
            LifecycleEvent::TitleChanged { title } => LifecycleEvent::TitleChanged {
                title: title.clone(),
            },
            LifecycleEvent::SecurityStateChanged {
                secure,
                certificate,
            } => LifecycleEvent::SecurityStateChanged {
                secure: *secure,
                certificate: certificate.clone(),
            },
            LifecycleEvent::Other => LifecycleEvent::Other,
        }
    }
}

/// The browser state after a notification.
///
/// A change of the security state sets whether the connection is secure, and
/// the certificate where it carries one. Where it carries none, the
/// certificate that was shown is kept, also where the connection is no longer
/// secure: a notification without a certificate says nothing of the one that
/// the page presented, and the state never drops what the browser has not
/// withdrawn. A state is therefore not bound to be
/// `certificate_consistent`; `lemma_stale_certificate_only_by_insecure_transition`
/// says exactly when it ceases to be.
pub open spec fn reduce_spec(state: BrowserStateView, event: LifecycleEventView) -> BrowserStateView {
    match event {
        LifecycleEventView::NavigationStarted { url } => BrowserStateView {
            current_url: url,
            is_loading: true,
            ..state
        },
        LifecycleEventView::NavigationCompleted { url } => BrowserStateView {
            current_url: url,
            is_loading: false,
            ..state
        },
        LifecycleEventView::TitleChanged { title } => BrowserStateView {
            title: Some(title),
            ..state
        },
        LifecycleEventView::SecurityStateChanged { secure, certificate } => BrowserStateView {
            is_secure: secure,
            certificate_info: if certificate is Some {
                certificate
            } else {
                state.certificate_info
            },
            ..state
        },
        LifecycleEventView::Other => state,
    }
}

/// Folds a notification of the browser into the browser state.
pub fn reduce(state: &mut BrowserState, event: LifecycleEvent)
    ensures
        final(state)@ == reduce_spec(old(state)@, event@),
{
    match event {
        LifecycleEvent::NavigationStarted { url } => {
            state.current_url = url;
            state.is_loading = true;
        },
        LifecycleEvent::NavigationCompleted { url } => {
            state.current_url = url;
            state.is_loading = false;
        },
        LifecycleEvent::TitleChanged { title } => {
            state.title = Some(title);
        },
        LifecycleEvent::SecurityStateChanged { secure, certificate } => {
            state.is_secure = secure;
            if let Some(cert) = certificate {
                state.certificate_info = Some(cert);
            }
        },
        LifecycleEvent::Other => {},
    }
}

/// How secure the browser holds a page to be.
#[derive(Clone, Copy, Debug, PartialEq, Eq, Structural)]
pub enum SecurityLevel {
    Unknown,
    Neutral,
    Insecure,
    Secure,
    Info,
    InsecureBroken,
}

impl SecurityLevel {
    /// A connection counts as secure where the browser says so outright,
    /// and at no other level.
    pub open spec fn secure(self) -> bool {
        self == SecurityLevel::Secure
    }

    pub fn is_secure(&self) -> (b: bool)
        ensures
            b == self.secure(),
    {
        match self {
            SecurityLevel::Secure => true,
            _ => false,
        }
    }
}

/// The notification for a frame that has arrived at an address. Only the
/// page's own frame moves the page; a frame inside it is of no interest.
pub fn navigation_completed(url: String, in_subframe: bool) -> (event: LifecycleEvent)
    ensures
        event@ == if in_subframe {
            LifecycleEventView::Other
        } else {
            LifecycleEventView::NavigationCompleted { url: url@ }
        },
{
    if in_subframe {
        LifecycleEvent::Other
    } else {
        LifecycleEvent::NavigationCompleted { url }
    }
}

/// The notification for a change of the page's security level, with the
/// certificate if the browser told it.
pub fn security_state_changed(
    level: SecurityLevel,
    certificate: Option<CertificateInfo>,
) -> (event: LifecycleEvent)
    ensures
        event@ == (LifecycleEventView::SecurityStateChanged {
            secure: level.secure(),
            certificate: certificate_of(certificate),
        }),
{
    LifecycleEvent::SecurityStateChanged { secure: level.is_secure(), certificate }
}

/// No notification touches the engine, the privacy mode, the network route
/// or the icon of the page.
pub proof fn lemma_reduce_keeps_policy_fields(state: BrowserStateView, event: LifecycleEventView)
    ensures
        reduce_spec(state, event).current_engine == state.current_engine,
        reduce_spec(state, event).privacy_mode == state.privacy_mode,
        reduce_spec(state, event).network_route == state.network_route,
        reduce_spec(state, event).favicon == state.favicon,
{
}

/// A certificate beside a connection that is not secure comes about in one
/// way only: by a change of the security state that reports the connection
/// as not secure while it carries a certificate or one is still shown.
pub proof fn lemma_stale_certificate_only_by_insecure_transition(
    state: BrowserStateView,
    event: LifecycleEventView,
)
    requires
        state.certificate_consistent(),
    ensures
        !reduce_spec(state, event).certificate_consistent() <==> (event matches LifecycleEventView::SecurityStateChanged {
            secure,
            certificate,
        } && !secure && (certificate is Some || state.certificate_info is Some)),
{
}

/// What the adapter asks of the browser.
#[derive(Debug, PartialEq, Eq)]
pub enum ProviderRequest {
    /// Open a page at the address.
    NewPage { url: String },
    /// Load the address in the open page.
    Goto { url: String },
    /// Reload the open page.
    Reload,
    /// Run the script in the open page.
    Evaluate { script: String },
}

pub enum ProviderRequestView {
    NewPage { url: Seq<char> },
    Goto { url: Seq<char> },
    Reload,
    Evaluate { script: Seq<char> },
}

impl View for ProviderRequest {
    type V = ProviderRequestView;

    open spec fn view(&self) -> ProviderRequestView {
        match *self {
            ProviderRequest::NewPage { url } => ProviderRequestView::NewPage { url: url@ },
            ProviderRequest::Goto { url } => ProviderRequestView::Goto { url: url@ },
            ProviderRequest::Reload => ProviderRequestView::Reload,
            ProviderRequest::Evaluate { script } => ProviderRequestView::Evaluate {
                script: script@,
            },
        }
    }
}

/// An operation on the adapter.
#[derive(Debug, PartialEq, Eq)]
pub enum EngineOp {
    Navigate { url: String },
    Reload,
    Stop,
    GoBack,
    GoForward,
    /// Release the page; the last operation on an adapter.
    Close,
}

pub enum EngineOpView {
    Navigate { url: Seq<char> },
    Reload,
    Stop,
    GoBack,
    GoForward,
    Close,
}

impl View for EngineOp {
    type V = EngineOpView;

    open spec fn view(&self) -> EngineOpView {
        match *self {
            EngineOp::Navigate { url } => EngineOpView::Navigate { url: url@ },
            EngineOp::Reload => EngineOpView::Reload,
            EngineOp::Stop => EngineOpView::Stop,
            EngineOp::GoBack => EngineOpView::GoBack,
            EngineOp::GoForward => EngineOpView::GoForward,
            EngineOp::Close => EngineOpView::Close,
        }
    }
}

/// What is to happen next in an operation: a request to the browser, whose
/// outcome is handed to the next step, or the end of the operation.
#[derive(Debug, PartialEq, Eq)]
pub enum Step {
    Call(ProviderRequest),
    Done(Result<(), BrowserError>),
}

pub enum StepView {
    Call(ProviderRequestView),
    Done(Result<(), BrowserErrorView>),
}

impl View for Step {
    type V = StepView;

    open spec fn view(&self) -> StepView {
        match *self {
            Step::Call(request) => StepView::Call(request@),
            Step::Done(Ok(_)) => StepView::Done(Ok(())),
            Step::Done(Err(e)) => StepView::Done(Err(e@)),
        }
    }
}

/// The outcome of a request as the browser reported it: nothing yet, success,
/// or the reason of a failure.
pub open spec fn reply_of(reply: Option<Result<(), String>>) -> Option<Result<(), Seq<char>>> {
    match reply {
        None => None,
        Some(Ok(_)) => Some(Ok(())),
        Some(Err(reason)) => Some(Err(reason@)),
    }
}

/// The request by which an operation on an open page is carried out.
pub open spec fn page_request(op: EngineOpView) -> ProviderRequestView {
    match op {
        EngineOpView::Navigate { url } => ProviderRequestView::Goto { url },
        EngineOpView::Reload => ProviderRequestView::Reload,
        EngineOpView::Stop => ProviderRequestView::Evaluate { script: "window.stop()"@ },
        EngineOpView::GoBack => ProviderRequestView::Evaluate { script: "window.history.back()"@ },
        EngineOpView::GoForward => ProviderRequestView::Evaluate {
            script: "window.history.forward()"@,
        },
        EngineOpView::Close => ProviderRequestView::Evaluate { script: "window.close()"@ },
    }
}

/// The words that stand before the browser's reason when an operation on an
/// open page fails.
pub open spec fn failure_lead(op: EngineOpView) -> Seq<char> {
    match op {
        EngineOpView::Navigate { url } => "Failed to navigate to "@ + url + ": "@,
        EngineOpView::Reload => "Failed to reload page: "@,
        EngineOpView::Stop => "Failed to stop page: "@,
        EngineOpView::GoBack => "Failed to go back: "@,
        EngineOpView::GoForward => "Failed to go forward: "@,
        EngineOpView::Close => "Failed to close page: "@,
    }
}

pub open spec fn provider_failure(message: Seq<char>) -> BrowserErrorView {
    BrowserErrorView { kind: ErrorKind::Provider, message }
}

/// One step of an operation: the adapter and what is to happen next, given
/// what the adapter remembers and the browser's reply to the request of the
/// step before (none at the first step). The step that ends the operation
/// records it with its outcome.
pub open spec fn step_spec(
    engine: EngineModel,
    op: EngineOpView,
    reply: Option<Result<(), Seq<char>>>,
) -> (EngineModel, StepView) {
    let (after, next) = decided(engine, op, reply);
    match next {
        StepView::Done(ended) => (
            EngineModel { served: served_then(after, op, ended), ..after },
            next,
        ),
        StepView::Call(_) => (after, next),
    }
}

/// What a step decides: what the adapter remembers of its page afterwards,
/// and what is to happen next.
///
/// A navigation opens a page first where none is open, at the address it is
/// to load, and then loads the address in it; the address is remembered when
/// that second request has succeeded. The other operations end at once
/// without a page. Releasing the page ends well whatever the browser replies.
pub open spec fn decided(
    engine: EngineModel,
    op: EngineOpView,
    reply: Option<Result<(), Seq<char>>>,
) -> (EngineModel, StepView) {
    match reply {
        None => if engine.has_page {
            (engine, StepView::Call(page_request(op)))
        } else {
            match op {
                EngineOpView::Navigate { url } => (
                    engine,
                    StepView::Call(ProviderRequestView::NewPage { url }),
                ),
                _ => (engine, StepView::Done(Ok(()))),
            }
        },
        Some(outcome) => match op {
            EngineOpView::Close => (
                EngineModel { has_page: false, ..engine },
                StepView::Done(Ok(())),
            ),
            EngineOpView::Navigate { url } => match outcome {
                Ok(_) => if engine.has_page {
                    (EngineModel { current_url: url, ..engine }, StepView::Done(Ok(())))
                } else {
                    (
                        EngineModel { has_page: true, ..engine },
                        StepView::Call(ProviderRequestView::Goto { url }),
                    )
                },
                Err(reason) => if engine.has_page {
                    (engine, StepView::Done(Err(provider_failure(failure_lead(op) + reason))))
                } else {
                    (
                        engine,
                        StepView::Done(
                            Err(provider_failure("Failed to create new page: "@ + reason)),
                        ),
                    )
                },
            },
            _ => match outcome {
                Ok(_) => (engine, StepView::Done(Ok(()))),
                Err(reason) => (
                    engine,
                    StepView::Done(Err(provider_failure(failure_lead(op) + reason))),
                ),
            },
        },
    }
}

/// What the Blink adapter remembers between the requests it makes, and the
/// decisions it takes on that.
pub struct BlinkCore {
    has_page: bool,
    current_url: String,
    title: Option<String>,
    favicon: Option<String>,
    certificate_info: Option<CertificateInfo>,
    is_secure: bool,
    served: Ghost<Seq<Served>>,
}

impl View for BlinkCore {
    type V = EngineModel;

    closed spec fn view(&self) -> EngineModel {
        EngineModel {
            served: self.served@,
            kind: BrowserEngine::Blink,
            has_page: self.has_page,
            current_url: self.current_url@,
            title: text_of(self.title),
            favicon: text_of(self.favicon),
            certificate_info: certificate_of(self.certificate_info),
            is_secure: self.is_secure,
        }
    }
}

impl BlinkCore {
    /// An adapter that has opened no page yet.
    pub open spec fn fresh() -> EngineModel {
        EngineModel {
            served: Seq::empty(),
            kind: BrowserEngine::Blink,
            has_page: false,
            current_url: "about:blank"@,
            title: None,
            favicon: None,
            certificate_info: None,
            is_secure: false,
        }
    }

    pub fn new() -> (core: Self)
        ensures
            core@ == Self::fresh(),
    {
        BlinkCore {
            has_page: false,
            current_url: String::from_str("about:blank"),
            title: None,
            favicon: None,
            certificate_info: None,
            is_secure: false,
            served: Ghost(Seq::empty()),
        }
    }

    pub fn engine_type(&self) -> (kind: BrowserEngine)
        ensures
            kind == self@.kind,
            kind == BrowserEngine::Blink,
    {
        BrowserEngine::Blink
    }

    pub fn has_page(&self) -> (b: bool)
        ensures
            b == self@.has_page,
    {
        self.has_page
    }

    pub fn current_url(&self) -> (url: String)
        ensures
            url@ == self@.current_url,
    {
        self.current_url.clone()
    }

    pub fn title(&self) -> (title: Option<String>)
        ensures
            text_of(title) == self@.title,
    {
        self.title.clone()
    }

    pub fn favicon(&self) -> (favicon: Option<String>)
        ensures
            text_of(favicon) == self@.favicon,
    {
        self.favicon.clone()
    }

    pub fn certificate_info(&self) -> (info: Option<CertificateInfo>)
        ensures
            certificate_of(info) == self@.certificate_info,
    {
        self.certificate_info.clone()
    }

    pub fn is_secure(&self) -> (secure: bool)
        ensures
            secure == self@.is_secure,
    {
        self.is_secure
    }

    /// The request by which `op` is carried out on the open page.
    fn request_for(op: &EngineOp) -> (request: ProviderRequest)
        ensures
            request@ == page_request(op@),
    {
        match op {
            EngineOp::Navigate { url } => ProviderRequest::Goto { url: url.clone() },
            EngineOp::Reload => ProviderRequest::Reload,
            EngineOp::Stop => ProviderRequest::Evaluate {
                script: String::from_str("window.stop()"),
            },
            EngineOp::GoBack => ProviderRequest::Evaluate {
                script: String::from_str("window.history.back()"),
            },
            EngineOp::GoForward => ProviderRequest::Evaluate {
                script: String::from_str("window.history.forward()"),
            },
            EngineOp::Close => ProviderRequest::Evaluate {
                script: String::from_str("window.close()"),
            },
        }
    }

    /// The failure of `op` on the open page, for the reason the browser gave.
    fn failure_for(op: &EngineOp, reason: &str) -> (e: BrowserError)
        ensures
            e@ == provider_failure(failure_lead(op@) + reason@),
    {
        let lead = match op {
            EngineOp::Navigate { url } => String::from_str("Failed to navigate to ").concat(
                url.as_str(),
            ).concat(": "),
            EngineOp::Reload => String::from_str("Failed to reload page: "),
            EngineOp::Stop => String::from_str("Failed to stop page: "),
            EngineOp::GoBack => String::from_str("Failed to go back: "),
            EngineOp::GoForward => String::from_str("Failed to go forward: "),
            EngineOp::Close => String::from_str("Failed to close page: "),
        };
        BrowserError::with_reason(ErrorKind::Provider, lead.as_str(), reason)
    }

    /// Takes an operation one step further.
    ///
    /// The first step of an operation is made with no reply. While the result
    /// is a request, the caller puts it to the browser and makes the next
    /// step with the outcome; the operation is over when the result says so.
    pub fn step(&mut self, op: &EngineOp, reply: Option<Result<(), String>>) -> (next: Step)
        ensures
            (final(self)@, next@) == step_spec(old(self)@, op@, reply_of(reply)),
    {
        let next = self.decide(op, reply);
        if let Step::Done(_) = &next {
            self.served = Ghost(served_then(self@, op@, next@->Done_0));
        }
        next
    }

    fn decide(&mut self, op: &EngineOp, reply: Option<Result<(), String>>) -> (next: Step)
        ensures
            (final(self)@, next@) == decided(old(self)@, op@, reply_of(reply)),
    {
        match reply {
            None => {
                if self.has_page {
                    Step::Call(Self::request_for(op))
                } else {
                    match op {
                        EngineOp::Navigate { url } => Step::Call(
                            ProviderRequest::NewPage { url: url.clone() },
                        ),
                        _ => Step::Done(Ok(())),
                    }
                }
            },
            Some(outcome) => {
                match op {
                    EngineOp::Close => {
                        self.has_page = false;
                        Step::Done(Ok(()))
                    },
                    EngineOp::Navigate { url } => {
                        match outcome {
                            Ok(_) => {
                                if self.has_page {
                                    self.current_url = url.clone();
                                    Step::Done(Ok(()))
                                } else {
                                    self.has_page = true;
                                    Step::Call(ProviderRequest::Goto { url: url.clone() })
                                }
                            },
                            Err(reason) => {
                                if self.has_page {
                                    Step::Done(Err(Self::failure_for(op, reason.as_str())))
                                } else {
                                    Step::Done(
                                        Err(
                                            BrowserError::with_reason(
                                                ErrorKind::Provider,
                                                "Failed to create new page: ",
                                                reason.as_str(),
                                            ),
                                        ),
                                    )
                                }
                            },
                        }
                    },
                    _ => {
                        match outcome {
                            Ok(_) => Step::Done(Ok(())),
                            Err(reason) => Step::Done(
                                Err(Self::failure_for(op, reason.as_str())),
                            ),
                        }
                    },
                }
            },
        }
    }
}

/// The outcome of a request as the browser reported it: success, or the
/// reason of a failure.
pub open spec fn answer_of(outcome: Result<(), String>) -> Result<(), Seq<char>> {
    match outcome {
        Ok(_) => Ok(()),
        Err(reason) => Err(reason@),
    }
}

/// A request that was put to the browser, and its outcome.
pub struct Put {
    pub request: ProviderRequestView,
    pub outcome: Result<(), Seq<char>>,
}

/// The way to the browser: a function that puts a request to it, waits for
/// the answer and returns the outcome, with the reason where the browser
/// failed or did not answer in time.
pub struct Provider<F: Fn(ProviderRequest) -> Result<(), String>> {
    ask: F,
    put: Ghost<Seq<Put>>,
}

impl<F: Fn(ProviderRequest) -> Result<(), String>> Provider<F> {
    #[verifier::type_invariant]
    spec fn takes_every_request(self) -> bool {
        forall|request: ProviderRequest| call_requires(self.ask, (request,))
    }

    /// The function that puts the requests to the browser.
    pub closed spec fn function(&self) -> F {
        self.ask
    }

    /// The requests that were put to the browser through this provider, each
    /// with its outcome, oldest first.
    pub closed spec fn put(&self) -> Seq<Put> {
        self.put@
    }

    /// A provider around a function that takes every request, as every
    /// function does that states no precondition of its own. Nothing was put
    /// to the browser through it yet.
    pub fn new(ask: F) -> (provider: Self)
        requires
            forall|request: ProviderRequest| call_requires(ask, (request,)),
        ensures
            provider.function() == ask,
            provider.put() == Seq::<Put>::empty(),
    {
        Provider { ask, put: Ghost(Seq::empty()) }
    }

    /// Puts a request to the browser, once: the outcome is what the function
    /// returns for it, and the request is recorded with it.
    pub fn call(&mut self, request: ProviderRequest) -> (outcome: Result<(), String>)
        ensures
            call_ensures(old(self).function(), (request,), outcome),
            final(self).function() == old(self).function(),
            final(self).put() == old(self).put().push(
                Put { request: request@, outcome: answer_of(outcome) },
            ),
    {
        proof {
            use_type_invariant(&*self);
        }
        let ghost asked = request@;
        let outcome = (self.ask)(request);
        self.put = Ghost(self.put@.push(Put { request: asked, outcome: answer_of(outcome) }));
        outcome
    }
}

/// Whether the function may answer the request so.
pub open spec fn answers<F: Fn(ProviderRequest) -> Result<(), String>>(
    ask: F,
    request: ProviderRequestView,
    outcome: Result<(), Seq<char>>,
) -> bool {
    exists|asked: ProviderRequest, answer: Result<(), String>|
        #[trigger] call_ensures(ask, (asked,), answer) && asked@ == request && answer_of(answer)
            == outcome
}

/// How an operation ends that is carried out by putting exactly the
/// requests `put` to the browser, in their order, from the step that gets
/// `reply`: each request is the one that the step calls for, its outcome
/// goes into the next step, and the step that calls for no request ends the
/// operation when no request is left. The result is the adapter afterwards
/// and how the operation ended; there is none where `put` is not what the
/// steps call for.
pub open spec fn carried_out(
    engine: EngineModel,
    op: EngineOpView,
    reply: Option<Result<(), Seq<char>>>,
    put: Seq<Put>,
) -> Option<(EngineModel, Result<(), BrowserErrorView>)>
    decreases put.len(),
{
    let (after, next) = step_spec(engine, op, reply);
    match next {
        StepView::Done(ended) => if put.len() == 0 {
            Some((after, ended))
        } else {
            None
        },
        StepView::Call(request) => if put.len() > 0 && put.first().request == request {
            carried_out(after, op, Some(put.first().outcome), put.drop_first())
        } else {
            None
        },
    }
}

/// Whether an adapter has carried out one operation by asking `ask`: the
/// requests put to the browser since `put_before` are exactly those that the
/// steps of the operation call for, each was answered by `ask`, and the
/// operation changed the adapter from `before` to `after` and ended as
/// `ended`.
pub open spec fn ran<F: Fn(ProviderRequest) -> Result<(), String>>(
    ask: F,
    before: EngineModel,
    put_before: Seq<Put>,
    op: EngineOpView,
    ended: Result<(), BrowserErrorView>,
    after: EngineModel,
    put_after: Seq<Put>,
) -> bool {
    &&& put_before.len() <= put_after.len()
    &&& put_after.take(put_before.len() as int) == put_before
    &&& carried_out(before, op, None, put_after.skip(put_before.len() as int)) == Some(
        (after, ended),
    )
    &&& forall|i: int|
        put_before.len() <= i < put_after.len() ==> answers(
            ask,
            (#[trigger] put_after[i]).request,
            put_after[i].outcome,
        )
}

/// The words with which the failure of an operation may begin: those for the
/// operation itself and, for a navigation that found no page open, those for
/// the page that could not be opened.
pub open spec fn begins_as_failure_of(message: Seq<char>, op: EngineOpView, had_page: bool) -> bool {
    ||| failure_lead(op).is_prefix_of(message)
    ||| op is Navigate && !had_page && "Failed to create new page: "@.is_prefix_of(message)
}

/// How an operation changes an adapter, and how it may end: it is recorded
/// with its outcome; a navigation changes what is remembered of the page as
/// the engine contract says; releasing the page ends well and leaves no page
/// open; any other operation changes nothing else and ends well where no
/// page is open. A failure is the browser's, and its message names the
/// operation before the browser's reason.
pub open spec fn operation_step(
    before: EngineModel,
    op: EngineOpView,
    ended: Result<(), BrowserError>,
    after: EngineModel,
) -> bool {
    &&& ended matches Err(e) ==> e.kind == ErrorKind::Provider && begins_as_failure_of(
        e.message@,
        op,
        before.has_page,
    )
    &&& after.served == served_then(before, op, outcome_of(ended))
    &&& match op {
        EngineOpView::Navigate { url } => navigation_step(before, url, ended is Ok, after),
        EngineOpView::Close => ended is Ok && after == EngineModel {
            served: after.served,
            has_page: false,
            ..before
        },
        _ => page_operation(before, op, outcome_of(ended), after) && (!before.has_page
            ==> ended is Ok),
    }
}

/// The adapter for the Blink engine: what it remembers, and the way to the
/// browser that it drives.
pub struct BlinkEngine<F: Fn(ProviderRequest) -> Result<(), String>> {
    core: BlinkCore,
    browser: Provider<F>,
}

impl<F: Fn(ProviderRequest) -> Result<(), String> + Send + Sync> BlinkEngine<F> {
    /// The function by which the adapter reaches the browser.
    pub closed spec fn asks(&self) -> F {
        self.browser.function()
    }

    /// The requests that the adapter has put to the browser, each with its
    /// outcome, oldest first.
    pub closed spec fn put(&self) -> Seq<Put> {
        self.browser.put()
    }

    /// An adapter for a browser that was launched and is reached by `ask`,
    /// a function that takes every request. It has opened no page yet.
    pub fn new(ask: F) -> (engine: Self)
        requires
            forall|request: ProviderRequest| call_requires(ask, (request,)),
        ensures
            engine.model() == BlinkCore::fresh(),
            engine.asks() == ask,
            engine.put() == Seq::<Put>::empty(),
    {
        BlinkEngine { core: BlinkCore::new(), browser: Provider::new(ask) }
    }

    /// Whether a page was opened in the browser.
    pub fn has_page(&self) -> (b: bool)
        ensures
            b == self.model().has_page,
    {
        self.core.has_page()
    }

    /// Carries an operation out: puts each request that the next step asks
    /// for to the browser and hands the outcome to the step after it, until
    /// the operation is over. No operation takes more than two requests, and
    /// no request is put that a step has not asked for.
    pub fn run(&mut self, op: &EngineOp) -> (ended: Result<(), BrowserError>)
        ensures
            operation_step(old(self).model(), op@, ended, final(self).model()),
            ran(
                old(self).asks(),
                old(self).model(),
                old(self).put(),
                op@,
                outcome_of(ended),
                final(self).model(),
                final(self).put(),
            ),
            final(self).asks() == old(self).asks(),
    {
        let ghost ask = self.asks();
        let ghost start = self.core@;
        let ghost before = self.put();
        proof {
            reveal_with_fuel(carried_out, 3);
        }
        let first = self.core.step(op, None);
        let request = match first {
            Step::Done(ended) => {
                proof {
                    assert(self.put().skip(before.len() as int) =~= Seq::<Put>::empty());
                    assert(self.put().take(before.len() as int) =~= before);
                }
                return ended;
            },
            Step::Call(request) => request,
        };
        let ghost opened = self.core@;
        let ghost asked_first = request@;
        let outcome = self.browser.call(request);
        let ghost one = Put { request: asked_first, outcome: answer_of(outcome) };
        proof {
            lemma_step_failure_names_the_operation(self.core@, op@, reply_of(Some(outcome)));
            assert(answers(ask, one.request, one.outcome));
            assert(reply_of(Some(outcome)) == Some(one.outcome));
        }
        let second = self.core.step(op, Some(outcome));
        let request = match second {
            Step::Done(ended) => {
                proof {
                    let new = self.put().skip(before.len() as int);
                    assert(new =~= seq![one]);
                    assert(new.drop_first() =~= Seq::<Put>::empty());
                    assert(self.put().take(before.len() as int) =~= before);
                }
                return ended;
            },
            Step::Call(request) => request,
        };
        let ghost loaded = self.core@;
        let ghost asked_second = request@;
        let outcome = self.browser.call(request);
        let ghost two = Put { request: asked_second, outcome: answer_of(outcome) };
        proof {
            lemma_step_failure_names_the_operation(self.core@, op@, reply_of(Some(outcome)));
            assert(answers(ask, two.request, two.outcome));
            assert(reply_of(Some(outcome)) == Some(two.outcome));
        }
        match self.core.step(op, Some(outcome)) {
            Step::Done(ended) => {
                proof {
                    let new = self.put().skip(before.len() as int);
                    assert(new =~= seq![one, two]);
                    assert(new.drop_first() =~= seq![two]);
                    assert(new.drop_first().drop_first() =~= Seq::<Put>::empty());
                    assert(self.put().take(before.len() as int) =~= before);
                }
                ended
            },
            Step::Call(_) => {
                proof {
                    assert(false);
                }
                Ok(())
            },
        }
    }
}

impl<F: Fn(ProviderRequest) -> Result<(), String> + Send + Sync> Engine for BlinkEngine<F> {
    closed spec fn model(&self) -> EngineModel {
        self.core@
    }

    fn engine_type(&self) -> (kind: BrowserEngine)
        ensures
            kind == BrowserEngine::Blink,
    {
        self.core.engine_type()
    }

    fn navigate(&mut self, url: String) -> (r: Result<(), BrowserError>)
        ensures
            ran(
                old(self).asks(),
                old(self).model(),
                old(self).put(),
                EngineOpView::Navigate { url: url@ },
                outcome_of(r),
                final(self).model(),
                final(self).put(),
            ),
            final(self).asks() == old(self).asks(),
    {
        self.run(&EngineOp::Navigate { url })
    }

    fn stop(&mut self) -> (r: Result<(), BrowserError>)
        ensures
            ran(
                old(self).asks(),
                old(self).model(),
                old(self).put(),
                EngineOpView::Stop,
                outcome_of(r),
                final(self).model(),
                final(self).put(),
            ),
            final(self).asks() == old(self).asks(),
    {
        self.run(&EngineOp::Stop)
    }

    fn reload(&mut self) -> (r: Result<(), BrowserError>)
        ensures
            ran(
                old(self).asks(),
                old(self).model(),
                old(self).put(),
                EngineOpView::Reload,
                outcome_of(r),
                final(self).model(),
                final(self).put(),
            ),
            final(self).asks() == old(self).asks(),
    {
        self.run(&EngineOp::Reload)
    }

    fn go_back(&mut self) -> (r: Result<(), BrowserError>)
        ensures
            ran(
                old(self).asks(),
                old(self).model(),
                old(self).put(),
                EngineOpView::GoBack,
                outcome_of(r),
                final(self).model(),
                final(self).put(),
            ),
            final(self).asks() == old(self).asks(),
    {
        self.run(&EngineOp::GoBack)
    }

    fn go_forward(&mut self) -> (r: Result<(), BrowserError>)
        ensures
            ran(
                old(self).asks(),
                old(self).model(),
                old(self).put(),
                EngineOpView::GoForward,
                outcome_of(r),
                final(self).model(),
                final(self).put(),
            ),
            final(self).asks() == old(self).asks(),
    {
        self.run(&EngineOp::GoForward)
    }

    /// Releases the page, if one is open. The browser is asked to close it;
    /// whether it did is not waited on for more than that one request.
    fn close(&mut self)
        ensures
            ran(
                old(self).asks(),
                old(self).model(),
                old(self).put(),
                EngineOpView::Close,
                Ok(()),
                final(self).model(),
                final(self).put(),
            ),
            final(self).asks() == old(self).asks(),
    {
        let _ = self.run(&EngineOp::Close);
    }

    fn current_url(&self) -> (url: String) {
        self.core.current_url()
    }

    fn title(&self) -> (title: Option<String>) {
        self.core.title()
    }

    fn favicon(&self) -> (favicon: Option<String>) {
        self.core.favicon()
    }

    fn certificate_info(&self) -> (info: Option<CertificateInfo>) {
        self.core.certificate_info()
    }

    fn is_secure(&self) -> (secure: bool) {
        self.core.is_secure()
    }
}

/// A failure that a step reports begins with the words for the operation, or
/// with those for the page that a navigation could not open.
pub proof fn lemma_step_failure_names_the_operation(
    engine: EngineModel,
    op: EngineOpView,
    reply: Option<Result<(), Seq<char>>>,
)
    ensures
        step_spec(engine, op, reply).1 matches StepView::Done(Err(e)) ==> e.kind
            == ErrorKind::Provider && begins_as_failure_of(e.message, op, engine.has_page),
{
    if let StepView::Done(Err(e)) = step_spec(engine, op, reply).1 {
        let reason = reply->0->Err_0;
        let lead = failure_lead(op);
        let opening = "Failed to create new page: "@;
        assert((lead + reason).subrange(0, lead.len() as int) =~= lead);
        assert((opening + reason).subrange(0, opening.len() as int) =~= opening);
    }
}

/// A navigation that was carried out has put to the browser what it had to
/// and nothing else: where a page was open, the one request to load the
/// address; where none was, the request to open a page and, if that was
/// done, the one to load the address. It keeps to the engine contract: it is
/// recorded once with its outcome, the address is remembered if and only if
/// it ended well, a page that was open stays open, and a failure is the
/// browser's.
pub proof fn lemma_navigation_puts_what_it_must(engine: EngineModel, url: Seq<char>, put: Seq<Put>)
    requires
        carried_out(engine, EngineOpView::Navigate { url }, None, put) is Some,
    ensures
        ({
            let (after, ended) = carried_out(engine, EngineOpView::Navigate { url }, None, put)->0;
            &&& navigation_step(engine, url, ended is Ok, after)
            &&& after.served == served_then(engine, EngineOpView::Navigate { url }, ended)
            &&& ended matches Err(e) ==> e.kind == ErrorKind::Provider
            &&& if engine.has_page {
                put == seq![Put { request: ProviderRequestView::Goto { url }, outcome: put[0].outcome }]
            } else {
                &&& put.len() >= 1
                &&& put[0].request == ProviderRequestView::NewPage { url }
                &&& if put[0].outcome is Ok {
                    put.len() == 2 && put[1].request == ProviderRequestView::Goto { url }
                } else {
                    put.len() == 1
                }
            }
        }),
{
    reveal_with_fuel(carried_out, 3);
    let op = EngineOpView::Navigate { url };
    if put.len() > 0 {
        let rest = put.drop_first();
        assert(rest.len() == put.len() - 1);
        if rest.len() > 0 {
            assert(rest.first() == put[1]);
            assert(rest.drop_first().len() == put.len() - 2);
        }
        if engine.has_page {
            assert(put =~= seq![
                Put { request: ProviderRequestView::Goto { url }, outcome: put[0].outcome },
            ]);
        }
    }
}

/// Any other operation that was carried out has put to the browser its one
/// request where a page was open, and nothing where none was. It is recorded
/// once with its outcome and changes nothing else of what the adapter
/// remembers, but that no page is open once the page was released.
pub proof fn lemma_page_operation_puts_what_it_must(
    engine: EngineModel,
    op: EngineOpView,
    put: Seq<Put>,
)
    requires
        !(op is Navigate),
        carried_out(engine, op, None, put) is Some,
    ensures
        ({
            let (after, ended) = carried_out(engine, op, None, put)->0;
            &&& if engine.has_page {
                put == seq![Put { request: page_request(op), outcome: put[0].outcome }]
            } else {
                put == Seq::<Put>::empty() && ended is Ok
            }
            &&& !(op is Close) ==> page_operation(engine, op, ended, after)
            &&& op is Close ==> after == released(engine) && ended is Ok
            &&& ended matches Err(e) ==> e.kind == ErrorKind::Provider
        }),
{
    reveal_with_fuel(carried_out, 2);
    if put.len() > 0 {
        assert(put.drop_first().len() == put.len() - 1);
        if engine.has_page {
            assert(put =~= seq![Put { request: page_request(op), outcome: put[0].outcome }]);
        }
    } else {
        assert(put =~= Seq::<Put>::empty());
    }
}

} // verus!
