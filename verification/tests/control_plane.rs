use solace_browser::app::App;
use solace_browser::engine::blink::{BlinkEngine, LifecycleEvent, ProviderRequest};
use solace_browser::engine::{Engine, EngineManager, EngineModel, Launcher};
use solace_browser::error::{BrowserError, ErrorKind};
use solace_browser::ipc::{
    BrowserEngine, BrowserState, CertificateInfo, ErrorInfo, IPCCommand, IPCEvent, IPCResponse,
    NetworkRoute, PrivacyMode,
};
use solace_browser::network::{DefaultNetworkManager, NetworkManager, NetworkModel};
use solace_browser::security::{DefaultSecurityManager, SecurityManager, SecurityModel};
use solace_browser::state::SharedState;
use std::sync::{Arc, Mutex};
use tokio::sync::broadcast::error::TryRecvError;
use tokio::sync::broadcast::Receiver;

/// An engine without a browser: it accepts every address but those that
/// begin with "bad:", and fails the operations on its page on demand.
struct FakeEngine {
    kind: BrowserEngine,
    name: &'static str,
    url: String,
    has_page: bool,
    page_fails: bool,
    page_calls: usize,
    closed: bool,
}

impl FakeEngine {
    fn new(kind: BrowserEngine, name: &'static str, url: &str) -> Self {
        FakeEngine {
            kind,
            name,
            url: String::from(url),
            has_page: false,
            page_fails: false,
            page_calls: 0,
            closed: false,
        }
    }

    fn blink(name: &'static str) -> Self {
        Self::new(BrowserEngine::Blink, name, "about:blank")
    }

    fn on_page(&mut self, what: &str) -> Result<(), BrowserError> {
        if !self.has_page {
            return Ok(());
        }
        self.page_calls += 1;
        if self.page_fails {
            Err(BrowserError { kind: ErrorKind::Provider, message: format!("Failed to {}", what) })
        } else {
            Ok(())
        }
    }
}

impl Engine for FakeEngine {
    fn model(&self) -> EngineModel {
        unreachable!("a model is spoken of in contracts and never computed")
    }

    fn engine_type(&self) -> BrowserEngine {
        self.kind
    }

    fn navigate(&mut self, url: String) -> Result<(), BrowserError> {
        if url.starts_with("bad:") {
            return Err(BrowserError {
                kind: ErrorKind::Provider,
                message: format!("Failed to navigate to {}: refused", url),
            });
        }
        self.has_page = true;
        self.url = url;
        Ok(())
    }

    fn stop(&mut self) -> Result<(), BrowserError> {
        self.on_page("stop page")
    }

    fn reload(&mut self) -> Result<(), BrowserError> {
        self.on_page("reload page")
    }

    fn go_back(&mut self) -> Result<(), BrowserError> {
        self.on_page("go back")
    }

    fn go_forward(&mut self) -> Result<(), BrowserError> {
        self.on_page("go forward")
    }

    fn close(&mut self) {
        self.has_page = false;
        self.closed = true;
    }

    fn current_url(&self) -> String {
        self.url.clone()
    }

    fn title(&self) -> Option<String> {
        None
    }

    fn favicon(&self) -> Option<String> {
        None
    }

    fn certificate_info(&self) -> Option<CertificateInfo> {
        None
    }

    fn is_secure(&self) -> bool {
        false
    }
}

/// A policy holder that refuses everything.
struct LockedVault;

impl SecurityManager for LockedVault {
    fn model(&self) -> SecurityModel {
        unreachable!("a model is spoken of in contracts and never computed")
    }

    fn set_privacy_mode(&mut self, _mode: &PrivacyMode) -> Result<(), BrowserError> {
        Err(BrowserError { kind: ErrorKind::Policy, message: String::from("vault locked") })
    }

    fn get_current_mode(&self) -> PrivacyMode {
        PrivacyMode::Normal
    }

    fn clear_data(&mut self) -> Result<(), BrowserError> {
        Err(BrowserError { kind: ErrorKind::Policy, message: String::from("vault locked") })
    }
}

impl NetworkManager for LockedVault {
    fn model(&self) -> NetworkModel {
        unreachable!("a model is spoken of in contracts and never computed")
    }

    fn set_route(&mut self, _route: &NetworkRoute) -> Result<(), BrowserError> {
        Err(BrowserError { kind: ErrorKind::Policy, message: String::from("no route") })
    }

    fn get_current_route(&self) -> NetworkRoute {
        NetworkRoute::Direct
    }
}

type Launch = Box<dyn Fn(BrowserEngine) -> Result<FakeEngine, BrowserError> + Send + Sync>;
type TestApp = App<FakeEngine, DefaultSecurityManager, DefaultNetworkManager, Launch>;

/// A launcher that makes an adapter named "launched" of whatever engine it
/// is asked for.
fn obliging() -> Launch {
    Box::new(|kind| Ok(FakeEngine::new(kind, "launched", "about:blank")))
}

fn app_launching(engine: FakeEngine, launch: Launch) -> TestApp {
    App::new(engine, DefaultSecurityManager::new(), DefaultNetworkManager::new(), launch)
}

fn app_with(engine: FakeEngine) -> TestApp {
    app_launching(engine, obliging())
}

fn answer(app: &mut TestApp, command: IPCCommand) -> IPCResponse {
    app.handle_command(command)
}

fn switch_to(engine: BrowserEngine) -> IPCCommand {
    IPCCommand::SwitchEngine { engine }
}

fn navigate(url: &str) -> IPCCommand {
    IPCCommand::Navigate { url: String::from(url) }
}

fn active_url(app: &TestApp) -> String {
    app.engine_manager().current_engine().current_url()
}

fn active_name(app: &TestApp) -> &'static str {
    app.engine_manager().current_engine().name
}

fn success() -> IPCResponse {
    IPCResponse { success: true, data: None, error: None }
}

fn failure(code: &str, message: &str) -> IPCResponse {
    IPCResponse {
        success: false,
        data: None,
        error: Some(ErrorInfo { code: String::from(code), message: String::from(message) }),
    }
}

fn drained(rx: &mut Receiver<IPCEvent>) -> Vec<IPCEvent> {
    let mut events = Vec::new();
    loop {
        match rx.try_recv() {
            Ok(event) => events.push(event),
            Err(TryRecvError::Empty) => return events,
            Err(other) => panic!("bus failed: {:?}", other),
        }
    }
}

#[test]
fn new_control_plane_starts_from_the_default_state() {
    let app = app_with(FakeEngine::blink("first"));
    assert_eq!(app.snapshot(), BrowserState::default());
    assert_eq!(app.security_manager().get_current_mode(), PrivacyMode::Normal);
    assert_eq!(app.network_manager().get_current_route(), NetworkRoute::Direct);
    assert_eq!(active_name(&app), "first");
}

#[test]
fn new_control_plane_names_the_engine_it_was_given() {
    let app = app_with(FakeEngine::new(BrowserEngine::Servo, "servo", "about:blank"));
    let expected = BrowserState { current_engine: BrowserEngine::Servo, ..BrowserState::default() };
    assert_eq!(app.snapshot(), expected);
}

#[test]
fn current_url_follows_every_successful_navigation() {
    let mut app = app_with(FakeEngine::blink("first"));
    let urls = ["https://a.example", "https://b.example", "https://a.example", "https://c.example"];
    for url in urls {
        assert_eq!(answer(&mut app, navigate(url)), success());
        assert_eq!(active_url(&app), url);
    }
}

#[test]
fn refused_navigation_keeps_the_last_accepted_address() {
    let mut app = app_with(FakeEngine::blink("first"));
    assert_eq!(answer(&mut app, navigate("https://a.example")), success());
    assert_eq!(
        answer(&mut app, navigate("bad:address")),
        failure("PROVIDER_ERROR", "Failed to navigate to bad:address: refused")
    );
    assert_eq!(active_url(&app), "https://a.example");
    assert_eq!(answer(&mut app, navigate("https://b.example")), success());
    assert_eq!(active_url(&app), "https://b.example");
}

#[test]
fn two_navigations_resolve_in_submission_order() {
    let mut app = app_with(FakeEngine::blink("first"));
    assert_eq!(answer(&mut app, navigate("https://first.example")), success());
    assert_eq!(answer(&mut app, navigate("https://second.example")), success());
    assert_eq!(active_url(&app), "https://second.example");
}

#[test]
fn navigation_does_not_touch_the_browser_state() {
    let mut app = app_with(FakeEngine::blink("first"));
    let mut rx = app.subscribe();
    assert_eq!(answer(&mut app, navigate("https://a.example")), success());
    assert_eq!(app.snapshot(), BrowserState::default());
    assert_eq!(drained(&mut rx), vec![]);
}

#[test]
fn navigate_then_lifecycle_events_yield_two_state_updates() {
    let mut app = app_with(FakeEngine::blink("first"));
    let mut rx = app.subscribe();
    assert_eq!(answer(&mut app, navigate("https://example.com")), success());
    let url = String::from("https://example.com");
    assert_eq!(app.on_engine_event(LifecycleEvent::NavigationStarted { url: url.clone() }), 1);
    assert_eq!(app.on_engine_event(LifecycleEvent::NavigationCompleted { url: url.clone() }), 1);
    let events = drained(&mut rx);
    let loading =
        BrowserState { current_url: url.clone(), is_loading: true, ..BrowserState::default() };
    let loaded = BrowserState { current_url: url, is_loading: false, ..BrowserState::default() };
    assert_eq!(events, vec![IPCEvent::StateUpdate(loading), IPCEvent::StateUpdate(loaded.clone())]);
    assert_eq!(app.snapshot(), loaded);
}

#[test]
fn switch_to_a_reserved_engine_is_refused() {
    let mut app = app_with(FakeEngine::blink("first"));
    let mut rx = app.subscribe();
    let response = answer(&mut app, switch_to(BrowserEngine::Gecko));
    assert_eq!(response, failure("NOT_IMPLEMENTED", "Gecko engine is not implemented"));
    assert_eq!(app.snapshot().current_engine, BrowserEngine::Blink);
    assert_eq!(drained(&mut rx), vec![]);
}

#[test]
fn every_reserved_engine_is_refused_and_the_adapter_stays_responsive() {
    let refusals = [
        (BrowserEngine::Gecko, "Gecko engine is not implemented"),
        (BrowserEngine::Webkit, "WebKit engine is not implemented"),
        (BrowserEngine::Servo, "Servo engine is not implemented"),
    ];
    for (engine, message) in refusals {
        let mut app = app_with(FakeEngine::blink("first"));
        assert_eq!(answer(&mut app, navigate("https://a.example")), success());
        let before = app.snapshot();
        assert_eq!(answer(&mut app, switch_to(engine)), failure("NOT_IMPLEMENTED", message));
        assert_eq!(app.snapshot(), before);
        assert_eq!(active_name(&app), "first");
        assert_eq!(active_url(&app), "https://a.example");
        assert_eq!(answer(&mut app, navigate("https://b.example")), success());
        assert_eq!(active_url(&app), "https://b.example");
    }
}

#[test]
fn reserved_engine_is_refused_before_anything_is_launched() {
    let launches = Arc::new(Mutex::new(Vec::new()));
    let seen = launches.clone();
    let launch: Launch = Box::new(move |kind| {
        seen.lock().unwrap().push(kind);
        Ok(FakeEngine::new(kind, "launched", "about:blank"))
    });
    let mut app = app_launching(FakeEngine::blink("first"), launch);
    for engine in [BrowserEngine::Gecko, BrowserEngine::Webkit, BrowserEngine::Servo] {
        assert!(!answer(&mut app, switch_to(engine)).success);
    }
    assert!(launches.lock().unwrap().is_empty());
    assert_eq!(answer(&mut app, switch_to(BrowserEngine::Blink)), success());
    assert_eq!(*launches.lock().unwrap(), vec![BrowserEngine::Blink]);
}

#[test]
fn switch_carries_the_address_over_to_the_new_adapter() {
    let mut app = app_with(FakeEngine::blink("first"));
    assert_eq!(answer(&mut app, navigate("https://a.example")), success());
    let mut rx = app.subscribe();
    assert_eq!(answer(&mut app, switch_to(BrowserEngine::Blink)), success());
    assert_eq!(active_name(&app), "launched");
    assert_eq!(active_url(&app), "https://a.example");
    assert_eq!(app.snapshot().current_engine, BrowserEngine::Blink);
    assert_eq!(drained(&mut rx), vec![IPCEvent::StateUpdate(app.snapshot())]);
}

#[test]
fn switch_without_an_address_leaves_the_new_adapter_as_launched() {
    let mut app = app_with(FakeEngine::new(BrowserEngine::Blink, "first", ""));
    assert_eq!(answer(&mut app, switch_to(BrowserEngine::Blink)), success());
    assert_eq!(active_name(&app), "launched");
    assert_eq!(active_url(&app), "about:blank");
    assert!(!app.engine_manager().current_engine().has_page);
}

#[test]
fn failed_launch_fails_the_switch_with_its_own_error() {
    let launch: Launch = Box::new(|_| {
        Err(BrowserError {
            kind: ErrorKind::Provider,
            message: String::from("Failed to launch browser: no binary"),
        })
    });
    let mut app = app_launching(FakeEngine::blink("first"), launch);
    let mut rx = app.subscribe();
    assert_eq!(
        answer(&mut app, switch_to(BrowserEngine::Blink)),
        failure("PROVIDER_ERROR", "Failed to launch browser: no binary")
    );
    assert_eq!(active_name(&app), "first");
    assert_eq!(app.snapshot(), BrowserState::default());
    assert_eq!(drained(&mut rx), vec![]);
    assert_eq!(answer(&mut app, navigate("https://a.example")), success());
    assert_eq!(active_url(&app), "https://a.example");
}

#[test]
fn adapter_of_another_engine_is_a_configuration_error() {
    let launch: Launch =
        Box::new(|_| Ok(FakeEngine::new(BrowserEngine::Servo, "servo", "about:blank")));
    let mut app = app_launching(FakeEngine::blink("first"), launch);
    assert_eq!(
        answer(&mut app, switch_to(BrowserEngine::Blink)),
        failure("CONFIGURATION_ERROR", "The adapter is not of the requested engine")
    );
    assert_eq!(active_name(&app), "first");
    assert_eq!(app.snapshot(), BrowserState::default());
}

#[test]
fn failed_continuity_navigation_keeps_the_old_adapter() {
    let mut app = app_with(FakeEngine::new(BrowserEngine::Blink, "first", "bad:stale"));
    let mut rx = app.subscribe();
    assert_eq!(
        answer(&mut app, switch_to(BrowserEngine::Blink)),
        failure("PROVIDER_ERROR", "Failed to navigate to bad:stale: refused")
    );
    assert_eq!(active_name(&app), "first");
    assert_eq!(active_url(&app), "bad:stale");
    assert_eq!(app.snapshot(), BrowserState::default());
    assert_eq!(drained(&mut rx), vec![]);
    assert_eq!(answer(&mut app, navigate("https://a.example")), success());
    assert_eq!(active_url(&app), "https://a.example");
}

#[test]
fn switch_puts_the_state_in_step_with_the_new_adapter() {
    let mut app = app_with(FakeEngine::new(BrowserEngine::Servo, "servo", "https://a.example"));
    assert_eq!(app.snapshot().current_engine, BrowserEngine::Servo);
    assert_eq!(answer(&mut app, switch_to(BrowserEngine::Blink)), success());
    assert_eq!(app.snapshot().current_engine, BrowserEngine::Blink);
    assert_eq!(app.engine_manager().current_engine().engine_type(), BrowserEngine::Blink);
}

#[test]
fn privacy_mode_goes_to_the_holder_then_into_the_state() {
    let mut app = app_with(FakeEngine::blink("first"));
    let mut rx = app.subscribe();
    for mode in [PrivacyMode::Private, PrivacyMode::Tor, PrivacyMode::Vpn, PrivacyMode::Normal] {
        assert_eq!(answer(&mut app, IPCCommand::SetPrivacyMode { mode }), success());
        assert_eq!(app.security_manager().get_current_mode(), mode);
        assert_eq!(app.snapshot().privacy_mode, mode);
        assert_eq!(drained(&mut rx), vec![IPCEvent::StateUpdate(app.snapshot())]);
    }
}

#[test]
fn network_route_goes_to_the_holder_then_into_the_state() {
    let mut app = app_with(FakeEngine::blink("first"));
    let mut rx = app.subscribe();
    for route in [NetworkRoute::Tor, NetworkRoute::Vpn, NetworkRoute::Proxy, NetworkRoute::Direct] {
        assert_eq!(answer(&mut app, IPCCommand::SetNetworkRoute { route }), success());
        assert_eq!(app.network_manager().get_current_route(), route);
        assert_eq!(app.snapshot().network_route, route);
        assert_eq!(drained(&mut rx), vec![IPCEvent::StateUpdate(app.snapshot())]);
    }
}

#[test]
fn setting_the_mode_in_force_is_still_announced() {
    let mut app = app_with(FakeEngine::blink("first"));
    let mut rx = app.subscribe();
    assert_eq!(answer(&mut app, IPCCommand::SetPrivacyMode { mode: PrivacyMode::Normal }), success());
    assert_eq!(drained(&mut rx), vec![IPCEvent::StateUpdate(BrowserState::default())]);
}

#[test]
fn policy_failure_leaves_the_state_and_announces_nothing() {
    let mut app = App::new(FakeEngine::blink("first"), LockedVault, LockedVault, obliging());
    let mut rx = app.subscribe();
    let mode = app.handle_command(IPCCommand::SetPrivacyMode { mode: PrivacyMode::Tor });
    assert_eq!(mode, failure("POLICY_ERROR", "vault locked"));
    let route = app.handle_command(IPCCommand::SetNetworkRoute { route: NetworkRoute::Vpn });
    assert_eq!(route, failure("POLICY_ERROR", "no route"));
    assert_eq!(app.snapshot(), BrowserState::default());
    assert_eq!(drained(&mut rx), vec![]);
}

#[test]
fn command_without_subscriber_succeeds() {
    let mut app = app_with(FakeEngine::blink("first"));
    assert_eq!(answer(&mut app, IPCCommand::SetPrivacyMode { mode: PrivacyMode::Vpn }), success());
    assert_eq!(app.snapshot().privacy_mode, PrivacyMode::Vpn);
    assert_eq!(answer(&mut app, switch_to(BrowserEngine::Blink)), success());
    assert_eq!(active_name(&app), "launched");
}

#[test]
fn page_commands_without_a_page_succeed_untouched() {
    let mut app = app_with(FakeEngine::blink("first"));
    for command in [IPCCommand::Reload, IPCCommand::Stop, IPCCommand::GoBack, IPCCommand::GoForward] {
        assert_eq!(answer(&mut app, command), success());
    }
    assert_eq!(app.engine_manager().current_engine().page_calls, 0);
    assert_eq!(app.snapshot(), BrowserState::default());
}

#[test]
fn page_commands_go_to_the_engine_in_use() {
    let mut app = app_with(FakeEngine::blink("first"));
    assert_eq!(answer(&mut app, navigate("https://a.example")), success());
    for command in [IPCCommand::Reload, IPCCommand::Stop, IPCCommand::GoBack, IPCCommand::GoForward] {
        assert_eq!(answer(&mut app, command), success());
    }
    assert_eq!(app.engine_manager().current_engine().page_calls, 4);
    assert_eq!(active_url(&app), "https://a.example");
}

#[test]
fn page_command_failures_are_provider_errors() {
    let mut engine = FakeEngine::blink("first");
    engine.has_page = true;
    engine.page_fails = true;
    let mut app = app_with(engine);
    assert_eq!(answer(&mut app, IPCCommand::Reload), failure("PROVIDER_ERROR", "Failed to reload page"));
    assert_eq!(answer(&mut app, IPCCommand::Stop), failure("PROVIDER_ERROR", "Failed to stop page"));
    assert_eq!(answer(&mut app, IPCCommand::GoBack), failure("PROVIDER_ERROR", "Failed to go back"));
    assert_eq!(
        answer(&mut app, IPCCommand::GoForward),
        failure("PROVIDER_ERROR", "Failed to go forward")
    );
    assert_eq!(app.snapshot(), BrowserState::default());
}

#[test]
fn send_event_without_subscriber_is_an_internal_error() {
    let mut app = app_with(FakeEngine::blink("first"));
    let event = IPCEvent::Error { code: String::from("E"), message: String::from("m") };
    assert_eq!(
        app.send_event(event.clone()),
        Err(BrowserError { kind: ErrorKind::Internal, message: String::from("channel closed") })
    );
    let mut rx = app.subscribe();
    assert_eq!(app.send_event(event.clone()), Ok(()));
    assert_eq!(drained(&mut rx), vec![event]);
}

#[test]
fn stale_certificate_stays_after_an_insecure_transition() {
    let mut app = app_with(FakeEngine::blink("first"));
    let cert = CertificateInfo {
        issuer: String::from("CA"),
        valid_from: String::from("2024-01-01"),
        valid_to: String::from("2025-01-01"),
    };
    app.on_engine_event(LifecycleEvent::SecurityStateChanged {
        secure: true,
        certificate: Some(cert.clone()),
    });
    app.on_engine_event(LifecycleEvent::SecurityStateChanged { secure: false, certificate: None });
    let state = app.snapshot();
    assert!(!state.is_secure);
    assert_eq!(state.certificate_info, Some(cert));
}

#[test]
fn manager_check_refuses_reserved_engines_only() {
    assert_eq!(EngineManager::<FakeEngine, Launch>::check_switch(BrowserEngine::Blink), Ok(()));
    assert_eq!(
        EngineManager::<FakeEngine, Launch>::check_switch(BrowserEngine::Servo),
        Err(BrowserError {
            kind: ErrorKind::NotImplemented,
            message: String::from("Servo engine is not implemented"),
        })
    );
}

#[test]
fn manager_switch_updates_the_shared_state() {
    let mut manager = EngineManager::new(FakeEngine::blink("first"), obliging());
    let mut shared = SharedState::new();
    let mut rx = shared.subscribe();
    manager.current_engine_mut().navigate(String::from("https://a.example")).unwrap();
    assert_eq!(manager.switch_engine(BrowserEngine::Blink, &mut shared), Ok(()));
    assert_eq!(manager.current_engine().name, "launched");
    assert_eq!(manager.current_engine().current_url(), "https://a.example");
    assert_eq!(drained(&mut rx), vec![IPCEvent::StateUpdate(BrowserState::default())]);
}

#[test]
fn manager_adopts_what_was_launched() {
    let mut manager = EngineManager::new(FakeEngine::blink("first"), obliging());
    let mut shared = SharedState::new();
    let r = manager.adopt(BrowserEngine::Blink, Ok(FakeEngine::blink("second")), &mut shared);
    assert_eq!(r, Ok(()));
    assert_eq!(manager.current_engine().name, "second");
    assert_eq!(manager.current_engine().current_url(), "about:blank");
    let gone = BrowserError { kind: ErrorKind::Provider, message: String::from("gone") };
    assert_eq!(manager.adopt(BrowserEngine::Blink, Err(gone.clone()), &mut shared), Err(gone));
    assert_eq!(manager.current_engine().name, "second");
    let reserved = manager.adopt(
        BrowserEngine::Gecko,
        Ok(FakeEngine::new(BrowserEngine::Gecko, "gecko", "about:blank")),
        &mut shared,
    );
    assert_eq!(
        reserved,
        Err(BrowserError {
            kind: ErrorKind::NotImplemented,
            message: String::from("Gecko engine is not implemented"),
        })
    );
    assert_eq!(manager.current_engine().name, "second");
}

#[test]
fn manager_finish_switch_follows_the_continuity_outcome() {
    let mut manager = EngineManager::new(FakeEngine::blink("first"), obliging());
    let mut shared = SharedState::new();
    let refused =
        Err(BrowserError { kind: ErrorKind::Provider, message: String::from("refused") });
    let r = manager.finish_switch(
        BrowserEngine::Blink,
        FakeEngine::blink("second"),
        refused.clone(),
        &mut shared,
    );
    assert_eq!(r, refused);
    assert_eq!(manager.current_engine().name, "first");
    let r = manager.finish_switch(BrowserEngine::Blink, FakeEngine::blink("third"), Ok(()), &mut shared);
    assert_eq!(r, Ok(()));
    assert_eq!(manager.current_engine().name, "third");
}

#[test]
fn default_holders_take_every_value() {
    let mut security = DefaultSecurityManager::new();
    assert_eq!(security.get_current_mode(), PrivacyMode::Normal);
    assert_eq!(security.set_privacy_mode(&PrivacyMode::Tor), Ok(()));
    assert_eq!(security.get_current_mode(), PrivacyMode::Tor);
    assert_eq!(security.clear_data(), Ok(()));
    assert_eq!(security.get_current_mode(), PrivacyMode::Tor);
    let mut network = DefaultNetworkManager::new();
    assert_eq!(network.get_current_route(), NetworkRoute::Direct);
    assert_eq!(network.set_route(&NetworkRoute::Proxy), Ok(()));
    assert_eq!(network.get_current_route(), NetworkRoute::Proxy);
}

type Ask = Box<dyn Fn(ProviderRequest) -> Result<(), String> + Send + Sync>;
type Asked = Arc<Mutex<Vec<ProviderRequest>>>;
type LaunchBlink = Box<dyn Fn(BrowserEngine) -> Result<BlinkEngine<Ask>, BrowserError> + Send + Sync>;
type BlinkApp = App<BlinkEngine<Ask>, DefaultSecurityManager, DefaultNetworkManager, LaunchBlink>;

/// A Blink adapter on a browser that records in `asked` what it is asked and
/// refuses the addresses that begin with "bad:".
fn blink_adapter(asked: &Asked) -> BlinkEngine<Ask> {
    let log = asked.clone();
    let ask: Ask = Box::new(move |request: ProviderRequest| {
        let refused = match &request {
            ProviderRequest::NewPage { url } | ProviderRequest::Goto { url } => {
                url.starts_with("bad:")
            }
            _ => false,
        };
        log.lock().unwrap().push(request);
        if refused {
            Err(String::from("refused"))
        } else {
            Ok(())
        }
    });
    BlinkEngine::new(ask)
}

/// A control plane on a Blink adapter that records in the first list, whose
/// launcher makes adapters that record in the second.
fn blink_app() -> (Asked, Asked, BlinkApp) {
    let first: Asked = Arc::new(Mutex::new(Vec::new()));
    let later: Asked = Arc::new(Mutex::new(Vec::new()));
    let log = later.clone();
    let launch: LaunchBlink = Box::new(move |_| Ok(blink_adapter(&log)));
    let app = App::new(
        blink_adapter(&first),
        DefaultSecurityManager::new(),
        DefaultNetworkManager::new(),
        launch,
    );
    (first, later, app)
}

#[test]
fn blink_navigation_reaches_the_browser_and_the_subscribers() {
    let (asked, _, mut app) = blink_app();
    let mut rx = app.subscribe();
    assert_eq!(app.handle_command(navigate("https://example.com")), success());
    assert_eq!(
        *asked.lock().unwrap(),
        vec![
            ProviderRequest::NewPage { url: String::from("https://example.com") },
            ProviderRequest::Goto { url: String::from("https://example.com") },
        ]
    );
    assert_eq!(app.engine_manager().current_engine().current_url(), "https://example.com");
    assert_eq!(drained(&mut rx), vec![]);
    let url = String::from("https://example.com");
    app.on_engine_event(LifecycleEvent::NavigationStarted { url: url.clone() });
    app.on_engine_event(LifecycleEvent::NavigationCompleted { url: url.clone() });
    let events = drained(&mut rx);
    assert_eq!(events.len(), 2);
    let loaded = BrowserState { current_url: url, is_loading: false, ..BrowserState::default() };
    assert_eq!(events[1], IPCEvent::StateUpdate(loaded));
}

#[test]
fn blink_refusal_is_answered_as_a_provider_error() {
    let (_, _, mut app) = blink_app();
    assert_eq!(
        app.handle_command(navigate("bad:address")),
        failure("PROVIDER_ERROR", "Failed to create new page: refused")
    );
    assert_eq!(app.engine_manager().current_engine().current_url(), "about:blank");
    assert_eq!(app.handle_command(navigate("https://a.example")), success());
    assert_eq!(
        app.handle_command(navigate("bad:address")),
        failure("PROVIDER_ERROR", "Failed to navigate to bad:address: refused")
    );
    assert_eq!(app.engine_manager().current_engine().current_url(), "https://a.example");
}

#[test]
fn blink_switch_navigates_the_new_adapter_to_the_address_in_use() {
    let (_, later, mut app) = blink_app();
    assert_eq!(app.handle_command(navigate("https://a.example")), success());
    assert_eq!(app.handle_command(switch_to(BrowserEngine::Blink)), success());
    assert_eq!(
        *later.lock().unwrap(),
        vec![
            ProviderRequest::NewPage { url: String::from("https://a.example") },
            ProviderRequest::Goto { url: String::from("https://a.example") },
        ]
    );
    assert_eq!(app.engine_manager().current_engine().current_url(), "https://a.example");
    assert_eq!(app.handle_command(IPCCommand::Reload), success());
    assert_eq!(later.lock().unwrap().last(), Some(&ProviderRequest::Reload));
}

#[test]
fn blink_switch_from_a_blank_page_navigates_there() {
    let (first, later, mut app) = blink_app();
    assert_eq!(app.handle_command(switch_to(BrowserEngine::Blink)), success());
    assert!(first.lock().unwrap().is_empty());
    assert_eq!(
        *later.lock().unwrap(),
        vec![
            ProviderRequest::NewPage { url: String::from("about:blank") },
            ProviderRequest::Goto { url: String::from("about:blank") },
        ]
    );
    assert_eq!(app.snapshot(), BrowserState::default());
}

#[test]
fn launcher_asks_its_function_for_the_engine() {
    let mut launcher = Launcher::new(obliging());
    let launched = launcher.call(BrowserEngine::Webkit).unwrap();
    assert_eq!(launched.engine_type(), BrowserEngine::Webkit);
    assert_eq!(launched.name, "launched");
}

fn retired_names(app: &mut TestApp) -> Vec<(&'static str, bool)> {
    app.take_retired().iter().map(|engine| (engine.name, engine.closed)).collect()
}

#[test]
fn switch_releases_the_adapter_it_replaces() {
    let mut app = app_with(FakeEngine::blink("first"));
    assert_eq!(retired_names(&mut app), vec![]);
    assert_eq!(answer(&mut app, navigate("https://a.example")), success());
    assert_eq!(answer(&mut app, switch_to(BrowserEngine::Blink)), success());
    assert!(!app.engine_manager().current_engine().closed);
    assert_eq!(retired_names(&mut app), vec![("first", true)]);
    assert_eq!(retired_names(&mut app), vec![]);
}

#[test]
fn failed_switch_releases_the_adapter_that_was_launched() {
    let mut app = app_with(FakeEngine::new(BrowserEngine::Blink, "first", "bad:stale"));
    assert!(!answer(&mut app, switch_to(BrowserEngine::Blink)).success);
    assert!(!app.engine_manager().current_engine().closed);
    assert_eq!(retired_names(&mut app), vec![("launched", true)]);
    let wrong: Launch =
        Box::new(|_| Ok(FakeEngine::new(BrowserEngine::Servo, "servo", "about:blank")));
    let mut app = app_launching(FakeEngine::blink("first"), wrong);
    assert!(!answer(&mut app, switch_to(BrowserEngine::Blink)).success);
    assert_eq!(retired_names(&mut app), vec![("servo", true)]);
}

#[test]
fn refused_and_other_commands_retire_nothing() {
    let mut app = app_with(FakeEngine::blink("first"));
    assert!(!answer(&mut app, switch_to(BrowserEngine::Gecko)).success);
    assert_eq!(answer(&mut app, navigate("https://a.example")), success());
    assert_eq!(answer(&mut app, IPCCommand::Reload), success());
    assert_eq!(answer(&mut app, IPCCommand::SetPrivacyMode { mode: PrivacyMode::Tor }), success());
    assert_eq!(retired_names(&mut app), vec![]);
    assert!(!app.engine_manager().current_engine().closed);
}

#[test]
fn blink_switch_asks_the_old_browser_to_close_its_page() {
    let (first, later, mut app) = blink_app();
    assert_eq!(app.handle_command(navigate("https://a.example")), success());
    assert_eq!(app.handle_command(switch_to(BrowserEngine::Blink)), success());
    assert_eq!(
        first.lock().unwrap().last(),
        Some(&ProviderRequest::Evaluate { script: String::from("window.close()") })
    );
    assert!(!later
        .lock()
        .unwrap()
        .contains(&ProviderRequest::Evaluate { script: String::from("window.close()") }));
    let retired = app.take_retired();
    assert_eq!(retired.len(), 1);
    assert!(!retired[0].has_page());
    assert_eq!(retired[0].current_url(), "https://a.example");
}

#[test]
fn manager_hands_its_retired_adapters_over_once() {
    let mut manager = EngineManager::new(FakeEngine::blink("first"), obliging());
    let mut shared = SharedState::new();
    assert_eq!(manager.switch_engine(BrowserEngine::Blink, &mut shared), Ok(()));
    assert_eq!(manager.switch_engine(BrowserEngine::Blink, &mut shared), Ok(()));
    let retired = manager.take_retired();
    assert_eq!(retired.len(), 2);
    assert_eq!(retired[0].name, "first");
    assert_eq!(retired[1].name, "launched");
    assert!(retired.iter().all(|engine| engine.closed));
    assert!(manager.take_retired().is_empty());
}

/// A launcher of Blink adapters whose browser opens pages and refuses to
/// load anything in them, recording in `asked` what it is asked.
fn launching_a_browser_that_loads_nothing(asked: &Asked) -> LaunchBlink {
    let asked = asked.clone();
    Box::new(move |_| {
        let log = asked.clone();
        let ask: Ask = Box::new(move |request: ProviderRequest| {
            let refused = matches!(request, ProviderRequest::Goto { .. });
            log.lock().unwrap().push(request);
            if refused {
                Err(String::from("refused"))
            } else {
                Ok(())
            }
        });
        Ok(BlinkEngine::new(ask))
    })
}

#[test]
fn failed_continuity_navigation_was_tried_on_the_new_adapter_only() {
    let old: Asked = Arc::new(Mutex::new(Vec::new()));
    let new: Asked = Arc::new(Mutex::new(Vec::new()));
    let mut app = App::new(
        blink_adapter(&old),
        DefaultSecurityManager::new(),
        DefaultNetworkManager::new(),
        launching_a_browser_that_loads_nothing(&new),
    );
    assert_eq!(app.handle_command(navigate("https://a.example")), success());
    old.lock().unwrap().clear();
    assert_eq!(
        app.handle_command(switch_to(BrowserEngine::Blink)),
        failure("PROVIDER_ERROR", "Failed to navigate to https://a.example: refused")
    );
    assert!(old.lock().unwrap().is_empty());
    assert_eq!(
        *new.lock().unwrap(),
        vec![
            ProviderRequest::NewPage { url: String::from("https://a.example") },
            ProviderRequest::Goto { url: String::from("https://a.example") },
            ProviderRequest::Evaluate { script: String::from("window.close()") },
        ]
    );
    assert_eq!(app.engine_manager().current_engine().current_url(), "https://a.example");
    assert_eq!(app.take_retired().len(), 1);
    assert_eq!(app.handle_command(IPCCommand::Reload), success());
    assert_eq!(*old.lock().unwrap(), vec![ProviderRequest::Reload]);
}
