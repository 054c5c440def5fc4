//! The decisions of the desktop shell: which addresses it loads, which
//! webview it builds on which platform, and what becomes of its settings.

use vstd::prelude::*;
use vstd::string::{StrSliceExecFns, StringExecFns};

verus! {

/// Whether `text` begins with `prefix`.
pub fn starts_with(text: &str, prefix: &str) -> (b: bool)
    ensures
        b == prefix@.is_prefix_of(text@),
{
    let n = prefix.unicode_len();
    if n > text.unicode_len() {
        return false;
    }
    let mut i: usize = 0;
    while i < n
        invariant
            i <= n,
            n == prefix@.len(),
            n <= text@.len(),
            forall|j: int| 0 <= j < i ==> prefix@[j] == text@[j],
        decreases n - i,
    {
        if prefix.get_char(i) != text.get_char(i) {
            assert(text@.subrange(0, n as int)[i as int] == text@[i as int]);
            return false;
        }
        i = i + 1;
    }
    assert(prefix@ =~= text@.subrange(0, n as int));
    true
}

/// Whether two texts are the same.
pub fn same_text(a: &str, b: &str) -> (same: bool)
    ensures
        same == (a@ == b@),
{
    let same = a.unicode_len() == b.unicode_len() && starts_with(b, a);
    proof {
        if a@.len() == b@.len() {
            assert(b@.subrange(0, a@.len() as int) =~= b@);
        }
    }
    same
}

/// Whether an address names the web's plain or secure scheme in lower case.
pub open spec fn web_address(url: Seq<char>) -> bool {
    "http://"@.is_prefix_of(url) || "https://"@.is_prefix_of(url)
}

pub fn is_web_address(url: &str) -> (b: bool)
    ensures
        b == web_address(url@),
{
    starts_with(url, "http://") || starts_with(url, "https://")
}

/// The text of an outcome that is an address or, on failure, a reason.
pub open spec fn texts_of(outcome: Result<String, String>) -> Result<Seq<char>, Seq<char>> {
    match outcome {
        Ok(text) => Ok(text@),
        Err(reason) => Err(reason@),
    }
}

/// What the shell reads of an address that was parsed: its scheme and its
/// normalised form.
#[derive(Debug, PartialEq, Eq)]
pub struct ParsedUrl {
    pub scheme: String,
    pub href: String,
}

/// A parsed address, or the reason why it is none, as plain values.
pub open spec fn parse_of(outcome: Result<ParsedUrl, String>) -> Result<
    (Seq<char>, Seq<char>),
    Seq<char>,
> {
    match outcome {
        Ok(parsed) => Ok((parsed.scheme@, parsed.href@)),
        Err(reason) => Err(reason@),
    }
}

/// What the `url` crate makes of a text: the scheme and the normalised form
/// of the address that the text is, or the reason why it is none.
pub uninterp spec fn parsed_url(input: Seq<char>) -> Result<(Seq<char>, Seq<char>), Seq<char>>;

/// `url::Url::parse`, by the URL standard and without a base address. Of the
/// address the scheme and the serialisation are handed on, of an error its
/// message. The result depends on the text alone; what it is, is not stated.
#[verifier::external_body]
fn parse_url(input: &str) -> (r: Result<ParsedUrl, String>)
    ensures
        parse_of(r) == parsed_url(input@),
{
    match url::Url::parse(input) {
        Ok(parsed) => Ok(
            ParsedUrl { scheme: parsed.scheme().to_string(), href: parsed.as_str().to_string() },
        ),
        Err(e) => Err(e.to_string()),
    }
}

/// The text that is parsed for an address that the user typed: a text
/// without a web scheme is taken as a secure web address.
pub open spec fn candidate(url: Seq<char>) -> Seq<char> {
    if web_address(url) {
        url
    } else {
        "https://"@ + url
    }
}

/// The address to load for a parse result: the normalised form of a web
/// address, and a refusal of anything else.
pub open spec fn accepted(parsed: Result<(Seq<char>, Seq<char>), Seq<char>>) -> Result<
    Seq<char>,
    Seq<char>,
> {
    match parsed {
        Err(reason) => Err("Invalid URL: "@ + reason),
        Ok((scheme, href)) => if scheme == "http"@ || scheme == "https"@ {
            Ok(href)
        } else {
            Err("Only HTTP and HTTPS URLs are supported"@)
        },
    }
}

/// Decides on a parse result whether the address is loaded.
pub fn accept_parsed(parsed: Result<ParsedUrl, String>) -> (r: Result<String, String>)
    ensures
        texts_of(r) == accepted(parse_of(parsed)),
{
    match parsed {
        Err(reason) => Err(String::from_str("Invalid URL: ").concat(reason.as_str())),
        Ok(parsed) => {
            if same_text(parsed.scheme.as_str(), "http") || same_text(
                parsed.scheme.as_str(),
                "https",
            ) {
                Ok(parsed.href)
            } else {
                Err(String::from_str("Only HTTP and HTTPS URLs are supported"))
            }
        },
    }
}

/// The address to load for what the user typed, normalised, or the reason
/// why it is refused.
pub fn ensure_valid_url(url: &str) -> (r: Result<String, String>)
    ensures
        texts_of(r) == accepted(parsed_url(candidate(url@))),
{
    let text = if is_web_address(url) {
        String::from_str(url)
    } else {
        String::from_str("https://").concat(url)
    };
    accept_parsed(parse_url(text.as_str()))
}

/// What the user can set.
#[derive(Clone, Copy, Debug, PartialEq, Eq, Structural)]
pub struct BrowserSettings {
    pub dark_mode: bool,
    pub hardware_acceleration: bool,
    pub privacy_mode: bool,
    pub cache_enabled: bool,
}

impl BrowserSettings {
    /// The settings of a new installation.
    pub open spec fn initial() -> BrowserSettings {
        BrowserSettings {
            dark_mode: false,
            hardware_acceleration: true,
            privacy_mode: true,
            cache_enabled: true,
        }
    }
}

impl Default for BrowserSettings {
    fn default() -> (settings: Self)
        ensures
            settings == BrowserSettings::initial(),
    {
        BrowserSettings {
            dark_mode: false,
            hardware_acceleration: true,
            privacy_mode: true,
            cache_enabled: true,
        }
    }
}

/// A notice of the shell to its user interface.
#[derive(Debug, PartialEq, Eq)]
pub enum ShellEvent {
    SettingsUpdated(BrowserSettings),
    NavigationRequested(String),
    HardwareAccelerationChanged(bool),
}

impl ShellEvent {
    /// The name under which the user interface listens for the notice.
    pub open spec fn name_text(self) -> Seq<char> {
        match self {
            ShellEvent::SettingsUpdated(_) => "settings-updated"@,
            ShellEvent::NavigationRequested(_) => "navigation-requested"@,
            ShellEvent::HardwareAccelerationChanged(_) => "hardware-acceleration-changed"@,
        }
    }

    pub fn name(&self) -> (name: &'static str)
        ensures
            name@ == self.name_text(),
    {
        match self {
            ShellEvent::SettingsUpdated(_) => "settings-updated",
            ShellEvent::NavigationRequested(_) => "navigation-requested",
            ShellEvent::HardwareAccelerationChanged(_) => "hardware-acceleration-changed",
        }
    }
}

/// Asks the user interface to load an address, which has to name a web
/// scheme.
pub fn navigate(url: String) -> (r: Result<ShellEvent, String>)
    ensures
        web_address(url@) ==> r == Ok::<ShellEvent, String>(ShellEvent::NavigationRequested(url)),
        !web_address(url@) ==> r is Err && r->Err_0@ == "Invalid URL scheme"@,
{
    if is_web_address(url.as_str()) {
        Ok(ShellEvent::NavigationRequested(url))
    } else {
        Err(String::from_str("Invalid URL scheme"))
    }
}

/// The settings of the shell, owned by whoever runs it.
#[derive(Debug, PartialEq, Eq)]
pub struct BrowserState {
    settings: BrowserSettings,
}

impl View for BrowserState {
    type V = BrowserSettings;

    closed spec fn view(&self) -> BrowserSettings {
        self.settings
    }
}

impl Default for BrowserState {
    fn default() -> (state: Self)
        ensures
            state@ == BrowserSettings::initial(),
    {
        BrowserState { settings: BrowserSettings::default() }
    }
}

impl BrowserState {
    pub fn get_settings(&self) -> (settings: BrowserSettings)
        ensures
            settings == self@,
    {
        self.settings
    }

    /// Takes new settings; the result is the notice to send.
    pub fn update_settings(&mut self, settings: BrowserSettings) -> (notice: ShellEvent)
        ensures
            final(self)@ == settings,
            notice == ShellEvent::SettingsUpdated(settings),
    {
        self.settings = settings;
        ShellEvent::SettingsUpdated(settings)
    }

    /// Turns hardware acceleration on if it is off, and off if it is on; the
    /// result is the notice to send, with the new setting.
    pub fn toggle_hardware_acceleration(&mut self) -> (notice: ShellEvent)
        ensures
            final(self)@ == (BrowserSettings {
                hardware_acceleration: !old(self)@.hardware_acceleration,
                ..old(self)@
            }),
            notice == ShellEvent::HardwareAccelerationChanged(!old(self)@.hardware_acceleration),
    {
        self.settings.hardware_acceleration = !self.settings.hardware_acceleration;
        ShellEvent::HardwareAccelerationChanged(self.settings.hardware_acceleration)
    }
}

/// The engine that the shell shows pages with, by name, and whether it keeps
/// no trace of them.
#[derive(Debug, PartialEq, Eq)]
pub struct EngineConfig {
    pub engine_type: String,
    pub is_private: bool,
}

pub struct EngineConfigView {
    pub engine_type: Seq<char>,
    pub is_private: bool,
}

impl View for EngineConfig {
    type V = EngineConfigView;

    open spec fn view(&self) -> EngineConfigView {
        EngineConfigView { engine_type: self.engine_type@, is_private: self.is_private }
    }
}

impl Clone for EngineConfig {
    fn clone(&self) -> (config: Self)
        ensures
            config == *self,
    {
        EngineConfig { engine_type: self.engine_type.clone(), is_private: self.is_private }
    }
}

/// The operating system that the shell runs on.
#[derive(Clone, Copy, Debug, PartialEq, Eq, Structural)]
pub enum Platform {
    MacOs,
    Windows,
    Other,
}

/// The webviews that the shell can build.
#[derive(Clone, Copy, Debug, PartialEq, Eq, Structural)]
pub enum WebviewKind {
    Webkit,
    Chromium,
}

/// What the shell asks of the window.
#[derive(Debug, PartialEq, Eq)]
pub enum WebviewRequest {
    /// Replace the webview by a new one at the address.
    Create { kind: WebviewKind, url: String, is_private: bool },
    /// Load the address in the webview.
    Load { kind: WebviewKind, url: String },
}

pub enum WebviewRequestView {
    Create { kind: WebviewKind, url: Seq<char>, is_private: bool },
    Load { kind: WebviewKind, url: Seq<char> },
}

impl View for WebviewRequest {
    type V = WebviewRequestView;

    open spec fn view(&self) -> WebviewRequestView {
        match *self {
            WebviewRequest::Create { kind, url, is_private } => WebviewRequestView::Create {
                kind,
                url: url@,
                is_private,
            },
            WebviewRequest::Load { kind, url } => WebviewRequestView::Load { kind, url: url@ },
        }
    }
}

/// The address that a new webview shows.
pub open spec fn home_page() -> Seq<char> {
    "https://www.google.com"@
}

/// The webview for an engine's name on a platform: WebKit on macOS, Chromium
/// on Windows, and for anything else the reason why there is none.
pub open spec fn resolved(engine_type: Seq<char>, platform: Platform) -> Result<
    WebviewKind,
    Seq<char>,
> {
    if engine_type == "webkit"@ {
        if platform == Platform::MacOs {
            Ok(WebviewKind::Webkit)
        } else {
            Err("WebKit is only supported on macOS"@)
        }
    } else if engine_type == "chromium"@ {
        if platform == Platform::Windows {
            Ok(WebviewKind::Chromium)
        } else {
            Err("Chromium is only supported on Windows"@)
        }
    } else {
        Err("Unsupported engine type: "@ + engine_type)
    }
}

/// A webview or the reason why there is none, as plain values.
pub open spec fn kind_of(outcome: Result<WebviewKind, String>) -> Result<WebviewKind, Seq<char>> {
    match outcome {
        Ok(kind) => Ok(kind),
        Err(reason) => Err(reason@),
    }
}

pub fn resolve(engine_type: &str, platform: Platform) -> (r: Result<WebviewKind, String>)
    ensures
        kind_of(r) == resolved(engine_type@, platform),
{
    if same_text(engine_type, "webkit") {
        match platform {
            Platform::MacOs => Ok(WebviewKind::Webkit),
            _ => Err(String::from_str("WebKit is only supported on macOS")),
        }
    } else if same_text(engine_type, "chromium") {
        match platform {
            Platform::Windows => Ok(WebviewKind::Chromium),
            _ => Err(String::from_str("Chromium is only supported on Windows")),
        }
    } else {
        Err(String::from_str("Unsupported engine type: ").concat(engine_type))
    }
}

/// A request or the reason why there is none, as plain values.
pub open spec fn request_of(outcome: Result<WebviewRequest, String>) -> Result<
    WebviewRequestView,
    Seq<char>,
> {
    match outcome {
        Ok(request) => Ok(request@),
        Err(reason) => Err(reason@),
    }
}

/// A request if there is anything to do, or the reason why it cannot be
/// done, as plain values.
pub open spec fn optional_request_of(outcome: Result<Option<WebviewRequest>, String>) -> Result<
    Option<WebviewRequestView>,
    Seq<char>,
> {
    match outcome {
        Ok(Some(request)) => Ok(Some(request@)),
        Ok(None) => Ok(None),
        Err(reason) => Err(reason@),
    }
}

/// The request for a new webview of the named engine, at the home page.
pub open spec fn creation(engine_type: Seq<char>, is_private: bool, platform: Platform) -> Result<
    WebviewRequestView,
    Seq<char>,
> {
    match resolved(engine_type, platform) {
        Ok(kind) => Ok(WebviewRequestView::Create { kind, url: home_page(), is_private }),
        Err(reason) => Err(reason),
    }
}

/// The engine that the shell has chosen, on the platform it runs on.
#[derive(Debug, PartialEq, Eq)]
pub struct EngineHost {
    current: EngineConfig,
    platform: Platform,
}

impl EngineHost {
    /// The engine chosen.
    pub closed spec fn config(&self) -> EngineConfigView {
        self.current@
    }

    /// The platform that the shell runs on.
    pub closed spec fn platform(&self) -> Platform {
        self.platform
    }

    /// A shell that has chosen WebKit, with traces kept.
    pub fn new(platform: Platform) -> (host: Self)
        ensures
            host.config() == (EngineConfigView { engine_type: "webkit"@, is_private: false }),
            host.platform() == platform,
    {
        EngineHost {
            current: EngineConfig { engine_type: String::from_str("webkit"), is_private: false },
            platform,
        }
    }

    pub fn current(&self) -> (config: EngineConfig)
        ensures
            config@ == self.config(),
    {
        self.current.clone()
    }

    fn create(&self, engine_type: &str, is_private: bool) -> (r: Result<WebviewRequest, String>)
        ensures
            request_of(r) == creation(engine_type@, is_private, self.platform()),
    {
        match resolve(engine_type, self.platform) {
            Ok(kind) => Ok(
                WebviewRequest::Create {
                    kind,
                    url: String::from_str("https://www.google.com"),
                    is_private,
                },
            ),
            Err(reason) => Err(reason),
        }
    }

    /// Chooses an engine. The choice stands also where no webview can be
    /// built for it; the result is then the reason, and else the request for
    /// the webview.
    pub fn init_engine(&mut self, config: EngineConfig) -> (r: Result<WebviewRequest, String>)
        ensures
            final(self).config() == config@,
            final(self).platform() == old(self).platform(),
            request_of(r) == creation(
                config@.engine_type,
                config@.is_private,
                old(self).platform(),
            ),
    {
        let r = self.create(config.engine_type.as_str(), config.is_private);
        self.current = config;
        r
    }

    /// Decides what a change to another engine asks of the window: nothing
    /// where the engine is the one chosen, else a new webview.
    pub fn switch_engine(&self, config: &EngineConfig) -> (r: Result<Option<WebviewRequest>, String>)
        ensures
            optional_request_of(r) == if config@.engine_type == self.config().engine_type {
                Ok::<Option<WebviewRequestView>, Seq<char>>(None)
            } else {
                match creation(config@.engine_type, config@.is_private, self.platform()) {
                    Ok(request) => Ok(Some(request)),
                    Err(reason) => Err(reason),
                }
            },
    {
        if same_text(config.engine_type.as_str(), self.current.engine_type.as_str()) {
            Ok(None)
        } else {
            match self.create(config.engine_type.as_str(), config.is_private) {
                Ok(request) => Ok(Some(request)),
                Err(reason) => Err(reason),
            }
        }
    }

    /// Records that the webview of a change to another engine was built: the
    /// engine is the one chosen from now on. Whether traces are kept is not
    /// changed by it.
    pub fn engine_switched(&mut self, engine_type: String)
        ensures
            final(self).config() == (EngineConfigView {
                engine_type: engine_type@,
                ..old(self).config()
            }),
            final(self).platform() == old(self).platform(),
    {
        self.current.engine_type = engine_type;
    }

    /// The request that loads an address in the webview of the engine chosen.
    pub fn navigate(&self, url: String) -> (r: Result<WebviewRequest, String>)
        ensures
            request_of(r) == (match resolved(self.config().engine_type, self.platform()) {
                Ok(kind) => Ok(WebviewRequestView::Load { kind, url: url@ }),
                Err(reason) => Err(reason),
            }),
    {
        match resolve(self.current.engine_type.as_str(), self.platform) {
            Ok(kind) => Ok(WebviewRequest::Load { kind, url }),
            Err(reason) => Err(reason),
        }
    }

    /// Keeps traces or none from now on. Where that is a change, the webview
    /// is built anew; the setting stands also where none can be built.
    pub fn set_private_mode(&mut self, enabled: bool) -> (r: Result<Option<WebviewRequest>, String>)
        ensures
            final(self).config() == (EngineConfigView { is_private: enabled, ..old(self).config() }),
            final(self).platform() == old(self).platform(),
            optional_request_of(r) == if old(self).config().is_private == enabled {
                Ok::<Option<WebviewRequestView>, Seq<char>>(None)
            } else {
                match creation(old(self).config().engine_type, enabled, old(self).platform()) {
                    Ok(request) => Ok(Some(request)),
                    Err(reason) => Err(reason),
                }
            },
    {
        if self.current.is_private == enabled {
            Ok(None)
        } else {
            self.current.is_private = enabled;
            match self.create(self.current.engine_type.as_str(), enabled) {
                Ok(request) => Ok(Some(request)),
                Err(reason) => Err(reason),
            }
        }
    }
}

/// What can be asked of the shell's window.
#[derive(Clone, Copy, Debug, PartialEq, Eq, Structural)]
pub enum WindowAction {
    /// Ask whether the window is maximised.
    CheckState,
    Minimize,
    Maximize,
    Unmaximize,
    Close,
}

/// The action by which the maximise button is answered: a maximised window
/// is restored, any other is maximised.
pub fn maximize_window(is_maximized: bool) -> (action: WindowAction)
    ensures
        action == if is_maximized {
            WindowAction::Unmaximize
        } else {
            WindowAction::Maximize
        },
{
    if is_maximized {
        WindowAction::Unmaximize
    } else {
        WindowAction::Maximize
    }
}

/// The words that stand before the window's reason when an action fails.
pub open spec fn window_failure_lead(action: WindowAction) -> Seq<char> {
    match action {
        WindowAction::CheckState => "Failed to check window state: "@,
        WindowAction::Minimize => "Failed to minimize window: "@,
        WindowAction::Maximize => "Failed to maximize window: "@,
        WindowAction::Unmaximize => "Failed to unmaximize window: "@,
        WindowAction::Close => "Failed to close window: "@,
    }
}

/// The message for an action that the window refused.
pub fn window_failure(action: WindowAction, reason: &str) -> (message: String)
    ensures
        message@ == window_failure_lead(action) + reason@,
{
    let lead = match action {
        WindowAction::CheckState => "Failed to check window state: ",
        WindowAction::Minimize => "Failed to minimize window: ",
        WindowAction::Maximize => "Failed to maximize window: ",
        WindowAction::Unmaximize => "Failed to unmaximize window: ",
        WindowAction::Close => "Failed to close window: ",
    };
    String::from_str(lead).concat(reason)
}

} // verus!
