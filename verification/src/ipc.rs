//! The values that cross the boundary of the control plane: the browser
//! state, the commands, the events and the response envelope.

use vstd::prelude::*;

verus! {

/// The rendering engines that the control plane knows by name.
#[derive(Clone, Copy, Debug, PartialEq, Eq, Structural)]
pub enum BrowserEngine {
    Blink,
    Gecko,
    Webkit,
    Servo,
}

#[derive(Clone, Copy, Debug, PartialEq, Eq, Structural)]
pub enum PrivacyMode {
    Normal,
    Private,
    Tor,
    Vpn,
}

#[derive(Clone, Copy, Debug, PartialEq, Eq, Structural)]
pub enum NetworkRoute {
    Direct,
    Tor,
    Vpn,
    Proxy,
}

impl BrowserEngine {
    /// Only Blink has an adapter; the other names are reserved.
    pub open spec fn implemented(self) -> bool {
        self == BrowserEngine::Blink
    }

    pub fn is_implemented(&self) -> (b: bool)
        ensures
            b == self.implemented(),
    {
        match self {
            BrowserEngine::Blink => true,
            _ => false,
        }
    }
}

impl PrivacyMode {
    /// Entering a private or a Tor session discards the stored browsing data.
    pub open spec fn clears_data(self) -> bool {
        self == PrivacyMode::Private || self == PrivacyMode::Tor
    }

    pub fn requires_clear(&self) -> (b: bool)
        ensures
            b == self.clears_data(),
    {
        match self {
            PrivacyMode::Private => true,
            PrivacyMode::Tor => true,
            _ => false,
        }
    }
}

/// The text of an optional string.
pub open spec fn text_of(s: Option<String>) -> Option<Seq<char>> {
    match s {
        Some(t) => Some(t@),
        None => None,
    }
}

#[derive(Debug, PartialEq, Eq)]
pub struct CertificateInfo {
    pub issuer: String,
    pub valid_from: String,
    pub valid_to: String,
}

pub struct CertificateInfoView {
    pub issuer: Seq<char>,
    pub valid_from: Seq<char>,
    pub valid_to: Seq<char>,
}

impl View for CertificateInfo {
    type V = CertificateInfoView;

    open spec fn view(&self) -> CertificateInfoView {
        CertificateInfoView {
            issuer: self.issuer@,
            valid_from: self.valid_from@,
            valid_to: self.valid_to@,
        }
    }
}

impl Clone for CertificateInfo {
    fn clone(&self) -> (c: Self)
        ensures
            c == *self,
    {
        CertificateInfo {
            issuer: self.issuer.clone(),
            valid_from: self.valid_from.clone(),
            valid_to: self.valid_to.clone(),
        }
    }
}

pub open spec fn certificate_of(c: Option<CertificateInfo>) -> Option<CertificateInfoView> {
    match c {
        Some(info) => Some(info@),
        None => None,
    }
}

/// The one snapshot of what the browser shows.
#[derive(Debug, PartialEq, Eq)]
pub struct BrowserState {
    pub current_url: String,
    pub is_loading: bool,
    pub current_engine: BrowserEngine,
    pub privacy_mode: PrivacyMode,
    pub network_route: NetworkRoute,
    pub title: Option<String>,
    pub favicon: Option<String>,
    pub is_secure: bool,
    pub certificate_info: Option<CertificateInfo>,
}

pub struct BrowserStateView {
    pub current_url: Seq<char>,
    pub is_loading: bool,
    pub current_engine: BrowserEngine,
    pub privacy_mode: PrivacyMode,
    pub network_route: NetworkRoute,
    pub title: Option<Seq<char>>,
    pub favicon: Option<Seq<char>>,
    pub is_secure: bool,
    pub certificate_info: Option<CertificateInfoView>,
}

impl View for BrowserState {
    type V = BrowserStateView;

    open spec fn view(&self) -> BrowserStateView {
        BrowserStateView {
            current_url: self.current_url@,
            is_loading: self.is_loading,
            current_engine: self.current_engine,
            privacy_mode: self.privacy_mode,
            network_route: self.network_route,
            title: text_of(self.title),
            favicon: text_of(self.favicon),
            is_secure: self.is_secure,
            certificate_info: certificate_of(self.certificate_info),
        }
    }
}

impl BrowserStateView {
    /// The state of a browser that has loaded nothing yet.
    pub open spec fn initial() -> BrowserStateView {
        BrowserStateView {
            current_url: "about:blank"@,
            is_loading: false,
            current_engine: BrowserEngine::Blink,
            privacy_mode: PrivacyMode::Normal,
            network_route: NetworkRoute::Direct,
            title: None,
            favicon: None,
            is_secure: false,
            certificate_info: None,
        }
    }

    /// No certificate is shown for a connection that is not secure.
    pub open spec fn certificate_consistent(self) -> bool {
        !self.is_secure ==> self.certificate_info is None
    }
}

impl Default for BrowserState {
    fn default() -> (s: Self)
        ensures
            s@ == BrowserStateView::initial(),
    {
        BrowserState {
            current_url: String::from_str("about:blank"),
            is_loading: false,
            current_engine: BrowserEngine::Blink,
            privacy_mode: PrivacyMode::Normal,
            network_route: NetworkRoute::Direct,
            title: None,
            favicon: None,
            is_secure: false,
            certificate_info: None,
        }
    }
}

impl Clone for BrowserState {
    fn clone(&self) -> (s: Self)
        ensures
            s == *self,
    {
        BrowserState {
            current_url: self.current_url.clone(),
            is_loading: self.is_loading,
            current_engine: self.current_engine,
            privacy_mode: self.privacy_mode,
            network_route: self.network_route,
            title: self.title.clone(),
            favicon: self.favicon.clone(),
            is_secure: self.is_secure,
            certificate_info: self.certificate_info.clone(),
        }
    }
}

/// A request from the user interface.
#[derive(Debug, PartialEq, Eq)]
pub enum IPCCommand {
    Navigate { url: String },
    SwitchEngine { engine: BrowserEngine },
    SetPrivacyMode { mode: PrivacyMode },
    SetNetworkRoute { route: NetworkRoute },
    Reload,
    Stop,
    GoBack,
    GoForward,
}

pub enum IPCCommandView {
    Navigate { url: Seq<char> },
    SwitchEngine { engine: BrowserEngine },
    SetPrivacyMode { mode: PrivacyMode },
    SetNetworkRoute { route: NetworkRoute },
    Reload,
    Stop,
    GoBack,
    GoForward,
}

impl View for IPCCommand {
    type V = IPCCommandView;

    open spec fn view(&self) -> IPCCommandView {
        match *self {
            IPCCommand::Navigate { url } => IPCCommandView::Navigate { url: url@ },
            IPCCommand::SwitchEngine { engine } => IPCCommandView::SwitchEngine { engine },
            IPCCommand::SetPrivacyMode { mode } => IPCCommandView::SetPrivacyMode { mode },
            IPCCommand::SetNetworkRoute { route } => IPCCommandView::SetNetworkRoute { route },
            IPCCommand::Reload => IPCCommandView::Reload,
            IPCCommand::Stop => IPCCommandView::Stop,
            IPCCommand::GoBack => IPCCommandView::GoBack,
            IPCCommand::GoForward => IPCCommandView::GoForward,
        }
    }
}

impl Clone for IPCCommand {
    fn clone(&self) -> (c: Self)
        ensures
            c == *self,
    {
        match self {
            IPCCommand::Navigate { url } => IPCCommand::Navigate { url: url.clone() },
            IPCCommand::SwitchEngine { engine } => IPCCommand::SwitchEngine { engine: *engine },
            IPCCommand::SetPrivacyMode { mode } => IPCCommand::SetPrivacyMode { mode: *mode },
            IPCCommand::SetNetworkRoute { route } => IPCCommand::SetNetworkRoute { route: *route },
            IPCCommand::Reload => IPCCommand::Reload,
            IPCCommand::Stop => IPCCommand::Stop,
            IPCCommand::GoBack => IPCCommand::GoBack,
            IPCCommand::GoForward => IPCCommand::GoForward,
        }
    }
}

/// The bit pattern of the double-precision number 1.0.
pub const PROGRESS_COMPLETE: u64 = 0x3FF0_0000_0000_0000;

/// The bit pattern of the double-precision number -0.0.
pub const PROGRESS_NEGATIVE_ZERO: u64 = 0x8000_0000_0000_0000;

/// Whether a double-precision number, given by its bit pattern, lies between
/// 0 and 1. Among the patterns without a sign bit the numbers are ordered as
/// their patterns are, and those above the pattern of infinity are no numbers.
pub open spec fn is_fraction(bits: u64) -> bool {
    bits <= PROGRESS_COMPLETE || bits == PROGRESS_NEGATIVE_ZERO
}

/// A notice to the subscribers of the event bus.
///
/// The progress of a download is a double-precision number between 0 and 1,
/// held by its bit pattern.
#[derive(Debug, PartialEq, Eq)]
pub enum IPCEvent {
    StateUpdate(BrowserState),
    Error { code: String, message: String },
    DownloadProgress { id: String, progress_bits: u64 },
    CertificateError { url: String, error: String },
}

pub enum IPCEventView {
    StateUpdate(BrowserStateView),
    Error { code: Seq<char>, message: Seq<char> },
    DownloadProgress { id: Seq<char>, progress_bits: u64 },
    CertificateError { url: Seq<char>, error: Seq<char> },
}

impl View for IPCEvent {
    type V = IPCEventView;

    open spec fn view(&self) -> IPCEventView {
        match *self {
            IPCEvent::StateUpdate(state) => IPCEventView::StateUpdate(state@),
            IPCEvent::Error { code, message } => IPCEventView::Error {
                code: code@,
                message: message@,
            },
            IPCEvent::DownloadProgress { id, progress_bits } => IPCEventView::DownloadProgress {
                id: id@,
                progress_bits,
            },
            IPCEvent::CertificateError { url, error } => IPCEventView::CertificateError {
                url: url@,
                error: error@,
            },
        }
    }
}

impl IPCEventView {
    /// A download's progress is a fraction; the other events hold free text.
    pub open spec fn well_formed(self) -> bool {
        self matches IPCEventView::DownloadProgress { progress_bits, .. } ==> is_fraction(
            progress_bits,
        )
    }
}

impl IPCEvent {
    pub fn is_well_formed(&self) -> (b: bool)
        ensures
            b == self@.well_formed(),
    {
        match self {
            IPCEvent::DownloadProgress { progress_bits, .. } => {
                *progress_bits <= PROGRESS_COMPLETE || *progress_bits == PROGRESS_NEGATIVE_ZERO
            },
            _ => true,
        }
    }
}

impl Clone for IPCEvent {
    fn clone(&self) -> (e: Self)
        ensures
            e == *self,
    {
        match self {
            IPCEvent::StateUpdate(state) => IPCEvent::StateUpdate(state.clone()),
            IPCEvent::Error { code, message } => IPCEvent::Error {
                code: code.clone(),
                message: message.clone(),
            },
            IPCEvent::DownloadProgress { id, progress_bits } => IPCEvent::DownloadProgress {
                id: id.clone(),
                progress_bits: *progress_bits,
            },
            IPCEvent::CertificateError { url, error } => IPCEvent::CertificateError {
                url: url.clone(),
                error: error.clone(),
            },
        }
    }
}

#[derive(Debug, PartialEq, Eq)]
pub struct ErrorInfo {
    pub code: String,
    pub message: String,
}

pub struct ErrorInfoView {
    pub code: Seq<char>,
    pub message: Seq<char>,
}

impl View for ErrorInfo {
    type V = ErrorInfoView;

    open spec fn view(&self) -> ErrorInfoView {
        ErrorInfoView { code: self.code@, message: self.message@ }
    }
}

impl Clone for ErrorInfo {
    fn clone(&self) -> (e: Self)
        ensures
            e == *self,
    {
        ErrorInfo { code: self.code.clone(), message: self.message.clone() }
    }
}

pub open spec fn error_of(e: Option<ErrorInfo>) -> Option<ErrorInfoView> {
    match e {
        Some(info) => Some(info@),
        None => None,
    }
}

/// The one answer to a command: success with optional data, or an error.
#[derive(Debug, PartialEq, Eq)]
pub struct IPCResponse<T = ()> {
    pub success: bool,
    pub data: Option<T>,
    pub error: Option<ErrorInfo>,
}

pub struct IPCResponseView<T> {
    pub success: bool,
    pub data: Option<T>,
    pub error: Option<ErrorInfoView>,
}

impl<T> View for IPCResponse<T> {
    type V = IPCResponseView<T>;

    open spec fn view(&self) -> IPCResponseView<T> {
        IPCResponseView { success: self.success, data: self.data, error: error_of(self.error) }
    }
}

impl<T: Clone> Clone for IPCResponse<T> {
    fn clone(&self) -> (r: Self)
        ensures
            r.success == self.success,
            r.error == self.error,
            r.data is Some <==> self.data is Some,
    {
        IPCResponse {
            success: self.success,
            data: self.data.clone(),
            error: self.error.clone(),
        }
    }
}

impl<T> IPCResponseView<T> {
    /// Success and an error exclude each other.
    pub open spec fn well_formed(self) -> bool {
        self.success <==> self.error is None
    }
}

impl<T> IPCResponse<T> {

    /// The answer to a command that was carried out and returns nothing.
    pub fn ok() -> (r: Self)
        ensures
            r@ == (IPCResponseView::<T> { success: true, data: None, error: None }),
    {
        IPCResponse { success: true, data: None, error: None }
    }

    /// The answer to a command that failed.
    pub fn failure(error: ErrorInfo) -> (r: Self)
        ensures
            r@ == (IPCResponseView::<T> { success: false, data: None, error: Some(error@) }),
    {
        IPCResponse { success: false, data: None, error: Some(error) }
    }
}

/// The names under which the user interface caches what it was sent.
pub const CACHE_KEYS: [&'static str; 4] = [
    "browserState",
    "browserHistory",
    "downloads",
    "certificates",
];

} // verus!
