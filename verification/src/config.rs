//! Settings of the service, their defaults and their checks.  Durations
//! are in seconds where the name says so; addresses are `host:port` text.

use vstd::prelude::*;

use crate::signature_error::SignatureError;
use crate::text::{chars_of, concat, string_from_chars, strings_view, trim, trim_chars};

verus! {

/// The account cookies used to sign.
#[derive(Debug, Clone, PartialEq, Eq)]
pub struct AuthConfig {
    pub ttwid: String,
    pub sessionid: String,
}

/// `name=value` for a cookie whose value is not blank.
pub open spec fn cookie_part(name: Seq<char>, value: Seq<char>) -> Seq<Seq<char>> {
    if trim(value).len() == 0 {
        Seq::empty()
    } else {
        seq![name + "="@ + trim(value)]
    }
}

/// `parts` joined with `"; "`.
pub open spec fn join_parts(parts: Seq<Seq<char>>) -> Seq<char>
    decreases parts.len(),
{
    if parts.len() == 0 {
        Seq::empty()
    } else if parts.len() == 1 {
        parts[0]
    } else {
        join_parts(parts.drop_last()) + "; "@ + parts.last()
    }
}

fn trimmed(s: &str) -> (r: String)
    ensures
        r@ == trim(s@),
{
    let c = chars_of(s);
    let t = trim_chars(c.as_slice());
    string_from_chars(t.as_slice())
}

impl AuthConfig {
    pub fn default() -> (r: Self)
        ensures
            r.ttwid@ == Seq::<char>::empty(),
            r.sessionid@ == Seq::<char>::empty(),
    {
        AuthConfig { ttwid: String::new(), sessionid: String::new() }
    }

    /// At least one cookie must be set (white space alone does not count).
    pub fn validate(&self) -> (r: Result<(), SignatureError>)
        ensures
            trim(self.ttwid@).len() == 0 && trim(self.sessionid@).len() == 0 ==> (r matches Err(
                SignatureError::ConfigMissing { field },
            ) && field@ == "auth.ttwid or auth.sessionid"@),
            !(trim(self.ttwid@).len() == 0 && trim(self.sessionid@).len() == 0) ==> r is Ok,
    {
        if !self.has_any() {
            return Err(
                SignatureError::ConfigMissing { field: "auth.ttwid or auth.sessionid".to_owned() },
            );
        }
        Ok(())
    }

    /// The `Cookie` header: `ttwid=<v>; sessionid=<v>`, trimmed, leaving out
    /// blank cookies.
    pub fn to_cookie_header(&self) -> (r: String)
        ensures
            r@ == join_parts(cookie_part("ttwid"@, self.ttwid@) + cookie_part("sessionid"@, self.sessionid@)),
    {
        let t = trimmed(self.ttwid.as_str());
        let s = trimmed(self.sessionid.as_str());
        let a = concat("ttwid=", t.as_str());
        let b = concat("sessionid=", s.as_str());
        proof {
            reveal_strlit("ttwid=");
            reveal_strlit("ttwid");
            reveal_strlit("=");
            reveal_strlit("sessionid=");
            reveal_strlit("sessionid");
            assert("ttwid="@ =~= "ttwid"@ + "="@);
            assert("sessionid="@ =~= "sessionid"@ + "="@);
            assert(a@ =~= "ttwid"@ + "="@ + t@);
            assert(b@ =~= "sessionid"@ + "="@ + s@);
        }
        let t_empty = t.as_str().is_empty();
        let s_empty = s.as_str().is_empty();
        let ghost parts = cookie_part("ttwid"@, self.ttwid@) + cookie_part("sessionid"@, self.sessionid@);
        if !t_empty && !s_empty {
            let head = concat(a.as_str(), "; ");
            let r = concat(head.as_str(), b.as_str());
            proof {
                assert(cookie_part("ttwid"@, self.ttwid@) =~= seq![a@]);
                assert(cookie_part("sessionid"@, self.sessionid@) =~= seq![b@]);
                assert(parts =~= seq![a@, b@]);
                assert(parts.drop_last() =~= seq![a@]);
                assert(join_parts(parts.drop_last()) == a@);
                assert(r@ =~= a@ + "; "@ + b@);
            }
            r
        } else if !t_empty {
            assert(parts =~= seq![a@]);
            a
        } else if !s_empty {
            assert(parts =~= seq![b@]);
            b
        } else {
            assert(parts =~= Seq::<Seq<char>>::empty());
            String::new()
        }
    }

    /// Whether a cookie is set (white space alone does not count).
    pub fn has_any(&self) -> (r: bool)
        ensures
            r == !(trim(self.ttwid@).len() == 0 && trim(self.sessionid@).len() == 0),
    {
        let t = trimmed(self.ttwid.as_str());
        let s = trimmed(self.sessionid.as_str());
        !t.as_str().is_empty() || !s.as_str().is_empty()
    }
}

/// How signed material is obtained.
#[derive(Debug, Clone, Copy, PartialEq, Eq)]
pub enum SignerMode {
    /// From a pool of headless browsers.
    Browser,
    /// From the fetch endpoint over HTTP.
    Http,
    /// Over HTTP, falling back to the browsers.
    Auto,
}

/// The mode named `s`: `browser`, `http` or `auto`; anything else means
/// the browsers.
pub open spec fn signer_mode_of(s: Seq<char>) -> SignerMode {
    if s == "http"@ {
        SignerMode::Http
    } else if s == "auto"@ {
        SignerMode::Auto
    } else {
        SignerMode::Browser
    }
}

/// Where the service listens and which room it follows.
#[derive(Debug, Clone, PartialEq, Eq)]
pub struct ServiceConfig {
    pub room_id: String,
    pub ws_listen_addr: String,
    pub grpc_listen_addr: String,
    pub metrics_listen_addr: String,
}

/// The upstream push connection.
#[derive(Debug, Clone, PartialEq, Eq)]
pub struct WssConfig {
    pub url: String,
    pub headers: Vec<(String, String)>,
    pub heartbeat_interval_secs: u64,
    pub reconnect_initial_secs: u64,
    pub reconnect_max_secs: u64,
    /// 0: retry for ever.
    pub max_reconnect_attempts: u32,
}

/// Which events are pushed downstream.
#[derive(Debug, Clone, PartialEq, Eq)]
pub struct EventsConfig {
    pub push_event_methods: Vec<String>,
}

/// The room information API.
#[derive(Debug, Clone, PartialEq, Eq)]
pub struct RoomApiConfig {
    pub cookie: String,
    pub user_agent: String,
    pub enabled: bool,
    pub base_url: String,
}

/// The intercepting proxy fallback.
#[derive(Debug, Clone, PartialEq, Eq)]
pub struct MitmConfig {
    pub fallback_enabled: bool,
    pub proxy_port: u16,
}

#[derive(Debug, Clone, PartialEq, Eq)]
pub struct LoggingConfig {
    pub level: String,
    pub json_format: bool,
}

/// The signing browsers.
#[derive(Debug, Clone, PartialEq, Eq)]
pub struct BrowserConfig {
    pub edge_path: String,
    pub pool_size: usize,
    pub max_concurrent_per_browser: usize,
    pub sign_timeout_secs: u64,
    pub health_check_interval_secs: u64,
    pub user_data_dir_template: String,
    pub extra_args: Vec<String>,
    pub cdp_port_base: u16,
}

#[derive(Debug, Clone, PartialEq, Eq)]
pub struct RestConfig {
    pub listen_addr: String,
}

#[derive(Debug, Clone, PartialEq, Eq)]
pub struct SignerConfig {
    pub mode: String,
}

/// All settings.
#[derive(Debug, Clone, PartialEq, Eq)]
pub struct AppConfig {
    pub service: ServiceConfig,
    pub wss: WssConfig,
    pub events: EventsConfig,
    pub room_api: RoomApiConfig,
    pub auth: AuthConfig,
    pub mitm: MitmConfig,
    pub logging: LoggingConfig,
    pub browser: BrowserConfig,
    pub rest: RestConfig,
    pub signer: SignerConfig,
}

pub fn default_ws_addr() -> (r: String)
    ensures
        r@ == "0.0.0.0:8888"@,
{
    "0.0.0.0:8888".to_owned()
}

pub fn default_grpc_addr() -> (r: String)
    ensures
        r@ == "0.0.0.0:50051"@,
{
    "0.0.0.0:50051".to_owned()
}

pub fn default_metrics_addr() -> (r: String)
    ensures
        r@ == "0.0.0.0:9090"@,
{
    "0.0.0.0:9090".to_owned()
}

pub fn default_rest_addr() -> (r: String)
    ensures
        r@ == "0.0.0.0:7878"@,
{
    "0.0.0.0:7878".to_owned()
}

pub fn default_heartbeat_interval_secs() -> (r: u64)
    ensures
        r == 5,
{
    5
}

pub fn default_reconnect_initial_secs() -> (r: u64)
    ensures
        r == 1,
{
    1
}

pub fn default_reconnect_max_secs() -> (r: u64)
    ensures
        r == 60,
{
    60
}

/// No limit: reconnect for ever.
pub fn default_max_reconnect_attempts() -> (r: u32)
    ensures
        r == 0,
{
    0
}

/// Chat, gift and like.
pub fn default_push_event_methods() -> (r: Vec<String>)
    ensures
        strings_view(r@) == seq!["WebcastChatMessage"@, "WebcastGiftMessage"@, "WebcastLikeMessage"@],
{
    let mut v: Vec<String> = Vec::new();
    v.push("WebcastChatMessage".to_owned());
    v.push("WebcastGiftMessage".to_owned());
    v.push("WebcastLikeMessage".to_owned());
    assert(strings_view(v@) =~= seq![
        "WebcastChatMessage"@,
        "WebcastGiftMessage"@,
        "WebcastLikeMessage"@,
    ]);
    v
}

pub open spec fn default_user_agent_text() -> Seq<char> {
    "Mozilla/5.0 (Windows NT 10.0; Win64; x64) AppleWebKit/537.36 (KHTML, like Gecko) Chrome/131.0.0.0 Safari/537.36 Edg/131.0.0.0"@
}

pub fn default_user_agent() -> (r: String)
    ensures
        r@ == default_user_agent_text(),
{
    "Mozilla/5.0 (Windows NT 10.0; Win64; x64) AppleWebKit/537.36 (KHTML, like Gecko) Chrome/131.0.0.0 Safari/537.36 Edg/131.0.0.0".to_owned()
}

pub fn default_room_api_enabled() -> (r: bool)
    ensures
        r,
{
    true
}

pub fn default_room_api_base_url() -> (r: String)
    ensures
        r@ == "https://live.douyin.com"@,
{
    "https://live.douyin.com".to_owned()
}

pub fn default_mitm_proxy_port() -> (r: u16)
    ensures
        r == 8827,
{
    8827
}

pub fn default_log_level() -> (r: String)
    ensures
        r@ == "info"@,
{
    "info".to_owned()
}

pub fn default_edge_path() -> (r: String)
    ensures
        r@ == "C:\\Program Files (x86)\\Microsoft\\Edge\\Application\\msedge.exe"@,
{
    "C:\\Program Files (x86)\\Microsoft\\Edge\\Application\\msedge.exe".to_owned()
}

pub fn default_pool_size() -> (r: usize)
    ensures
        r == 3,
{
    3
}

pub fn default_max_concurrent() -> (r: usize)
    ensures
        r == 2,
{
    2
}

pub fn default_sign_timeout() -> (r: u64)
    ensures
        r == 10,
{
    10
}

pub fn default_health_check_interval() -> (r: u64)
    ensures
        r == 30,
{
    30
}

pub fn default_user_data_dir_template() -> (r: String)
    ensures
        r@ == "./data/browser-{id}"@,
{
    "./data/browser-{id}".to_owned()
}

pub fn default_cdp_port_base() -> (r: u16)
    ensures
        r == 9222,
{
    9222
}

pub fn default_signer_mode_str() -> (r: String)
    ensures
        r@ == "browser"@,
{
    "browser".to_owned()
}

impl ServiceConfig {
    pub fn default() -> (r: Self)
        ensures
            r.room_id@ == Seq::<char>::empty(),
            r.ws_listen_addr@ == "0.0.0.0:8888"@,
            r.grpc_listen_addr@ == "0.0.0.0:50051"@,
            r.metrics_listen_addr@ == "0.0.0.0:9090"@,
    {
        ServiceConfig {
            room_id: String::new(),
            ws_listen_addr: default_ws_addr(),
            grpc_listen_addr: default_grpc_addr(),
            metrics_listen_addr: default_metrics_addr(),
        }
    }
}

impl WssConfig {
    pub fn default() -> (r: Self)
        ensures
            r.url@ == Seq::<char>::empty(),
            r.headers@.len() == 0,
            r.heartbeat_interval_secs == 5,
            r.reconnect_initial_secs == 1,
            r.reconnect_max_secs == 60,
            r.max_reconnect_attempts == 0,
    {
        WssConfig {
            url: String::new(),
            headers: Vec::new(),
            heartbeat_interval_secs: default_heartbeat_interval_secs(),
            reconnect_initial_secs: default_reconnect_initial_secs(),
            reconnect_max_secs: default_reconnect_max_secs(),
            max_reconnect_attempts: default_max_reconnect_attempts(),
        }
    }
}

impl EventsConfig {
    pub fn default() -> (r: Self)
        ensures
            strings_view(r.push_event_methods@) == seq![
                "WebcastChatMessage"@,
                "WebcastGiftMessage"@,
                "WebcastLikeMessage"@,
            ],
    {
        EventsConfig { push_event_methods: default_push_event_methods() }
    }
}

impl RoomApiConfig {
    pub fn default() -> (r: Self)
        ensures
            r.cookie@ == Seq::<char>::empty(),
            r.user_agent@ == default_user_agent_text(),
            r.enabled,
            r.base_url@ == "https://live.douyin.com"@,
    {
        RoomApiConfig {
            cookie: String::new(),
            user_agent: default_user_agent(),
            enabled: default_room_api_enabled(),
            base_url: default_room_api_base_url(),
        }
    }
}

impl MitmConfig {
    pub fn default() -> (r: Self)
        ensures
            !r.fallback_enabled,
            r.proxy_port == 8827,
    {
        MitmConfig { fallback_enabled: false, proxy_port: default_mitm_proxy_port() }
    }
}

impl LoggingConfig {
    pub fn default() -> (r: Self)
        ensures
            r.level@ == "info"@,
            !r.json_format,
    {
        LoggingConfig { level: default_log_level(), json_format: false }
    }
}

impl BrowserConfig {
    pub fn default() -> (r: Self)
        ensures
            r.edge_path@ == "C:\\Program Files (x86)\\Microsoft\\Edge\\Application\\msedge.exe"@,
            r.pool_size == 3,
            r.max_concurrent_per_browser == 2,
            r.sign_timeout_secs == 10,
            r.health_check_interval_secs == 30,
            r.user_data_dir_template@ == "./data/browser-{id}"@,
            r.extra_args@.len() == 0,
            r.cdp_port_base == 9222,
    {
        BrowserConfig {
            edge_path: default_edge_path(),
            pool_size: default_pool_size(),
            max_concurrent_per_browser: default_max_concurrent(),
            sign_timeout_secs: default_sign_timeout(),
            health_check_interval_secs: default_health_check_interval(),
            user_data_dir_template: default_user_data_dir_template(),
            extra_args: Vec::new(),
            cdp_port_base: default_cdp_port_base(),
        }
    }
}

impl RestConfig {
    pub fn default() -> (r: Self)
        ensures
            r.listen_addr@ == "0.0.0.0:7878"@,
    {
        RestConfig { listen_addr: default_rest_addr() }
    }
}

impl SignerConfig {
    pub fn default() -> (r: Self)
        ensures
            r.mode@ == "browser"@,
    {
        SignerConfig { mode: default_signer_mode_str() }
    }
}

impl AppConfig {
    /// Every section at its defaults.
    pub fn default() -> (r: Self)
        ensures
            r.service.room_id@ == Seq::<char>::empty(),
            r.wss.url@ == Seq::<char>::empty(),
            strings_view(r.events.push_event_methods@) == seq![
                "WebcastChatMessage"@,
                "WebcastGiftMessage"@,
                "WebcastLikeMessage"@,
            ],
            r.signer.mode@ == "browser"@,
            r.auth.ttwid@ == Seq::<char>::empty() && r.auth.sessionid@ == Seq::<char>::empty(),
            r.service.ws_listen_addr@ == "0.0.0.0:8888"@,
            r.service.grpc_listen_addr@ == "0.0.0.0:50051"@,
            r.service.metrics_listen_addr@ == "0.0.0.0:9090"@,
            r.wss.headers@.len() == 0,
            r.wss.heartbeat_interval_secs == 5,
            r.wss.reconnect_initial_secs == 1,
            r.wss.reconnect_max_secs == 60,
            r.wss.max_reconnect_attempts == 0,
            r.room_api.cookie@ == Seq::<char>::empty(),
            r.room_api.user_agent@ == default_user_agent_text(),
            r.room_api.enabled,
            r.room_api.base_url@ == "https://live.douyin.com"@,
            !r.mitm.fallback_enabled,
            r.mitm.proxy_port == 8827,
            r.logging.level@ == "info"@,
            !r.logging.json_format,
            r.browser.edge_path@ == "C:\\Program Files (x86)\\Microsoft\\Edge\\Application\\msedge.exe"@,
            r.browser.pool_size == 3,
            r.browser.max_concurrent_per_browser == 2,
            r.browser.sign_timeout_secs == 10,
            r.browser.health_check_interval_secs == 30,
            r.browser.user_data_dir_template@ == "./data/browser-{id}"@,
            r.browser.extra_args@.len() == 0,
            r.browser.cdp_port_base == 9222,
            r.rest.listen_addr@ == "0.0.0.0:7878"@,
    {
        AppConfig {
            service: ServiceConfig::default(),
            wss: WssConfig::default(),
            events: EventsConfig::default(),
            room_api: RoomApiConfig::default(),
            auth: AuthConfig::default(),
            mitm: MitmConfig::default(),
            logging: LoggingConfig::default(),
            browser: BrowserConfig::default(),
            rest: RestConfig::default(),
            signer: SignerConfig::default(),
        }
    }

    /// A room id is required, and at least one event method to push.  An
    /// empty upstream URL is allowed: material may come later.
    pub fn validate(&self) -> (r: Result<(), String>)
        ensures
            self.service.room_id@.len() == 0 ==> (r matches Err(m) && m@
                == "service.room_id is empty. Set via config.toml [service] section, ELEVEN_BARRAGE_ROOM_ID env var, or --room-id CLI flag."@),
            self.service.room_id@.len() > 0 && self.events.push_event_methods@.len() == 0 ==> (r matches Err(
                m,
            ) && m@ == "events.push_event_methods cannot be empty"@),
            self.service.room_id@.len() > 0 && self.events.push_event_methods@.len() > 0 ==> r is Ok,
    {
        if self.service.room_id.as_str().is_empty() {
            return Err(
                "service.room_id is empty. Set via config.toml [service] section, ELEVEN_BARRAGE_ROOM_ID env var, or --room-id CLI flag.".to_owned(),
            );
        }
        if self.push_event_methods().len() == 0 {
            return Err("events.push_event_methods cannot be empty".to_owned());
        }
        Ok(())
    }

    /// The methods of the events to push.
    pub fn push_event_methods(&self) -> (r: &[String])
        ensures
            r@ == self.events.push_event_methods@,
    {
        self.events.push_event_methods.as_slice()
    }

    /// The configured signer mode.
    pub fn signer_mode(&self) -> (r: SignerMode)
        ensures
            r == signer_mode_of(self.signer.mode@),
    {
        let m = &self.signer.mode;
        if *m == "http".to_owned() {
            SignerMode::Http
        } else if *m == "auto".to_owned() {
            SignerMode::Auto
        } else {
            SignerMode::Browser
        }
    }
}

} // verus!
