//! What a room's collector is started with, from the signed material and
//! the service's settings.

use vstd::prelude::*;

use crate::config::{AuthConfig, BrowserConfig, WssConfig};
use crate::fetch_consumer::FetchConsumerConfig;
use crate::material::{SignedMaterial, SignedWssMaterial};
use crate::pool::BrowserPoolConfig;
use crate::text::{concat, copy_pairs, copy_strings, replace_all, replace_spec};

verus! {

/// Where a fetch collector's browser is and whom it follows.
#[derive(Debug, Clone, PartialEq, Eq)]
pub struct CollectorContext {
    pub browser_path: String,
    pub user_data_dir: String,
    pub cdp_port_base: u16,
    pub extra_args: Vec<String>,
    pub web_rid: String,
    pub auth_cookies: Vec<(String, String)>,
}

impl CollectorContext {
    /// The usual browser location and a profile directory of its own.
    pub fn default() -> (r: Self)
        ensures
            r.browser_path@ == "C:\\Program Files (x86)\\Microsoft\\Edge\\Application\\msedge.exe"@,
            r.user_data_dir@ == "./data/collector"@,
            r.cdp_port_base == 9222,
            r.extra_args@.len() == 0,
            r.web_rid@ == Seq::<char>::empty(),
            r.auth_cookies@.len() == 0,
    {
        CollectorContext {
            browser_path: "C:\\Program Files (x86)\\Microsoft\\Edge\\Application\\msedge.exe".to_owned(),
            user_data_dir: "./data/collector".to_owned(),
            cdp_port_base: 9222,
            extra_args: Vec::new(),
            web_rid: String::new(),
            auth_cookies: Vec::new(),
        }
    }
}

/// The context of a room created on demand: the configured browser, a
/// profile directory named after the room (`{id}` in the template becomes
/// `dynamic-<web_rid>`), and the account cookies.
pub fn collector_context_for(browser: &BrowserConfig, web_rid: &str, auth_cookies: Vec<(String, String)>) -> (r:
    CollectorContext)
    ensures
        r.browser_path == browser.edge_path,
        r.user_data_dir@ == replace_spec(
            browser.user_data_dir_template@,
            "{id}"@,
            "dynamic-"@ + web_rid@,
        ),
        r.cdp_port_base == browser.cdp_port_base,
        r.extra_args@ == browser.extra_args@,
        r.web_rid@ == web_rid@,
        r.auth_cookies == auth_cookies,
{
    let id = concat("dynamic-", web_rid);
    proof {
        reveal_strlit("{id}");
    }
    CollectorContext {
        browser_path: browser.edge_path.clone(),
        user_data_dir: replace_all(browser.user_data_dir_template.as_str(), "{id}", id.as_str()),
        cdp_port_base: browser.cdp_port_base,
        extra_args: copy_strings(browser.extra_args.as_slice()),
        web_rid: web_rid.to_owned(),
        auth_cookies,
    }
}

/// The upstream connection settings for push material: its URL and
/// headers, the other settings at their defaults.
pub fn wss_config_for(material: &SignedWssMaterial) -> (r: WssConfig)
    ensures
        r.url == material.url,
        r.headers@ == material.headers@,
        r.heartbeat_interval_secs == 5,
        r.reconnect_initial_secs == 1,
        r.reconnect_max_secs == 60,
        r.max_reconnect_attempts == 0,
{
    let d = WssConfig::default();
    WssConfig { url: material.url.clone(), headers: copy_pairs(material.headers.as_slice()), ..d }
}

/// The polling consumer's settings from a context: keep-alive every 5 s,
/// 30 s to load the room page.
pub fn fetch_config_for(ctx: CollectorContext) -> (r: FetchConsumerConfig)
    ensures
        r.edge_path == ctx.browser_path,
        r.user_data_dir == ctx.user_data_dir,
        r.cdp_port == ctx.cdp_port_base,
        r.extra_args == ctx.extra_args,
        r.web_rid == ctx.web_rid,
        r.auth_cookies == ctx.auth_cookies,
        r.keepalive_interval == 5000,
        r.navigation_timeout == 30_000,
{
    FetchConsumerConfig {
        edge_path: ctx.browser_path,
        user_data_dir: ctx.user_data_dir,
        cdp_port: ctx.cdp_port_base,
        extra_args: ctx.extra_args,
        web_rid: ctx.web_rid,
        auth_cookies: ctx.auth_cookies,
        keepalive_interval: 5000,
        navigation_timeout: 30_000,
    }
}

/// The account cookies as name/value pairs: each cookie that is set (not
/// empty), ttwid first.
pub fn auth_cookie_pairs(auth: &AuthConfig) -> (r: Vec<(String, String)>)
    ensures
        r@.len() == (if auth.ttwid@.len() > 0 { 1nat } else { 0 }) + (if auth.sessionid@.len() > 0 {
            1nat
        } else {
            0
        }),
        auth.ttwid@.len() > 0 ==> r@[0].0@ == "ttwid"@ && r@[0].1 == auth.ttwid,
        auth.sessionid@.len() > 0 ==> r@[r@.len() - 1].0@ == "sessionid"@ && r@[r@.len() - 1].1
            == auth.sessionid,
{
    let mut out: Vec<(String, String)> = Vec::new();
    if !auth.ttwid.as_str().is_empty() {
        out.push(("ttwid".to_owned(), auth.ttwid.clone()));
    }
    if !auth.sessionid.as_str().is_empty() {
        out.push(("sessionid".to_owned(), auth.sessionid.clone()));
    }
    out
}

/// The pool's settings from the service's browser settings and cookies.
pub fn pool_config_for(browser: &BrowserConfig, auth_cookies: Vec<(String, String)>) -> (r:
    BrowserPoolConfig)
    ensures
        r.pool_size == browser.pool_size,
        r.max_concurrent_per_browser == browser.max_concurrent_per_browser,
        r.sign_timeout == browser.sign_timeout_secs,
        r.health_check_interval == browser.health_check_interval_secs,
        r.edge_path == browser.edge_path,
        r.user_data_dir_template == browser.user_data_dir_template,
        r.extra_args@ == browser.extra_args@,
        r.cdp_port_base == browser.cdp_port_base,
        r.auth_cookies == auth_cookies,
{
    BrowserPoolConfig {
        pool_size: browser.pool_size,
        max_concurrent_per_browser: browser.max_concurrent_per_browser,
        sign_timeout: browser.sign_timeout_secs,
        health_check_interval: browser.health_check_interval_secs,
        edge_path: browser.edge_path.clone(),
        user_data_dir_template: browser.user_data_dir_template.clone(),
        extra_args: copy_strings(browser.extra_args.as_slice()),
        cdp_port_base: browser.cdp_port_base,
        auth_cookies,
    }
}

/// The polling consumer's settings for a one-off grab of `web_rid`: the
/// configured browser with the `fetch-consumer` profile, a debugging port
/// 100 above the pool's (saturating), and the account cookies; `None`
/// where no account cookie is set, since polling needs one.
pub fn grab_fetch_config(browser: &BrowserConfig, auth: &AuthConfig, web_rid: &str) -> (r: Option<
    FetchConsumerConfig,
>)
    ensures
        (auth.ttwid@.len() == 0 && auth.sessionid@.len() == 0) <==> r is None,
        r matches Some(c) ==> {
            &&& c.edge_path == browser.edge_path
            &&& c.user_data_dir@ == replace_spec(
                browser.user_data_dir_template@,
                "{id}"@,
                "fetch-consumer"@,
            )
            &&& c.cdp_port == if browser.cdp_port_base + 100 <= u16::MAX {
                (browser.cdp_port_base + 100) as u16
            } else {
                u16::MAX
            }
            &&& c.extra_args@ == browser.extra_args@
            &&& c.web_rid@ == web_rid@
            &&& c.auth_cookies@.len() > 0
            &&& (auth.ttwid@.len() > 0 ==> c.auth_cookies@[0].0@ == "ttwid"@ && c.auth_cookies@[0].1
                == auth.ttwid)
            &&& (auth.sessionid@.len() > 0 ==> c.auth_cookies@[c.auth_cookies@.len() - 1].0@
                == "sessionid"@ && c.auth_cookies@[c.auth_cookies@.len() - 1].1 == auth.sessionid)
            &&& c.keepalive_interval == 5000
            &&& c.navigation_timeout == 30_000
        },
{
    let cookies = auth_cookie_pairs(auth);
    if cookies.len() == 0 {
        return None;
    }
    proof {
        reveal_strlit("{id}");
    }
    Some(
        FetchConsumerConfig {
            edge_path: browser.edge_path.clone(),
            user_data_dir: replace_all(browser.user_data_dir_template.as_str(), "{id}", "fetch-consumer"),
            cdp_port: browser.cdp_port_base.saturating_add(100),
            extra_args: copy_strings(browser.extra_args.as_slice()),
            web_rid: web_rid.to_owned(),
            auth_cookies: cookies,
            keepalive_interval: 5000,
            navigation_timeout: 30_000,
        },
    )
}

/// Why the service is shutting down.
#[derive(Debug, Clone, Copy, PartialEq, Eq)]
pub enum ShutdownReason {
    CtrlC,
    Sigterm,
}

/// Which collector a material calls for: the push connection or the
/// polling consumer.
pub fn is_push_material(m: &SignedMaterial) -> (r: bool)
    ensures
        r == (*m is Wss),
{
    match m {
        SignedMaterial::Wss(_) => true,
        SignedMaterial::HttpFetch(_) => false,
    }
}

} // verus!
