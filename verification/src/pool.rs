//! The browser pool's errors, settings and health summary, and the choice
//! of authentication cookies from what a browser session holds.

use vstd::prelude::*;

use crate::proto::{header_view, headers_insert, headers_put};
use crate::browser::BrowserConfig;
use crate::text::{
    concat, contains_seq, copy_strings, dec_digits, decimal, occurs_at, replace_all, replace_spec, str_contains,
    str_ends_with, str_eq,
};

verus! {

/// Why the pool could not sign.
#[derive(Debug, Clone, PartialEq, Eq)]
pub enum PoolError {
    /// Every browser is busy.
    Busy,
    /// Signing in a browser failed.
    Sign(String),
    /// A browser could not be driven.
    Browser(String),
}

pub open spec fn pool_error_text(e: PoolError) -> Seq<char> {
    match e {
        PoolError::Busy => "pool busy: all browsers saturated"@,
        PoolError::Sign(m) => "sign failed: "@ + m@,
        PoolError::Browser(m) => "browser failed: "@ + m@,
    }
}

impl PoolError {
    /// A signing failure that was a timeout.
    pub fn is_timeout(&self) -> (r: bool)
        ensures
            r == (self matches PoolError::Sign(m) && contains_seq(m@, "timed out"@)),
    {
        match self {
            PoolError::Sign(m) => str_contains(m.as_str(), "timed out"),
            _ => false,
        }
    }

    /// A signing failure in which the page made no signed request.
    pub fn is_no_signed_endpoint_captured(&self) -> (r: bool)
        ensures
            r == (self matches PoolError::Sign(m) && contains_seq(m@, "NoSignedEndpointCaptured"@)),
    {
        match self {
            PoolError::Sign(m) => str_contains(m.as_str(), "NoSignedEndpointCaptured"),
            _ => false,
        }
    }

    /// The error's text, as it is shown to users.
    pub fn message(&self) -> (r: String)
        ensures
            r@ == pool_error_text(*self),
    {
        match self {
            PoolError::Busy => "pool busy: all browsers saturated".to_owned(),
            PoolError::Sign(m) => concat("sign failed: ", m.as_str()),
            PoolError::Browser(m) => concat("browser failed: ", m.as_str()),
        }
    }
}

/// Settings of the browser pool.  Durations are in seconds.
#[derive(Debug, Clone, PartialEq, Eq)]
pub struct BrowserPoolConfig {
    pub pool_size: usize,
    pub max_concurrent_per_browser: usize,
    pub sign_timeout: u64,
    pub health_check_interval: u64,
    pub edge_path: String,
    pub user_data_dir_template: String,
    pub extra_args: Vec<String>,
    pub cdp_port_base: u16,
    pub auth_cookies: Vec<(String, String)>,
}

impl BrowserPoolConfig {
    /// Three browsers of two concurrent signings each, a 10 s signing
    /// timeout, a health check every 30 s, debugging ports from 9222.
    pub fn default() -> (r: Self)
        ensures
            r.pool_size == 3,
            r.max_concurrent_per_browser == 2,
            r.sign_timeout == 10,
            r.health_check_interval == 30,
            r.edge_path@ == "C:\\Program Files (x86)\\Microsoft\\Edge\\Application\\msedge.exe"@,
            r.user_data_dir_template@ == "./data/browser-{id}"@,
            r.extra_args@.len() == 0,
            r.cdp_port_base == 9222,
            r.auth_cookies@.len() == 0,
    {
        BrowserPoolConfig {
            pool_size: 3,
            max_concurrent_per_browser: 2,
            sign_timeout: 10,
            health_check_interval: 30,
            edge_path: "C:\\Program Files (x86)\\Microsoft\\Edge\\Application\\msedge.exe".to_owned(),
            user_data_dir_template: "./data/browser-{id}".to_owned(),
            extra_args: Vec::new(),
            cdp_port_base: 9222,
            auth_cookies: Vec::new(),
        }
    }
}

/// The settings of browser `id` of the pool: the pool's browser and
/// arguments, the profile directory with `{id}` replaced by the id, and
/// the debugging port `cdp_port_base + id`; `None` where that port would
/// pass 65535.
pub fn browser_config_for(config: &BrowserPoolConfig, id: usize) -> (r: Option<BrowserConfig>)
    ensures
        (config.cdp_port_base + id > u16::MAX) <==> r is None,
        r matches Some(b) ==> {
            &&& b.edge_path == config.edge_path
            &&& b.user_data_dir@ == replace_spec(
                config.user_data_dir_template@,
                "{id}"@,
                dec_digits(id as u64),
            )
            &&& b.extra_args@ == config.extra_args@
            &&& b.cdp_port == config.cdp_port_base + id
        },
{
    if id > 65535 || (config.cdp_port_base as usize) + id > 65535 {
        return None;
    }
    let port: u16 = (config.cdp_port_base as usize + id) as u16;
    let digits = decimal(id as u64);
    proof {
        reveal_strlit("{id}");
    }
    Some(
        BrowserConfig {
            edge_path: config.edge_path.clone(),
            user_data_dir: replace_all(config.user_data_dir_template.as_str(), "{id}", digits.as_str()),
            extra_args: copy_strings(config.extra_args.as_slice()),
            cdp_port: port,
        },
    )
}

/// What was observed of one browser of the pool.
#[derive(Debug, Clone, Copy, PartialEq, Eq)]
pub struct BrowserObservation {
    pub id: usize,
    /// The browser process is running.
    pub alive: bool,
    /// Signing slots free right now.
    pub available_permits: usize,
    /// Milliseconds since its last signing, if it signed at all.
    pub last_sign_age_ms: Option<u64>,
}

/// Health of one browser.
#[derive(Debug, Clone, PartialEq, Eq)]
pub struct BrowserHealth {
    pub id: usize,
    /// `Dead`, `Signing` (no free slot) or `Idle`.
    pub state: String,
    /// Milliseconds since its last signing; `u64::MAX` if it never signed.
    pub last_sign_age_ms: u64,
}

/// Health of the pool.
#[derive(Debug, Clone, PartialEq, Eq)]
pub struct PoolHealth {
    pub size: usize,
    pub ready: usize,
    pub busy: usize,
    pub dead: usize,
    pub browsers: Vec<BrowserHealth>,
}

/// The state of an observed browser: dead, signing or idle.
pub open spec fn browser_state(o: BrowserObservation) -> Seq<char> {
    if !o.alive {
        "Dead"@
    } else if o.available_permits == 0 {
        "Signing"@
    } else {
        "Idle"@
    }
}

pub open spec fn count_dead(os: Seq<BrowserObservation>) -> nat
    decreases os.len(),
{
    if os.len() == 0 {
        0
    } else {
        count_dead(os.drop_last()) + if !os.last().alive {
            1nat
        } else {
            0
        }
    }
}

pub open spec fn count_busy(os: Seq<BrowserObservation>) -> nat
    decreases os.len(),
{
    if os.len() == 0 {
        0
    } else {
        count_busy(os.drop_last()) + if os.last().alive && os.last().available_permits == 0 {
            1nat
        } else {
            0
        }
    }
}

pub open spec fn count_ready(os: Seq<BrowserObservation>) -> nat
    decreases os.len(),
{
    if os.len() == 0 {
        0
    } else {
        count_ready(os.drop_last()) + if os.last().alive && os.last().available_permits > 0 {
            1nat
        } else {
            0
        }
    }
}

proof fn lemma_counts_bounded(os: Seq<BrowserObservation>)
    ensures
        count_dead(os) + count_busy(os) + count_ready(os) == os.len(),
    decreases os.len(),
{
    if os.len() > 0 {
        lemma_counts_bounded(os.drop_last());
    }
}

/// The health of one browser from its observation.
pub open spec fn browser_health_of(o: BrowserObservation, h: BrowserHealth) -> bool {
    &&& h.id == o.id
    &&& h.state@ == browser_state(o)
    &&& h.last_sign_age_ms == match o.last_sign_age_ms {
        Some(a) => a,
        None => u64::MAX,
    }
}

/// The pool's health from one observation per browser, in pool order.
pub fn summarize_health(obs: &[BrowserObservation]) -> (r: PoolHealth)
    ensures
        r.size == obs@.len(),
        r.dead == count_dead(obs@),
        r.busy == count_busy(obs@),
        r.ready == count_ready(obs@),
        r.ready + r.busy + r.dead == r.size,
        r.browsers@.len() == obs@.len(),
        forall|i: int| 0 <= i < obs@.len() ==> browser_health_of(obs@[i], #[trigger] r.browsers@[i]),
{
    let mut browsers: Vec<BrowserHealth> = Vec::new();
    let mut ready: usize = 0;
    let mut busy: usize = 0;
    let mut dead: usize = 0;
    let mut i: usize = 0;
    while i < obs.len()
        invariant
            i <= obs@.len(),
            dead == count_dead(obs@.take(i as int)),
            busy == count_busy(obs@.take(i as int)),
            ready == count_ready(obs@.take(i as int)),
            browsers@.len() == i,
            forall|j: int| 0 <= j < i ==> browser_health_of(obs@[j], #[trigger] browsers@[j]),
        decreases obs@.len() - i,
    {
        let o = obs[i];
        proof {
            assert(obs@.take(i + 1).drop_last() =~= obs@.take(i as int));
            lemma_counts_bounded(obs@.take(i as int));
        }
        let state = if !o.alive {
            dead = dead + 1;
            "Dead".to_owned()
        } else if o.available_permits == 0 {
            busy = busy + 1;
            "Signing".to_owned()
        } else {
            ready = ready + 1;
            "Idle".to_owned()
        };
        let age = match o.last_sign_age_ms {
            Some(a) => a,
            None => u64::MAX,
        };
        browsers.push(BrowserHealth { id: o.id, state, last_sign_age_ms: age });
        i = i + 1;
    }
    proof {
        assert(obs@.take(i as int) =~= obs@);
        lemma_counts_bounded(obs@);
    }
    PoolHealth { size: obs.len(), ready, busy, dead, browsers }
}

/// Turns through the browsers of the pool in order.
#[derive(Debug, Clone, Copy, PartialEq, Eq)]
pub struct RoundRobin {
    next: usize,
}

impl RoundRobin {
    pub closed spec fn counter(&self) -> usize {
        self.next
    }

    pub fn new() -> (r: Self)
        ensures
            r.counter() == 0,
    {
        RoundRobin { next: 0 }
    }

    /// The index of the next browser among `len`; the counter moves on by
    /// one (wrapping around at the largest `usize`).
    pub fn next_index(&mut self, len: usize) -> (r: usize)
        requires
            len > 0,
        ensures
            r == old(self).counter() % len,
            r < len,
            final(self).counter() == old(self).counter().wrapping_add(1),
    {
        let r = self.next % len;
        self.next = self.next.wrapping_add(1);
        r
    }
}

/// A cookie as a browser session reports it.
#[derive(Debug, Clone, PartialEq, Eq)]
pub struct BrowserCookie {
    pub name: String,
    pub value: String,
    pub domain: String,
}

/// A cookie of the site's domain that authenticates: `ttwid` or `sessionid`.
pub open spec fn is_auth_cookie(c: BrowserCookie) -> bool {
    let d = c.domain@;
    let domain_ok = d == ".douyin.com"@ || d == "douyin.com"@ || (".douyin.com"@.len() <= d.len()
        && occurs_at(d, ".douyin.com"@, d.len() - ".douyin.com"@.len()));
    domain_ok && (c.name@ == "ttwid"@ || c.name@ == "sessionid"@)
}

/// The authentication cookies among `cs`, by name, a later cookie
/// replacing an earlier one of the same name.
pub open spec fn auth_cookies_spec(cs: Seq<BrowserCookie>) -> Seq<(Seq<char>, Seq<char>)>
    decreases cs.len(),
{
    if cs.len() == 0 {
        Seq::empty()
    } else {
        let rest = auth_cookies_spec(cs.drop_last());
        if is_auth_cookie(cs.last()) {
            headers_put(rest, cs.last().name@, cs.last().value@)
        } else {
            rest
        }
    }
}

/// Picks the authentication cookies out of a session's cookies.
pub fn auth_cookies_from(cookies: &[BrowserCookie]) -> (r: Vec<(String, String)>)
    ensures
        header_view(r@) == auth_cookies_spec(cookies@),
{
    let mut out: Vec<(String, String)> = Vec::new();
    let mut i: usize = 0;
    assert(header_view(out@) =~= auth_cookies_spec(cookies@.take(0)));
    while i < cookies.len()
        invariant
            i <= cookies@.len(),
            header_view(out@) == auth_cookies_spec(cookies@.take(i as int)),
        decreases cookies@.len() - i,
    {
        let c = &cookies[i];
        proof {
            assert(cookies@.take(i + 1).drop_last() =~= cookies@.take(i as int));
            assert(cookies@.take(i + 1).last() == *c);
        }
        let d = c.domain.as_str();
        let domain_ok = str_eq(d, ".douyin.com") || str_eq(d, "douyin.com") || str_ends_with(
            d,
            ".douyin.com",
        );
        let name_ok = str_eq(c.name.as_str(), "ttwid") || str_eq(c.name.as_str(), "sessionid");
        if domain_ok && name_ok {
            headers_insert(&mut out, c.name.clone(), c.value.clone());
        }
        i = i + 1;
    }
    assert(cookies@.take(i as int) =~= cookies@);
    out
}

} // verus!
