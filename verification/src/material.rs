//! Signed connection material: a URL and the headers that must accompany
//! it, valid until a point in time.

use vstd::prelude::*;

use crate::proto::{header_keys_distinct, header_view};

verus! {

/// A signed URL with its headers, valid until `expires_at` (nanoseconds
/// since the Unix epoch).  The headers are a map: no name occurs twice
/// (`wf`).
#[derive(Debug, Clone, PartialEq, Eq)]
pub struct SignedWssMaterial {
    pub url: String,
    pub headers: Vec<(String, String)>,
    pub expires_at: u128,
}

/// Material for one of the two ways of receiving a room's messages.
#[derive(Debug, Clone, PartialEq, Eq)]
pub enum SignedMaterial {
    /// A push websocket.
    Wss(SignedWssMaterial),
    /// The polling fetch endpoint.
    HttpFetch(SignedWssMaterial),
}

/// `SystemTime::now().duration_since(UNIX_EPOCH)`, in whole nanoseconds
/// (`Duration::as_nanos`); `None` where the clock reads before the epoch.
/// Nothing is promised of the value: it is the clock's.
#[verifier::external_body]
pub(crate) fn clock_nanos() -> (r: Option<u128>) {
    std::time::SystemTime::now().duration_since(std::time::UNIX_EPOCH).ok().map(|d| d.as_nanos())
}

/// The collector that comes with the library: it obtains nothing, and
/// says where material must come from instead.
#[derive(Debug, Clone, Copy, PartialEq, Eq)]
pub struct DefaultCollector;

pub open spec fn not_implemented_text() -> Seq<char> {
    "collector is not implemented yet. MVP must provide wss URL/headers via configuration (--wss-url / --wss-headers flags)."@
}

/// A source of signed material for a room.
pub trait Collector {
    /// Signed material for the room `room_id`, or why none was obtained.
    fn extract(&self, room_id: &str) -> (r: Result<SignedWssMaterial, String>);
}

impl Collector for DefaultCollector {
    /// Always fails, with the reason.
    fn extract(&self, room_id: &str) -> (r: Result<SignedWssMaterial, String>)
        ensures
            r matches Err(m) && m@ == not_implemented_text(),
    {
        Err("collector is not implemented yet. MVP must provide wss URL/headers via configuration (--wss-url / --wss-headers flags).".to_owned())
    }
}

impl SignedWssMaterial {
    /// No header name occurs twice.
    pub open spec fn wf(&self) -> bool {
        header_keys_distinct(header_view(self.headers@))
    }

    /// Whether the material has expired at time `now` (nanoseconds since
    /// the epoch).
    pub fn is_expired_at(&self, now: u128) -> (r: bool)
        ensures
            r == (now >= self.expires_at),
    {
        now >= self.expires_at
    }

    /// Whether the material has expired by the system clock: the clock has
    /// reached its expiry (never while the clock reads before the epoch).
    pub fn is_expired(&self) -> (r: bool) {
        match clock_nanos() {
            Some(now) => self.is_expired_at(now),
            None => false,
        }
    }
}

impl SignedMaterial {
    /// The material, whichever way it is for.
    pub fn material(&self) -> (r: &SignedWssMaterial)
        ensures
            r == match self {
                SignedMaterial::Wss(m) => m,
                SignedMaterial::HttpFetch(m) => m,
            },
    {
        match self {
            SignedMaterial::Wss(m) => m,
            SignedMaterial::HttpFetch(m) => m,
        }
    }

    /// The headers to send with the URL.
    pub fn headers(&self) -> (r: &Vec<(String, String)>)
        ensures
            r == match self {
                SignedMaterial::Wss(m) => &m.headers,
                SignedMaterial::HttpFetch(m) => &m.headers,
            },
    {
        &self.material().headers
    }
}

} // verus!
