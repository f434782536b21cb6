//! Recognising the signed requests that a live-room page makes, and making
//! material of them.

use vstd::prelude::*;

use crate::cdp::CdpEvent;
use crate::material::{SignedMaterial, SignedWssMaterial};
use crate::proto::{collect_headers, header_view, headers_from_pairs};
use crate::text::{concat, contains_seq, occurs_at, str_contains, str_eq, str_starts_with};

verus! {

/// How long captured material stays valid, in seconds.
pub const MATERIAL_LIFETIME_SECS: u64 = 3600;

/// How long captured material stays valid, in nanoseconds.
pub const MATERIAL_LIFETIME_NANOS: u128 = 3_600_000_000_000;

/// A websocket URL of the push channel.
pub open spec fn spec_is_wss_push_url(url: Seq<char>) -> bool {
    occurs_at(url, "wss://"@, 0) && contains_seq(url, "webcast/im/push"@)
}

/// An HTTPS URL of the polling fetch endpoint.
pub open spec fn spec_is_im_fetch_url(url: Seq<char>) -> bool {
    occurs_at(url, "https://"@, 0) && contains_seq(url, "/webcast/im/fetch/"@)
}

pub fn is_wss_push_url(url: &str) -> (r: bool)
    ensures
        r == spec_is_wss_push_url(url@),
{
    str_starts_with(url, "wss://") && str_contains(url, "webcast/im/push")
}

pub fn is_im_fetch_url(url: &str) -> (r: bool)
    ensures
        r == spec_is_im_fetch_url(url@),
{
    str_starts_with(url, "https://") && str_contains(url, "/webcast/im/fetch/")
}

/// The page of the live room `web_rid`.
pub fn room_page_url(web_rid: &str) -> (r: String)
    ensures
        r@ == "https://live.douyin.com/"@ + web_rid@,
{
    concat("https://live.douyin.com/", web_rid)
}

/// The material a request observed at time `now` (nanoseconds since the
/// epoch) gives: push material for a push URL, fetch material for a fetch
/// URL, nothing for any other request.  Its headers are the request's,
/// read as a map (a later header with a name already seen replaces its
/// value), and it stays valid for an hour.
pub open spec fn captured_material(url: String, headers: Seq<(Seq<char>, Seq<char>)>, now: u128, m: SignedWssMaterial) -> bool {
    &&& m.url == url
    &&& header_view(m.headers@) == headers_from_pairs(headers)
    &&& m.expires_at == now + MATERIAL_LIFETIME_NANOS
}

/// What a request observed at `now` gives (see `captured_material`).
pub open spec fn capture_outcome(url: String, headers: Seq<(Seq<char>, Seq<char>)>, now: u128, r: Option<SignedMaterial>) -> bool {
    &&& spec_is_wss_push_url(url@) ==> (r matches Some(SignedMaterial::Wss(m)) && captured_material(
        url,
        headers,
        now,
        m,
    ) && m.wf())
    &&& !spec_is_wss_push_url(url@) && spec_is_im_fetch_url(url@) ==> (r matches Some(
        SignedMaterial::HttpFetch(m),
    ) && captured_material(url, headers, now, m) && m.wf())
    &&& !spec_is_wss_push_url(url@) && !spec_is_im_fetch_url(url@) ==> r is None
}

pub fn capture_from_request(url: String, headers: Vec<(String, String)>, now: u128) -> (r: Option<
    SignedMaterial,
>)
    requires
        now + MATERIAL_LIFETIME_NANOS <= u128::MAX,
    ensures
        capture_outcome(url, header_view(headers@), now, r),
{
    let wss = is_wss_push_url(url.as_str());
    let fetch = is_im_fetch_url(url.as_str());
    if !wss && !fetch {
        return None;
    }
    let material = SignedWssMaterial {
        url,
        headers: collect_headers(headers),
        expires_at: now + MATERIAL_LIFETIME_NANOS,
    };
    if wss {
        Some(SignedMaterial::Wss(material))
    } else {
        Some(SignedMaterial::HttpFetch(material))
    }
}

/// The material an event gives while a tab with session `tab_session` is
/// being signed: a request sent by that tab, captured as
/// `capture_from_request` does; nothing for another tab's event or for
/// another kind of event.
pub fn capture_from_event(event_session: &Option<String>, tab_session: &str, event: CdpEvent, now: u128) -> (r:
    Option<SignedMaterial>)
    requires
        now + MATERIAL_LIFETIME_NANOS <= u128::MAX,
    ensures
        match (event_session, event) {
            (Some(s), CdpEvent::RequestWillBeSent { params }) => if s@ == tab_session@ {
                capture_outcome(params.request.url, header_view(params.request.headers@), now, r)
            } else {
                r is None
            },
            _ => r is None,
        },
{
    let same = match event_session {
        Some(s) => str_eq(s.as_str(), tab_session),
        None => false,
    };
    if !same {
        return None;
    }
    match event {
        CdpEvent::RequestWillBeSent { params } => capture_from_request(params.request.url, params.request.headers, now),
        _ => None,
    }
}

} // verus!
