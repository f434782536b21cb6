//! The signed-material fetch endpoint: its settings, how its answers and
//! failures map to material or to errors.

use vstd::prelude::*;

use crate::material::SignedWssMaterial;
use crate::proto::{collect_headers, header_view, headers_from_pairs};
use crate::signature_error::SignatureError;
use crate::text::concat;

verus! {

/// Settings of the fetch endpoint client.  The timeout is in milliseconds.
#[derive(Debug, Clone, PartialEq, Eq)]
pub struct ImFetchConfig {
    pub base_url: String,
    pub user_agent: String,
    pub timeout: u64,
}

pub open spec fn default_user_agent_text() -> Seq<char> {
    "Mozilla/5.0 (Windows NT 10.0; Win64; x64) AppleWebKit/537.36 (KHTML, like Gecko) Chrome/131.0.0.0 Safari/537.36 Edg/131.0.0.0"@
}

impl ImFetchConfig {
    /// The live site, a desktop browser's user agent, a 10 s timeout.
    pub fn default() -> (r: Self)
        ensures
            r.base_url@ == "https://live.douyin.com"@,
            r.user_agent@ == default_user_agent_text(),
            r.timeout == 10_000,
    {
        ImFetchConfig {
            base_url: "https://live.douyin.com".to_owned(),
            user_agent: "Mozilla/5.0 (Windows NT 10.0; Win64; x64) AppleWebKit/537.36 (KHTML, like Gecko) Chrome/131.0.0.0 Safari/537.36 Edg/131.0.0.0".to_owned(),
            timeout: 10_000,
        }
    }

    /// The endpoint URL.
    pub fn endpoint(&self) -> (r: String)
        ensures
            r@ == self.base_url@ + "/webcast/im/fetch/"@,
    {
        concat(self.base_url.as_str(), "/webcast/im/fetch/")
    }
}

/// The endpoint's answer: a signed URL, its headers and its expiry
/// (seconds since the Unix epoch).
#[derive(Debug, Clone, PartialEq, Eq)]
pub struct ImFetchResponse {
    pub wss_url: String,
    pub headers: Vec<(String, String)>,
    pub expires_at: u64,
}

/// What an HTTP status of the endpoint means: 401 and 403 say the cookies
/// expired, any other status outside 2xx that the answer's format changed.
pub fn check_status(status: u16) -> (r: Result<(), SignatureError>)
    ensures
        (status == 401 || status == 403) ==> r == Err::<(), SignatureError>(
            SignatureError::CookieExpired,
        ),
        !(status == 401 || status == 403) && !(200 <= status <= 299) ==> r == Err::<
            (),
            SignatureError,
        >(SignatureError::AlgorithmChanged),
        200 <= status <= 299 ==> r is Ok,
{
    if status == 401 || status == 403 {
        return Err(SignatureError::CookieExpired);
    }
    if !(200 <= status && status <= 299) {
        return Err(SignatureError::AlgorithmChanged);
    }
    Ok(())
}

/// The material an answer carries: its URL, its headers read as a map,
/// and its expiry (given in seconds) in nanoseconds.
pub fn material_from_response(body: ImFetchResponse) -> (r: SignedWssMaterial)
    ensures
        r.url == body.wss_url,
        header_view(r.headers@) == headers_from_pairs(header_view(body.headers@)),
        r.wf(),
        r.expires_at == body.expires_at * 1_000_000_000,
{
    SignedWssMaterial {
        url: body.wss_url,
        headers: collect_headers(body.headers),
        expires_at: body.expires_at as u128 * 1_000_000_000,
    }
}

/// What a failed request means: a timeout, a connection failure or a
/// failure to build the request is transient (with the error's text); a
/// 401 or 403 status says the cookies expired; anything else that the
/// answer's format changed.
pub fn map_transport_error(
    is_timeout: bool,
    is_connect: bool,
    is_request: bool,
    status: Option<u16>,
    text: String,
) -> (r: SignatureError)
    ensures
        is_timeout || is_connect || is_request ==> (r matches SignatureError::NetworkTransient {
            reason,
        } && reason@ == text@),
        !(is_timeout || is_connect || is_request) && (status == Some(401u16) || status == Some(
            403u16,
        )) ==> r == SignatureError::CookieExpired,
        !(is_timeout || is_connect || is_request) && !(status == Some(401u16) || status == Some(
            403u16,
        )) ==> r == SignatureError::AlgorithmChanged,
{
    if is_timeout || is_connect || is_request {
        SignatureError::NetworkTransient { reason: text }
    } else {
        match status {
            Some(401) | Some(403) => SignatureError::CookieExpired,
            _ => SignatureError::AlgorithmChanged,
        }
    }
}

} // verus!
