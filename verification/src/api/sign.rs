//! The signing endpoint's answers.

use vstd::prelude::*;

use crate::material::{SignedMaterial, SignedWssMaterial};
use crate::pool::PoolError;
use crate::signature_error::{signature_error_text, SignatureError};
use crate::text::{contains_seq, str_eq};

verus! {

/// A request to sign the room at `url`.
#[derive(Debug, Clone, PartialEq, Eq)]
pub struct SignRequest {
    pub url: String,
}

/// Signed material as the endpoint answers it.
#[derive(Debug, Clone, PartialEq, Eq)]
pub struct SignResponse {
    /// `wss` or `http_fetch`.
    pub kind: String,
    pub url: String,
    pub wss_url: String,
    pub headers: Vec<(String, String)>,
    pub expires_at_unix: i64,
    pub captured_at_unix: i64,
}

/// `r` is the answer for `m` captured at `now`: its kind named, its URL
/// under both names, its headers, and its times in whole seconds.
pub open spec fn answers_material(r: SignResponse, m: SignedMaterial, now: u64) -> bool {
    let w = match m {
        SignedMaterial::Wss(w) => w,
        SignedMaterial::HttpFetch(w) => w,
    };
    &&& r.kind@ == if m is Wss {
        "wss"@
    } else {
        "http_fetch"@
    }
    &&& r.url == w.url
    &&& r.wss_url == w.url
    &&& r.headers == w.headers
    &&& r.expires_at_unix == ((w.expires_at / 1_000_000_000) as u64) as i64
    &&& r.captured_at_unix == now as i64
}

/// `m` is the material an answer `r` describes: polling material where
/// the kind is `http_fetch`, push material otherwise.
pub open spec fn material_of_answer(m: SignedMaterial, r: SignResponse) -> bool {
    let w = SignedWssMaterial {
        url: r.url,
        headers: r.headers,
        expires_at: (((r.expires_at_unix as u64) as u128) * 1_000_000_000) as u128,
    };
    if r.kind@ == "http_fetch"@ {
        m == SignedMaterial::HttpFetch(w)
    } else {
        m == SignedMaterial::Wss(w)
    }
}

impl SignResponse {
    /// The answer for `m`, captured at `now` (seconds since the epoch).
    pub fn from_material(m: SignedMaterial, now: u64) -> (r: Self)
        ensures
            answers_material(r, m, now),
    {
        let (kind, w) = match m {
            SignedMaterial::Wss(w) => ("wss".to_owned(), w),
            SignedMaterial::HttpFetch(w) => ("http_fetch".to_owned(), w),
        };
        proof {
            reveal_strlit("wss");
            reveal_strlit("http_fetch");
        }
        let url = w.url.clone();
        SignResponse {
            kind,
            url,
            wss_url: w.url,
            headers: w.headers,
            expires_at_unix: ((w.expires_at / 1_000_000_000) as u64) as i64,
            captured_at_unix: now as i64,
        }
    }

    /// The material the answer describes, as a client of the endpoint
    /// rebuilds it.
    pub fn to_material(self) -> (r: SignedMaterial)
        ensures
            material_of_answer(r, self),
    {
        let fetch = str_eq(self.kind.as_str(), "http_fetch");
        let w = SignedWssMaterial {
            url: self.url,
            headers: self.headers,
            expires_at: ((self.expires_at_unix as u64) as u128) * 1_000_000_000,
        };
        if fetch {
            SignedMaterial::HttpFetch(w)
        } else {
            SignedMaterial::Wss(w)
        }
    }
}

/// A client that rebuilds material from the endpoint's answer gets the
/// material that was signed, whenever its expiry is a whole second that
/// fits the answer's field (the answer gives whole seconds).
pub proof fn lemma_answer_round_trip(m: SignedMaterial, now: u64, r: SignResponse, back: SignedMaterial)
    requires
        answers_material(r, m, now),
        material_of_answer(back, r),
        (match m {
            SignedMaterial::Wss(w) => w.expires_at,
            SignedMaterial::HttpFetch(w) => w.expires_at,
        }) <= (i64::MAX as u128) * 1_000_000_000,
        (match m {
            SignedMaterial::Wss(w) => w.expires_at,
            SignedMaterial::HttpFetch(w) => w.expires_at,
        }) % 1_000_000_000 == 0,
    ensures
        back == m,
{
    reveal_strlit("wss");
    reveal_strlit("http_fetch");
    if m is Wss {
        assert(r.kind@ != "http_fetch"@) by {
            assert(r.kind@.len() != "http_fetch"@.len());
        }
    }
}

/// Why signing failed.
#[derive(Debug, Clone, PartialEq, Eq)]
pub enum ApiError {
    InvalidUrl(String),
    InvalidRequest(String),
    PoolBusy,
    BrowserDead,
    WssTimeout,
    NoSignedEndpointCaptured,
    SignFailed(String),
    Internal(String),
}

/// An error answer of the signing endpoint.
#[derive(Debug, Clone, PartialEq, Eq)]
pub struct ApiErrorAnswer {
    pub status: u16,
    pub code: &'static str,
    pub retryable: bool,
    pub message: String,
}

impl ApiError {
    /// The error's answer: HTTP status, stable code, whether to retry, text.
    pub fn answer(self) -> (r: ApiErrorAnswer)
        ensures
            match self {
                ApiError::InvalidUrl(m) => r.status == 400 && r.code@ == "INVALID_URL"@ && !r.retryable
                    && r.message == m,
                ApiError::InvalidRequest(m) => r.status == 400 && r.code@ == "INVALID_REQUEST"@
                    && !r.retryable && r.message == m,
                ApiError::PoolBusy => r.status == 503 && r.code@ == "POOL_BUSY"@ && r.retryable
                    && r.message@ == "all browsers saturated"@,
                ApiError::BrowserDead => r.status == 503 && r.code@ == "BROWSER_DEAD"@ && r.retryable
                    && r.message@ == "browser restarting"@,
                ApiError::WssTimeout => r.status == 502 && r.code@ == "WSS_TIMEOUT"@ && r.retryable
                    && r.message@ == "timeout waiting for signed endpoint"@,
                ApiError::NoSignedEndpointCaptured => r.status == 502 && r.code@
                    == "NO_SIGNED_ENDPOINT_CAPTURED"@ && !r.retryable && r.message@
                    == "room may not exist or be offline"@,
                ApiError::SignFailed(m) => r.status == 502 && r.code@ == "SIGN_FAILED"@ && r.retryable
                    && r.message == m,
                ApiError::Internal(m) => r.status == 500 && r.code@ == "INTERNAL"@ && r.retryable
                    && r.message == m,
            },
    {
        match self {
            ApiError::InvalidUrl(m) => ApiErrorAnswer {
                status: 400,
                code: "INVALID_URL",
                retryable: false,
                message: m,
            },
            ApiError::InvalidRequest(m) => ApiErrorAnswer {
                status: 400,
                code: "INVALID_REQUEST",
                retryable: false,
                message: m,
            },
            ApiError::PoolBusy => ApiErrorAnswer {
                status: 503,
                code: "POOL_BUSY",
                retryable: true,
                message: "all browsers saturated".to_owned(),
            },
            ApiError::BrowserDead => ApiErrorAnswer {
                status: 503,
                code: "BROWSER_DEAD",
                retryable: true,
                message: "browser restarting".to_owned(),
            },
            ApiError::WssTimeout => ApiErrorAnswer {
                status: 502,
                code: "WSS_TIMEOUT",
                retryable: true,
                message: "timeout waiting for signed endpoint".to_owned(),
            },
            ApiError::NoSignedEndpointCaptured => ApiErrorAnswer {
                status: 502,
                code: "NO_SIGNED_ENDPOINT_CAPTURED",
                retryable: false,
                message: "room may not exist or be offline".to_owned(),
            },
            ApiError::SignFailed(m) => ApiErrorAnswer {
                status: 502,
                code: "SIGN_FAILED",
                retryable: true,
                message: m,
            },
            ApiError::Internal(m) => ApiErrorAnswer {
                status: 500,
                code: "INTERNAL",
                retryable: true,
                message: m,
            },
        }
    }
}

/// A room URL that does not parse.
pub fn invalid_url(e: &SignatureError) -> (r: ApiError)
    ensures
        r matches ApiError::InvalidUrl(m) && m@ == signature_error_text(*e),
{
    ApiError::InvalidUrl(e.message())
}

/// What a pool failure means to a signing client.
pub fn map_pool_error(e: PoolError) -> (r: ApiError)
    ensures
        (e matches PoolError::Sign(m) && contains_seq(m@, "timed out"@)) ==> r == ApiError::WssTimeout,
        !(e matches PoolError::Sign(m) && contains_seq(m@, "timed out"@)) && (e matches PoolError::Sign(
            m,
        ) && contains_seq(m@, "NoSignedEndpointCaptured"@)) ==> r == ApiError::NoSignedEndpointCaptured,
        !(e matches PoolError::Sign(m) && (contains_seq(m@, "timed out"@) || contains_seq(
            m@,
            "NoSignedEndpointCaptured"@,
        ))) ==> match e {
            PoolError::Busy => r == ApiError::PoolBusy,
            PoolError::Sign(m) => r == ApiError::SignFailed(m),
            PoolError::Browser(_) => r == ApiError::BrowserDead,
        },
{
    if e.is_timeout() {
        return ApiError::WssTimeout;
    }
    if e.is_no_signed_endpoint_captured() {
        return ApiError::NoSignedEndpointCaptured;
    }
    match e {
        PoolError::Busy => ApiError::PoolBusy,
        PoolError::Sign(m) => ApiError::SignFailed(m),
        PoolError::Browser(_) => ApiError::BrowserDead,
    }
}

} // verus!
