//! The signing service's wire values: error codes and infos, material, and
//! the mapping of pool failures and of received error infos.

use vstd::prelude::*;

use crate::material::{SignedMaterial, SignedWssMaterial};
use crate::pool::PoolError;
use crate::signature_error::{signature_error_code, signature_error_text, SignatureError};
use crate::text::{contains_seq, trim};

verus! {

/// The error codes of the signing service.
#[derive(Debug, Clone, Copy, PartialEq, Eq)]
pub enum Code {
    Unknown,
    UrlFormatNotSupported,
    EmptyUrl,
    ConfigMissing,
    CookieExpired,
    AlgorithmChanged,
    RoomNotFound,
    NetworkTransient,
}

pub open spec fn code_number(c: Code) -> i32 {
    match c {
        Code::Unknown => 0,
        Code::UrlFormatNotSupported => 1,
        Code::EmptyUrl => 2,
        Code::ConfigMissing => 3,
        Code::CookieExpired => 4,
        Code::AlgorithmChanged => 5,
        Code::RoomNotFound => 6,
        Code::NetworkTransient => 7,
    }
}

impl Code {
    /// The code's number on the wire.
    pub fn as_i32(self) -> (r: i32)
        ensures
            r == code_number(self),
    {
        match self {
            Code::Unknown => 0,
            Code::UrlFormatNotSupported => 1,
            Code::EmptyUrl => 2,
            Code::ConfigMissing => 3,
            Code::CookieExpired => 4,
            Code::AlgorithmChanged => 5,
            Code::RoomNotFound => 6,
            Code::NetworkTransient => 7,
        }
    }

    /// The code with number `n`, if there is one.
    pub fn try_from_i32(n: i32) -> (r: Option<Code>)
        ensures
            match r {
                Some(c) => code_number(c) == n,
                None => !(0 <= n <= 7),
            },
    {
        match n {
            0 => Some(Code::Unknown),
            1 => Some(Code::UrlFormatNotSupported),
            2 => Some(Code::EmptyUrl),
            3 => Some(Code::ConfigMissing),
            4 => Some(Code::CookieExpired),
            5 => Some(Code::AlgorithmChanged),
            6 => Some(Code::RoomNotFound),
            7 => Some(Code::NetworkTransient),
            _ => None,
        }
    }
}

/// An error as the signing service reports it.
#[derive(Debug, Clone, PartialEq, Eq)]
pub struct SignatureErrorInfo {
    pub code: i32,
    pub retryable: bool,
    pub message: String,
}

/// Signed material as the signing service reports it.
#[derive(Debug, Clone, PartialEq, Eq)]
pub struct GrpcSignedWssMaterial {
    pub url: String,
    pub headers: Vec<(String, String)>,
    pub expires_at_unix: i64,
}

/// The code of each kind of signature error.
pub open spec fn code_of(e: SignatureError) -> Code {
    match e {
        SignatureError::UrlFormatNotSupported { .. } => Code::UrlFormatNotSupported,
        SignatureError::EmptyUrl => Code::EmptyUrl,
        SignatureError::ConfigMissing { .. } => Code::ConfigMissing,
        SignatureError::CookieExpired => Code::CookieExpired,
        SignatureError::AlgorithmChanged => Code::AlgorithmChanged,
        SignatureError::RoomNotFound { .. } => Code::RoomNotFound,
        SignatureError::NetworkTransient { .. } => Code::NetworkTransient,
    }
}

/// What a pool failure means to a client: a timeout, a busy pool or a
/// dead browser are transient; another signing failure means the format
/// changed.
pub fn map_pool_error_to_signature_error(e: &PoolError) -> (r: SignatureError)
    ensures
        (*e matches PoolError::Sign(m) && contains_seq(m@, "timed out"@)) ==> (r matches SignatureError::NetworkTransient {
            reason,
        } && reason@ == "WSS timeout"@),
        !(*e matches PoolError::Sign(m) && contains_seq(m@, "timed out"@)) ==> match *e {
            PoolError::Busy => r matches SignatureError::NetworkTransient { reason } && reason@
                == "pool busy"@,
            PoolError::Sign(_) => r == SignatureError::AlgorithmChanged,
            PoolError::Browser(_) => r matches SignatureError::NetworkTransient { reason } && reason@
                == "browser dead"@,
        },
{
    if e.is_timeout() {
        return SignatureError::NetworkTransient { reason: "WSS timeout".to_owned() };
    }
    match e {
        PoolError::Busy => SignatureError::NetworkTransient { reason: "pool busy".to_owned() },
        PoolError::Sign(_) => SignatureError::AlgorithmChanged,
        PoolError::Browser(_) => SignatureError::NetworkTransient { reason: "browser dead".to_owned() },
    }
}

/// The service's report of a signature error: its code, whether to retry,
/// and its text.
pub fn to_error_info(err: &SignatureError) -> (r: SignatureErrorInfo)
    ensures
        r.code == code_number(code_of(*err)),
        r.retryable == (*err is NetworkTransient),
        r.message@ == signature_error_text(*err),
{
    let code = match err {
        SignatureError::UrlFormatNotSupported { .. } => Code::UrlFormatNotSupported,
        SignatureError::EmptyUrl => Code::EmptyUrl,
        SignatureError::ConfigMissing { .. } => Code::ConfigMissing,
        SignatureError::CookieExpired => Code::CookieExpired,
        SignatureError::AlgorithmChanged => Code::AlgorithmChanged,
        SignatureError::RoomNotFound { .. } => Code::RoomNotFound,
        SignatureError::NetworkTransient { .. } => Code::NetworkTransient,
    };
    SignatureErrorInfo { code: code.as_i32(), retryable: err.retryable(), message: err.message() }
}

/// The service's report of material; the expiry in whole seconds.
pub fn to_grpc_material(material: SignedWssMaterial) -> (r: GrpcSignedWssMaterial)
    ensures
        r.url == material.url,
        r.headers == material.headers,
        r.expires_at_unix == ((material.expires_at / 1_000_000_000) as u64) as i64,
{
    GrpcSignedWssMaterial {
        url: material.url,
        headers: material.headers,
        expires_at_unix: ((material.expires_at / 1_000_000_000) as u64) as i64,
    }
}

/// The signature error that a received error info stands for; the message
/// fills the error's text field, and an unknown code means the format
/// changed.
pub fn map_proto_error(err: SignatureErrorInfo) -> (r: SignatureError)
    ensures
        match Code::spec_try_from(err.code) {
            Code::UrlFormatNotSupported => r == (SignatureError::UrlFormatNotSupported {
                url: err.message,
            }),
            Code::EmptyUrl => r == SignatureError::EmptyUrl,
            Code::ConfigMissing => r == (SignatureError::ConfigMissing { field: err.message }),
            Code::CookieExpired => r == SignatureError::CookieExpired,
            Code::AlgorithmChanged => r == SignatureError::AlgorithmChanged,
            Code::RoomNotFound => r == (SignatureError::RoomNotFound { web_rid: err.message }),
            Code::NetworkTransient => r == (SignatureError::NetworkTransient {
                reason: err.message,
            }),
            Code::Unknown => r == SignatureError::AlgorithmChanged,
        },
{
    let code = match Code::try_from_i32(err.code) {
        Some(c) => c,
        None => Code::Unknown,
    };
    match code {
        Code::UrlFormatNotSupported => SignatureError::UrlFormatNotSupported { url: err.message },
        Code::EmptyUrl => SignatureError::EmptyUrl,
        Code::ConfigMissing => SignatureError::ConfigMissing { field: err.message },
        Code::CookieExpired => SignatureError::CookieExpired,
        Code::AlgorithmChanged => SignatureError::AlgorithmChanged,
        Code::RoomNotFound => SignatureError::RoomNotFound { web_rid: err.message },
        Code::NetworkTransient => SignatureError::NetworkTransient { reason: err.message },
        Code::Unknown => SignatureError::AlgorithmChanged,
    }
}

impl Code {
    /// The code with number `n`; `Unknown` for any other number.
    pub open spec fn spec_try_from(n: i32) -> Code {
        if n == 1 {
            Code::UrlFormatNotSupported
        } else if n == 2 {
            Code::EmptyUrl
        } else if n == 3 {
            Code::ConfigMissing
        } else if n == 4 {
            Code::CookieExpired
        } else if n == 5 {
            Code::AlgorithmChanged
        } else if n == 6 {
            Code::RoomNotFound
        } else if n == 7 {
            Code::NetworkTransient
        } else {
            Code::Unknown
        }
    }
}

/// A reported error, received back, is an error of the same code, and
/// retryable exactly when the original was.
pub proof fn lemma_error_info_round_trip(e: SignatureError, info: SignatureErrorInfo, back: SignatureError)
    requires
        info.code == code_number(code_of(e)),
        match Code::spec_try_from(info.code) {
            Code::UrlFormatNotSupported => back == (SignatureError::UrlFormatNotSupported {
                url: info.message,
            }),
            Code::EmptyUrl => back == SignatureError::EmptyUrl,
            Code::ConfigMissing => back == (SignatureError::ConfigMissing { field: info.message }),
            Code::CookieExpired => back == SignatureError::CookieExpired,
            Code::AlgorithmChanged => back == SignatureError::AlgorithmChanged,
            Code::RoomNotFound => back == (SignatureError::RoomNotFound { web_rid: info.message }),
            Code::NetworkTransient => back == (SignatureError::NetworkTransient {
                reason: info.message,
            }),
            Code::Unknown => back == SignatureError::AlgorithmChanged,
        },
    ensures
        signature_error_code(back) == signature_error_code(e),
        (back is NetworkTransient) == (e is NetworkTransient),
{
}

/// A request's URL: required, and not blank.
pub fn required_url(url: Option<String>) -> (r: Result<String, String>)
    ensures
        match url {
            Some(u) => if trim(u@).len() > 0 {
                r == Ok::<String, String>(u)
            } else {
                r matches Err(m) && m@ == missing_url_text()
            },
            None => r matches Err(m) && m@ == missing_url_text(),
        },
{
    match url {
        Some(u) => {
            let c = crate::text::chars_of(u.as_str());
            let t = crate::text::trim_chars(c.as_slice());
            if t.len() > 0 {
                Ok(u)
            } else {
                Err("url is required for auto-sign mode; for custom-barrage mode, use --wss-url flag instead".to_owned())
            }
        },
        None => Err("url is required for auto-sign mode; for custom-barrage mode, use --wss-url flag instead".to_owned()),
    }
}

pub open spec fn missing_url_text() -> Seq<char> {
    "url is required for auto-sign mode; for custom-barrage mode, use --wss-url flag instead"@
}

/// The answer of a signing request.
#[derive(Debug, Clone, PartialEq, Eq)]
pub enum ProvideSignedWssResult {
    Material(GrpcSignedWssMaterial),
    Error(SignatureErrorInfo),
}

/// The answer once the room URL is parsed: its error, if it did not parse.
pub fn answer_parse_failure(e: &SignatureError) -> (r: ProvideSignedWssResult)
    ensures
        r matches ProvideSignedWssResult::Error(info) && info.code == code_number(code_of(*e))
            && info.retryable == (*e is NetworkTransient) && info.message@ == signature_error_text(
            *e,
        ),
{
    ProvideSignedWssResult::Error(to_error_info(e))
}

/// The answer once the pool has signed: the material, or the error that
/// its failure means.
pub fn answer_sign_result(result: Result<SignedMaterial, PoolError>) -> (r: ProvideSignedWssResult)
    ensures
        match result {
            Ok(m) => {
                let w = match m {
                    SignedMaterial::Wss(w) => w,
                    SignedMaterial::HttpFetch(w) => w,
                };
                r matches ProvideSignedWssResult::Material(g) && g.url == w.url && g.headers
                    == w.headers && g.expires_at_unix == ((w.expires_at / 1_000_000_000) as u64) as i64
            },
            Err(e) => r matches ProvideSignedWssResult::Error(info) && if (e matches PoolError::Sign(
                m,
            ) && contains_seq(m@, "timed out"@)) {
                info.code == 7 && info.retryable && info.message@ == "network transient error: "@
                    + "WSS timeout"@
            } else {
                match e {
                    PoolError::Busy => info.code == 7 && info.retryable && info.message@
                        == "network transient error: "@ + "pool busy"@,
                    PoolError::Sign(_) => info.code == 5 && !info.retryable && info.message@
                        == signature_error_text(SignatureError::AlgorithmChanged),
                    PoolError::Browser(_) => info.code == 7 && info.retryable && info.message@
                        == "network transient error: "@ + "browser dead"@,
                }
            },
        },
{
    match result {
        Ok(m) => {
            let w = match m {
                SignedMaterial::Wss(w) => w,
                SignedMaterial::HttpFetch(w) => w,
            };
            ProvideSignedWssResult::Material(to_grpc_material(w))
        },
        Err(e) => {
            let sig = map_pool_error_to_signature_error(&e);
            ProvideSignedWssResult::Error(to_error_info(&sig))
        },
    }
}

} // verus!
