//! Errors of obtaining signed connection material for a room.

use vstd::prelude::*;

use crate::text::concat;

verus! {

/// Why signed material could not be obtained.
#[derive(Debug, Clone, PartialEq, Eq)]
pub enum SignatureError {
    /// The room URL is not a supported live-room URL.
    UrlFormatNotSupported { url: String },
    /// The room URL is empty.
    EmptyUrl,
    /// A required setting is missing.
    ConfigMissing { field: String },
    /// The account cookies are no longer accepted.
    CookieExpired,
    /// The upstream answered in a form this version does not know.
    AlgorithmChanged,
    /// No such room.
    RoomNotFound { web_rid: String },
    /// A transient network failure: worth retrying.
    NetworkTransient { reason: String },
}

/// The stable code of each kind of error.
pub open spec fn signature_error_code(e: SignatureError) -> Seq<char> {
    match e {
        SignatureError::UrlFormatNotSupported { .. } => "URL_FORMAT_NOT_SUPPORTED"@,
        SignatureError::EmptyUrl => "EMPTY_URL"@,
        SignatureError::ConfigMissing { .. } => "CONFIG_MISSING"@,
        SignatureError::CookieExpired => "COOKIE_EXPIRED"@,
        SignatureError::AlgorithmChanged => "ALGORITHM_CHANGED"@,
        SignatureError::RoomNotFound { .. } => "ROOM_NOT_FOUND"@,
        SignatureError::NetworkTransient { .. } => "NETWORK_TRANSIENT"@,
    }
}

/// The human-readable text of each error.
pub open spec fn signature_error_text(e: SignatureError) -> Seq<char> {
    match e {
        SignatureError::UrlFormatNotSupported { url } => "URL format not supported: "@ + url@
            + " (only live.douyin.com is accepted)"@,
        SignatureError::EmptyUrl => "URL is empty"@,
        SignatureError::ConfigMissing { field } => "config missing: "@ + field@,
        SignatureError::CookieExpired => "cookie expired: please re-paste ttwid/sessionid in config.toml"@,
        SignatureError::AlgorithmChanged => "algorithm changed: im_fetch response format is unknown. Service may need a signature update."@,
        SignatureError::RoomNotFound { web_rid } => "room not found: "@ + web_rid@,
        SignatureError::NetworkTransient { reason } => "network transient error: "@ + reason@,
    }
}

impl SignatureError {
    /// The stable code of the error.
    pub fn code(&self) -> (r: &'static str)
        ensures
            r@ == signature_error_code(*self),
    {
        match self {
            SignatureError::UrlFormatNotSupported { .. } => "URL_FORMAT_NOT_SUPPORTED",
            SignatureError::EmptyUrl => "EMPTY_URL",
            SignatureError::ConfigMissing { .. } => "CONFIG_MISSING",
            SignatureError::CookieExpired => "COOKIE_EXPIRED",
            SignatureError::AlgorithmChanged => "ALGORITHM_CHANGED",
            SignatureError::RoomNotFound { .. } => "ROOM_NOT_FOUND",
            SignatureError::NetworkTransient { .. } => "NETWORK_TRANSIENT",
        }
    }

    /// Only a transient network failure is worth retrying.
    pub fn retryable(&self) -> (r: bool)
        ensures
            r == (*self is NetworkTransient),
    {
        match self {
            SignatureError::NetworkTransient { .. } => true,
            _ => false,
        }
    }

    /// The error's text, as it is shown to users.
    pub fn message(&self) -> (r: String)
        ensures
            r@ == signature_error_text(*self),
    {
        match self {
            SignatureError::UrlFormatNotSupported { url } => {
                let head = concat("URL format not supported: ", url.as_str());
                concat(head.as_str(), " (only live.douyin.com is accepted)")
            },
            SignatureError::EmptyUrl => "URL is empty".to_owned(),
            SignatureError::ConfigMissing { field } => concat("config missing: ", field.as_str()),
            SignatureError::CookieExpired => "cookie expired: please re-paste ttwid/sessionid in config.toml".to_owned(),
            SignatureError::AlgorithmChanged => "algorithm changed: im_fetch response format is unknown. Service may need a signature update.".to_owned(),
            SignatureError::RoomNotFound { web_rid } => concat("room not found: ", web_rid.as_str()),
            SignatureError::NetworkTransient { reason } => concat(
                "network transient error: ",
                reason.as_str(),
            ),
        }
    }
}

} // verus!
