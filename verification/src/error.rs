//! Errors of frame decoding.

use vstd::prelude::*;

use crate::text::{concat, dec_digits, decimal};

verus! {

/// What can go wrong while decoding a frame.
#[derive(Debug, Clone, PartialEq, Eq)]
pub enum CoreError {
    /// The first byte's wire type is 6 or 7: the data cannot be protobuf.
    InvalidWireType(u8),
    /// The gzip payload could not be inflated.
    GzipDecompress(String),
    /// A required header is missing or the frame is empty.
    InvalidWssHeader(String),
    /// The message method is not one of the known ones.
    UnknownMethod(String),
    /// The bytes are not a valid encoding of the expected message.
    ProtobufDecode(String),
    /// Reading the data failed.
    Io(String),
}

pub type CoreResult<T> = Result<T, CoreError>;

/// The human-readable text of an error.
pub open spec fn core_error_text(e: CoreError) -> Seq<char> {
    match e {
        CoreError::InvalidWireType(w) => "invalid wire_type: "@ + dec_digits(w as u64)
            + " (must be 0-5)"@,
        CoreError::GzipDecompress(s) => "gzip decompress failed: "@ + s@,
        CoreError::InvalidWssHeader(s) => "missing or invalid wss header: "@ + s@,
        CoreError::UnknownMethod(s) => "unknown message method: "@ + s@,
        CoreError::ProtobufDecode(s) => "protobuf decode failed: "@ + s@,
        CoreError::Io(s) => "io error: "@ + s@,
    }
}

impl CoreError {
    /// The error's text, as it is shown to users.
    pub fn message(&self) -> (r: String)
        ensures
            r@ == core_error_text(*self),
    {
        match self {
            CoreError::InvalidWireType(w) => {
                let n = decimal(*w as u64);
                let head = concat("invalid wire_type: ", n.as_str());
                let r = concat(head.as_str(), " (must be 0-5)");
                r
            },
            CoreError::GzipDecompress(s) => concat("gzip decompress failed: ", s.as_str()),
            CoreError::InvalidWssHeader(s) => concat("missing or invalid wss header: ", s.as_str()),
            CoreError::UnknownMethod(s) => concat("unknown message method: ", s.as_str()),
            CoreError::ProtobufDecode(s) => concat("protobuf decode failed: ", s.as_str()),
            CoreError::Io(s) => concat("io error: ", s.as_str()),
        }
    }
}

} // verus!
