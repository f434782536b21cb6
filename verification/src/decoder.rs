//! Decoding of one binary frame of the push channel: a wire-type check on
//! the first byte, the outer `WssResponse`, an optional gzip inflate of its
//! payload, and the inner `Response`.

use vstd::prelude::*;

use crate::error::{CoreError, CoreResult};
use crate::proto::{
    decode_into, headers_get, response_default, spec_decode, wss_response_default, Response,
    ResponseV, WssResponse, WssResponseV,
};
use crate::wire::RECURSION_LIMIT;

verus! {

/// What flate2's gzip decoder yields for `data` read to its end: the
/// inflated bytes, or the text of the error it stopped on.
pub uninterp spec fn gzip_inflate(data: Seq<u8>) -> Result<Seq<u8>, Seq<char>>;

/// Whether the payload of `w` is to be inflated: the caller says so, or the
/// frame's `compress_type` header is `gzip`.
pub open spec fn needs_inflate(w: WssResponseV, gzip_hint: bool) -> bool {
    gzip_hint || headers_get(w.headers, "compress_type"@) == Some("gzip"@)
}

/// The inner response of a frame when decoding succeeds.
pub open spec fn frame_response(frame: Seq<u8>, gzip_hint: bool) -> Option<ResponseV> {
    if frame.len() == 0 || frame[0] & 7 > 5 {
        None
    } else {
        match spec_decode::<WssResponse>(frame, wss_response_default()) {
            None => None,
            Some(w) => {
                let payload = if needs_inflate(w, gzip_hint) {
                    gzip_inflate(w.payload)
                } else {
                    Ok(w.payload)
                };
                match payload {
                    Err(_) => None,
                    Ok(p) => spec_decode::<Response>(p, response_default()),
                }
            },
        }
    }
}

/// Decoder of push frames.
#[derive(Debug, Clone, Copy, PartialEq, Eq)]
pub struct WssDecoder;

impl WssDecoder {
    pub fn new() -> (r: Self) {
        WssDecoder
    }

    /// `flate2::read::GzDecoder` over `data`, read to the end with
    /// `std::io::Read::read_to_end`.  Its result is named: the same bytes
    /// give the same outcome.
    #[verifier::external_body]
    fn decompress_gzip(&self, data: &[u8]) -> (r: Result<Vec<u8>, String>)
        ensures
            match gzip_inflate(data@) {
                Ok(p) => r matches Ok(v) && v@ == p,
                Err(m) => r matches Err(e) && e@ == m,
            },
    {
        let mut decoder = flate2::read::GzDecoder::new(data);
        let mut out: Vec<u8> = Vec::new();
        match std::io::Read::read_to_end(&mut decoder, &mut out) {
            Ok(_) => Ok(out),
            Err(e) => Err(e.to_string()),
        }
    }

    /// Finishes a decode once the payload is known: decodes the inner
    /// response from it, or reports the inflate error that replaced it.
    pub fn finish_decode(&self, wss: WssResponse, payload: Result<Vec<u8>, String>) -> (r:
        CoreResult<(WssResponse, Response)>)
        ensures
            match payload {
                Err(m) => r matches Err(CoreError::GzipDecompress(e)) && e@ == m@,
                Ok(p) => match spec_decode::<Response>(p@, response_default()) {
                    Some(v) => r matches Ok((w, resp)) && w@ == wss@ && resp@ == v,
                    None => r matches Err(CoreError::ProtobufDecode(m)) && m@ == "Response"@,
                },
            },
    {
        match payload {
            Err(m) => Err(CoreError::GzipDecompress(m)),
            Ok(p) => match decode_into(p.as_slice(), RECURSION_LIMIT, Response::default()) {
                Some(resp) => Ok((wss, resp)),
                None => Err(CoreError::ProtobufDecode("Response".to_owned())),
            },
        }
    }

    /// Decodes one binary frame.  `gzip_hint` forces the payload to be
    /// inflated; otherwise it is inflated when the `compress_type` header
    /// says `gzip`.  An empty frame, or one whose first byte carries wire
    /// type 6 or 7, is refused before any decoding.
    pub fn decode(&self, frame: &[u8], gzip_hint: bool) -> (r: CoreResult<(WssResponse, Response)>)
        ensures
            match frame_response(frame@, gzip_hint) {
                Some(v) => r matches Ok((_, resp)) && resp@ == v,
                None => r is Err,
            },
            frame@.len() == 0 ==> (r matches Err(CoreError::InvalidWssHeader(s)) && s@
                == "empty frame"@),
            frame@.len() > 0 && frame@[0] & 7 > 5 ==> (r matches Err(CoreError::InvalidWireType(w))
                && w == frame@[0] & 7),
            frame@.len() > 0 && frame@[0] & 7 <= 5 ==> match spec_decode::<WssResponse>(
                frame@,
                wss_response_default(),
            ) {
                None => r matches Err(CoreError::ProtobufDecode(m)) && m@ == "WssResponse"@,
                Some(w) => {
                    let payload = if needs_inflate(w, gzip_hint) {
                        gzip_inflate(w.payload)
                    } else {
                        Ok(w.payload)
                    };
                    match payload {
                        Err(m) => r matches Err(CoreError::GzipDecompress(e)) && e@ == m,
                        Ok(p) => match spec_decode::<Response>(p, response_default()) {
                            Some(v) => r matches Ok((w2, resp)) && w2@ == w && resp@ == v,
                            None => r matches Err(CoreError::ProtobufDecode(m)) && m@ == "Response"@,
                        },
                    }
                },
            },
    {
        if frame.len() == 0 {
            return Err(CoreError::InvalidWssHeader("empty frame".to_owned()));
        }
        let wire_type = frame[0] & 0x07;
        if wire_type > 5 {
            return Err(CoreError::InvalidWireType(wire_type));
        }
        let wss = match decode_into(frame, RECURSION_LIMIT, WssResponse::default()) {
            Some(w) => w,
            None => {
                return Err(CoreError::ProtobufDecode("WssResponse".to_owned()));
            },
        };
        let compress_type = wss.header("compress_type");
        let is_gzip = match &compress_type {
            Some(v) => *v == "gzip".to_owned(),
            None => false,
        };
        let need_decompress = gzip_hint || is_gzip;
        let payload = if need_decompress {
            self.decompress_gzip(wss.payload.as_slice())
        } else {
            Ok(wss.payload.clone())
        };
        self.finish_decode(wss, payload)
    }
}

impl WssDecoder {
    /// Decodes the body of a fetch answer: a bare `Response`.
    pub fn decode_fetch_body(&self, body: &[u8]) -> (r: CoreResult<Response>)
        ensures
            match spec_decode::<Response>(body@, response_default()) {
                Some(v) => r matches Ok(resp) && resp@ == v,
                None => r matches Err(CoreError::ProtobufDecode(m)) && m@ == "Response"@,
            },
    {
        match decode_into(body, RECURSION_LIMIT, Response::default()) {
            Some(resp) => Ok(resp),
            None => Err(CoreError::ProtobufDecode("Response".to_owned())),
        }
    }
}

} // verus!
