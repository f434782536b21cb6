//! The room endpoints' answers: creating, listing and removing rooms.

use vstd::prelude::*;

use crate::dynamic_room::{RoomManagerError, RoomSnapshot, RoomStatus};
use crate::pool::PoolError;
use crate::signature_error::{signature_error_text, SignatureError};
use crate::text::{concat, contains_seq};

verus! {

/// A request to follow the room at `url`.
#[derive(Debug, Clone, PartialEq, Eq)]
pub struct CreateRoomRequest {
    pub url: String,
}

/// A followed room as the API reports it.
#[derive(Debug, Clone, PartialEq, Eq)]
pub struct RoomInfo {
    pub room_id: String,
    pub url: String,
    pub ws_url: String,
    pub status: String,
}

#[derive(Debug, Clone, PartialEq, Eq)]
pub struct ListRoomEntry {
    pub room_id: String,
    pub url: String,
    pub status: String,
    pub client_count: usize,
    pub created_at_unix: i64,
}

#[derive(Debug, Clone, PartialEq, Eq)]
pub struct ListRoomsResponse {
    pub rooms: Vec<ListRoomEntry>,
}

/// Why a room endpoint failed.
#[derive(Debug, Clone, PartialEq, Eq)]
pub enum RoomsError {
    InvalidUrl(String),
    PoolBusy,
    BrowserDead,
    WssTimeout,
    NoSignedEndpointCaptured(String),
    SignFailed(String),
    Internal(String),
    RoomNotFound,
}

/// An error answer: HTTP status, stable code, text, and whether to retry.
#[derive(Debug, Clone, PartialEq, Eq)]
pub struct ErrorAnswer {
    pub status: u16,
    pub code: &'static str,
    pub message: String,
    pub retryable: bool,
}

impl RoomsError {
    /// The error's answer.
    pub fn answer(self) -> (r: ErrorAnswer)
        ensures
            match self {
                RoomsError::InvalidUrl(m) => r.status == 400 && r.code@ == "INVALID_URL"@ && r.message
                    == m && !r.retryable,
                RoomsError::PoolBusy => r.status == 503 && r.code@ == "POOL_BUSY"@ && r.message@
                    == "all browsers saturated"@ && r.retryable,
                RoomsError::BrowserDead => r.status == 503 && r.code@ == "BROWSER_DEAD"@ && r.message@
                    == "browser restarting"@ && r.retryable,
                RoomsError::WssTimeout => r.status == 502 && r.code@ == "WSS_TIMEOUT"@ && r.message@
                    == "timeout waiting for signed endpoint"@ && r.retryable,
                RoomsError::NoSignedEndpointCaptured(m) => r.status == 502 && r.code@
                    == "NO_SIGNED_ENDPOINT_CAPTURED"@ && r.message == m && !r.retryable,
                RoomsError::SignFailed(m) => r.status == 502 && r.code@ == "SIGN_FAILED"@
                    && r.message == m && r.retryable,
                RoomsError::Internal(m) => r.status == 500 && r.code@ == "INTERNAL"@ && r.message
                    == m && r.retryable,
                RoomsError::RoomNotFound => r.status == 404 && r.code@ == "ROOM_NOT_FOUND"@
                    && r.message@ == "room not found"@ && !r.retryable,
            },
    {
        match self {
            RoomsError::InvalidUrl(m) => ErrorAnswer {
                status: 400,
                code: "INVALID_URL",
                message: m,
                retryable: false,
            },
            RoomsError::PoolBusy => ErrorAnswer {
                status: 503,
                code: "POOL_BUSY",
                message: "all browsers saturated".to_owned(),
                retryable: true,
            },
            RoomsError::BrowserDead => ErrorAnswer {
                status: 503,
                code: "BROWSER_DEAD",
                message: "browser restarting".to_owned(),
                retryable: true,
            },
            RoomsError::WssTimeout => ErrorAnswer {
                status: 502,
                code: "WSS_TIMEOUT",
                message: "timeout waiting for signed endpoint".to_owned(),
                retryable: true,
            },
            RoomsError::NoSignedEndpointCaptured(m) => ErrorAnswer {
                status: 502,
                code: "NO_SIGNED_ENDPOINT_CAPTURED",
                message: m,
                retryable: false,
            },
            RoomsError::SignFailed(m) => ErrorAnswer {
                status: 502,
                code: "SIGN_FAILED",
                message: m,
                retryable: true,
            },
            RoomsError::Internal(m) => ErrorAnswer {
                status: 500,
                code: "INTERNAL",
                message: m,
                retryable: true,
            },
            RoomsError::RoomNotFound => ErrorAnswer {
                status: 404,
                code: "ROOM_NOT_FOUND",
                message: "room not found".to_owned(),
                retryable: false,
            },
        }
    }
}

/// A room URL that does not parse.
pub fn invalid_url(e: &SignatureError) -> (r: RoomsError)
    ensures
        r matches RoomsError::InvalidUrl(m) && m@ == signature_error_text(*e),
{
    RoomsError::InvalidUrl(e.message())
}

/// What a pool failure means when creating a room.
pub fn map_pool_error(e: PoolError) -> (r: RoomsError)
    ensures
        (e matches PoolError::Sign(m) && contains_seq(m@, "timed out"@)) ==> r == RoomsError::WssTimeout,
        !(e matches PoolError::Sign(m) && contains_seq(m@, "timed out"@)) && (e matches PoolError::Sign(
            m,
        ) && contains_seq(m@, "NoSignedEndpointCaptured"@)) ==> (r matches RoomsError::NoSignedEndpointCaptured(
            t,
        ) && t@ == "room may not exist or be offline"@),
        !(e matches PoolError::Sign(m) && (contains_seq(m@, "timed out"@) || contains_seq(
            m@,
            "NoSignedEndpointCaptured"@,
        ))) ==> match e {
            PoolError::Busy => r == RoomsError::PoolBusy,
            PoolError::Sign(m) => r == RoomsError::SignFailed(m),
            PoolError::Browser(_) => r == RoomsError::BrowserDead,
        },
{
    if e.is_timeout() {
        return RoomsError::WssTimeout;
    }
    if e.is_no_signed_endpoint_captured() {
        return RoomsError::NoSignedEndpointCaptured("room may not exist or be offline".to_owned());
    }
    match e {
        PoolError::Busy => RoomsError::PoolBusy,
        PoolError::Sign(m) => RoomsError::SignFailed(m),
        PoolError::Browser(_) => RoomsError::BrowserDead,
    }
}

/// The host of the downstream websocket in reported URLs.
pub fn state_ws_host() -> (r: String)
    ensures
        r@ == "127.0.0.1:8888"@,
{
    "127.0.0.1:8888".to_owned()
}

/// The downstream websocket URL of a room.
pub fn room_ws_url(host: &str, room_id: &str) -> (r: String)
    ensures
        r@ == "ws://"@ + host@ + "/rooms/"@ + room_id@,
{
    let a = concat("ws://", host);
    let b = concat(a.as_str(), "/rooms/");
    concat(b.as_str(), room_id)
}

/// The API's report of a room.
pub fn room_info_of(room: &RoomSnapshot, host: &str) -> (r: RoomInfo)
    ensures
        r.room_id == room.room_id,
        r.url == room.url,
        r.ws_url@ == "ws://"@ + host@ + "/rooms/"@ + room.room_id@,
        r.status@ == match room.status {
            RoomStatus::Connecting => "connecting"@,
            RoomStatus::Connected => "connected"@,
            RoomStatus::Failed => "failed"@,
        },
{
    RoomInfo {
        room_id: room.room_id.clone(),
        url: room.url.clone(),
        ws_url: room_ws_url(host, room.room_id.as_str()),
        status: room.status.as_str().to_owned(),
    }
}

/// The answer for a room that already exists: 200 when it is connected,
/// else 202 (still being set up).
pub fn existing_room_answer(room: &RoomSnapshot, host: &str) -> (r: (u16, RoomInfo))
    ensures
        r.0 == if room.status == RoomStatus::Connected {
            200u16
        } else {
            202u16
        },
        r.1.room_id == room.room_id,
        r.1.url == room.url,
        r.1.ws_url@ == "ws://"@ + host@ + "/rooms/"@ + room.room_id@,
        r.1.status@ == match room.status {
            RoomStatus::Connecting => "connecting"@,
            RoomStatus::Connected => "connected"@,
            RoomStatus::Failed => "failed"@,
        },
{
    let code: u16 = match room.status {
        RoomStatus::Connected => 200,
        _ => 202,
    };
    (code, room_info_of(room, host))
}

/// The answer for a room just created: 201 with its report.
pub fn created_room_answer(room: &RoomSnapshot, host: &str) -> (r: (u16, RoomInfo))
    ensures
        r.0 == 201,
        r.1.room_id == room.room_id,
        r.1.url == room.url,
        r.1.ws_url@ == "ws://"@ + host@ + "/rooms/"@ + room.room_id@,
        r.1.status@ == match room.status {
            RoomStatus::Connecting => "connecting"@,
            RoomStatus::Connected => "connected"@,
            RoomStatus::Failed => "failed"@,
        },
{
    (201, room_info_of(room, host))
}

/// The answer for a removal: 204, or not found.
pub fn destroy_answer(result: Result<RoomSnapshot, RoomManagerError>) -> (r: Result<u16, RoomsError>)
    ensures
        result is Ok ==> r == Ok::<u16, RoomsError>(204),
        result is Err ==> r == Err::<u16, RoomsError>(RoomsError::RoomNotFound),
{
    match result {
        Ok(_) => Ok(204),
        Err(_) => Err(RoomsError::RoomNotFound),
    }
}

/// The listing of the rooms, in order.
pub fn list_rooms_response(snaps: &[RoomSnapshot]) -> (r: ListRoomsResponse)
    ensures
        r.rooms@.len() == snaps@.len(),
        forall|i: int|
            0 <= i < snaps@.len() ==> {
                let e = #[trigger] r.rooms@[i];
                &&& e.room_id == snaps@[i].room_id
                &&& e.url == snaps@[i].url
                &&& e.client_count == snaps@[i].client_count
                &&& e.created_at_unix == snaps@[i].created_at_unix
                &&& e.status@ == match snaps@[i].status {
                    RoomStatus::Connecting => "connecting"@,
                    RoomStatus::Connected => "connected"@,
                    RoomStatus::Failed => "failed"@,
                }
            },
{
    let mut rooms: Vec<ListRoomEntry> = Vec::new();
    let mut i: usize = 0;
    while i < snaps.len()
        invariant
            i <= snaps@.len(),
            rooms@.len() == i,
            forall|j: int|
                0 <= j < i ==> {
                    let e = #[trigger] rooms@[j];
                    &&& e.room_id == snaps@[j].room_id
                    &&& e.url == snaps@[j].url
                    &&& e.client_count == snaps@[j].client_count
                    &&& e.created_at_unix == snaps@[j].created_at_unix
                    &&& e.status@ == match snaps@[j].status {
                        RoomStatus::Connecting => "connecting"@,
                        RoomStatus::Connected => "connected"@,
                        RoomStatus::Failed => "failed"@,
                    }
                },
        decreases snaps@.len() - i,
    {
        let s = &snaps[i];
        rooms.push(
            ListRoomEntry {
                room_id: s.room_id.clone(),
                url: s.url.clone(),
                status: s.status.as_str().to_owned(),
                client_count: s.client_count,
                created_at_unix: s.created_at_unix,
            },
        );
        i = i + 1;
    }
    ListRoomsResponse { rooms }
}

} // verus!
