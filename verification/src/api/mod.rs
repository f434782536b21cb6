//! The room information API and the HTTP API's answers.

pub mod health;
pub mod rooms;
pub mod sign;

use vstd::prelude::*;

use crate::proto::headers_get;
use crate::signature_error::SignatureError;
use crate::text::concat;

verus! {

/// What the room information API says of a room.
#[derive(Debug, Clone, PartialEq, Eq)]
pub struct RoomInfo {
    pub room_id: String,
    pub web_room_id: String,
    pub owner_nickname: Option<String>,
    pub title: Option<String>,
    pub is_live: bool,
    pub live_url: String,
}

/// The fields of a room read from the API's JSON answer: each `None`
/// where the field is missing or not of the expected JSON type.
#[derive(Debug, Clone, PartialEq, Eq)]
pub struct RoomEnterRoom {
    pub id_str: Option<String>,
    pub owner_nickname: Option<String>,
    pub title: Option<String>,
    pub status: Option<i64>,
}

/// The `data` object of the API's JSON answer.
#[derive(Debug, Clone, PartialEq, Eq)]
pub struct RoomEnterData {
    pub room: Option<RoomEnterRoom>,
}

/// The API's JSON answer, as far as it is read.
#[derive(Debug, Clone, PartialEq, Eq)]
pub struct RoomEnterBody {
    pub data: Option<RoomEnterData>,
}

/// The room API endpoint under `base_url`.
pub fn room_enter_url(base_url: &str) -> (r: String)
    ensures
        r@ == base_url@ + "/webcast/room/web/enter/"@,
{
    concat(base_url, "/webcast/room/web/enter/")
}

/// `base/web_rid`: the room page, sent as the referer and reported as the
/// live URL.
pub fn room_page(base_url: &str, web_rid: &str) -> (r: String)
    ensures
        r@ == base_url@ + "/"@ + web_rid@,
{
    let head = concat(base_url, "/");
    concat(head.as_str(), web_rid)
}

fn pair(k: &str, v: &str) -> (r: (String, String))
    ensures
        r.0@ == k@ && r.1@ == v@,
{
    (k.to_owned(), v.to_owned())
}

/// The query of a room API request for `web_rid`, as a desktop browser
/// sends it.
pub open spec fn room_query_spec(web_rid: Seq<char>) -> Seq<(Seq<char>, Seq<char>)> {
    seq![
        ("aid"@, "6383"@),
        ("live_id"@, "1"@),
        ("app_name"@, "douyin_web"@),
        ("device_platform"@, "web"@),
        ("language"@, "zh-CN"@),
        ("cookie_enabled"@, "true"@),
        ("enter_from"@, "page_refresh"@),
        ("web_rid"@, web_rid),
        ("enter_source"@, ""@),
        ("is_need_double_stream"@, "false"@),
        ("insert_task_id"@, ""@),
        ("live_reason"@, ""@),
        ("browser_language"@, "zh-CN"@),
        ("browser_platform"@, "Win32"@),
        ("browser_name"@, "Edge"@),
    ]
}

/// Looking a key up from position `i` goes past a pair with another key.
proof fn lemma_get_past(hs: Seq<(Seq<char>, Seq<char>)>, k: Seq<char>, i: int)
    requires
        0 <= i < hs.len(),
        hs[i].0 != k,
    ensures
        headers_get(hs.subrange(i, hs.len() as int), k) == headers_get(
            hs.subrange(i + 1, hs.len() as int),
            k,
        ),
{
    assert(hs.subrange(i, hs.len() as int).drop_first() =~= hs.subrange(i + 1, hs.len() as int));
}

/// Looking a key up from position `i` stops at a pair with that key.
proof fn lemma_get_at(hs: Seq<(Seq<char>, Seq<char>)>, k: Seq<char>, i: int)
    requires
        0 <= i < hs.len(),
        hs[i].0 == k,
    ensures
        headers_get(hs.subrange(i, hs.len() as int), k) == Some(hs[i].1),
{
}

/// The room API is asked for the room that was requested: the first
/// `web_rid` pair of the query carries the requested web id, and the first
/// `enter_source` pair is empty.
pub proof fn lemma_room_query_names_room(web_rid: Seq<char>)
    ensures
        headers_get(room_query_spec(web_rid), "web_rid"@) == Some(web_rid),
        headers_get(room_query_spec(web_rid), "enter_source"@) == Some(""@),
{
    reveal_strlit("aid");
    reveal_strlit("live_id");
    reveal_strlit("app_name");
    reveal_strlit("device_platform");
    reveal_strlit("language");
    reveal_strlit("cookie_enabled");
    reveal_strlit("enter_from");
    reveal_strlit("web_rid");
    reveal_strlit("enter_source");
    let q = room_query_spec(web_rid);
    assert(q.subrange(0, q.len() as int) =~= q);
    assert(q[1].0[0] != "web_rid"@[0]);
    assert(q[0].0.len() == 3);
    assert(q[2].0.len() == 8);
    assert(q[3].0.len() == 15);
    assert(q[4].0.len() == 8);
    assert(q[5].0.len() == 14);
    assert(q[6].0.len() == 10);
    assert("web_rid"@.len() == 7 && "enter_source"@.len() == 12);
    assert(q[0].0 != "web_rid"@ && q[0].0 != "enter_source"@);
    lemma_get_past(q, "web_rid"@, 0);
    lemma_get_past(q, "enter_source"@, 0);
    assert(q[1].0 != "web_rid"@ && q[1].0 != "enter_source"@);
    lemma_get_past(q, "web_rid"@, 1);
    lemma_get_past(q, "enter_source"@, 1);
    assert(q[2].0 != "web_rid"@ && q[2].0 != "enter_source"@);
    lemma_get_past(q, "web_rid"@, 2);
    lemma_get_past(q, "enter_source"@, 2);
    assert(q[3].0 != "web_rid"@ && q[3].0 != "enter_source"@);
    lemma_get_past(q, "web_rid"@, 3);
    lemma_get_past(q, "enter_source"@, 3);
    assert(q[4].0 != "web_rid"@ && q[4].0 != "enter_source"@);
    lemma_get_past(q, "web_rid"@, 4);
    lemma_get_past(q, "enter_source"@, 4);
    assert(q[5].0 != "web_rid"@ && q[5].0 != "enter_source"@);
    lemma_get_past(q, "web_rid"@, 5);
    lemma_get_past(q, "enter_source"@, 5);
    assert(q[6].0 != "web_rid"@ && q[6].0 != "enter_source"@);
    lemma_get_past(q, "web_rid"@, 6);
    lemma_get_past(q, "enter_source"@, 6);
    lemma_get_at(q, "web_rid"@, 7);
    assert(q[7].0 != "enter_source"@);
    lemma_get_past(q, "enter_source"@, 7);
    lemma_get_at(q, "enter_source"@, 8);
}

/// The query of a room API request for `web_rid`, as a desktop browser
/// sends it.
pub fn room_enter_query(web_rid: &str) -> (r: Vec<(String, String)>)
    ensures
        crate::proto::header_view(r@) == room_query_spec(web_rid@),
        headers_get(crate::proto::header_view(r@), "web_rid"@) == Some(web_rid@),
        headers_get(crate::proto::header_view(r@), "enter_source"@) == Some(""@),
{
    let mut q: Vec<(String, String)> = Vec::new();
    q.push(pair("aid", "6383"));
    q.push(pair("live_id", "1"));
    q.push(pair("app_name", "douyin_web"));
    q.push(pair("device_platform", "web"));
    q.push(pair("language", "zh-CN"));
    q.push(pair("cookie_enabled", "true"));
    q.push(pair("enter_from", "page_refresh"));
    q.push(pair("web_rid", web_rid));
    q.push(pair("enter_source", ""));
    q.push(pair("is_need_double_stream", "false"));
    q.push(pair("insert_task_id", ""));
    q.push(pair("live_reason", ""));
    q.push(pair("browser_language", "zh-CN"));
    q.push(pair("browser_platform", "Win32"));
    q.push(pair("browser_name", "Edge"));
    assert(crate::proto::header_view(q@) =~= room_query_spec(web_rid@));
    proof {
        lemma_room_query_names_room(web_rid@);
    }
    q
}

/// What an HTTP status of the room API means to signing: 401 and 403 say
/// the cookies expired, 404 that the room does not exist, any other status
/// outside 2xx that the answer's format changed.
pub fn check_signer_status(status: u16, web_rid: &str) -> (r: Result<(), SignatureError>)
    ensures
        (status == 401 || status == 403) ==> r == Err::<(), SignatureError>(
            SignatureError::CookieExpired,
        ),
        status == 404 ==> (r matches Err(SignatureError::RoomNotFound { web_rid: w }) && w@ == web_rid@),
        !(status == 401 || status == 403 || status == 404) && !(200 <= status <= 299) ==> r == Err::<
            (),
            SignatureError,
        >(SignatureError::AlgorithmChanged),
        200 <= status <= 299 ==> r is Ok,
{
    if status == 401 || status == 403 {
        return Err(SignatureError::CookieExpired);
    }
    if status == 404 {
        return Err(SignatureError::RoomNotFound { web_rid: web_rid.to_owned() });
    }
    if !(200 <= status && status <= 299) {
        return Err(SignatureError::AlgorithmChanged);
    }
    Ok(())
}

/// The room of an answer whose JSON parsed (`None` where it did not):
/// without `data`, `room` or a non-empty `id_str` the format changed.  A
/// room is live when its status is 2.
pub fn room_info_for_signer(web_rid: &str, base_url: &str, body: Option<RoomEnterBody>) -> (r: Result<
    RoomInfo,
    SignatureError,
>)
    ensures
        match body {
            Some(RoomEnterBody { data: Some(RoomEnterData { room: Some(room) }) }) => match room.id_str {
                Some(id) => if id@.len() > 0 {
                    r matches Ok(info) && info.room_id == id && info.web_room_id@ == web_rid@
                        && info.owner_nickname == room.owner_nickname && info.title == room.title
                        && info.is_live == (room.status == Some(2i64)) && info.live_url@ == base_url@
                        + "/"@ + web_rid@
                } else {
                    r == Err::<RoomInfo, SignatureError>(SignatureError::AlgorithmChanged)
                },
                None => r == Err::<RoomInfo, SignatureError>(SignatureError::AlgorithmChanged),
            },
            _ => r == Err::<RoomInfo, SignatureError>(SignatureError::AlgorithmChanged),
        },
{
    let body = match body {
        Some(b) => b,
        None => return Err(SignatureError::AlgorithmChanged),
    };
    let data = match body.data {
        Some(d) => d,
        None => return Err(SignatureError::AlgorithmChanged),
    };
    let room = match data.room {
        Some(r) => r,
        None => return Err(SignatureError::AlgorithmChanged),
    };
    let id = match room.id_str {
        Some(id) => id,
        None => return Err(SignatureError::AlgorithmChanged),
    };
    if id.as_str().is_empty() {
        return Err(SignatureError::AlgorithmChanged);
    }
    let is_live = match room.status {
        Some(s) => s == 2,
        None => false,
    };
    Ok(
        RoomInfo {
            room_id: id,
            web_room_id: web_rid.to_owned(),
            owner_nickname: room.owner_nickname,
            title: room.title,
            is_live,
            live_url: room_page(base_url, web_rid),
        },
    )
}

/// The room of an answer for display: without `data` or `room` the
/// answer is refused with the missing field named; a missing `id_str`
/// reads as empty; the live URL is the room's page on the live site.
pub fn room_info_from_body(web_rid: &str, body: RoomEnterBody) -> (r: Result<RoomInfo, String>)
    ensures
        match body.data {
            None => r matches Err(m) && m@ == "missing 'data' field in room info response"@,
            Some(RoomEnterData { room: None }) => r matches Err(m) && m@
                == "missing 'room' field in room info data"@,
            Some(RoomEnterData { room: Some(room) }) => r matches Ok(info) && info.room_id@ == match room.id_str {
                Some(id) => id@,
                None => Seq::<char>::empty(),
            } && info.web_room_id@ == web_rid@ && info.owner_nickname == room.owner_nickname
                && info.title == room.title && info.is_live == (room.status == Some(2i64))
                && info.live_url@ == "https://live.douyin.com/"@ + web_rid@,
        },
{
    let data = match body.data {
        Some(d) => d,
        None => return Err("missing 'data' field in room info response".to_owned()),
    };
    let room = match data.room {
        Some(r) => r,
        None => return Err("missing 'room' field in room info data".to_owned()),
    };
    let id = match room.id_str {
        Some(id) => id,
        None => String::new(),
    };
    let is_live = match room.status {
        Some(s) => s == 2,
        None => false,
    };
    Ok(
        RoomInfo {
            room_id: id,
            web_room_id: web_rid.to_owned(),
            owner_nickname: room.owner_nickname,
            title: room.title,
            is_live,
            live_url: concat("https://live.douyin.com/", web_rid),
        },
    )
}

} // verus!
