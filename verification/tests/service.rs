use eleven_barrage::session::SessionFaultReason;
use eleven_barrage::api::health::{health_response, is_healthy};
use eleven_barrage::api::rooms::{created_room_answer, destroy_answer, existing_room_answer, list_rooms_response, map_pool_error as rooms_pool_error, room_ws_url, RoomsError};
use eleven_barrage::api::sign::{map_pool_error as sign_pool_error, ApiError, SignResponse};
use eleven_barrage::api::{check_signer_status, room_enter_query, room_enter_url, room_info_for_signer, room_info_from_body, RoomEnterBody, RoomEnterData, RoomEnterRoom};
use eleven_barrage::config::{AppConfig, AuthConfig, SignerMode, WssConfig};
use eleven_barrage::dynamic_room::{DynamicRoomManager, RoomStatus};
use eleven_barrage::filter::EventFilter;
use eleven_barrage::grpc_signed::{answer_parse_failure, answer_sign_result, map_pool_error_to_signature_error, map_proto_error, required_url, to_error_info, to_grpc_material, Code, ProvideSignedWssResult, SignatureErrorInfo};
use eleven_barrage::material::{SignedMaterial, SignedWssMaterial};
use eleven_barrage::metrics::WssState;
use eleven_barrage::pool::{PoolError, PoolHealth};
use eleven_barrage::signature_error::SignatureError;
use eleven_barrage::ws_path::{parse_room_path, subscription_room_id};
use eleven_barrage::wss::WssConnectionManager;
use prost::encoding::{bytes, int64, string, uint64};

#[test]
fn auth_config_default_is_empty() {
    let auth = AuthConfig::default();
    assert_eq!(auth.ttwid, "");
    assert_eq!(auth.sessionid, "");
    assert!(!auth.has_any());
}

#[test]
fn auth_config_validate_fails_when_empty() {
    let auth = AuthConfig::default();
    assert!(matches!(auth.validate(), Err(SignatureError::ConfigMissing { .. })));
}

#[test]
fn auth_config_validate_passes_with_ttwid() {
    let auth = AuthConfig { ttwid: "test_ttwid".to_string(), sessionid: String::new() };
    assert!(auth.validate().is_ok());
}

#[test]
fn auth_config_validate_passes_with_sessionid_only() {
    let auth = AuthConfig { ttwid: String::new(), sessionid: "test_sessionid".to_string() };
    assert!(auth.validate().is_ok());
}

#[test]
fn auth_config_to_cookie_header_ttwid_only() {
    let auth = AuthConfig { ttwid: "abc".to_string(), sessionid: String::new() };
    assert_eq!(auth.to_cookie_header(), "ttwid=abc");
}

#[test]
fn auth_config_to_cookie_header_both() {
    let auth = AuthConfig { ttwid: "abc".to_string(), sessionid: "def".to_string() };
    assert_eq!(auth.to_cookie_header(), "ttwid=abc; sessionid=def");
}

#[test]
fn auth_config_to_cookie_header_trims_whitespace() {
    let auth = AuthConfig { ttwid: "  abc  ".to_string(), sessionid: String::new() };
    assert_eq!(auth.to_cookie_header(), "ttwid=abc");
}

#[test]
fn auth_config_has_any() {
    assert!(!AuthConfig::default().has_any());
    assert!(AuthConfig { ttwid: "x".to_string(), sessionid: String::new() }.has_any());
    assert!(AuthConfig { ttwid: String::new(), sessionid: "y".to_string() }.has_any());
    assert!(!AuthConfig { ttwid: " \t".to_string(), sessionid: "\n".to_string() }.has_any());
}

#[test]
fn default_config_validates_room_id_required() {
    let cfg = AppConfig::default();
    assert!(cfg.validate().is_err());
}

#[test]
fn config_validation_and_signer_mode() {
    let mut cfg = AppConfig::default();
    cfg.service.room_id = "741891423654".to_string();
    assert!(cfg.validate().is_ok());
    assert_eq!(cfg.service.ws_listen_addr, "0.0.0.0:8888");
    assert_eq!(cfg.signer_mode(), SignerMode::Browser);
    cfg.signer.mode = "http".to_string();
    assert_eq!(cfg.signer_mode(), SignerMode::Http);
    cfg.signer.mode = "auto".to_string();
    assert_eq!(cfg.signer_mode(), SignerMode::Auto);
    cfg.signer.mode = "other".to_string();
    assert_eq!(cfg.signer_mode(), SignerMode::Browser);
    cfg.events.push_event_methods.clear();
    assert_eq!(cfg.validate(), Err("events.push_event_methods cannot be empty".to_string()));
}

#[test]
fn to_error_info_maps_all_codes() {
    let errors = [
        SignatureError::UrlFormatNotSupported { url: "x".to_string() },
        SignatureError::EmptyUrl,
        SignatureError::ConfigMissing { field: "x".to_string() },
        SignatureError::CookieExpired,
        SignatureError::AlgorithmChanged,
        SignatureError::RoomNotFound { web_rid: "x".to_string() },
        SignatureError::NetworkTransient { reason: "x".to_string() },
    ];
    for err in &errors {
        let info = to_error_info(err);
        assert!(info.code > 0, "code should be mapped: {}", err.message());
        assert_eq!(map_proto_error(info).code(), err.code());
    }
}

#[test]
fn to_grpc_material_converts_expires_at() {
    let material = SignedWssMaterial {
        url: "wss://example.com".to_string(),
        headers: vec![],
        expires_at: 1_700_000_000_000_000_000,
    };
    let grpc = to_grpc_material(material);
    assert_eq!(grpc.url, "wss://example.com");
    assert_eq!(grpc.expires_at_unix, 1700000000);
}

#[test]
fn map_pool_error_busy_to_network_transient() {
    let sig = map_pool_error_to_signature_error(&PoolError::Busy);
    assert!(sig.retryable());
    assert_eq!(sig.code(), "NETWORK_TRANSIENT");
}

#[test]
fn map_pool_error_sign_timeout_to_network_transient() {
    let sig = map_pool_error_to_signature_error(&PoolError::Sign("CDP command timed out after 10s".into()));
    assert!(sig.retryable());
    assert_eq!(sig.code(), "NETWORK_TRANSIENT");
}

#[test]
fn map_pool_error_sign_generic_to_algorithm_changed() {
    let sig = map_pool_error_to_signature_error(&PoolError::Sign("unexpected error".into()));
    assert!(!sig.retryable());
    assert_eq!(sig.code(), "ALGORITHM_CHANGED");
}

#[test]
fn map_pool_error_browser_to_network_transient() {
    let sig = map_pool_error_to_signature_error(&PoolError::Browser("crashed".into()));
    assert!(sig.retryable());
    assert_eq!(sig.code(), "NETWORK_TRANSIENT");
}

#[test]
fn map_proto_error_url_format() {
    let err = SignatureErrorInfo { code: Code::UrlFormatNotSupported.as_i32(), retryable: false, message: "bad url".to_string() };
    let mapped = map_proto_error(err);
    assert_eq!(mapped.code(), "URL_FORMAT_NOT_SUPPORTED");
    assert!(!mapped.retryable());
}

#[test]
fn map_proto_error_cookie_expired() {
    let err = SignatureErrorInfo { code: Code::CookieExpired.as_i32(), retryable: false, message: "cookie expired".to_string() };
    let mapped = map_proto_error(err);
    assert_eq!(mapped.code(), "COOKIE_EXPIRED");
    assert!(!mapped.retryable());
}

#[test]
fn map_proto_error_network_transient() {
    let err = SignatureErrorInfo { code: Code::NetworkTransient.as_i32(), retryable: true, message: "timeout".to_string() };
    let mapped = map_proto_error(err);
    assert_eq!(mapped.code(), "NETWORK_TRANSIENT");
    assert!(mapped.retryable());
}

#[test]
fn map_proto_error_unknown_code() {
    let err = SignatureErrorInfo { code: 42, retryable: true, message: "?".to_string() };
    assert_eq!(map_proto_error(err), SignatureError::AlgorithmChanged);
}

#[test]
fn wss_state_display() {
    assert_eq!(WssState::Disconnected.to_string(), "disconnected");
    assert_eq!(WssState::Connecting.to_string(), "connecting");
    assert_eq!(WssState::Connected.to_string(), "connected");
}

#[test]
fn parses_legal_room_path() {
    assert_eq!(parse_room_path("/rooms/abc").as_deref(), Some("abc"));
}

#[test]
fn parses_room_path_with_numeric_id() {
    assert_eq!(parse_room_path("/rooms/741891423654").as_deref(), Some("741891423654"));
}

#[test]
fn rejects_root() {
    assert_eq!(parse_room_path("/"), None);
}

#[test]
fn rejects_only_rooms() {
    assert_eq!(parse_room_path("/rooms"), None);
}

#[test]
fn rejects_trailing_slash() {
    assert_eq!(parse_room_path("/rooms/"), None);
}

#[test]
fn rejects_extra_segments() {
    assert_eq!(parse_room_path("/rooms/abc/extra"), None);
}

#[test]
fn rejects_wrong_prefix() {
    assert_eq!(parse_room_path("/foo/abc"), None);
}

#[test]
fn rejects_without_leading_slash() {
    assert_eq!(parse_room_path("rooms/abc").as_deref(), Some("abc"));
}

#[test]
fn health_is_unhealthy_if_any_browser_dead() {
    assert!(!is_healthy(0, 1));
    assert!(is_healthy(1, 0));
}

#[test]
fn health_answer_status() {
    let h = PoolHealth { size: 2, ready: 1, busy: 0, dead: 1, browsers: vec![] };
    let (code, resp) = health_response(h);
    assert_eq!(code, 503);
    assert_eq!(resp.status, "degraded");
    let (code, resp) = health_response(PoolHealth { size: 1, ready: 1, busy: 0, dead: 0, browsers: vec![] });
    assert_eq!(code, 200);
    assert_eq!(resp.status, "ok");
}

#[test]
fn create_or_get_returns_same_room_for_same_web_rid() {
    let mut mgr = DynamicRoomManager::new();
    let (a1, created1) = mgr.create_or_get("rid1", "https://x", 10);
    let (a2, created2) = mgr.create_or_get("rid1", "https://y", 20);
    assert_eq!(a1.room_id, "rid1");
    assert!(created1 && !created2);
    assert_eq!(a1, a2);
    assert_eq!(mgr.list().len(), 1);
}

#[test]
fn create_or_get_different_web_rid_creates_new() {
    let mut mgr = DynamicRoomManager::new();
    mgr.create_or_get("rid1", "u1", 0);
    mgr.create_or_get("rid2", "u2", 0);
    assert_eq!(mgr.list().len(), 2);
}

#[test]
fn destroy_existing_room_returns_ok() {
    let mut mgr = DynamicRoomManager::new();
    mgr.create_or_get("rid1", "u", 0);
    assert!(mgr.destroy("rid1").is_ok());
    assert!(mgr.list().is_empty());
    assert!(mgr.get("rid1").is_none());
}

#[test]
fn destroy_nonexistent_room_returns_err() {
    let mut mgr = DynamicRoomManager::new();
    assert!(mgr.destroy("nope").is_err());
}

#[test]
fn subscribe_and_unsubscribe_count_clients() {
    let mut mgr = DynamicRoomManager::new();
    mgr.create_or_get("rid1", "u", 0);
    assert_eq!(mgr.subscribe("rid1").as_deref(), Some("rid1"));
    assert_eq!(mgr.get("rid1").unwrap().client_count, 1);
    mgr.unsubscribe("rid1");
    mgr.unsubscribe("rid1");
    assert_eq!(mgr.list()[0].client_count, 0);
    assert!(mgr.subscribe("nope").is_none());
    mgr.set_status("rid1", RoomStatus::Connected);
    assert_eq!(mgr.get("rid1").unwrap().status, RoomStatus::Connected);
}

#[test]
fn room_status_numbers_round_trip() {
    for s in [RoomStatus::Connecting, RoomStatus::Connected, RoomStatus::Failed] {
        assert_eq!(RoomStatus::from_u8(s.as_u8()), s);
    }
    assert_eq!(RoomStatus::from_u8(9), RoomStatus::Connecting);
    assert_eq!(RoomStatus::Failed.as_str(), "failed");
}

#[test]
fn room_answers() {
    let mut mgr = DynamicRoomManager::new();
    let (room, _) = mgr.create_or_get("r", "u", 5);
    let (code, info) = existing_room_answer(&room, "127.0.0.1:8888");
    assert_eq!(code, 202);
    assert_eq!(info.ws_url, "ws://127.0.0.1:8888/rooms/r");
    mgr.set_status("r", RoomStatus::Connected);
    let (code, info) = existing_room_answer(&mgr.get("r").unwrap(), "h");
    assert_eq!(code, 200);
    assert_eq!(info.status, "connected");
    assert_eq!(room_ws_url("h", "x"), "ws://h/rooms/x");
    let listing = list_rooms_response(&mgr.list());
    assert_eq!(listing.rooms[0].created_at_unix, 5);
    assert_eq!(destroy_answer(mgr.destroy("r")), Ok(204));
    assert_eq!(destroy_answer(mgr.destroy("r")), Err(RoomsError::RoomNotFound));
}

#[test]
fn error_answers() {
    let a = RoomsError::PoolBusy.answer();
    assert_eq!((a.status, a.code, a.retryable), (503, "POOL_BUSY", true));
    assert_eq!(rooms_pool_error(PoolError::Sign("NoSignedEndpointCaptured".into())),
        RoomsError::NoSignedEndpointCaptured("room may not exist or be offline".to_string()));
    assert_eq!(rooms_pool_error(PoolError::Sign("timed out".into())), RoomsError::WssTimeout);
    let b = ApiError::InvalidRequest("bad".into()).answer();
    assert_eq!((b.status, b.code, b.retryable, b.message.as_str()), (400, "INVALID_REQUEST", false, "bad"));
    assert_eq!(sign_pool_error(PoolError::Browser("x".into())), ApiError::BrowserDead);
}

#[test]
fn sign_response_from_material() {
    let m = SignedMaterial::HttpFetch(SignedWssMaterial { url: "https://f".to_string(), headers: vec![], expires_at: 100_000_000_000 });
    let r = SignResponse::from_material(m, 50);
    assert_eq!(r.kind, "http_fetch");
    assert_eq!(r.wss_url, "https://f");
    assert_eq!((r.expires_at_unix, r.captured_at_unix), (100, 50));
}

#[test]
fn room_info_decisions() {
    assert_eq!(check_signer_status(404, "r"), Err(SignatureError::RoomNotFound { web_rid: "r".to_string() }));
    assert_eq!(check_signer_status(401, "r"), Err(SignatureError::CookieExpired));
    assert_eq!(check_signer_status(503, "r"), Err(SignatureError::AlgorithmChanged));
    assert_eq!(check_signer_status(200, "r"), Ok(()));
    let room = RoomEnterRoom { id_str: Some("7".to_string()), owner_nickname: Some("o".to_string()), title: None, status: Some(2) };
    let body = RoomEnterBody { data: Some(RoomEnterData { room: Some(room) }) };
    let info = room_info_for_signer("w", "https://live.douyin.com", Some(body.clone())).unwrap();
    assert!(info.is_live);
    assert_eq!(info.live_url, "https://live.douyin.com/w");
    assert_eq!(room_info_for_signer("w", "b", None), Err(SignatureError::AlgorithmChanged));
    let empty_id = RoomEnterBody { data: Some(RoomEnterData { room: Some(RoomEnterRoom { id_str: Some(String::new()), owner_nickname: None, title: None, status: None }) }) };
    assert_eq!(room_info_for_signer("w", "b", Some(empty_id)), Err(SignatureError::AlgorithmChanged));
    assert_eq!(room_info_from_body("w", RoomEnterBody { data: None }), Err("missing 'data' field in room info response".to_string()));
    assert_eq!(room_info_from_body("w", body).unwrap().room_id, "7");
    assert_eq!(room_enter_url("https://x"), "https://x/webcast/room/web/enter/");
    assert_eq!(room_enter_query("w").len(), 15);
}

fn frame_with_chat(msg_id: i64) -> Vec<u8> {
    let mut chat = Vec::new();
    bytes::encode(1, &{
        let mut c = Vec::new();
        int64::encode(2, &msg_id, &mut c);
        c
    }, &mut chat);
    let mut msg = Vec::new();
    string::encode(1, &"WebcastChatMessage".to_string(), &mut msg);
    bytes::encode(2, &chat, &mut msg);
    let mut resp = Vec::new();
    bytes::encode(1, &msg, &mut resp);
    let mut frame = Vec::new();
    uint64::encode(1, &1u64, &mut frame);
    bytes::encode(8, &resp, &mut frame);
    frame
}

#[test]
fn backoff_delay_exponential() {
    let mut config = WssConfig::default();
    config.reconnect_initial_secs = 1;
    config.reconnect_max_secs = 60;
    let manager = WssConnectionManager::new(config, EventFilter::mvp_default());
    assert_eq!(manager.backoff_delay(0), 1);
    assert_eq!(manager.backoff_delay(1), 2);
    assert_eq!(manager.backoff_delay(2), 4);
    assert_eq!(manager.backoff_delay(3), 8);
    assert_eq!(manager.backoff_delay(20), 60);
}

#[test]
fn frames_push_new_events_and_count_failures() {
    let mut manager = WssConnectionManager::new(WssConfig::default(), EventFilter::mvp_default());
    let out = manager.handle_binary_frame(&frame_with_chat(1));
    assert_eq!(out.events.len(), 1);
    assert!(manager.handle_binary_frame(&frame_with_chat(1)).events.is_empty());
    assert!(manager.handle_binary_frame(&[0x07, 0x00]).fault.is_none());
    assert_eq!(manager.fault_detector().current_error_count(), 0);
    for _ in 0..4 {
        assert!(manager.handle_binary_frame(&[0x0a]).fault.is_none());
    }
    assert!(manager.handle_binary_frame(&[0x0a]).fault.is_some());
    assert!(manager.trigger_session_fault().is_some());
    assert!(!manager.attempts_exhausted(100));
}

#[test]
fn subscription_room_id_accepts_both_forms() {
    assert_eq!(subscription_room_id("664637748606"), "664637748606");
    assert_eq!(subscription_room_id("  rooms/664637748606\n"), "664637748606");
    assert_eq!(subscription_room_id("/rooms/123"), "123");
    assert_eq!(subscription_room_id("//rooms/rooms/9"), "9");
}

#[test]
fn subscription_room_id_of_blank_text_is_empty() {
    assert_eq!(subscription_room_id("   "), "");
    assert_eq!(subscription_room_id("/"), "");
    assert_eq!(subscription_room_id("rooms/"), "");
}

#[test]
fn sign_response_rebuilds_the_signed_material() {
    let fetch = SignedMaterial::HttpFetch(SignedWssMaterial { url: "https://f".to_string(), headers: vec![("a".to_string(), "b".to_string())], expires_at: 100_000_000_000 });
    assert_eq!(SignResponse::from_material(fetch.clone(), 50).to_material(), fetch);
    let push = SignedMaterial::Wss(SignedWssMaterial { url: "wss://p".to_string(), headers: vec![], expires_at: 7_000_000_000 });
    assert_eq!(SignResponse::from_material(push.clone(), 1).to_material(), push);
    let other = SignResponse {
        kind: "unknown".to_string(),
        url: "u".to_string(),
        wss_url: "u".to_string(),
        headers: vec![],
        expires_at_unix: 3,
        captured_at_unix: 0,
    };
    assert!(matches!(other.to_material(), SignedMaterial::Wss(_)));
}

#[test]
fn api_error_invalid_url_returns_400() {
    let e = ApiError::InvalidUrl("not a url".into());
    assert_eq!(e.answer().status, 400);
}

#[test]
fn api_error_pool_busy_returns_503() {
    assert_eq!(ApiError::PoolBusy.answer().status, 503);
}

#[test]
fn api_error_sign_failed_returns_502() {
    assert_eq!(ApiError::SignFailed("timeout".into()).answer().status, 502);
}

#[test]
fn default_browser_config_has_sensible_values() {
    let cfg = AppConfig::default();
    assert_eq!(cfg.browser.pool_size, 3);
    assert_eq!(cfg.browser.max_concurrent_per_browser, 2);
    assert_eq!(cfg.browser.sign_timeout_secs, 10);
    assert_eq!(cfg.browser.cdp_port_base, 9222);
}

#[test]
fn default_rest_config_uses_port_7878() {
    let cfg = AppConfig::default();
    assert_eq!(cfg.rest.listen_addr.rsplit(':').next(), Some("7878"));
}

#[test]
fn default_signer_mode_is_browser() {
    let cfg = AppConfig::default();
    assert!(matches!(cfg.signer_mode(), SignerMode::Browser));
}

#[test]
fn invalid_signer_mode_defaults_to_browser() {
    let mut cfg = AppConfig::default();
    cfg.service.room_id = "test".to_string();
    cfg.signer.mode = "unknown".to_string();
    assert!(matches!(cfg.signer_mode(), SignerMode::Browser));
}

#[test]
fn create_or_get_returns_same_handle_for_same_web_rid() {
    let mut mgr = DynamicRoomManager::new();
    let (a1, created1) = mgr.create_or_get("rid1", "https://x", 0);
    let (a2, created2) = mgr.create_or_get("rid1", "https://x", 5);
    assert_eq!(a1.room_id, "rid1");
    assert_eq!(a1, a2);
    assert!(created1 && !created2);
    assert_eq!(mgr.list().len(), 1);
}

#[test]
fn subscribe_returns_handle_with_correct_room_id() {
    let mut mgr = DynamicRoomManager::new();
    mgr.create_or_get("rid1", "u", 0);
    let sub = mgr.subscribe("rid1").expect("subscribe");
    assert_eq!(sub, "rid1");
    mgr.unsubscribe("rid1");
    let snap = mgr.list();
    assert_eq!(snap[0].client_count, 0);
}

#[test]
fn subscribe_to_nonexistent_returns_none() {
    let mut mgr = DynamicRoomManager::new();
    assert!(mgr.subscribe("nope").is_none());
}

#[test]
fn on_create_callback_fires_only_for_new_rooms() {
    let mut mgr = DynamicRoomManager::new();
    let mut created = 0;
    for rid in ["rid1", "rid1", "rid2"] {
        if mgr.create_or_get(rid, "u", 0).1 {
            created += 1;
        }
    }
    assert_eq!(created, 2);
}

#[test]
fn set_status_then_snapshot() {
    let mut mgr = DynamicRoomManager::new();
    mgr.create_or_get("rid1", "u", 0);
    mgr.set_status("rid1", RoomStatus::Connected);
    assert_eq!(mgr.list()[0].status, RoomStatus::Connected);
    mgr.set_status("rid1", RoomStatus::Failed);
    assert_eq!(mgr.list()[0].status, RoomStatus::Failed);
}

#[test]
fn signing_request_needs_a_url() {
    assert_eq!(required_url(Some("https://live.douyin.com/1".to_string())), Ok("https://live.douyin.com/1".to_string()));
    let missing = "url is required for auto-sign mode; for custom-barrage mode, use --wss-url flag instead".to_string();
    assert_eq!(required_url(Some("   ".to_string())), Err(missing.clone()));
    assert_eq!(required_url(None), Err(missing));
}

#[test]
fn signing_answers_carry_material_or_error_info() {
    let parse = answer_parse_failure(&SignatureError::EmptyUrl);
    assert!(matches!(parse, ProvideSignedWssResult::Error(ref info) if info.code == Code::EmptyUrl.as_i32() && !info.retryable));
    let m = SignedMaterial::Wss(SignedWssMaterial { url: "wss://x".to_string(), headers: vec![], expires_at: 9_000_000_000 });
    match answer_sign_result(Ok(m)) {
        ProvideSignedWssResult::Material(g) => assert_eq!((g.url.as_str(), g.expires_at_unix), ("wss://x", 9)),
        other => panic!("expected material, got {:?}", other),
    }
    match answer_sign_result(Err(PoolError::Busy)) {
        ProvideSignedWssResult::Error(info) => {
            assert_eq!(info.code, Code::NetworkTransient.as_i32());
            assert!(info.retryable);
            assert_eq!(info.message, "network transient error: pool busy");
        }
        other => panic!("expected error, got {:?}", other),
    }
    match answer_sign_result(Err(PoolError::Sign("boom".to_string()))) {
        ProvideSignedWssResult::Error(info) => {
            assert_eq!(info.code, Code::AlgorithmChanged.as_i32());
            assert!(!info.retryable);
        }
        other => panic!("expected error, got {:?}", other),
    }
}

#[test]
fn trigger_session_fault_counts_six_failures() {
    let mut manager = WssConnectionManager::new(WssConfig::default(), EventFilter::mvp_default());
    assert_eq!(manager.trigger_session_fault(), Some(SessionFaultReason::ConsecutiveDecodeFailures(5)));
    assert_eq!(manager.fault_detector().current_error_count(), 1);
    assert_eq!(manager.trigger_session_fault(), Some(SessionFaultReason::ConsecutiveDecodeFailures(5)));
    assert_eq!(manager.fault_detector().current_error_count(), 2);
}

#[test]
fn default_app_config_sections() {
    let cfg = AppConfig::default();
    assert_eq!(cfg.service.ws_listen_addr, "0.0.0.0:8888");
    assert_eq!(cfg.wss.heartbeat_interval_secs, 5);
    assert_eq!(cfg.room_api.base_url, "https://live.douyin.com");
    assert_eq!(cfg.mitm.proxy_port, 8827);
    assert_eq!(cfg.logging.level, "info");
    assert_eq!(cfg.rest.listen_addr, "0.0.0.0:7878");
}

#[test]
fn existing_connecting_room_answers_202_connecting() {
    let mut mgr = DynamicRoomManager::new();
    mgr.create_or_get("abc", "u0", 0);
    let room = mgr.get("abc").unwrap();
    let (code, info) = existing_room_answer(&room, "127.0.0.1:8888");
    assert_eq!(code, 202);
    assert_eq!(info.status, "connecting");
    assert_eq!(info.url, "u0");
    assert_eq!(info.ws_url, "ws://127.0.0.1:8888/rooms/abc");
    assert_eq!(mgr.list().len(), 1);
}

#[test]
fn signed_room_opens_connected_once() {
    let mut mgr = DynamicRoomManager::new();
    let (room, created) = mgr.open_signed_room("abc", "https://live.douyin.com/abc", 7);
    assert!(created);
    assert_eq!(room.status, RoomStatus::Connected);
    assert_eq!(room.created_at_unix, 7);
    assert_eq!(mgr.get("abc"), Some(room.clone()));
    let (code, info) = created_room_answer(&room, "127.0.0.1:8888");
    assert_eq!((code, info.status.as_str()), (201, "connected"));
    mgr.set_status("abc", RoomStatus::Failed);
    let (again, created_again) = mgr.open_signed_room("abc", "other", 9);
    assert!(!created_again);
    assert_eq!(again.status, RoomStatus::Failed);
    assert_eq!(again.url, "https://live.douyin.com/abc");
}


#[test]
fn grpc_material_reports_whole_seconds() {
    let material = SignedWssMaterial { url: "wss://e".to_string(), headers: vec![], expires_at: 1_700_000_000_999_999_999 };
    assert_eq!(to_grpc_material(material).expires_at_unix, 1700000000);
}

#[test]
fn mvp_push_lists_chat_gift_like() {
    assert_eq!(eleven_barrage::message_method::MVP_PUSH, ["WebcastChatMessage", "WebcastGiftMessage", "WebcastLikeMessage"]);
}
