use eleven_barrage::cdp::{classify_frame, is_signed_request, CdpCommand, CdpEvent, CreateTargetParams, FrameKind, NavigateParams, Request, RequestWillBeSentParams};
use eleven_barrage::collector_spawn::{auth_cookie_pairs, collector_context_for, fetch_config_for, grab_fetch_config, pool_config_for, wss_config_for, CollectorContext};
use eleven_barrage::config::{AuthConfig, BrowserConfig as ServiceBrowserConfig};
use eleven_barrage::text::replace_all;
use eleven_barrage::browser::{default_edge_args, BrowserConfig};
use eleven_barrage::im_fetch::{check_status, map_transport_error, material_from_response, ImFetchConfig, ImFetchResponse};
use eleven_barrage::material::{Collector, DefaultCollector, SignedMaterial, SignedWssMaterial};
use eleven_barrage::pool::{auth_cookies_from, browser_config_for, summarize_health, BrowserCookie, BrowserObservation, BrowserPoolConfig, PoolError, RoundRobin};
use eleven_barrage::signature_error::SignatureError;
use eleven_barrage::signer::{capture_from_event, capture_from_request, is_im_fetch_url, is_wss_push_url, room_page_url};
use eleven_barrage::url_parser::{ensure_scheme, extract_first_path_segment, extract_www_root_live_web_rid, parse, web_rid_from_parts};

#[test]
fn url_format_not_supported_not_retryable() {
    let err = SignatureError::UrlFormatNotSupported { url: "https://example.com/xxx".to_string() };
    assert!(!err.retryable());
}

#[test]
fn empty_url_not_retryable() {
    assert!(!SignatureError::EmptyUrl.retryable());
}

#[test]
fn config_missing_not_retryable() {
    let err = SignatureError::ConfigMissing { field: "auth.ttwid".to_string() };
    assert!(!err.retryable());
}

#[test]
fn cookie_expired_not_retryable() {
    assert!(!SignatureError::CookieExpired.retryable());
}

#[test]
fn algorithm_changed_not_retryable() {
    assert!(!SignatureError::AlgorithmChanged.retryable());
}

#[test]
fn room_not_found_not_retryable() {
    let err = SignatureError::RoomNotFound { web_rid: "nonexistent".to_string() };
    assert!(!err.retryable());
}

#[test]
fn network_transient_is_retryable() {
    let err = SignatureError::NetworkTransient { reason: "connection timeout".to_string() };
    assert!(err.retryable());
}

#[test]
fn error_codes_are_stable_strings() {
    assert_eq!(SignatureError::UrlFormatNotSupported { url: "x".to_string() }.code(), "URL_FORMAT_NOT_SUPPORTED");
    assert_eq!(SignatureError::EmptyUrl.code(), "EMPTY_URL");
    assert_eq!(SignatureError::ConfigMissing { field: "f".to_string() }.code(), "CONFIG_MISSING");
    assert_eq!(SignatureError::CookieExpired.code(), "COOKIE_EXPIRED");
    assert_eq!(SignatureError::AlgorithmChanged.code(), "ALGORITHM_CHANGED");
    assert_eq!(SignatureError::RoomNotFound { web_rid: "x".to_string() }.code(), "ROOM_NOT_FOUND");
    assert_eq!(SignatureError::NetworkTransient { reason: "x".to_string() }.code(), "NETWORK_TRANSIENT");
}

#[test]
fn display_includes_context() {
    let err = SignatureError::UrlFormatNotSupported { url: "https://v.douyin.com/abc".to_string() };
    let msg = err.message();
    assert!(msg.contains("v.douyin.com"));
    assert!(msg.contains("live.douyin.com"));
}

#[test]
fn display_room_not_found_includes_web_rid() {
    let err = SignatureError::RoomNotFound { web_rid: "123456".to_string() };
    assert!(err.message().contains("123456"));
}

#[test]
fn display_cookie_expired_suggests_re_paste() {
    let msg = SignatureError::CookieExpired.message();
    assert!(msg.contains("re-paste") || msg.contains("re-paste"));
}

#[test]
fn display_config_missing_includes_field() {
    let err = SignatureError::ConfigMissing { field: "auth.ttwid".to_string() };
    assert!(err.message().contains("auth.ttwid"));
}

#[test]
fn display_texts_are_exact() {
    assert_eq!(SignatureError::EmptyUrl.message(), "URL is empty");
    assert_eq!(
        SignatureError::NetworkTransient { reason: "x".to_string() }.message(),
        "network transient error: x"
    );
    assert_eq!(
        SignatureError::UrlFormatNotSupported { url: "u".to_string() }.message(),
        "URL format not supported: u (only live.douyin.com is accepted)"
    );
}

#[test]
fn equality_works() {
    let a = SignatureError::NetworkTransient { reason: "x".to_string() };
    let b = SignatureError::NetworkTransient { reason: "x".to_string() };
    assert_eq!(a, b);
}

#[test]
fn parse_full_url_with_https() {
    assert_eq!(parse("https://live.douyin.com/664637748606").unwrap(), "664637748606");
}

#[test]
fn parse_url_without_scheme() {
    assert_eq!(parse("live.douyin.com/664637748606").unwrap(), "664637748606");
}

#[test]
fn parse_url_with_query() {
    assert_eq!(parse("https://live.douyin.com/xxx?foo=bar&baz=qux").unwrap(), "xxx");
}

#[test]
fn parse_url_with_fragment() {
    assert_eq!(parse("https://live.douyin.com/xxx#section").unwrap(), "xxx");
}

#[test]
fn parse_url_with_query_and_fragment() {
    assert_eq!(parse("https://live.douyin.com/abc?x=1#frag").unwrap(), "abc");
}

#[test]
fn parse_url_with_http_scheme() {
    assert_eq!(parse("http://live.douyin.com/664637748606").unwrap(), "664637748606");
}

#[test]
fn parse_long_web_rid() {
    assert_eq!(parse("https://live.douyin.com/741891423654123456789").unwrap(), "741891423654123456789");
}

#[test]
fn parse_trims_surrounding_whitespace() {
    assert_eq!(parse("  https://live.douyin.com/42 \n").unwrap(), "42");
}

#[test]
fn reject_empty_string() {
    assert!(matches!(parse(""), Err(SignatureError::EmptyUrl)));
}

#[test]
fn reject_whitespace_only() {
    assert!(matches!(parse("   "), Err(SignatureError::EmptyUrl)));
}

#[test]
fn reject_v_douyin_com() {
    assert!(matches!(parse("https://v.douyin.com/abc123"), Err(SignatureError::UrlFormatNotSupported { .. })));
}

#[test]
fn reject_other_domain() {
    assert!(matches!(parse("https://example.com/xxx"), Err(SignatureError::UrlFormatNotSupported { .. })));
}

#[test]
fn parse_www_douyin_com_root_live() {
    assert_eq!(parse("https://www.douyin.com/root/live/49844349625").unwrap(), "49844349625");
}

#[test]
fn parse_www_douyin_com_root_live_with_query() {
    assert_eq!(
        parse("https://www.douyin.com/root/live/49844349625?anchor_id=66730156188&use_new_preview=true").unwrap(),
        "49844349625"
    );
}

#[test]
fn parse_www_douyin_com_root_live_without_scheme() {
    assert_eq!(parse("www.douyin.com/root/live/49844349625").unwrap(), "49844349625");
}

#[test]
fn reject_www_douyin_com_other_path() {
    assert!(matches!(parse("https://www.douyin.com/xxx"), Err(SignatureError::UrlFormatNotSupported { .. })));
}

#[test]
fn reject_www_douyin_com_missing_id() {
    assert!(matches!(parse("https://www.douyin.com/root/live/"), Err(SignatureError::UrlFormatNotSupported { .. })));
}

#[test]
fn reject_malformed_url() {
    match parse("not a url at all") {
        Err(SignatureError::UrlFormatNotSupported { url }) => assert_eq!(url, "not a url at all"),
        other => panic!("unexpected {:?}", other),
    }
}

#[test]
fn reject_path_only() {
    assert!(matches!(parse("https://live.douyin.com/"), Err(SignatureError::UrlFormatNotSupported { .. })));
}

#[test]
fn url_format_error_not_retryable() {
    match parse("https://v.douyin.com/abc") {
        Err(e) => assert!(!e.retryable()),
        Ok(_) => panic!("expected error"),
    }
}

#[test]
fn empty_url_error_not_retryable() {
    match parse("") {
        Err(e) => assert!(!e.retryable()),
        Ok(_) => panic!("expected error"),
    }
}

#[test]
fn ensure_scheme_adds_https() {
    assert_eq!(ensure_scheme("live.douyin.com/xxx"), "https://live.douyin.com/xxx");
}

#[test]
fn ensure_scheme_keeps_existing() {
    assert_eq!(ensure_scheme("https://live.douyin.com/xxx"), "https://live.douyin.com/xxx");
    assert_eq!(ensure_scheme("http://live.douyin.com/xxx"), "http://live.douyin.com/xxx");
}

#[test]
fn path_segment_extraction() {
    assert_eq!(extract_first_path_segment("//abc/def", "in").unwrap(), "abc");
    assert!(extract_first_path_segment("/", "in").is_err());
    assert_eq!(extract_www_root_live_web_rid("/root/live/9/x", "in").unwrap(), "9");
    assert!(extract_www_root_live_web_rid("/root/live", "in").is_err());
    assert!(extract_www_root_live_web_rid("/root/dead/9", "in").is_err());
}

#[test]
fn parts_without_host_are_refused() {
    assert!(matches!(
        web_rid_from_parts("x", Some((None, "/1".to_string()))),
        Err(SignatureError::UrlFormatNotSupported { .. })
    ));
    assert_eq!(
        web_rid_from_parts("x", Some((Some("live.douyin.com".to_string()), "/77".to_string()))).unwrap(),
        "77"
    );
}

#[test]
fn build_command_args_includes_headless_and_anti_detection() {
    let config = BrowserConfig {
        edge_path: "msedge.exe".to_string(),
        user_data_dir: "/tmp/profile".to_string(),
        extra_args: vec!["--my-arg".into()],
        cdp_port: 9222,
    };
    let args = config.build_args();
    assert!(args.contains(&"--headless=new".to_string()));
    assert!(args.contains(&"--disable-blink-features=AutomationControlled".to_string()));
    assert!(args.contains(&"--remote-debugging-port=9222".to_string()));
    assert!(args.contains(&"--user-data-dir=/tmp/profile".to_string()));
    assert!(args.contains(&"--my-arg".to_string()));
    assert_eq!(args.last().unwrap(), "about:blank");
}

#[test]
fn default_edge_args_are_correct() {
    let args = default_edge_args();
    assert!(args.iter().any(|a| a == "--headless=new"));
    assert!(args.iter().any(|a| a.starts_with("--disable-blink-features")));
    assert!(args.iter().any(|a| a == "--no-first-run"));
}

#[test]
fn url_pattern_matches_douyin_push() {
    assert!(is_wss_push_url("wss://webcast5-ws-web-lf.douyin.com/webcast/im/push/v2/?room_id=123"));
    assert!(is_wss_push_url("wss://anything.com/webcast/im/push/v2/"));
}

#[test]
fn url_pattern_matches_im_fetch_fallback() {
    assert!(is_im_fetch_url("https://live.douyin.com/webcast/im/fetch/?room_id=123"));
    assert!(is_im_fetch_url("https://www.douyin.com/webcast/im/fetch/?x=1"));
}

#[test]
fn url_pattern_rejects_non_wss() {
    assert!(!is_wss_push_url("https://live.douyin.com/123"));
    assert!(!is_wss_push_url("http://example.com/webcast/im/push"));
}

#[test]
fn url_pattern_rejects_wss_without_im_push() {
    assert!(!is_wss_push_url("wss://example.com/socket"));
    assert!(!is_wss_push_url("wss://example.com/webcast/other/v2/"));
}

#[test]
fn captured_requests_become_material() {
    let headers = vec![("Cookie".to_string(), "ttwid=1".to_string())];
    match capture_from_request("wss://h/webcast/im/push/v2/".to_string(), headers.clone(), 100) {
        Some(SignedMaterial::Wss(m)) => {
            assert_eq!(m.expires_at, 3_600_000_000_100);
            assert_eq!(m.headers, headers);
        }
        other => panic!("unexpected {:?}", other),
    }
    assert!(matches!(
        capture_from_request("https://h/webcast/im/fetch/?a=1".to_string(), vec![], 0),
        Some(SignedMaterial::HttpFetch(_))
    ));
    assert!(capture_from_request("https://h/other".to_string(), vec![], 0).is_none());
    assert_eq!(room_page_url("123"), "https://live.douyin.com/123");
}

#[test]
fn material_expiry() {
    let m = SignedWssMaterial { url: "u".to_string(), headers: vec![], expires_at: 10 };
    assert!(!m.is_expired_at(9));
    assert!(m.is_expired_at(10));
    assert!(m.is_expired_at(11));
    let old = SignedWssMaterial { url: "u".to_string(), headers: vec![], expires_at: 0 };
    assert!(old.is_expired());
}

#[test]
fn default_collector_returns_error() {
    assert!(DefaultCollector.extract("test_room").is_err());
}

#[test]
fn default_config_has_sensible_values() {
    let cfg = ImFetchConfig::default();
    assert!(cfg.base_url.contains("douyin.com"));
    assert!(cfg.user_agent.contains("Mozilla"));
    assert!(cfg.timeout >= 1000);
    assert_eq!(cfg.endpoint(), "https://live.douyin.com/webcast/im/fetch/");
}

#[test]
fn fetch_status_mapping() {
    assert_eq!(check_status(200), Ok(()));
    assert_eq!(check_status(401), Err(SignatureError::CookieExpired));
    assert_eq!(check_status(403), Err(SignatureError::CookieExpired));
    assert_eq!(check_status(500), Err(SignatureError::AlgorithmChanged));
    assert_eq!(check_status(302), Err(SignatureError::AlgorithmChanged));
}

#[test]
fn transport_error_mapping() {
    let t = map_transport_error(true, false, false, None, "timed out".to_string());
    assert_eq!(t, SignatureError::NetworkTransient { reason: "timed out".to_string() });
    assert!(t.retryable());
    assert_eq!(map_transport_error(false, false, false, Some(403), String::new()), SignatureError::CookieExpired);
    assert_eq!(map_transport_error(false, false, false, Some(500), String::new()), SignatureError::AlgorithmChanged);
    let m = material_from_response(ImFetchResponse { wss_url: "wss://x".to_string(), headers: vec![], expires_at: 5 });
    assert_eq!(m.url, "wss://x");
    assert_eq!(m.expires_at, 5_000_000_000);
}

#[test]
fn round_robin_counter_cycles_correctly() {
    let mut counter = RoundRobin::new();
    let pool_size = 3;
    let indices: Vec<usize> = (0..6).map(|_| counter.next_index(pool_size)).collect();
    assert_eq!(indices, vec![0, 1, 2, 0, 1, 2]);
}

#[test]
fn pool_error_display_includes_busy() {
    assert_eq!(PoolError::Busy.message(), "pool busy: all browsers saturated");
}

#[test]
fn pool_error_predicates() {
    assert!(PoolError::Sign("CDP command timed out after 10s".into()).is_timeout());
    assert!(!PoolError::Browser("timed out".into()).is_timeout());
    assert!(PoolError::Sign("NoSignedEndpointCaptured".into()).is_no_signed_endpoint_captured());
    assert_eq!(PoolError::Sign("x".into()).message(), "sign failed: x");
}

#[test]
fn pool_config_defaults() {
    let c = BrowserPoolConfig::default();
    assert_eq!((c.pool_size, c.max_concurrent_per_browser, c.cdp_port_base), (3, 2, 9222));
    assert_eq!(c.sign_timeout, 10);
}

#[test]
fn health_summary_counts_states() {
    let obs = [
        BrowserObservation { id: 0, alive: true, available_permits: 2, last_sign_age_ms: None },
        BrowserObservation { id: 1, alive: true, available_permits: 0, last_sign_age_ms: Some(7) },
        BrowserObservation { id: 2, alive: false, available_permits: 2, last_sign_age_ms: Some(1) },
    ];
    let h = summarize_health(&obs);
    assert_eq!((h.size, h.ready, h.busy, h.dead), (3, 1, 1, 1));
    let states: Vec<&str> = h.browsers.iter().map(|b| b.state.as_str()).collect();
    assert_eq!(states, vec!["Idle", "Signing", "Dead"]);
    assert_eq!(h.browsers[0].last_sign_age_ms, u64::MAX);
    assert_eq!(h.browsers[1].last_sign_age_ms, 7);
}

#[test]
fn auth_cookie_selection() {
    let c = |n: &str, v: &str, d: &str| BrowserCookie { name: n.into(), value: v.into(), domain: d.into() };
    let picked = auth_cookies_from(&[
        c("ttwid", "a", ".douyin.com"),
        c("sessionid", "b", "www.douyin.com"),
        c("other", "x", ".douyin.com"),
        c("ttwid", "evil", "example.com"),
        c("ttwid", "c", "douyin.com"),
    ]);
    assert_eq!(picked, vec![("ttwid".to_string(), "c".to_string()), ("sessionid".to_string(), "b".to_string())]);
}

#[test]
fn cdp_commands_and_frames() {
    let c = CdpCommand::CreateTarget { id: 1, params: CreateTargetParams { url: "about:blank".into() } };
    assert_eq!((c.method(), c.id()), ("Target.createTarget", 1));
    let n = CdpCommand::PageNavigate { id: 2, params: NavigateParams { url: "https://example.com".into(), session_id: Some("ABC123".into()), referrer: None } };
    assert_eq!(n.method(), "Page.navigate");
    assert_eq!(classify_frame(true, true), FrameKind::Response);
    assert_eq!(classify_frame(false, true), FrameKind::Event);
    assert_eq!(classify_frame(false, false), FrameKind::Ignore);
    let ev = |url: &str| CdpEvent::RequestWillBeSent { params: RequestWillBeSentParams { request_id: "1".into(), request: Request { url: url.into(), method: "GET".into(), headers: vec![] } } };
    assert!(is_signed_request(&ev("wss://webcast5-ws-web-lf.douyin.com/webcast/im/push/v2/?room_id=123")));
    assert!(!is_signed_request(&ev("https://live.douyin.com/123")));
    assert!(!is_signed_request(&CdpEvent::Unknown));
}

#[test]
fn collector_context_and_conversions() {
    let b = ServiceBrowserConfig::default();
    let ctx = collector_context_for(&b, "42", vec![]);
    assert_eq!(ctx.user_data_dir, "./data/browser-dynamic-42");
    assert_eq!(ctx.web_rid, "42");
    let f = fetch_config_for(ctx);
    assert_eq!((f.keepalive_interval, f.navigation_timeout, f.cdp_port), (5000, 30_000, 9222));
    let m = SignedWssMaterial { url: "wss://x".into(), headers: vec![("a".into(), "b".into())], expires_at: 0 };
    let w = wss_config_for(&m);
    assert_eq!(w.url, "wss://x");
    assert_eq!(w.headers, m.headers);
    let pairs = auth_cookie_pairs(&AuthConfig { ttwid: "t".into(), sessionid: String::new() });
    assert_eq!(pairs, vec![("ttwid".to_string(), "t".to_string())]);
    let p = pool_config_for(&b, pairs);
    assert_eq!((p.pool_size, p.sign_timeout, p.health_check_interval), (3, 10, 30));
    assert_eq!(CollectorContext::default().user_data_dir, "./data/collector");
}

#[test]
fn replace_all_is_left_to_right_without_overlaps() {
    assert_eq!(replace_all("./data/browser-{id}", "{id}", "7"), "./data/browser-7");
    assert_eq!(replace_all("aaa", "aa", "b"), "ba");
    assert_eq!(replace_all("{id}{id}x", "{id}", ""), "x");
    assert_eq!(replace_all("none", "{id}", "z"), "none");
}

#[test]
fn grab_fetch_config_needs_an_account_cookie() {
    let b = ServiceBrowserConfig::default();
    assert!(grab_fetch_config(&b, &AuthConfig { ttwid: String::new(), sessionid: String::new() }, "42").is_none());
    let c = grab_fetch_config(&b, &AuthConfig { ttwid: "t".into(), sessionid: "s".into() }, "42").unwrap();
    assert_eq!(c.user_data_dir, "./data/browser-fetch-consumer");
    assert_eq!(c.cdp_port, 9322);
    assert_eq!(c.web_rid, "42");
    assert_eq!(c.auth_cookies, vec![("ttwid".to_string(), "t".to_string()), ("sessionid".to_string(), "s".to_string())]);
    let mut high = ServiceBrowserConfig::default();
    high.cdp_port_base = 65500;
    assert_eq!(grab_fetch_config(&high, &AuthConfig { ttwid: "t".into(), sessionid: String::new() }, "1").unwrap().cdp_port, u16::MAX);
}

#[test]
fn browser_config_for_numbers_profiles_and_ports() {
    let config = BrowserPoolConfig::default();
    let b = browser_config_for(&config, 2).unwrap();
    assert_eq!(b.user_data_dir, "./data/browser-2");
    assert_eq!(b.cdp_port, 9224);
    assert_eq!(b.edge_path, config.edge_path);
    assert_eq!(browser_config_for(&config, 12).unwrap().user_data_dir, "./data/browser-12");
    let mut high = BrowserPoolConfig::default();
    high.cdp_port_base = 65535;
    assert_eq!(browser_config_for(&high, 0).unwrap().cdp_port, 65535);
    assert!(browser_config_for(&high, 1).is_none());
}


#[test]
fn material_expiry_keeps_sub_second_precision() {
    let m = SignedWssMaterial { url: "u".to_string(), headers: vec![], expires_at: 1_500_000_000 };
    assert!(!m.is_expired_at(1_499_999_999));
    assert!(m.is_expired_at(1_500_000_000));
    let far = SignedWssMaterial { url: "u".to_string(), headers: vec![], expires_at: u128::MAX };
    assert!(!far.is_expired());
}

#[test]
fn captured_headers_are_read_as_a_map() {
    let headers = vec![
        ("Cookie".to_string(), "a".to_string()),
        ("Origin".to_string(), "o".to_string()),
        ("Cookie".to_string(), "b".to_string()),
    ];
    match capture_from_request("wss://h/webcast/im/push/v2/".to_string(), headers, 0) {
        Some(SignedMaterial::Wss(m)) => assert_eq!(
            m.headers,
            vec![("Cookie".to_string(), "b".to_string()), ("Origin".to_string(), "o".to_string())]
        ),
        other => panic!("unexpected {:?}", other),
    }
}

#[test]
fn events_of_other_tabs_are_not_captured() {
    let ev = || CdpEvent::RequestWillBeSent {
        params: RequestWillBeSentParams {
            request_id: "1".into(),
            request: Request { url: "wss://h/webcast/im/push/v2/".into(), method: "GET".into(), headers: vec![] },
        },
    };
    assert!(capture_from_event(&Some("s1".to_string()), "s1", ev(), 0).is_some());
    assert!(capture_from_event(&Some("s2".to_string()), "s1", ev(), 0).is_none());
    assert!(capture_from_event(&None, "s1", ev(), 0).is_none());
    assert!(capture_from_event(&Some("s1".to_string()), "s1", CdpEvent::LoadEventFired, 0).is_none());
}
