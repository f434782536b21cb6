use eleven_barrage::dedup::MsgDedup;
use eleven_barrage::event::BarrageEvent;
use eleven_barrage::fetch_consumer::{response_body_bytes, FetchConsumer, FetchConsumerConfig};
use eleven_barrage::filter::EventFilter;
use eleven_barrage::pipeline::select_events;
use eleven_barrage::proto::{ChatMessage, Common, GiftMessage, MemberMessage};
use eleven_barrage::resilience::{thread_rng, RetryPolicy, ThreadRng};
use eleven_barrage::watchdog::{judge, Watchdog, WatchdogVerdict};
use prost::encoding::{bytes, int64, string};

fn chat(id: i64) -> BarrageEvent {
    let mut m = ChatMessage::default();
    let mut c = Common::default();
    c.msg_id = id;
    m.common = Some(c);
    BarrageEvent::ChatMessage(m)
}

fn member(id: i64) -> BarrageEvent {
    let mut m = MemberMessage::default();
    let mut c = Common::default();
    c.msg_id = id;
    m.common = Some(c);
    BarrageEvent::MemberMessage(m)
}

#[test]
fn exponential_delay_calculation() {
    let policy = RetryPolicy::exponential()
        .initial_delay(100)
        .max_delay(60_000)
        .without_jitter();
    assert_eq!(policy.delay_for_attempt(0), 100);
    assert_eq!(policy.delay_for_attempt(1), 200);
    assert_eq!(policy.delay_for_attempt(2), 400);
    assert_eq!(policy.delay_for_attempt(3), 800);
}

#[test]
fn delay_capped_at_max() {
    let policy = RetryPolicy::exponential()
        .initial_delay(1000)
        .max_delay(8000)
        .without_jitter();
    assert!(policy.delay_for_attempt(0) / 1000 <= 1);
    assert!(policy.delay_for_attempt(5) / 1000 <= 8);
    assert!(policy.delay_for_attempt(20) / 1000 <= 8);
}

#[test]
fn jitter_adds_randomness() {
    let policy = RetryPolicy::exponential()
        .initial_delay(100)
        .without_jitter()
        .with_jitter();
    let d1 = policy.delay_for_attempt(2);
    let d2 = policy.delay_for_attempt(2);
    assert!(d1 >= 400 && d1 <= 500);
    assert!(d2 >= 400 && d2 <= 500);
}

#[test]
fn backoff_saturates_and_stops_growing_after_twenty() {
    let policy = RetryPolicy::exponential()
        .initial_delay(u64::MAX / 2)
        .max_delay(u64::MAX)
        .without_jitter();
    assert_eq!(policy.delay_for_attempt(1), u64::MAX - 1);
    assert_eq!(policy.delay_for_attempt(2), u64::MAX);
    let p2 = RetryPolicy::exponential().initial_delay(1).max_delay(u64::MAX).without_jitter();
    assert_eq!(p2.delay_for_attempt(20), 1 << 20);
    assert_eq!(p2.delay_for_attempt(30), 1 << 20);
}

#[test]
fn retry_after_failure_stops_at_last_attempt() {
    let policy = RetryPolicy::exponential()
        .initial_delay(1)
        .max_delay(10)
        .max_attempts(3)
        .without_jitter();
    assert_eq!(policy.retry_after_failure(0), Some(1));
    assert_eq!(policy.retry_after_failure(1), Some(2));
    assert_eq!(policy.retry_after_failure(2), None);
}

#[test]
fn seeded_generator_follows_lcg() {
    let mut rng = ThreadRng::from_seed(0);
    let expected_state = 1442695040888963407u64;
    assert_eq!(rng.gen_range(0, 9), expected_state % 10);
    let next = expected_state
        .wrapping_mul(6364136223846793005)
        .wrapping_add(1442695040888963407);
    assert_eq!(rng.gen_range(5, 5), 5);
    let mut again = ThreadRng::from_seed(expected_state);
    assert_eq!(again.gen_range(10, 19), 10 + next % 10);
    let mut clock = thread_rng();
    let v = clock.gen_range(3, 7);
    assert!((3..=7).contains(&v));
}

#[test]
fn select_keeps_allowed_new_events_in_order() {
    let filter = EventFilter::mvp_default();
    let mut dedup = MsgDedup::new(10);
    let out = select_events(vec![chat(1), member(2), chat(1), chat(3)], &filter, &mut dedup);
    let ids: Vec<i64> = out.iter().map(|e| e.msg_id()).collect();
    assert_eq!(ids, vec![1, 3]);
    let again = select_events(vec![chat(1), chat(3)], &filter, &mut dedup);
    assert!(again.is_empty());
}

#[test]
fn replayed_batch_yields_nothing() {
    let filter = EventFilter::allow_all();
    let mut dedup = MsgDedup::new(300);
    let batch = || vec![chat(7), member(8), BarrageEvent::GiftMessage(GiftMessage::default())];
    assert_eq!(select_events(batch(), &filter, &mut dedup).len(), 3);
    assert_eq!(select_events(batch(), &filter, &mut dedup).len(), 0);
}

fn fetch_body() -> Vec<u8> {
    let mut chat_payload = Vec::new();
    bytes::encode(1, &{
        let mut c = Vec::new();
        int64::encode(2, &5i64, &mut c);
        c
    }, &mut chat_payload);
    string::encode(3, &"polled".to_string(), &mut chat_payload);
    let mut msg = Vec::new();
    string::encode(1, &"WebcastChatMessage".to_string(), &mut msg);
    bytes::encode(2, &chat_payload, &mut msg);
    let mut body = Vec::new();
    bytes::encode(1, &msg, &mut body);
    body
}

#[test]
fn fetch_consumer_config_default() {
    let cfg = FetchConsumerConfig::default();
    assert_eq!(cfg.keepalive_interval, 5000);
    assert!(cfg.auth_cookies.is_empty());
}

#[test]
fn fetch_body_events_pushed_once() {
    let mut consumer = FetchConsumer::new(FetchConsumerConfig::default());
    let filter = EventFilter::mvp_default();
    let first = consumer.process_body_bytes(&fetch_body(), &filter);
    assert_eq!(first.len(), 1);
    assert_eq!(first[0].msg_id(), 5);
    let second = consumer.process_body_bytes(&fetch_body(), &filter);
    assert!(second.is_empty());
    assert!(consumer.process_body_bytes(&[], &filter).is_empty());
    assert!(consumer.process_body_bytes(&[0xff, 0xff], &filter).is_empty());
}

#[test]
fn fetch_requests_are_tracked_until_answered() {
    let mut consumer = FetchConsumer::new(FetchConsumerConfig::default());
    consumer.on_request("r1".to_string(), "https://live.douyin.com/webcast/im/fetch/?room_id=1");
    consumer.on_request("r2".to_string(), "https://live.douyin.com/other");
    assert!(!consumer.on_response("r2"));
    assert!(consumer.on_response("r1"));
    assert!(!consumer.on_response("r1"));
}

#[test]
fn watchdog_thresholds() {
    assert_eq!(judge(10, 10), WatchdogVerdict::Slow);
    assert_eq!(judge(11, 10), WatchdogVerdict::Stalled);
    assert_eq!(judge(5, 10), WatchdogVerdict::Healthy);
    assert_eq!(judge(6, 10), WatchdogVerdict::Slow);
    let mut w = Watchdog::new(1, 100, 1000);
    assert_eq!(w.check(1040), WatchdogVerdict::Healthy);
    assert_eq!(w.check(1060), WatchdogVerdict::Slow);
    assert_eq!(w.check(1101), WatchdogVerdict::Stalled);
    w.tick(1100);
    assert_eq!(w.check(1101), WatchdogVerdict::Healthy);
}

#[test]
fn response_body_bytes_decodes_base64_bodies() {
    assert_eq!(response_body_bytes("AQID", true), Some(vec![1u8, 2, 3]));
    assert_eq!(response_body_bytes("", true), Some(Vec::new()));
    assert_eq!(response_body_bytes("not base64!", true), None);
}

#[test]
fn response_body_bytes_keeps_plain_bodies() {
    assert_eq!(response_body_bytes("AQID", false), Some(b"AQID".to_vec()));
    assert_eq!(response_body_bytes("", false), Some(Vec::new()));
}

#[test]
fn repeated_fetch_request_is_awaited_once() {
    let mut consumer = FetchConsumer::new(FetchConsumerConfig::default());
    let url = "https://live.douyin.com/webcast/im/fetch/?room_id=1";
    consumer.on_request("r1".to_string(), url);
    consumer.on_request("r1".to_string(), url);
    assert!(consumer.on_response("r1"));
    assert!(!consumer.on_response("r1"));
}
