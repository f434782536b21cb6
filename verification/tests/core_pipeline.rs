use eleven_barrage::decoder::WssDecoder;
use eleven_barrage::dedup::MsgDedup;
use eleven_barrage::dispatcher::Dispatcher;
use eleven_barrage::error::CoreError;
use eleven_barrage::event::BarrageEvent;
use eleven_barrage::filter::EventFilter;
use eleven_barrage::message_method;
use eleven_barrage::proto::{
    ChatMessage, Common, ControlMessage, FansclubMessage, GiftMessage, LikeMessage, MemberMessage,
    Message, Response, RoomUserSeqMessage, SocialMessage, WssResponse,
};
use eleven_barrage::session::{SessionFaultDetector, SessionFaultReason};
use prost::encoding::{bytes, int64, string, uint64};

fn enc_common(msg_id: i64, create_time: i64) -> Vec<u8> {
    let mut b = Vec::new();
    int64::encode(2, &msg_id, &mut b);
    int64::encode(4, &create_time, &mut b);
    b
}

fn enc_chat(content: &str) -> Vec<u8> {
    let mut b = Vec::new();
    string::encode(3, &content.to_string(), &mut b);
    b
}

fn enc_gift(gift_id: i64, count: i64) -> Vec<u8> {
    let mut b = Vec::new();
    int64::encode(2, &gift_id, &mut b);
    int64::encode(5, &count, &mut b);
    b
}

fn enc_like(count: i64, total: i64) -> Vec<u8> {
    let mut b = Vec::new();
    int64::encode(2, &count, &mut b);
    int64::encode(3, &total, &mut b);
    b
}

fn enc_message(method: &str, payload: Vec<u8>, msg_id: i64) -> Vec<u8> {
    let mut b = Vec::new();
    string::encode(1, &method.to_string(), &mut b);
    bytes::encode(2, &payload, &mut b);
    int64::encode(3, &msg_id, &mut b);
    b
}

fn chat_msg(content: &str, msg_id: i64) -> Vec<u8> {
    enc_message("WebcastChatMessage", enc_chat(content), msg_id)
}

fn gift_msg(gift_id: i64, count: i64, msg_id: i64) -> Vec<u8> {
    enc_message("WebcastGiftMessage", enc_gift(gift_id, count), msg_id)
}

fn like_msg(count: i64, total: i64, msg_id: i64) -> Vec<u8> {
    enc_message("WebcastLikeMessage", enc_like(count, total), msg_id)
}

fn corrupted_chat_msg() -> Vec<u8> {
    enc_message("WebcastChatMessage", vec![0xff; 100], 999)
}

fn enc_response(messages: &[Vec<u8>]) -> Vec<u8> {
    let mut b = Vec::new();
    for m in messages {
        bytes::encode(1, m, &mut b);
    }
    b
}

fn enc_header(key: &str, value: &str) -> Vec<u8> {
    let mut e = Vec::new();
    string::encode(1, &key.to_string(), &mut e);
    string::encode(2, &value.to_string(), &mut e);
    e
}

fn enc_wss(headers: &[(&str, &str)], payload: Vec<u8>) -> Vec<u8> {
    let mut b = Vec::new();
    uint64::encode(1, &1u64, &mut b);
    uint64::encode(2, &1u64, &mut b);
    for (k, v) in headers {
        bytes::encode(5, &enc_header(k, v), &mut b);
    }
    bytes::encode(8, &payload, &mut b);
    b
}

fn build_wss_frame(messages: &[Vec<u8>]) -> Vec<u8> {
    enc_wss(&[], enc_response(messages))
}

fn build_gzip_wss_frame(messages: &[Vec<u8>]) -> Vec<u8> {
    let mut encoder = flate2::write::GzEncoder::new(Vec::new(), flate2::Compression::default());
    std::io::Write::write_all(&mut encoder, &enc_response(messages)).unwrap();
    let compressed = encoder.finish().unwrap();
    enc_wss(&[("compress_type", "gzip")], compressed)
}

fn msg_with(method: &str, payload: Vec<u8>, msg_id: i64) -> Message {
    Message {
        method: method.to_string(),
        payload,
        msg_id,
        msg_type: 0,
        offset: 0,
    }
}

fn response_of(messages: Vec<Message>) -> Response {
    let mut r = Response::default();
    r.messages = messages;
    r
}

#[test]
fn empty_frame_returns_error() {
    let decoder = WssDecoder::new();
    let result = decoder.decode(&[], false);
    assert!(matches!(result, Err(CoreError::InvalidWssHeader(_))));
}

#[test]
fn invalid_wire_type_returns_error() {
    let decoder = WssDecoder::new();
    let result = decoder.decode(&[0x07, 0x00], false);
    assert!(matches!(result, Err(CoreError::InvalidWireType(7))));
}

#[test]
fn decode_valid_wss_response() {
    let decoder = WssDecoder::new();
    let mut bytes_ = Vec::new();
    uint64::encode(1, &1u64, &mut bytes_);
    uint64::encode(2, &2u64, &mut bytes_);
    uint64::encode(3, &3u64, &mut bytes_);
    uint64::encode(4, &4u64, &mut bytes_);
    let (wss, response) = decoder.decode(&bytes_, false).unwrap();
    assert_eq!(response.messages.len(), 0);
    assert_eq!((wss.seqid, wss.logid, wss.service, wss.method), (1, 2, 3, 4));
}

#[test]
fn full_pipeline_with_chat_message() {
    let frame = build_wss_frame(&[chat_msg("hello", 1)]);
    let decoder = WssDecoder::new();
    let (wss, response) = decoder.decode(&frame, false).unwrap();
    let events = Dispatcher::new().dispatch(&wss, &response).unwrap();
    assert_eq!(events.len(), 1);
    match &events[0] {
        BarrageEvent::ChatMessage(m) => assert_eq!(m.content, "hello"),
        other => panic!("unexpected event {:?}", other),
    }
    let filter = EventFilter::mvp_default();
    assert!(filter.allows(&events[0]));
    let mut dedup = MsgDedup::new(100);
    assert!(dedup.check_and_mark(events[0].method(), events[0].msg_id()));
    assert!(!dedup.check_and_mark(events[0].method(), events[0].msg_id()));
}

#[test]
fn full_pipeline_with_mixed_events() {
    let frame = build_wss_frame(&[chat_msg("a", 1), gift_msg(7, 3, 2), like_msg(5, 100, 3)]);
    let (wss, response) = WssDecoder::new().decode(&frame, false).unwrap();
    let events = Dispatcher::new().dispatch(&wss, &response).unwrap();
    let methods: Vec<&str> = events.iter().map(|e| e.method()).collect();
    assert_eq!(methods, vec!["WebcastChatMessage", "WebcastGiftMessage", "WebcastLikeMessage"]);
    match &events[1] {
        BarrageEvent::GiftMessage(g) => {
            assert_eq!(g.gift_id, 7);
            assert_eq!(g.repeat_count, 3);
        }
        other => panic!("unexpected event {:?}", other),
    }
    match &events[2] {
        BarrageEvent::LikeMessage(l) => {
            assert_eq!(l.count, 5);
            assert_eq!(l.total, 100);
        }
        other => panic!("unexpected event {:?}", other),
    }
}

#[test]
fn gzip_compressed_frame_decodes_correctly() {
    let frame = build_gzip_wss_frame(&[chat_msg("zipped", 9)]);
    let decoder = WssDecoder::new();
    let (wss, response) = decoder.decode(&frame, false).unwrap();
    assert_eq!(wss.header("compress_type"), Some("gzip".to_string()));
    assert_eq!(response.messages.len(), 1);
    assert_eq!(response.messages[0].msg_id, 9);
}

#[test]
fn gzip_hint_on_plain_payload_is_an_error() {
    let frame = build_wss_frame(&[chat_msg("plain", 1)]);
    let result = WssDecoder::new().decode(&frame, true);
    assert!(matches!(result, Err(CoreError::GzipDecompress(_))));
}

#[test]
fn decoder_rejects_invalid_wire_type() {
    let result = WssDecoder::new().decode(&[0x07, 0x00, 0x00, 0x00], false);
    assert!(matches!(result, Err(CoreError::InvalidWireType(7))));
}

#[test]
fn truncated_frame_is_a_protobuf_error() {
    let frame = build_wss_frame(&[chat_msg("hello", 1)]);
    let result = WssDecoder::new().decode(&frame[..frame.len() - 3], false);
    assert!(matches!(result, Err(CoreError::ProtobufDecode(_))));
}

#[test]
fn dispatch_empty_response() {
    let events = Dispatcher::new()
        .dispatch(&WssResponse::default(), &Response::default())
        .unwrap();
    assert_eq!(events.len(), 0);
}

#[test]
fn dispatch_chat_message() {
    let response = response_of(vec![msg_with(message_method::CHAT, enc_chat("hello"), 100)]);
    let events = Dispatcher::new().dispatch(&WssResponse::default(), &response).unwrap();
    assert_eq!(events.len(), 1);
    assert!(matches!(events[0], BarrageEvent::ChatMessage(_)));
}

#[test]
fn dispatch_unknown_method_skipped() {
    let response = response_of(vec![msg_with("WebcastUnknownMessage", vec![], 0)]);
    let events = Dispatcher::new().dispatch(&WssResponse::default(), &response).unwrap();
    assert_eq!(events.len(), 0);
}

#[test]
fn dispatch_corrupted_payload_continues() {
    let bad = msg_with(message_method::CHAT, vec![0xff; 100], 0);
    let good = msg_with(message_method::CHAT, enc_chat("ok"), 0);
    let response = response_of(vec![bad, good]);
    let events = Dispatcher::new().dispatch(&WssResponse::default(), &response).unwrap();
    assert_eq!(events.len(), 1);
}

#[test]
fn dispatcher_continues_after_corrupted_message() {
    let frame = build_wss_frame(&[corrupted_chat_msg(), chat_msg("after", 2)]);
    let (wss, response) = WssDecoder::new().decode(&frame, false).unwrap();
    let events = Dispatcher::new().dispatch(&wss, &response).unwrap();
    assert_eq!(events.len(), 1);
}

#[test]
fn dispatch_all_eight_kinds() {
    let kinds = [
        message_method::CHAT,
        message_method::GIFT,
        message_method::LIKE,
        message_method::MEMBER,
        message_method::SOCIAL,
        message_method::CONTROL,
        message_method::ROOM_USER_SEQ,
        message_method::FANSCLUB,
    ];
    let response = response_of(kinds.iter().map(|k| msg_with(k, vec![], 0)).collect());
    let events = Dispatcher::new().dispatch_response(&response).unwrap();
    let methods: Vec<&str> = events.iter().map(|e| e.method()).collect();
    assert_eq!(methods, kinds.to_vec());
}

#[test]
fn embedded_common_and_user_decode() {
    let mut chat = Vec::new();
    bytes::encode(1, &{
        let mut c = Vec::new();
        int64::encode(2, &42i64, &mut c);
        int64::encode(4, &1700i64, &mut c);
        c
    }, &mut chat);
    bytes::encode(2, &{
        let mut u = Vec::new();
        uint64::encode(1, &77u64, &mut u);
        string::encode(3, &"nick".to_string(), &mut u);
        u
    }, &mut chat);
    string::encode(3, &"hi".to_string(), &mut chat);
    let response = response_of(vec![msg_with(message_method::CHAT, chat, 0)]);
    let events = Dispatcher::new().dispatch_response(&response).unwrap();
    assert_eq!(events[0].msg_id(), 42);
    assert_eq!(events[0].timestamp_ms(), 1700);
    match &events[0] {
        BarrageEvent::ChatMessage(m) => {
            let user = m.user.as_ref().unwrap();
            assert_eq!(user.id, 77);
            assert_eq!(user.nick_name, "nick");
            assert_eq!(m.content, "hi");
        }
        other => panic!("unexpected event {:?}", other),
    }
}

#[test]
fn repeated_scalar_keeps_last_and_repeated_common_merges() {
    let mut chat = Vec::new();
    string::encode(3, &"first".to_string(), &mut chat);
    string::encode(3, &"second".to_string(), &mut chat);
    bytes::encode(1, &enc_common(5, 0), &mut chat);
    let mut second_common = Vec::new();
    int64::encode(4, &99i64, &mut second_common);
    bytes::encode(1, &second_common, &mut chat);
    let response = response_of(vec![msg_with(message_method::CHAT, chat, 0)]);
    let events = Dispatcher::new().dispatch_response(&response).unwrap();
    match &events[0] {
        BarrageEvent::ChatMessage(m) => {
            assert_eq!(m.content, "second");
            let c = m.common.as_ref().unwrap();
            assert_eq!(c.msg_id, 5);
            assert_eq!(c.create_time, 99);
        }
        other => panic!("unexpected event {:?}", other),
    }
}

#[test]
fn invalid_utf8_string_fails_the_message() {
    let mut chat = Vec::new();
    bytes::encode(3, &vec![0xc3u8, 0x28], &mut chat);
    let response = response_of(vec![msg_with(message_method::CHAT, chat, 0)]);
    let events = Dispatcher::new().dispatch_response(&response).unwrap();
    assert_eq!(events.len(), 0);
}

#[test]
fn unknown_fields_are_skipped() {
    let mut chat = Vec::new();
    uint64::encode(15, &123u64, &mut chat);
    bytes::encode(16, &vec![1u8, 2, 3], &mut chat);
    prost::encoding::encode_key(17, prost::encoding::WireType::ThirtyTwoBit, &mut chat);
    chat.extend_from_slice(&[0, 0, 0, 0]);
    string::encode(3, &"kept".to_string(), &mut chat);
    let response = response_of(vec![msg_with(message_method::CHAT, chat, 0)]);
    let events = Dispatcher::new().dispatch_response(&response).unwrap();
    match &events[0] {
        BarrageEvent::ChatMessage(m) => assert_eq!(m.content, "kept"),
        other => panic!("unexpected event {:?}", other),
    }
}

#[test]
fn header_map_later_entry_replaces_earlier() {
    let frame = enc_wss(&[("k", "1"), ("other", "x"), ("k", "2")], enc_response(&[]));
    let (wss, _) = WssDecoder::new().decode(&frame, false).unwrap();
    assert_eq!(wss.header("k"), Some("2".to_string()));
    assert_eq!(wss.header("other"), Some("x".to_string()));
    assert_eq!(wss.headers.len(), 2);
    assert_eq!(wss.header("missing"), None);
}

#[test]
fn event_method_returns_correct_string() {
    let chat = BarrageEvent::ChatMessage(ChatMessage::default());
    assert_eq!(chat.method(), "WebcastChatMessage");
    let gift = BarrageEvent::GiftMessage(GiftMessage::default());
    assert_eq!(gift.method(), "WebcastGiftMessage");
}

#[test]
fn event_method_is_stable() {
    let all = vec![
        (BarrageEvent::ChatMessage(ChatMessage::default()), "WebcastChatMessage"),
        (BarrageEvent::GiftMessage(GiftMessage::default()), "WebcastGiftMessage"),
        (BarrageEvent::LikeMessage(LikeMessage::default()), "WebcastLikeMessage"),
        (BarrageEvent::MemberMessage(MemberMessage::default()), "WebcastMemberMessage"),
        (BarrageEvent::SocialMessage(SocialMessage::default()), "WebcastSocialMessage"),
        (BarrageEvent::ControlMessage(ControlMessage::default()), "WebcastControlMessage"),
        (BarrageEvent::RoomUserSeqMessage(RoomUserSeqMessage::default()), "WebcastRoomUserSeqMessage"),
        (BarrageEvent::FansclubMessage(FansclubMessage::default()), "WebcastFansclubMessage"),
    ];
    for (e, m) in all {
        assert_eq!(e.method(), m);
    }
}

#[test]
fn is_mvp_push_predicate() {
    assert!(BarrageEvent::ChatMessage(ChatMessage::default()).is_mvp_push());
    assert!(BarrageEvent::GiftMessage(GiftMessage::default()).is_mvp_push());
    assert!(BarrageEvent::LikeMessage(LikeMessage::default()).is_mvp_push());
    assert!(!BarrageEvent::MemberMessage(MemberMessage::default()).is_mvp_push());
}

#[test]
fn msg_id_extraction() {
    let mut chat = ChatMessage::default();
    assert_eq!(BarrageEvent::ChatMessage(chat.clone()).msg_id(), 0);
    let mut common = Common::default();
    common.msg_id = 12345;
    chat.common = Some(common);
    assert_eq!(BarrageEvent::ChatMessage(chat).msg_id(), 12345);
}

#[test]
fn timestamp_extraction() {
    let mut chat = ChatMessage::default();
    let mut common = Common::default();
    common.create_time = 1_700_000_000_000;
    chat.common = Some(common);
    assert_eq!(BarrageEvent::ChatMessage(chat).timestamp_ms(), 1_700_000_000_000);
}

#[test]
fn invalid_wire_type_error_display() {
    let err = CoreError::InvalidWireType(7);
    assert_eq!(err.message(), "invalid wire_type: 7 (must be 0-5)");
}

#[test]
fn unknown_method_error_display() {
    let err = CoreError::UnknownMethod("WebcastFooBarMessage".to_string());
    assert!(err.message().contains("WebcastFooBarMessage"));
}

#[test]
fn mvp_default_filters_correctly() {
    let filter = EventFilter::mvp_default();
    assert!(filter.allows(&BarrageEvent::ChatMessage(ChatMessage::default())));
    assert!(filter.allows(&BarrageEvent::GiftMessage(GiftMessage::default())));
    assert!(filter.allows(&BarrageEvent::LikeMessage(LikeMessage::default())));
    assert!(!filter.allows(&BarrageEvent::MemberMessage(MemberMessage::default())));
}

#[test]
fn custom_filter() {
    let filter = EventFilter::new(vec![message_method::CHAT.to_string()]);
    assert!(filter.allows(&BarrageEvent::ChatMessage(ChatMessage::default())));
    assert!(!filter.allows(&BarrageEvent::GiftMessage(GiftMessage::default())));
}

#[test]
fn allow_all_filter() {
    let filter = EventFilter::allow_all();
    assert!(filter.allows(&BarrageEvent::ChatMessage(ChatMessage::default())));
    assert!(filter.allows(&BarrageEvent::MemberMessage(MemberMessage::default())));
}

#[test]
fn filter_vec() {
    let filter = EventFilter::mvp_default();
    let events = vec![
        BarrageEvent::ChatMessage(ChatMessage::default()),
        BarrageEvent::MemberMessage(MemberMessage::default()),
        BarrageEvent::GiftMessage(GiftMessage::default()),
    ];
    let filtered: Vec<String> = filter
        .filter(&events)
        .iter()
        .map(|e| e.method().to_string())
        .collect();
    assert_eq!(filtered, vec!["WebcastChatMessage".to_string(), "WebcastGiftMessage".to_string()]);
}

#[test]
fn filter_mvp_excludes_member_social_control() {
    let filter = EventFilter::mvp_default();
    assert!(!filter.allows(&BarrageEvent::MemberMessage(MemberMessage::default())));
    assert!(!filter.allows(&BarrageEvent::SocialMessage(SocialMessage::default())));
    assert!(!filter.allows(&BarrageEvent::ControlMessage(ControlMessage::default())));
    assert_eq!(filter.allowed_methods().len(), 3);
}

#[test]
fn new_message_returns_true() {
    let mut dedup = MsgDedup::new(100);
    assert!(dedup.check_and_mark("WebcastChatMessage", 1));
}

#[test]
fn duplicate_message_returns_false() {
    let mut dedup = MsgDedup::new(100);
    assert!(dedup.check_and_mark("WebcastChatMessage", 1));
    assert!(!dedup.check_and_mark("WebcastChatMessage", 1));
}

#[test]
fn same_msg_id_different_methods_both_new() {
    let mut dedup = MsgDedup::new(100);
    assert!(dedup.check_and_mark("WebcastChatMessage", 1));
    assert!(dedup.check_and_mark("WebcastGiftMessage", 1));
}

#[test]
fn ring_buffer_capacity_evicts_oldest() {
    let mut dedup = MsgDedup::new(3);
    assert!(dedup.check_and_mark("WebcastChatMessage", 1));
    assert!(dedup.check_and_mark("WebcastChatMessage", 2));
    assert!(dedup.check_and_mark("WebcastChatMessage", 3));
    assert!(dedup.check_and_mark("WebcastChatMessage", 4));
    assert!(dedup.check_and_mark("WebcastChatMessage", 1));
}

#[test]
fn ring_buffer_dedup_capacity() {
    let mut dedup = MsgDedup::new(2);
    assert!(dedup.check_and_mark("WebcastChatMessage", 10));
    assert!(dedup.check_and_mark("WebcastChatMessage", 11));
    assert!(!dedup.check_and_mark("WebcastChatMessage", 11));
    assert!(dedup.check_and_mark("WebcastChatMessage", 12));
    assert!(dedup.check_and_mark("WebcastChatMessage", 10));
    assert_eq!(dedup.buffer_size(), 2);
}

#[test]
fn zero_capacity_keeps_the_newest_id() {
    let mut dedup = MsgDedup::new(0);
    assert!(dedup.check_and_mark("m", 1));
    assert!(!dedup.check_and_mark("m", 1));
    assert!(dedup.check_and_mark("m", 2));
    assert!(dedup.check_and_mark("m", 1));
    assert_eq!(dedup.buffer_size(), 1);
}

#[test]
fn buffer_size_reflects_state() {
    let mut dedup = MsgDedup::new(100);
    assert_eq!(dedup.buffer_size(), 0);
    dedup.check_and_mark("WebcastChatMessage", 1);
    assert_eq!(dedup.buffer_size(), 1);
}

#[test]
fn clear_resets_state() {
    let mut dedup = MsgDedup::new(100);
    dedup.check_and_mark("WebcastChatMessage", 1);
    dedup.clear();
    assert_eq!(dedup.buffer_size(), 0);
    assert!(dedup.check_and_mark("WebcastChatMessage", 1));
}

#[test]
fn single_error_no_fault() {
    let mut detector = SessionFaultDetector::new();
    assert_eq!(detector.record_error(), None);
    assert_eq!(detector.current_error_count(), 1);
}

#[test]
fn consecutive_errors_trigger_fault() {
    let mut detector = SessionFaultDetector::new();
    let mut faults = 0;
    for _ in 0..5 {
        if detector.record_error().is_some() {
            faults += 1;
        }
    }
    assert_eq!(faults, 1);
    assert_eq!(detector.current_error_count(), 0);
}

#[test]
fn session_fault_triggers_after_consecutive_failures() {
    let mut detector = SessionFaultDetector::new();
    for _ in 0..4 {
        assert_eq!(detector.record_error(), None);
    }
    assert_eq!(
        detector.record_error(),
        Some(SessionFaultReason::ConsecutiveDecodeFailures(5))
    );
}

#[test]
fn success_resets_error_count() {
    let mut detector = SessionFaultDetector::new();
    detector.record_error();
    detector.record_error();
    detector.record_success();
    assert_eq!(detector.current_error_count(), 0);
}

#[test]
fn ten_failures_fault_twice() {
    let mut detector = SessionFaultDetector::new();
    let faults = (0..10).filter(|_| detector.record_error().is_some()).count();
    assert_eq!(faults, 2);
    assert_eq!(detector.current_error_count(), 0);
}

#[test]
fn full_pipeline_chat_message() {
    let frame = build_wss_frame(&[chat_msg("test", 1)]);
    let decoder = WssDecoder::new();
    let (wss_response, response) = decoder.decode(&frame, false).unwrap();
    let dispatcher = Dispatcher::new();
    let events = dispatcher.dispatch(&wss_response, &response).unwrap();
    assert_eq!(events.len(), 1);
    assert!(matches!(events[0], BarrageEvent::ChatMessage(_)));
    let filter = EventFilter::mvp_default();
    assert!(filter.allows(&events[0]));
    let mut dedup = MsgDedup::new(100);
    let event = &events[0];
    assert!(dedup.check_and_mark(event.method(), event.msg_id()));
    assert!(!dedup.check_and_mark(event.method(), event.msg_id()));
}

#[test]
fn session_fault_does_not_kill_process() {
    let mut detector = SessionFaultDetector::new();
    detector.record_error();
    detector.record_error();
    detector.record_error();
    detector.record_error();
    detector.record_error();
    detector.record_success();
    assert_eq!(detector.current_error_count(), 0);
}
