//! The encoding of push frames, as far as the laws about decoding need it:
//! every field is written out (defaults included), messages in order, and
//! each header as one map entry.  Decoding what was encoded gives it back.

use vstd::prelude::*;
use vstd::utf8::{encode_utf8, encode_utf8_decode_utf8, encode_utf8_valid_utf8};

use crate::decoder::frame_response;
use crate::proto::{
    decode_with, fold_fields, header_entry_default, header_keys_distinct, headers_get, headers_put, lemma_fold_step,
    message_default, response_default, spec_decode, wss_response_default, HeaderEntry, HeaderEntryV,
    Message, MessageV, Response, ResponseV, WireMessage, WssResponse, WssResponseV,
};
use crate::wire::{encode_field, encode_fields, encode_key, encode_varint, framable, lemma_fields_round_trip, FieldV};

verus! {

/// A varint field.
pub open spec fn varint_field(tag: u32, v: u64) -> FieldV {
    FieldV { tag, wt: 0, varint: v, data: Seq::empty() }
}

/// A length-delimited field.
pub open spec fn bytes_field(tag: u32, data: Seq<u8>) -> FieldV {
    FieldV { tag, wt: 2, varint: data.len() as u64, data }
}

/// A string field: its UTF-8 bytes, length-delimited.
pub open spec fn string_field(tag: u32, s: Seq<char>) -> FieldV {
    bytes_field(tag, encode_utf8(s))
}

/// Whether a sequence's length fits a length field.
pub open spec fn fits(s: Seq<u8>) -> bool {
    s.len() <= u64::MAX
}

/// The fields of a message, in tag order.
pub open spec fn message_fields(m: MessageV) -> Seq<FieldV> {
    seq![
        string_field(1, m.method),
        bytes_field(2, m.payload),
        varint_field(3, m.msg_id as u64),
        varint_field(4, (m.msg_type as i64) as u64),
        varint_field(5, m.offset as u64),
    ]
}

/// The encoding of a message.
pub open spec fn encode_message(m: MessageV) -> Seq<u8> {
    encode_fields(message_fields(m))
}

/// A message whose strings and bytes fit their length fields.
pub open spec fn message_fits(m: MessageV) -> bool {
    fits(encode_utf8(m.method)) && fits(m.payload)
}

proof fn lemma_fold_fields_concat<M>(a: Seq<FieldV>, b: Seq<FieldV>, m: M, step: spec_fn(M, FieldV) -> Option<M>)
    ensures
        fold_fields(a + b, m, step) == match fold_fields(a, m, step) {
            Some(x) => fold_fields(b, x, step),
            None => None,
        },
    decreases a.len(),
{
    if a.len() == 0 {
        assert(a + b =~= b);
    } else {
        assert((a + b)[0] == a[0]);
        assert((a + b).drop_first() =~= a.drop_first() + b);
        match step(m, a[0]) {
            Some(m2) => lemma_fold_fields_concat(a.drop_first(), b, m2, step),
            None => {},
        }
    }
}

/// Decoding an encoded message gives the message back, at any nesting
/// budget.
pub proof fn lemma_message_round_trip(m: MessageV, d: nat)
    requires
        message_fits(m),
    ensures
        decode_with(encode_message(m), d, 0, message_default(), Message::step(d)) == Some(m),
{
    broadcast use encode_utf8_valid_utf8, encode_utf8_decode_utf8;

    let fs = message_fields(m);
    assert forall|i: int| 0 <= i < fs.len() implies framable(#[trigger] fs[i], 0) by {}
    lemma_fields_round_trip(fs, d, 0);
    let step = Message::step(d);
    let m0 = message_default();
    let m1 = MessageV { method: m.method, ..m0 };
    let m2 = MessageV { payload: m.payload, ..m1 };
    let m3 = MessageV { msg_id: m.msg_id, ..m2 };
    let m4 = MessageV { msg_type: m.msg_type, ..m3 };
    let m5 = MessageV { offset: m.offset, ..m4 };
    let x = m.msg_id;
    let y = m.msg_type;
    let z = m.offset;
    assert((x as u64) as i64 == x) by (bit_vector);
    assert(((y as i64) as u64) as i32 == y) by (bit_vector);
    assert((z as u64) as i64 == z) by (bit_vector);
    assert(fs.skip(0) =~= fs);
    lemma_fold_step(fs, 0, m0, step);
    lemma_fold_step(fs, 1, m1, step);
    lemma_fold_step(fs, 2, m2, step);
    lemma_fold_step(fs, 3, m3, step);
    lemma_fold_step(fs, 4, m4, step);
    assert(fs.skip(5) =~= Seq::<FieldV>::empty());
    assert(m5 == m);
}

/// The fields of a list of messages, each embedded under tag 1.
pub open spec fn message_list_fields(ms: Seq<MessageV>) -> Seq<FieldV> {
    ms.map_values(|m: MessageV| bytes_field(1, encode_message(m)))
}

/// The fields of a response: its messages in order, then the others in
/// tag order.
pub open spec fn response_fields(r: ResponseV) -> Seq<FieldV> {
    message_list_fields(r.messages) + seq![
        string_field(2, r.cursor),
        varint_field(3, r.fetch_interval),
        varint_field(4, r.now),
        string_field(5, r.internal_ext),
        varint_field(8, r.heartbeat_duration),
        varint_field(9, if r.need_ack { 1u64 } else { 0u64 }),
    ]
}

/// The encoding of a response.
pub open spec fn encode_response(r: ResponseV) -> Seq<u8> {
    encode_fields(response_fields(r))
}

/// A response whose messages, strings and bytes fit their length fields.
pub open spec fn response_fits(r: ResponseV) -> bool {
    &&& forall|i: int|
        0 <= i < r.messages.len() ==> message_fits(#[trigger] r.messages[i]) && fits(
            encode_message(r.messages[i]),
        )
    &&& fits(encode_utf8(r.cursor))
    &&& fits(encode_utf8(r.internal_ext))
}

proof fn lemma_messages_fold(ms: Seq<MessageV>, acc: ResponseV, d: nat)
    requires
        d > 0,
        forall|i: int| 0 <= i < ms.len() ==> message_fits(#[trigger] ms[i]),
    ensures
        fold_fields(message_list_fields(ms), acc, Response::step(d)) == Some(
            ResponseV { messages: acc.messages + ms, ..acc },
        ),
    decreases ms.len(),
{
    let fs = message_list_fields(ms);
    if ms.len() == 0 {
        assert(acc.messages + ms =~= acc.messages);
    } else {
        lemma_message_round_trip(ms[0], (d - 1) as nat);
        let acc2 = ResponseV { messages: acc.messages.push(ms[0]), ..acc };
        assert(fs[0] == bytes_field(1, encode_message(ms[0])));
        assert(fs.drop_first() =~= message_list_fields(ms.drop_first()));
        assert forall|i: int| 0 <= i < ms.drop_first().len() implies message_fits(
            #[trigger] ms.drop_first()[i],
        ) by {
            assert(ms.drop_first()[i] == ms[i + 1]);
        }
        lemma_messages_fold(ms.drop_first(), acc2, d);
        assert(acc.messages.push(ms[0]) + ms.drop_first() =~= acc.messages + ms);
    }
}

/// Decoding an encoded response gives the response back, at any nesting
/// budget that leaves room for its messages.
pub proof fn lemma_response_round_trip(r: ResponseV, d: nat)
    requires
        d > 0,
        response_fits(r),
    ensures
        decode_with(encode_response(r), d, 0, response_default(), Response::step(d)) == Some(r),
{
    broadcast use encode_utf8_valid_utf8, encode_utf8_decode_utf8;

    let fs = response_fields(r);
    let ml = message_list_fields(r.messages);
    let tail = seq![
        string_field(2, r.cursor),
        varint_field(3, r.fetch_interval),
        varint_field(4, r.now),
        string_field(5, r.internal_ext),
        varint_field(8, r.heartbeat_duration),
        varint_field(9, if r.need_ack { 1u64 } else { 0u64 }),
    ];
    assert forall|i: int| 0 <= i < fs.len() implies framable(#[trigger] fs[i], 0) by {
        if i < ml.len() {
            assert(fs[i] == ml[i]);
            assert(r.messages[i] == r.messages[i]);
        } else {
            assert(fs[i] == tail[i - ml.len()]);
        }
    }
    lemma_fields_round_trip(fs, d, 0);
    let step = Response::step(d);
    let r0 = response_default();
    assert forall|i: int| 0 <= i < r.messages.len() implies message_fits(#[trigger] r.messages[i]) by {}
    lemma_messages_fold(r.messages, r0, d);
    let a0 = ResponseV { messages: r0.messages + r.messages, ..r0 };
    assert(r0.messages + r.messages =~= r.messages);
    lemma_fold_fields_concat(ml, tail, r0, step);
    let a1 = ResponseV { cursor: r.cursor, ..a0 };
    let a2 = ResponseV { fetch_interval: r.fetch_interval, ..a1 };
    let a3 = ResponseV { now: r.now, ..a2 };
    let a4 = ResponseV { internal_ext: r.internal_ext, ..a3 };
    let a5 = ResponseV { heartbeat_duration: r.heartbeat_duration, ..a4 };
    let a6 = ResponseV { need_ack: r.need_ack, ..a5 };
    assert(tail.skip(0) =~= tail);
    lemma_fold_step(tail, 0, a0, step);
    lemma_fold_step(tail, 1, a1, step);
    lemma_fold_step(tail, 2, a2, step);
    lemma_fold_step(tail, 3, a3, step);
    lemma_fold_step(tail, 4, a4, step);
    lemma_fold_step(tail, 5, a5, step);
    assert(tail.skip(6) =~= Seq::<FieldV>::empty());
    assert(a6 == r);
}

/// The fields of a header map entry.
pub open spec fn header_entry_fields(k: Seq<char>, v: Seq<char>) -> Seq<FieldV> {
    seq![string_field(1, k), string_field(2, v)]
}

/// The fields of a header list, each entry embedded under tag 5.
pub open spec fn header_fields(hs: Seq<(Seq<char>, Seq<char>)>) -> Seq<FieldV> {
    hs.map_values(
        |e: (Seq<char>, Seq<char>)| bytes_field(5, encode_fields(header_entry_fields(e.0, e.1))),
    )
}

/// A header whose key, value and entry fit their length fields.
pub open spec fn header_fits(e: (Seq<char>, Seq<char>)) -> bool {
    fits(encode_utf8(e.0)) && fits(encode_utf8(e.1)) && fits(encode_fields(header_entry_fields(e.0, e.1)))
}

/// The fields of a frame: the four numbers, the headers in order, then
/// the payload's encoding and type and the payload.
pub open spec fn wss_fields(w: WssResponseV) -> Seq<FieldV> {
    seq![
        varint_field(1, w.seqid),
        varint_field(2, w.logid),
        varint_field(3, w.service),
        varint_field(4, w.method),
    ] + header_fields(w.headers) + seq![
        string_field(6, w.payload_encoding),
        string_field(7, w.payload_type),
        bytes_field(8, w.payload),
    ]
}

/// The encoding of a frame.
pub open spec fn encode_wss(w: WssResponseV) -> Seq<u8> {
    encode_fields(wss_fields(w))
}

/// A frame whose headers have distinct keys and whose strings, bytes and
/// entries fit their length fields.
pub open spec fn wss_fits(w: WssResponseV) -> bool {
    &&& header_keys_distinct(w.headers)
    &&& forall|i: int| 0 <= i < w.headers.len() ==> header_fits(#[trigger] w.headers[i])
    &&& fits(encode_utf8(w.payload_encoding))
    &&& fits(encode_utf8(w.payload_type))
    &&& fits(w.payload)
}

proof fn lemma_header_entry_round_trip(k: Seq<char>, v: Seq<char>, d: nat)
    requires
        fits(encode_utf8(k)),
        fits(encode_utf8(v)),
    ensures
        decode_with(encode_fields(header_entry_fields(k, v)), d, 0, header_entry_default(), HeaderEntry::step(d))
            == Some(HeaderEntryV { key: k, value: v }),
{
    broadcast use encode_utf8_valid_utf8, encode_utf8_decode_utf8;

    let fs = header_entry_fields(k, v);
    assert forall|i: int| 0 <= i < fs.len() implies framable(#[trigger] fs[i], 0) by {}
    lemma_fields_round_trip(fs, d, 0);
    let step = HeaderEntry::step(d);
    let e0 = header_entry_default();
    let e1 = HeaderEntryV { key: k, ..e0 };
    assert(fs.skip(0) =~= fs);
    lemma_fold_step(fs, 0, e0, step);
    lemma_fold_step(fs, 1, e1, step);
    assert(fs.skip(2) =~= Seq::<FieldV>::empty());
}

proof fn lemma_headers_put_new(hs: Seq<(Seq<char>, Seq<char>)>, k: Seq<char>, v: Seq<char>)
    requires
        forall|i: int| 0 <= i < hs.len() ==> hs[i].0 != k,
    ensures
        headers_put(hs, k, v) == hs.push((k, v)),
    decreases hs.len(),
{
    if hs.len() > 0 {
        assert forall|i: int| 0 <= i < hs.drop_first().len() implies hs.drop_first()[i].0 != k by {
            assert(hs.drop_first()[i] == hs[i + 1]);
        }
        lemma_headers_put_new(hs.drop_first(), k, v);
        assert(seq![hs[0]] + hs.drop_first().push((k, v)) =~= hs.push((k, v)));
    } else {
        assert(seq![(k, v)] =~= hs.push((k, v)));
    }
}

proof fn lemma_headers_fold(hs: Seq<(Seq<char>, Seq<char>)>, acc: WssResponseV, d: nat)
    requires
        d > 0,
        header_keys_distinct(hs),
        forall|i: int| 0 <= i < hs.len() ==> header_fits(#[trigger] hs[i]),
        forall|i: int, j: int| 0 <= i < acc.headers.len() && 0 <= j < hs.len() ==> acc.headers[i].0 != hs[j].0,
    ensures
        fold_fields(header_fields(hs), acc, WssResponse::step(d)) == Some(
            WssResponseV { headers: acc.headers + hs, ..acc },
        ),
    decreases hs.len(),
{
    let fs = header_fields(hs);
    if hs.len() == 0 {
        assert(acc.headers + hs =~= acc.headers);
    } else {
        let e = hs[0];
        assert(header_fits(e));
        lemma_header_entry_round_trip(e.0, e.1, (d - 1) as nat);
        assert forall|i: int| 0 <= i < acc.headers.len() implies acc.headers[i].0 != e.0 by {}
        lemma_headers_put_new(acc.headers, e.0, e.1);
        let acc2 = WssResponseV { headers: acc.headers.push(e), ..acc };
        assert(fs[0] == bytes_field(5, encode_fields(header_entry_fields(e.0, e.1))));
        let rest = hs.drop_first();
        assert(fs.drop_first() =~= header_fields(rest));
        assert forall|i: int| 0 <= i < rest.len() implies header_fits(#[trigger] rest[i]) by {
            assert(rest[i] == hs[i + 1]);
        }
        assert forall|i: int, j: int| 0 <= i < j < rest.len() implies rest[i].0 != rest[j].0 by {
            assert(rest[i] == hs[i + 1] && rest[j] == hs[j + 1]);
        }
        assert forall|i: int, j: int|
            0 <= i < acc2.headers.len() && 0 <= j < rest.len() implies acc2.headers[i].0 != rest[j].0 by {
            assert(rest[j] == hs[j + 1]);
            if i == acc.headers.len() {
                assert(acc2.headers[i] == hs[0]);
            } else {
                assert(acc2.headers[i] == acc.headers[i]);
            }
        }
        lemma_headers_fold(rest, acc2, d);
        assert(acc.headers.push(e) + rest =~= acc.headers + hs);
    }
}

/// Decoding an encoded frame gives the frame back, at any nesting budget
/// that leaves room for its header entries.
pub proof fn lemma_wss_round_trip(w: WssResponseV, d: nat)
    requires
        d > 0,
        wss_fits(w),
    ensures
        decode_with(encode_wss(w), d, WssResponse::map_tag(), wss_response_default(), WssResponse::step(d))
            == Some(w),
{
    broadcast use encode_utf8_valid_utf8, encode_utf8_decode_utf8;

    let head = seq![
        varint_field(1, w.seqid),
        varint_field(2, w.logid),
        varint_field(3, w.service),
        varint_field(4, w.method),
    ];
    let hf = header_fields(w.headers);
    let tail = seq![
        string_field(6, w.payload_encoding),
        string_field(7, w.payload_type),
        bytes_field(8, w.payload),
    ];
    let fs = wss_fields(w);
    assert(fs == head + hf + tail);
    assert forall|i: int| 0 <= i < fs.len() implies framable(#[trigger] fs[i], 5) by {
        if i < 4 {
            assert(fs[i] == head[i]);
        } else if i < 4 + hf.len() {
            assert(fs[i] == hf[i - 4]);
            assert(header_fits(w.headers[i - 4]));
        } else {
            assert(fs[i] == tail[i - 4 - hf.len()]);
        }
    }
    lemma_fields_round_trip(fs, d, 5);
    let step = WssResponse::step(d);
    let w0 = wss_response_default();
    let w1 = WssResponseV { seqid: w.seqid, ..w0 };
    let w2 = WssResponseV { logid: w.logid, ..w1 };
    let w3 = WssResponseV { service: w.service, ..w2 };
    let w4 = WssResponseV { method: w.method, ..w3 };
    assert(head.skip(0) =~= head);
    lemma_fold_step(head, 0, w0, step);
    lemma_fold_step(head, 1, w1, step);
    lemma_fold_step(head, 2, w2, step);
    lemma_fold_step(head, 3, w3, step);
    assert(head.skip(4) =~= Seq::<FieldV>::empty());
    lemma_headers_fold(w.headers, w4, d);
    let w5 = WssResponseV { headers: w4.headers + w.headers, ..w4 };
    assert(w4.headers + w.headers =~= w.headers);
    let w6 = WssResponseV { payload_encoding: w.payload_encoding, ..w5 };
    let w7 = WssResponseV { payload_type: w.payload_type, ..w6 };
    let w8 = WssResponseV { payload: w.payload, ..w7 };
    assert(tail.skip(0) =~= tail);
    lemma_fold_step(tail, 0, w5, step);
    lemma_fold_step(tail, 1, w6, step);
    lemma_fold_step(tail, 2, w7, step);
    assert(tail.skip(3) =~= Seq::<FieldV>::empty());
    lemma_fold_fields_concat(head + hf, tail, w0, step);
    lemma_fold_fields_concat(head, hf, w0, step);
    assert(w8 == w);
}

/// A frame carrying an encoded response, not marked as gzip-compressed,
/// decodes to that response: decoding gives back what was encoded.
pub proof fn lemma_frame_round_trip(w: WssResponseV, r: ResponseV)
    requires
        wss_fits(w),
        response_fits(r),
        w.payload == encode_response(r),
        headers_get(w.headers, "compress_type"@) != Some("gzip"@),
    ensures
        spec_decode::<WssResponse>(encode_wss(w), wss_response_default()) == Some(w),
        spec_decode::<Response>(encode_response(r), response_default()) == Some(r),
        frame_response(encode_wss(w), false) == Some(r),
{
    lemma_wss_round_trip(w, 100);
    lemma_response_round_trip(r, 100);
    let fs = wss_fields(w);
    let frame = encode_wss(w);
    let first = encode_field(fs[0]);
    assert(fs[0] == varint_field(1, w.seqid));
    assert(encode_key(1, 0) == encode_varint(8));
    assert(encode_varint(8) == seq![8u8]);
    assert(frame == first + encode_fields(fs.drop_first()));
    assert(first == encode_varint(8) + encode_varint(w.seqid as nat));
    assert(frame[0] == 8u8);
    assert(8u8 & 7 == 0) by (bit_vector);
}

} // verus!
