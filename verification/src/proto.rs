//! The live-room push messages and their protobuf decoding.
//!
//! Each message is decoded field by field: the wire layer splits the bytes
//! into fields, and a message folds its fields in wire order into a value,
//! starting from a given value (decoding into a default value is a plain
//! decode; decoding into an existing value is a protobuf merge).  Scalar and
//! string fields keep the last occurrence, embedded messages merge into what
//! is already there, repeated fields append, map entries replace the entry
//! with the same key, and unknown fields are skipped.  A field whose wire
//! type does not fit its declared type, a string that is not UTF-8, or an
//! embedded message beyond the nesting budget makes the whole decode fail.

use vstd::prelude::*;
use vstd::utf8::*;

use crate::text::utf8_string;
use crate::wire::{locates, parse_fields, spec_parse_fields, FieldV, RawField, RECURSION_LIMIT};

verus! {

// ---------------------------------------------------------------------------
// Field values
// ---------------------------------------------------------------------------

/// An `int64` field.
pub open spec fn fv_i64(f: FieldV) -> Option<i64> {
    if f.wt == 0 {
        Some(f.varint as i64)
    } else {
        None
    }
}

/// A `uint64` field.
pub open spec fn fv_u64(f: FieldV) -> Option<u64> {
    if f.wt == 0 {
        Some(f.varint)
    } else {
        None
    }
}

/// An `int32` field (the varint truncated to 32 bits).
pub open spec fn fv_i32(f: FieldV) -> Option<i32> {
    if f.wt == 0 {
        Some(f.varint as i32)
    } else {
        None
    }
}

/// A `bool` field.
pub open spec fn fv_bool(f: FieldV) -> Option<bool> {
    if f.wt == 0 {
        Some(f.varint != 0)
    } else {
        None
    }
}

/// A `bytes` field.
pub open spec fn fv_bytes(f: FieldV) -> Option<Seq<u8>> {
    if f.wt == 2 {
        Some(f.data)
    } else {
        None
    }
}

/// A `string` field: length-delimited and valid UTF-8.
pub open spec fn fv_string(f: FieldV) -> Option<Seq<char>> {
    if f.wt == 2 && valid_utf8(f.data) {
        Some(decode_utf8(f.data))
    } else {
        None
    }
}

fn raw_i64(rf: RawField, Ghost(f): Ghost<FieldV>) -> (r: Option<i64>)
    requires
        rf.tag == f.tag && rf.wt == f.wt && rf.varint == f.varint,
    ensures
        r == fv_i64(f),
{
    if rf.wt == 0 {
        Some(rf.varint as i64)
    } else {
        None
    }
}

fn raw_u64(rf: RawField, Ghost(f): Ghost<FieldV>) -> (r: Option<u64>)
    requires
        rf.tag == f.tag && rf.wt == f.wt && rf.varint == f.varint,
    ensures
        r == fv_u64(f),
{
    if rf.wt == 0 {
        Some(rf.varint)
    } else {
        None
    }
}

fn raw_i32(rf: RawField, Ghost(f): Ghost<FieldV>) -> (r: Option<i32>)
    requires
        rf.tag == f.tag && rf.wt == f.wt && rf.varint == f.varint,
    ensures
        r == fv_i32(f),
{
    if rf.wt == 0 {
        Some(rf.varint as i32)
    } else {
        None
    }
}

fn raw_bool(rf: RawField, Ghost(f): Ghost<FieldV>) -> (r: Option<bool>)
    requires
        rf.tag == f.tag && rf.wt == f.wt && rf.varint == f.varint,
    ensures
        r == fv_bool(f),
{
    if rf.wt == 0 {
        Some(rf.varint != 0)
    } else {
        None
    }
}

fn raw_bytes(buf: &[u8], rf: RawField, Ghost(f): Ghost<FieldV>) -> (r: Option<Vec<u8>>)
    requires
        locates(buf@, rf, f),
    ensures
        match fv_bytes(f) {
            Some(b) => r matches Some(v) && v@ == b,
            None => r is None,
        },
{
    if rf.wt == 2 {
        Some(vstd::slice::slice_to_vec(&buf[rf.start..rf.end]))
    } else {
        None
    }
}

fn raw_string(buf: &[u8], rf: RawField, Ghost(f): Ghost<FieldV>) -> (r: Option<String>)
    requires
        locates(buf@, rf, f),
    ensures
        match fv_string(f) {
            Some(s) => r matches Some(v) && v@ == s,
            None => r is None,
        },
{
    if rf.wt == 2 {
        utf8_string(&buf[rf.start..rf.end])
    } else {
        None
    }
}

// ---------------------------------------------------------------------------
// Folding fields into a message
// ---------------------------------------------------------------------------

/// Applies `step` to the fields in order, failing as soon as a step fails.
pub open spec fn fold_fields<M>(fs: Seq<FieldV>, m: M, step: spec_fn(M, FieldV) -> Option<M>) -> Option<M>
    decreases fs.len(),
{
    if fs.len() == 0 {
        Some(m)
    } else {
        match step(m, fs[0]) {
            Some(m2) => fold_fields(fs.drop_first(), m2, step),
            None => None,
        }
    }
}

/// Decodes the message in `s` into `m`: the fields of `s` (tag `lt` read as
/// a map entry), folded with `step`.
pub open spec fn decode_with<M>(
    s: Seq<u8>,
    d: nat,
    lt: u32,
    m: M,
    step: spec_fn(M, FieldV) -> Option<M>,
) -> Option<M> {
    match spec_parse_fields(s, d, lt) {
        Some(fs) => fold_fields(fs, m, step),
        None => None,
    }
}

pub(crate) proof fn lemma_fold_step<M>(fs: Seq<FieldV>, i: int, m: M, step: spec_fn(M, FieldV) -> Option<M>)
    requires
        0 <= i < fs.len(),
    ensures
        fold_fields(fs.skip(i), m, step) == match step(m, fs[i]) {
            Some(m2) => fold_fields(fs.skip(i + 1), m2, step),
            None => None,
        },
{
    assert(fs.skip(i).drop_first() =~= fs.skip(i + 1));
    assert(fs.skip(i)[0] == fs[i]);
}

/// A protobuf message: how one field changes its value.
pub trait WireMessage: View + Sized {
    /// The effect of field `f` on a value, with `d` levels of nesting left
    /// for embedded messages.
    spec fn step(d: nat) -> spec_fn(Self::V, FieldV) -> Option<Self::V>;

    /// The tag read as a map entry (`0` for none).
    spec fn map_tag() -> u32;

    fn map_tag_exec() -> (t: u32)
        ensures
            t == Self::map_tag(),
    ;

    /// Merges one field into `self`.
    fn merge_field(self, buf: &[u8], rf: RawField, f: Ghost<FieldV>, d: u32) -> (r: Option<Self>)
        requires
            locates(buf@, rf, f@),
        ensures
            match (Self::step(d as nat))(self@, f@) {
                Some(v) => r matches Some(x) && x@ == v,
                None => r is None,
            },
    ;
}

/// Decodes `buf` into `init` (protobuf merge), `d` levels of nesting left.
pub fn decode_into<M: WireMessage>(buf: &[u8], d: u32, init: M) -> (r: Option<M>)
    ensures
        match decode_with(buf@, d as nat, M::map_tag(), init@, M::step(d as nat)) {
            Some(v) => r matches Some(x) && x@ == v,
            None => r is None,
        },
{
    let lt = M::map_tag_exec();
    let fields = match parse_fields(buf, d, lt) {
        Some(fields) => fields,
        None => {
            return None;
        },
    };
    let ghost fs = spec_parse_fields(buf@, d as nat, lt).unwrap();
    let ghost step = M::step(d as nat);
    let mut m = init;
    let mut i: usize = 0;
    assert(fs.skip(0) =~= fs);
    while i < fields.len()
        invariant
            i <= fields@.len(),
            fields@.len() == fs.len(),
            lt == M::map_tag(),
            step == M::step(d as nat),
            spec_parse_fields(buf@, d as nat, lt) == Some(fs),
            forall|j: int| 0 <= j < fs.len() ==> #[trigger] locates(buf@, fields@[j], fs[j]),
            decode_with(buf@, d as nat, lt, init@, step) == fold_fields(fs.skip(i as int), m@, step),
        decreases fields@.len() - i,
    {
        let rf = fields[i];
        proof {
            lemma_fold_step(fs, i as int, m@, step);
        }
        match m.merge_field(buf, rf, Ghost(fs[i as int]), d) {
            Some(m2) => {
                m = m2;
            },
            None => {
                return None;
            },
        }
        i = i + 1;
    }
    assert(fs.skip(i as int) =~= Seq::<FieldV>::empty());
    Some(m)
}

/// An embedded-message field: length-delimited, and decoded into `base`
/// with one level of nesting less.
pub open spec fn fv_message<M: WireMessage>(f: FieldV, d: nat, base: M::V) -> Option<M::V> {
    if f.wt == 2 && d > 0 {
        decode_with(f.data, (d - 1) as nat, M::map_tag(), base, M::step((d - 1) as nat))
    } else {
        None
    }
}

fn raw_message<M: WireMessage>(buf: &[u8], rf: RawField, Ghost(f): Ghost<FieldV>, d: u32, base: M) -> (r:
    Option<M>)
    requires
        locates(buf@, rf, f),
    ensures
        match fv_message::<M>(f, d as nat, base@) {
            Some(v) => r matches Some(x) && x@ == v,
            None => r is None,
        },
{
    if rf.wt == 2 && d > 0 {
        decode_into(&buf[rf.start..rf.end], d - 1, base)
    } else {
        None
    }
}

/// The view of an optional embedded message.
pub open spec fn opt_view<T: View>(o: Option<T>) -> Option<T::V> {
    match o {
        Some(x) => Some(x@),
        None => None,
    }
}

// ---------------------------------------------------------------------------
// Common
// ---------------------------------------------------------------------------

/// Header shared by all push messages.
#[derive(Clone, Debug, PartialEq, Eq)]
pub struct Common {
    pub method: String,
    pub msg_id: i64,
    pub room_id: i64,
    pub create_time: i64,
}

pub struct CommonV {
    pub method: Seq<char>,
    pub msg_id: i64,
    pub room_id: i64,
    pub create_time: i64,
}

impl View for Common {
    type V = CommonV;

    open spec fn view(&self) -> CommonV {
        CommonV {
            method: self.method@,
            msg_id: self.msg_id,
            room_id: self.room_id,
            create_time: self.create_time,
        }
    }
}

pub open spec fn common_default() -> CommonV {
    CommonV { method: Seq::empty(), msg_id: 0, room_id: 0, create_time: 0 }
}

impl Default for Common {
    fn default() -> (r: Self)
        ensures
            r@ == common_default(),
    {
        Common { method: String::new(), msg_id: 0, room_id: 0, create_time: 0 }
    }
}

/// Fields: `method` (1, string), `msg_id` (2, int64), `room_id` (3, int64),
/// `create_time` (4, int64).
pub open spec fn common_apply(m: CommonV, f: FieldV) -> Option<CommonV> {
    if f.tag == 1 {
        match fv_string(f) {
            Some(v) => Some(CommonV { method: v, ..m }),
            None => None,
        }
    } else if f.tag == 2 {
        match fv_i64(f) {
            Some(v) => Some(CommonV { msg_id: v, ..m }),
            None => None,
        }
    } else if f.tag == 3 {
        match fv_i64(f) {
            Some(v) => Some(CommonV { room_id: v, ..m }),
            None => None,
        }
    } else if f.tag == 4 {
        match fv_i64(f) {
            Some(v) => Some(CommonV { create_time: v, ..m }),
            None => None,
        }
    } else {
        Some(m)
    }
}

impl WireMessage for Common {
    open spec fn step(d: nat) -> spec_fn(CommonV, FieldV) -> Option<CommonV> {
        |m: CommonV, f: FieldV| common_apply(m, f)
    }

    open spec fn map_tag() -> u32 {
        0
    }

    fn map_tag_exec() -> (t: u32) {
        0
    }

    fn merge_field(self, buf: &[u8], rf: RawField, f: Ghost<FieldV>, d: u32) -> (r: Option<Self>) {
        let mut m = self;
        if rf.tag == 1 {
            match raw_string(buf, rf, f) {
                Some(v) => m.method = v,
                None => return None,
            }
        } else if rf.tag == 2 {
            match raw_i64(rf, f) {
                Some(v) => m.msg_id = v,
                None => return None,
            }
        } else if rf.tag == 3 {
            match raw_i64(rf, f) {
                Some(v) => m.room_id = v,
                None => return None,
            }
        } else if rf.tag == 4 {
            match raw_i64(rf, f) {
                Some(v) => m.create_time = v,
                None => return None,
            }
        }
        Some(m)
    }
}

// ---------------------------------------------------------------------------
// User
// ---------------------------------------------------------------------------

/// A user as it appears in push messages.
#[derive(Clone, Debug, PartialEq, Eq)]
pub struct User {
    pub id: u64,
    pub nick_name: String,
}

pub struct UserV {
    pub id: u64,
    pub nick_name: Seq<char>,
}

impl View for User {
    type V = UserV;

    open spec fn view(&self) -> UserV {
        UserV {
            id: self.id,
            nick_name: self.nick_name@,
        }
    }
}

pub open spec fn user_default() -> UserV {
    UserV {
        id: 0,
        nick_name: Seq::empty(),
    }
}

impl Default for User {
    fn default() -> (r: Self)
        ensures
            r@ == user_default(),
    {
        let r = User {
            id: 0,
            nick_name: String::new(),
        };
        r
    }
}

/// Fields: `id` (1, uint64), `nick_name` (3, string).
pub open spec fn user_apply(m: UserV, f: FieldV, d: nat) -> Option<UserV> {
    if f.tag == 1 {
        match fv_u64(f) {
            Some(v) => Some(UserV { id: v, ..m }),
            None => None,
        }
    } else if f.tag == 3 {
        match fv_string(f) {
            Some(v) => Some(UserV { nick_name: v, ..m }),
            None => None,
        }
    } else {
        Some(m)
    }
}

impl WireMessage for User {
    open spec fn step(d: nat) -> spec_fn(UserV, FieldV) -> Option<UserV> {
        |m: UserV, f: FieldV| user_apply(m, f, d)
    }

    open spec fn map_tag() -> u32 {
        0
    }

    fn map_tag_exec() -> (t: u32) {
        0
    }

    fn merge_field(self, buf: &[u8], rf: RawField, f: Ghost<FieldV>, d: u32) -> (r: Option<Self>) {
        let mut m = self;
        if rf.tag == 1 {
            match raw_u64(rf, f) {
                Some(v) => m.id = v,
                None => return None,
            }
        } else if rf.tag == 3 {
            match raw_string(buf, rf, f) {
                Some(v) => m.nick_name = v,
                None => return None,
            }
        }
        Some(m)
    }
}

// ---------------------------------------------------------------------------
// ChatMessage
// ---------------------------------------------------------------------------

/// A chat line.
#[derive(Clone, Debug, PartialEq, Eq)]
pub struct ChatMessage {
    pub common: Option<Common>,
    pub user: Option<User>,
    pub content: String,
}

pub struct ChatMessageV {
    pub common: Option<CommonV>,
    pub user: Option<UserV>,
    pub content: Seq<char>,
}

impl View for ChatMessage {
    type V = ChatMessageV;

    open spec fn view(&self) -> ChatMessageV {
        ChatMessageV {
            common: opt_view(self.common),
            user: opt_view(self.user),
            content: self.content@,
        }
    }
}

pub open spec fn chat_default() -> ChatMessageV {
    ChatMessageV {
        common: None,
        user: None,
        content: Seq::empty(),
    }
}

impl Default for ChatMessage {
    fn default() -> (r: Self)
        ensures
            r@ == chat_default(),
    {
        let r = ChatMessage {
            common: None,
            user: None,
            content: String::new(),
        };
        r
    }
}

/// Fields: `common` (1, Common), `user` (2, User), `content` (3, string).
pub open spec fn chat_apply(m: ChatMessageV, f: FieldV, d: nat) -> Option<ChatMessageV> {
    if f.tag == 1 {
        match fv_message::<Common>(f, d, m.common.unwrap_or(common_default())) {
            Some(v) => Some(ChatMessageV { common: Some(v), ..m }),
            None => None,
        }
    } else if f.tag == 2 {
        match fv_message::<User>(f, d, m.user.unwrap_or(user_default())) {
            Some(v) => Some(ChatMessageV { user: Some(v), ..m }),
            None => None,
        }
    } else if f.tag == 3 {
        match fv_string(f) {
            Some(v) => Some(ChatMessageV { content: v, ..m }),
            None => None,
        }
    } else {
        Some(m)
    }
}

impl WireMessage for ChatMessage {
    open spec fn step(d: nat) -> spec_fn(ChatMessageV, FieldV) -> Option<ChatMessageV> {
        |m: ChatMessageV, f: FieldV| chat_apply(m, f, d)
    }

    open spec fn map_tag() -> u32 {
        0
    }

    fn map_tag_exec() -> (t: u32) {
        0
    }

    fn merge_field(self, buf: &[u8], rf: RawField, f: Ghost<FieldV>, d: u32) -> (r: Option<Self>) {
        let mut m = self;
        if rf.tag == 1 {
            let base = match m.common.take() {
                Some(x) => x,
                None => Common::default(),
            };
            match raw_message(buf, rf, f, d, base) {
                Some(v) => m.common = Some(v),
                None => return None,
            }
        } else if rf.tag == 2 {
            let base = match m.user.take() {
                Some(x) => x,
                None => User::default(),
            };
            match raw_message(buf, rf, f, d, base) {
                Some(v) => m.user = Some(v),
                None => return None,
            }
        } else if rf.tag == 3 {
            match raw_string(buf, rf, f) {
                Some(v) => m.content = v,
                None => return None,
            }
        }
        Some(m)
    }
}

// ---------------------------------------------------------------------------
// GiftMessage
// ---------------------------------------------------------------------------

/// A gift sent to the streamer.
#[derive(Clone, Debug, PartialEq, Eq)]
pub struct GiftMessage {
    pub common: Option<Common>,
    pub gift_id: i64,
    pub repeat_count: i64,
    pub user: Option<User>,
}

pub struct GiftMessageV {
    pub common: Option<CommonV>,
    pub gift_id: i64,
    pub repeat_count: i64,
    pub user: Option<UserV>,
}

impl View for GiftMessage {
    type V = GiftMessageV;

    open spec fn view(&self) -> GiftMessageV {
        GiftMessageV {
            common: opt_view(self.common),
            gift_id: self.gift_id,
            repeat_count: self.repeat_count,
            user: opt_view(self.user),
        }
    }
}

pub open spec fn gift_default() -> GiftMessageV {
    GiftMessageV {
        common: None,
        gift_id: 0,
        repeat_count: 0,
        user: None,
    }
}

impl Default for GiftMessage {
    fn default() -> (r: Self)
        ensures
            r@ == gift_default(),
    {
        let r = GiftMessage {
            common: None,
            gift_id: 0,
            repeat_count: 0,
            user: None,
        };
        r
    }
}

/// Fields: `common` (1, Common), `gift_id` (2, int64), `repeat_count` (5, int64), `user` (7, User).
pub open spec fn gift_apply(m: GiftMessageV, f: FieldV, d: nat) -> Option<GiftMessageV> {
    if f.tag == 1 {
        match fv_message::<Common>(f, d, m.common.unwrap_or(common_default())) {
            Some(v) => Some(GiftMessageV { common: Some(v), ..m }),
            None => None,
        }
    } else if f.tag == 2 {
        match fv_i64(f) {
            Some(v) => Some(GiftMessageV { gift_id: v, ..m }),
            None => None,
        }
    } else if f.tag == 5 {
        match fv_i64(f) {
            Some(v) => Some(GiftMessageV { repeat_count: v, ..m }),
            None => None,
        }
    } else if f.tag == 7 {
        match fv_message::<User>(f, d, m.user.unwrap_or(user_default())) {
            Some(v) => Some(GiftMessageV { user: Some(v), ..m }),
            None => None,
        }
    } else {
        Some(m)
    }
}

impl WireMessage for GiftMessage {
    open spec fn step(d: nat) -> spec_fn(GiftMessageV, FieldV) -> Option<GiftMessageV> {
        |m: GiftMessageV, f: FieldV| gift_apply(m, f, d)
    }

    open spec fn map_tag() -> u32 {
        0
    }

    fn map_tag_exec() -> (t: u32) {
        0
    }

    fn merge_field(self, buf: &[u8], rf: RawField, f: Ghost<FieldV>, d: u32) -> (r: Option<Self>) {
        let mut m = self;
        if rf.tag == 1 {
            let base = match m.common.take() {
                Some(x) => x,
                None => Common::default(),
            };
            match raw_message(buf, rf, f, d, base) {
                Some(v) => m.common = Some(v),
                None => return None,
            }
        } else if rf.tag == 2 {
            match raw_i64(rf, f) {
                Some(v) => m.gift_id = v,
                None => return None,
            }
        } else if rf.tag == 5 {
            match raw_i64(rf, f) {
                Some(v) => m.repeat_count = v,
                None => return None,
            }
        } else if rf.tag == 7 {
            let base = match m.user.take() {
                Some(x) => x,
                None => User::default(),
            };
            match raw_message(buf, rf, f, d, base) {
                Some(v) => m.user = Some(v),
                None => return None,
            }
        }
        Some(m)
    }
}

// ---------------------------------------------------------------------------
// LikeMessage
// ---------------------------------------------------------------------------

/// Likes from a viewer.
#[derive(Clone, Debug, PartialEq, Eq)]
pub struct LikeMessage {
    pub common: Option<Common>,
    pub count: i64,
    pub total: i64,
    pub user: Option<User>,
}

pub struct LikeMessageV {
    pub common: Option<CommonV>,
    pub count: i64,
    pub total: i64,
    pub user: Option<UserV>,
}

impl View for LikeMessage {
    type V = LikeMessageV;

    open spec fn view(&self) -> LikeMessageV {
        LikeMessageV {
            common: opt_view(self.common),
            count: self.count,
            total: self.total,
            user: opt_view(self.user),
        }
    }
}

pub open spec fn like_default() -> LikeMessageV {
    LikeMessageV {
        common: None,
        count: 0,
        total: 0,
        user: None,
    }
}

impl Default for LikeMessage {
    fn default() -> (r: Self)
        ensures
            r@ == like_default(),
    {
        let r = LikeMessage {
            common: None,
            count: 0,
            total: 0,
            user: None,
        };
        r
    }
}

/// Fields: `common` (1, Common), `count` (2, int64), `total` (3, int64), `user` (5, User).
pub open spec fn like_apply(m: LikeMessageV, f: FieldV, d: nat) -> Option<LikeMessageV> {
    if f.tag == 1 {
        match fv_message::<Common>(f, d, m.common.unwrap_or(common_default())) {
            Some(v) => Some(LikeMessageV { common: Some(v), ..m }),
            None => None,
        }
    } else if f.tag == 2 {
        match fv_i64(f) {
            Some(v) => Some(LikeMessageV { count: v, ..m }),
            None => None,
        }
    } else if f.tag == 3 {
        match fv_i64(f) {
            Some(v) => Some(LikeMessageV { total: v, ..m }),
            None => None,
        }
    } else if f.tag == 5 {
        match fv_message::<User>(f, d, m.user.unwrap_or(user_default())) {
            Some(v) => Some(LikeMessageV { user: Some(v), ..m }),
            None => None,
        }
    } else {
        Some(m)
    }
}

impl WireMessage for LikeMessage {
    open spec fn step(d: nat) -> spec_fn(LikeMessageV, FieldV) -> Option<LikeMessageV> {
        |m: LikeMessageV, f: FieldV| like_apply(m, f, d)
    }

    open spec fn map_tag() -> u32 {
        0
    }

    fn map_tag_exec() -> (t: u32) {
        0
    }

    fn merge_field(self, buf: &[u8], rf: RawField, f: Ghost<FieldV>, d: u32) -> (r: Option<Self>) {
        let mut m = self;
        if rf.tag == 1 {
            let base = match m.common.take() {
                Some(x) => x,
                None => Common::default(),
            };
            match raw_message(buf, rf, f, d, base) {
                Some(v) => m.common = Some(v),
                None => return None,
            }
        } else if rf.tag == 2 {
            match raw_i64(rf, f) {
                Some(v) => m.count = v,
                None => return None,
            }
        } else if rf.tag == 3 {
            match raw_i64(rf, f) {
                Some(v) => m.total = v,
                None => return None,
            }
        } else if rf.tag == 5 {
            let base = match m.user.take() {
                Some(x) => x,
                None => User::default(),
            };
            match raw_message(buf, rf, f, d, base) {
                Some(v) => m.user = Some(v),
                None => return None,
            }
        }
        Some(m)
    }
}

// ---------------------------------------------------------------------------
// MemberMessage
// ---------------------------------------------------------------------------

/// A viewer entering the room.
#[derive(Clone, Debug, PartialEq, Eq)]
pub struct MemberMessage {
    pub common: Option<Common>,
    pub user: Option<User>,
    pub member_count: i64,
}

pub struct MemberMessageV {
    pub common: Option<CommonV>,
    pub user: Option<UserV>,
    pub member_count: i64,
}

impl View for MemberMessage {
    type V = MemberMessageV;

    open spec fn view(&self) -> MemberMessageV {
        MemberMessageV {
            common: opt_view(self.common),
            user: opt_view(self.user),
            member_count: self.member_count,
        }
    }
}

pub open spec fn member_default() -> MemberMessageV {
    MemberMessageV {
        common: None,
        user: None,
        member_count: 0,
    }
}

impl Default for MemberMessage {
    fn default() -> (r: Self)
        ensures
            r@ == member_default(),
    {
        let r = MemberMessage {
            common: None,
            user: None,
            member_count: 0,
        };
        r
    }
}

/// Fields: `common` (1, Common), `user` (2, User), `member_count` (3, int64).
pub open spec fn member_apply(m: MemberMessageV, f: FieldV, d: nat) -> Option<MemberMessageV> {
    if f.tag == 1 {
        match fv_message::<Common>(f, d, m.common.unwrap_or(common_default())) {
            Some(v) => Some(MemberMessageV { common: Some(v), ..m }),
            None => None,
        }
    } else if f.tag == 2 {
        match fv_message::<User>(f, d, m.user.unwrap_or(user_default())) {
            Some(v) => Some(MemberMessageV { user: Some(v), ..m }),
            None => None,
        }
    } else if f.tag == 3 {
        match fv_i64(f) {
            Some(v) => Some(MemberMessageV { member_count: v, ..m }),
            None => None,
        }
    } else {
        Some(m)
    }
}

impl WireMessage for MemberMessage {
    open spec fn step(d: nat) -> spec_fn(MemberMessageV, FieldV) -> Option<MemberMessageV> {
        |m: MemberMessageV, f: FieldV| member_apply(m, f, d)
    }

    open spec fn map_tag() -> u32 {
        0
    }

    fn map_tag_exec() -> (t: u32) {
        0
    }

    fn merge_field(self, buf: &[u8], rf: RawField, f: Ghost<FieldV>, d: u32) -> (r: Option<Self>) {
        let mut m = self;
        if rf.tag == 1 {
            let base = match m.common.take() {
                Some(x) => x,
                None => Common::default(),
            };
            match raw_message(buf, rf, f, d, base) {
                Some(v) => m.common = Some(v),
                None => return None,
            }
        } else if rf.tag == 2 {
            let base = match m.user.take() {
                Some(x) => x,
                None => User::default(),
            };
            match raw_message(buf, rf, f, d, base) {
                Some(v) => m.user = Some(v),
                None => return None,
            }
        } else if rf.tag == 3 {
            match raw_i64(rf, f) {
                Some(v) => m.member_count = v,
                None => return None,
            }
        }
        Some(m)
    }
}

// ---------------------------------------------------------------------------
// SocialMessage
// ---------------------------------------------------------------------------

/// A follow or share.
#[derive(Clone, Debug, PartialEq, Eq)]
pub struct SocialMessage {
    pub common: Option<Common>,
    pub user: Option<User>,
    pub action: u64,
}

pub struct SocialMessageV {
    pub common: Option<CommonV>,
    pub user: Option<UserV>,
    pub action: u64,
}

impl View for SocialMessage {
    type V = SocialMessageV;

    open spec fn view(&self) -> SocialMessageV {
        SocialMessageV {
            common: opt_view(self.common),
            user: opt_view(self.user),
            action: self.action,
        }
    }
}

pub open spec fn social_default() -> SocialMessageV {
    SocialMessageV {
        common: None,
        user: None,
        action: 0,
    }
}

impl Default for SocialMessage {
    fn default() -> (r: Self)
        ensures
            r@ == social_default(),
    {
        let r = SocialMessage {
            common: None,
            user: None,
            action: 0,
        };
        r
    }
}

/// Fields: `common` (1, Common), `user` (2, User), `action` (4, uint64).
pub open spec fn social_apply(m: SocialMessageV, f: FieldV, d: nat) -> Option<SocialMessageV> {
    if f.tag == 1 {
        match fv_message::<Common>(f, d, m.common.unwrap_or(common_default())) {
            Some(v) => Some(SocialMessageV { common: Some(v), ..m }),
            None => None,
        }
    } else if f.tag == 2 {
        match fv_message::<User>(f, d, m.user.unwrap_or(user_default())) {
            Some(v) => Some(SocialMessageV { user: Some(v), ..m }),
            None => None,
        }
    } else if f.tag == 4 {
        match fv_u64(f) {
            Some(v) => Some(SocialMessageV { action: v, ..m }),
            None => None,
        }
    } else {
        Some(m)
    }
}

impl WireMessage for SocialMessage {
    open spec fn step(d: nat) -> spec_fn(SocialMessageV, FieldV) -> Option<SocialMessageV> {
        |m: SocialMessageV, f: FieldV| social_apply(m, f, d)
    }

    open spec fn map_tag() -> u32 {
        0
    }

    fn map_tag_exec() -> (t: u32) {
        0
    }

    fn merge_field(self, buf: &[u8], rf: RawField, f: Ghost<FieldV>, d: u32) -> (r: Option<Self>) {
        let mut m = self;
        if rf.tag == 1 {
            let base = match m.common.take() {
                Some(x) => x,
                None => Common::default(),
            };
            match raw_message(buf, rf, f, d, base) {
                Some(v) => m.common = Some(v),
                None => return None,
            }
        } else if rf.tag == 2 {
            let base = match m.user.take() {
                Some(x) => x,
                None => User::default(),
            };
            match raw_message(buf, rf, f, d, base) {
                Some(v) => m.user = Some(v),
                None => return None,
            }
        } else if rf.tag == 4 {
            match raw_u64(rf, f) {
                Some(v) => m.action = v,
                None => return None,
            }
        }
        Some(m)
    }
}

// ---------------------------------------------------------------------------
// ControlMessage
// ---------------------------------------------------------------------------

/// A change of the room's live status.
#[derive(Clone, Debug, PartialEq, Eq)]
pub struct ControlMessage {
    pub common: Option<Common>,
    pub status: i32,
}

pub struct ControlMessageV {
    pub common: Option<CommonV>,
    pub status: i32,
}

impl View for ControlMessage {
    type V = ControlMessageV;

    open spec fn view(&self) -> ControlMessageV {
        ControlMessageV {
            common: opt_view(self.common),
            status: self.status,
        }
    }
}

pub open spec fn control_default() -> ControlMessageV {
    ControlMessageV {
        common: None,
        status: 0,
    }
}

impl Default for ControlMessage {
    fn default() -> (r: Self)
        ensures
            r@ == control_default(),
    {
        let r = ControlMessage {
            common: None,
            status: 0,
        };
        r
    }
}

/// Fields: `common` (1, Common), `status` (2, int32).
pub open spec fn control_apply(m: ControlMessageV, f: FieldV, d: nat) -> Option<ControlMessageV> {
    if f.tag == 1 {
        match fv_message::<Common>(f, d, m.common.unwrap_or(common_default())) {
            Some(v) => Some(ControlMessageV { common: Some(v), ..m }),
            None => None,
        }
    } else if f.tag == 2 {
        match fv_i32(f) {
            Some(v) => Some(ControlMessageV { status: v, ..m }),
            None => None,
        }
    } else {
        Some(m)
    }
}

impl WireMessage for ControlMessage {
    open spec fn step(d: nat) -> spec_fn(ControlMessageV, FieldV) -> Option<ControlMessageV> {
        |m: ControlMessageV, f: FieldV| control_apply(m, f, d)
    }

    open spec fn map_tag() -> u32 {
        0
    }

    fn map_tag_exec() -> (t: u32) {
        0
    }

    fn merge_field(self, buf: &[u8], rf: RawField, f: Ghost<FieldV>, d: u32) -> (r: Option<Self>) {
        let mut m = self;
        if rf.tag == 1 {
            let base = match m.common.take() {
                Some(x) => x,
                None => Common::default(),
            };
            match raw_message(buf, rf, f, d, base) {
                Some(v) => m.common = Some(v),
                None => return None,
            }
        } else if rf.tag == 2 {
            match raw_i32(rf, f) {
                Some(v) => m.status = v,
                None => return None,
            }
        }
        Some(m)
    }
}

// ---------------------------------------------------------------------------
// RoomUserSeqMessage
// ---------------------------------------------------------------------------

/// The room's viewer counts.
#[derive(Clone, Debug, PartialEq, Eq)]
pub struct RoomUserSeqMessage {
    pub common: Option<Common>,
    pub total: i64,
}

pub struct RoomUserSeqMessageV {
    pub common: Option<CommonV>,
    pub total: i64,
}

impl View for RoomUserSeqMessage {
    type V = RoomUserSeqMessageV;

    open spec fn view(&self) -> RoomUserSeqMessageV {
        RoomUserSeqMessageV {
            common: opt_view(self.common),
            total: self.total,
        }
    }
}

pub open spec fn room_user_seq_default() -> RoomUserSeqMessageV {
    RoomUserSeqMessageV {
        common: None,
        total: 0,
    }
}

impl Default for RoomUserSeqMessage {
    fn default() -> (r: Self)
        ensures
            r@ == room_user_seq_default(),
    {
        let r = RoomUserSeqMessage {
            common: None,
            total: 0,
        };
        r
    }
}

/// Fields: `common` (1, Common), `total` (3, int64).
pub open spec fn room_user_seq_apply(m: RoomUserSeqMessageV, f: FieldV, d: nat) -> Option<RoomUserSeqMessageV> {
    if f.tag == 1 {
        match fv_message::<Common>(f, d, m.common.unwrap_or(common_default())) {
            Some(v) => Some(RoomUserSeqMessageV { common: Some(v), ..m }),
            None => None,
        }
    } else if f.tag == 3 {
        match fv_i64(f) {
            Some(v) => Some(RoomUserSeqMessageV { total: v, ..m }),
            None => None,
        }
    } else {
        Some(m)
    }
}

impl WireMessage for RoomUserSeqMessage {
    open spec fn step(d: nat) -> spec_fn(RoomUserSeqMessageV, FieldV) -> Option<RoomUserSeqMessageV> {
        |m: RoomUserSeqMessageV, f: FieldV| room_user_seq_apply(m, f, d)
    }

    open spec fn map_tag() -> u32 {
        0
    }

    fn map_tag_exec() -> (t: u32) {
        0
    }

    fn merge_field(self, buf: &[u8], rf: RawField, f: Ghost<FieldV>, d: u32) -> (r: Option<Self>) {
        let mut m = self;
        if rf.tag == 1 {
            let base = match m.common.take() {
                Some(x) => x,
                None => Common::default(),
            };
            match raw_message(buf, rf, f, d, base) {
                Some(v) => m.common = Some(v),
                None => return None,
            }
        } else if rf.tag == 3 {
            match raw_i64(rf, f) {
                Some(v) => m.total = v,
                None => return None,
            }
        }
        Some(m)
    }
}

// ---------------------------------------------------------------------------
// FansclubMessage
// ---------------------------------------------------------------------------

/// A fan-club event.
#[derive(Clone, Debug, PartialEq, Eq)]
pub struct FansclubMessage {
    pub common: Option<Common>,
    pub fans_type: i32,
    pub content: String,
    pub user: Option<User>,
}

pub struct FansclubMessageV {
    pub common: Option<CommonV>,
    pub fans_type: i32,
    pub content: Seq<char>,
    pub user: Option<UserV>,
}

impl View for FansclubMessage {
    type V = FansclubMessageV;

    open spec fn view(&self) -> FansclubMessageV {
        FansclubMessageV {
            common: opt_view(self.common),
            fans_type: self.fans_type,
            content: self.content@,
            user: opt_view(self.user),
        }
    }
}

pub open spec fn fansclub_default() -> FansclubMessageV {
    FansclubMessageV {
        common: None,
        fans_type: 0,
        content: Seq::empty(),
        user: None,
    }
}

impl Default for FansclubMessage {
    fn default() -> (r: Self)
        ensures
            r@ == fansclub_default(),
    {
        let r = FansclubMessage {
            common: None,
            fans_type: 0,
            content: String::new(),
            user: None,
        };
        r
    }
}

/// Fields: `common` (1, Common), `fans_type` (2, int32), `content` (3, string), `user` (4, User).
pub open spec fn fansclub_apply(m: FansclubMessageV, f: FieldV, d: nat) -> Option<FansclubMessageV> {
    if f.tag == 1 {
        match fv_message::<Common>(f, d, m.common.unwrap_or(common_default())) {
            Some(v) => Some(FansclubMessageV { common: Some(v), ..m }),
            None => None,
        }
    } else if f.tag == 2 {
        match fv_i32(f) {
            Some(v) => Some(FansclubMessageV { fans_type: v, ..m }),
            None => None,
        }
    } else if f.tag == 3 {
        match fv_string(f) {
            Some(v) => Some(FansclubMessageV { content: v, ..m }),
            None => None,
        }
    } else if f.tag == 4 {
        match fv_message::<User>(f, d, m.user.unwrap_or(user_default())) {
            Some(v) => Some(FansclubMessageV { user: Some(v), ..m }),
            None => None,
        }
    } else {
        Some(m)
    }
}

impl WireMessage for FansclubMessage {
    open spec fn step(d: nat) -> spec_fn(FansclubMessageV, FieldV) -> Option<FansclubMessageV> {
        |m: FansclubMessageV, f: FieldV| fansclub_apply(m, f, d)
    }

    open spec fn map_tag() -> u32 {
        0
    }

    fn map_tag_exec() -> (t: u32) {
        0
    }

    fn merge_field(self, buf: &[u8], rf: RawField, f: Ghost<FieldV>, d: u32) -> (r: Option<Self>) {
        let mut m = self;
        if rf.tag == 1 {
            let base = match m.common.take() {
                Some(x) => x,
                None => Common::default(),
            };
            match raw_message(buf, rf, f, d, base) {
                Some(v) => m.common = Some(v),
                None => return None,
            }
        } else if rf.tag == 2 {
            match raw_i32(rf, f) {
                Some(v) => m.fans_type = v,
                None => return None,
            }
        } else if rf.tag == 3 {
            match raw_string(buf, rf, f) {
                Some(v) => m.content = v,
                None => return None,
            }
        } else if rf.tag == 4 {
            let base = match m.user.take() {
                Some(x) => x,
                None => User::default(),
            };
            match raw_message(buf, rf, f, d, base) {
                Some(v) => m.user = Some(v),
                None => return None,
            }
        }
        Some(m)
    }
}

// ---------------------------------------------------------------------------
// Message
// ---------------------------------------------------------------------------

/// One routed message of a push: its method name and encoded payload.
#[derive(Clone, Debug, PartialEq, Eq)]
pub struct Message {
    pub method: String,
    pub payload: Vec<u8>,
    pub msg_id: i64,
    pub msg_type: i32,
    pub offset: i64,
}

pub struct MessageV {
    pub method: Seq<char>,
    pub payload: Seq<u8>,
    pub msg_id: i64,
    pub msg_type: i32,
    pub offset: i64,
}

impl View for Message {
    type V = MessageV;

    open spec fn view(&self) -> MessageV {
        MessageV {
            method: self.method@,
            payload: self.payload@,
            msg_id: self.msg_id,
            msg_type: self.msg_type,
            offset: self.offset,
        }
    }
}

pub open spec fn message_default() -> MessageV {
    MessageV {
        method: Seq::empty(),
        payload: Seq::empty(),
        msg_id: 0,
        msg_type: 0,
        offset: 0,
    }
}

impl Default for Message {
    fn default() -> (r: Self)
        ensures
            r@ == message_default(),
    {
        let r = Message {
            method: String::new(),
            payload: Vec::new(),
            msg_id: 0,
            msg_type: 0,
            offset: 0,
        };
        proof {
            assert(r.payload@ =~= Seq::empty());
        }
        r
    }
}

/// Fields: `method` (1, string), `payload` (2, bytes), `msg_id` (3, int64), `msg_type` (4, int32), `offset` (5, int64).
pub open spec fn message_apply(m: MessageV, f: FieldV, d: nat) -> Option<MessageV> {
    if f.tag == 1 {
        match fv_string(f) {
            Some(v) => Some(MessageV { method: v, ..m }),
            None => None,
        }
    } else if f.tag == 2 {
        match fv_bytes(f) {
            Some(v) => Some(MessageV { payload: v, ..m }),
            None => None,
        }
    } else if f.tag == 3 {
        match fv_i64(f) {
            Some(v) => Some(MessageV { msg_id: v, ..m }),
            None => None,
        }
    } else if f.tag == 4 {
        match fv_i32(f) {
            Some(v) => Some(MessageV { msg_type: v, ..m }),
            None => None,
        }
    } else if f.tag == 5 {
        match fv_i64(f) {
            Some(v) => Some(MessageV { offset: v, ..m }),
            None => None,
        }
    } else {
        Some(m)
    }
}

impl WireMessage for Message {
    open spec fn step(d: nat) -> spec_fn(MessageV, FieldV) -> Option<MessageV> {
        |m: MessageV, f: FieldV| message_apply(m, f, d)
    }

    open spec fn map_tag() -> u32 {
        0
    }

    fn map_tag_exec() -> (t: u32) {
        0
    }

    fn merge_field(self, buf: &[u8], rf: RawField, f: Ghost<FieldV>, d: u32) -> (r: Option<Self>) {
        let mut m = self;
        if rf.tag == 1 {
            match raw_string(buf, rf, f) {
                Some(v) => m.method = v,
                None => return None,
            }
        } else if rf.tag == 2 {
            match raw_bytes(buf, rf, f) {
                Some(v) => m.payload = v,
                None => return None,
            }
        } else if rf.tag == 3 {
            match raw_i64(rf, f) {
                Some(v) => m.msg_id = v,
                None => return None,
            }
        } else if rf.tag == 4 {
            match raw_i32(rf, f) {
                Some(v) => m.msg_type = v,
                None => return None,
            }
        } else if rf.tag == 5 {
            match raw_i64(rf, f) {
                Some(v) => m.offset = v,
                None => return None,
            }
        }
        Some(m)
    }
}

// ---------------------------------------------------------------------------
// Response
// ---------------------------------------------------------------------------

/// The message list a push frame carries.
#[derive(Clone, Debug, PartialEq, Eq)]
pub struct Response {
    pub messages: Vec<Message>,
    pub cursor: String,
    pub fetch_interval: u64,
    pub now: u64,
    pub internal_ext: String,
    pub heartbeat_duration: u64,
    pub need_ack: bool,
}

pub struct ResponseV {
    pub messages: Seq<MessageV>,
    pub cursor: Seq<char>,
    pub fetch_interval: u64,
    pub now: u64,
    pub internal_ext: Seq<char>,
    pub heartbeat_duration: u64,
    pub need_ack: bool,
}

impl View for Response {
    type V = ResponseV;

    open spec fn view(&self) -> ResponseV {
        ResponseV {
            messages: self.messages@.map_values(|x: Message| x@),
            cursor: self.cursor@,
            fetch_interval: self.fetch_interval,
            now: self.now,
            internal_ext: self.internal_ext@,
            heartbeat_duration: self.heartbeat_duration,
            need_ack: self.need_ack,
        }
    }
}

pub open spec fn response_default() -> ResponseV {
    ResponseV {
        messages: Seq::empty(),
        cursor: Seq::empty(),
        fetch_interval: 0,
        now: 0,
        internal_ext: Seq::empty(),
        heartbeat_duration: 0,
        need_ack: false,
    }
}

impl Default for Response {
    fn default() -> (r: Self)
        ensures
            r@ == response_default(),
    {
        let r = Response {
            messages: Vec::new(),
            cursor: String::new(),
            fetch_interval: 0,
            now: 0,
            internal_ext: String::new(),
            heartbeat_duration: 0,
            need_ack: false,
        };
        proof {
            assert(r.messages@.map_values(|x: Message| x@) =~= Seq::empty());
        }
        r
    }
}

/// Fields: `messages` (1, repeated Message), `cursor` (2, string), `fetch_interval` (3, uint64), `now` (4, uint64), `internal_ext` (5, string), `heartbeat_duration` (8, uint64), `need_ack` (9, bool).
pub open spec fn response_apply(m: ResponseV, f: FieldV, d: nat) -> Option<ResponseV> {
    if f.tag == 1 {
        match fv_message::<Message>(f, d, message_default()) {
            Some(v) => Some(ResponseV { messages: m.messages.push(v), ..m }),
            None => None,
        }
    } else if f.tag == 2 {
        match fv_string(f) {
            Some(v) => Some(ResponseV { cursor: v, ..m }),
            None => None,
        }
    } else if f.tag == 3 {
        match fv_u64(f) {
            Some(v) => Some(ResponseV { fetch_interval: v, ..m }),
            None => None,
        }
    } else if f.tag == 4 {
        match fv_u64(f) {
            Some(v) => Some(ResponseV { now: v, ..m }),
            None => None,
        }
    } else if f.tag == 5 {
        match fv_string(f) {
            Some(v) => Some(ResponseV { internal_ext: v, ..m }),
            None => None,
        }
    } else if f.tag == 8 {
        match fv_u64(f) {
            Some(v) => Some(ResponseV { heartbeat_duration: v, ..m }),
            None => None,
        }
    } else if f.tag == 9 {
        match fv_bool(f) {
            Some(v) => Some(ResponseV { need_ack: v, ..m }),
            None => None,
        }
    } else {
        Some(m)
    }
}

impl WireMessage for Response {
    open spec fn step(d: nat) -> spec_fn(ResponseV, FieldV) -> Option<ResponseV> {
        |m: ResponseV, f: FieldV| response_apply(m, f, d)
    }

    open spec fn map_tag() -> u32 {
        0
    }

    fn map_tag_exec() -> (t: u32) {
        0
    }

    fn merge_field(self, buf: &[u8], rf: RawField, f: Ghost<FieldV>, d: u32) -> (r: Option<Self>) {
        let mut m = self;
        if rf.tag == 1 {
            match raw_message(buf, rf, f, d, Message::default()) {
                Some(v) => {
                    let ghost before = m.messages@;
                    m.messages.push(v);
                    assert(m.messages@.map_values(|x: Message| x@) =~= before.map_values(|x: Message| x@).push(v@));
                },
                None => return None,
            }
        } else if rf.tag == 2 {
            match raw_string(buf, rf, f) {
                Some(v) => m.cursor = v,
                None => return None,
            }
        } else if rf.tag == 3 {
            match raw_u64(rf, f) {
                Some(v) => m.fetch_interval = v,
                None => return None,
            }
        } else if rf.tag == 4 {
            match raw_u64(rf, f) {
                Some(v) => m.now = v,
                None => return None,
            }
        } else if rf.tag == 5 {
            match raw_string(buf, rf, f) {
                Some(v) => m.internal_ext = v,
                None => return None,
            }
        } else if rf.tag == 8 {
            match raw_u64(rf, f) {
                Some(v) => m.heartbeat_duration = v,
                None => return None,
            }
        } else if rf.tag == 9 {
            match raw_bool(rf, f) {
                Some(v) => m.need_ack = v,
                None => return None,
            }
        }
        Some(m)
    }
}

// ---------------------------------------------------------------------------
// HeaderEntry
// ---------------------------------------------------------------------------

/// One entry of a frame's header map.
#[derive(Clone, Debug, PartialEq, Eq)]
pub struct HeaderEntry {
    pub key: String,
    pub value: String,
}

pub struct HeaderEntryV {
    pub key: Seq<char>,
    pub value: Seq<char>,
}

impl View for HeaderEntry {
    type V = HeaderEntryV;

    open spec fn view(&self) -> HeaderEntryV {
        HeaderEntryV {
            key: self.key@,
            value: self.value@,
        }
    }
}

pub open spec fn header_entry_default() -> HeaderEntryV {
    HeaderEntryV {
        key: Seq::empty(),
        value: Seq::empty(),
    }
}

impl Default for HeaderEntry {
    fn default() -> (r: Self)
        ensures
            r@ == header_entry_default(),
    {
        let r = HeaderEntry {
            key: String::new(),
            value: String::new(),
        };
        r
    }
}

/// Fields: `key` (1, string), `value` (2, string).
pub open spec fn header_entry_apply(m: HeaderEntryV, f: FieldV, d: nat) -> Option<HeaderEntryV> {
    if f.tag == 1 {
        match fv_string(f) {
            Some(v) => Some(HeaderEntryV { key: v, ..m }),
            None => None,
        }
    } else if f.tag == 2 {
        match fv_string(f) {
            Some(v) => Some(HeaderEntryV { value: v, ..m }),
            None => None,
        }
    } else {
        Some(m)
    }
}

impl WireMessage for HeaderEntry {
    open spec fn step(d: nat) -> spec_fn(HeaderEntryV, FieldV) -> Option<HeaderEntryV> {
        |m: HeaderEntryV, f: FieldV| header_entry_apply(m, f, d)
    }

    open spec fn map_tag() -> u32 {
        0
    }

    fn map_tag_exec() -> (t: u32) {
        0
    }

    fn merge_field(self, buf: &[u8], rf: RawField, f: Ghost<FieldV>, d: u32) -> (r: Option<Self>) {
        let mut m = self;
        if rf.tag == 1 {
            match raw_string(buf, rf, f) {
                Some(v) => m.key = v,
                None => return None,
            }
        } else if rf.tag == 2 {
            match raw_string(buf, rf, f) {
                Some(v) => m.value = v,
                None => return None,
            }
        }
        Some(m)
    }
}

// ---------------------------------------------------------------------------
// Header maps
// ---------------------------------------------------------------------------

/// `hs` with the value of key `k` set to `v`: the entry with that key is
/// replaced in place, or a new entry goes at the end.
pub open spec fn headers_put(hs: Seq<(Seq<char>, Seq<char>)>, k: Seq<char>, v: Seq<char>) -> Seq<
    (Seq<char>, Seq<char>),
>
    decreases hs.len(),
{
    if hs.len() == 0 {
        seq![(k, v)]
    } else if hs[0].0 == k {
        seq![(k, v)] + hs.drop_first()
    } else {
        seq![hs[0]] + headers_put(hs.drop_first(), k, v)
    }
}

/// The value of key `k` in `hs`.
pub open spec fn headers_get(hs: Seq<(Seq<char>, Seq<char>)>, k: Seq<char>) -> Option<Seq<char>>
    decreases hs.len(),
{
    if hs.len() == 0 {
        None
    } else if hs[0].0 == k {
        Some(hs[0].1)
    } else {
        headers_get(hs.drop_first(), k)
    }
}

pub open spec fn header_view(hs: Seq<(String, String)>) -> Seq<(Seq<char>, Seq<char>)> {
    hs.map_values(|e: (String, String)| (e.0@, e.1@))
}

proof fn lemma_headers_put_at(hs: Seq<(Seq<char>, Seq<char>)>, k: Seq<char>, v: Seq<char>, j: int)
    requires
        0 <= j < hs.len(),
        hs[j].0 == k,
        forall|t: int| 0 <= t < j ==> hs[t].0 != k,
    ensures
        headers_put(hs, k, v) == hs.update(j, (k, v)),
    decreases j,
{
    if j == 0 {
        assert(seq![(k, v)] + hs.drop_first() =~= hs.update(0, (k, v)));
    } else {
        lemma_headers_put_at(hs.drop_first(), k, v, j - 1);
        assert(seq![hs[0]] + hs.drop_first().update(j - 1, (k, v)) =~= hs.update(j, (k, v)));
    }
}

proof fn lemma_headers_put_absent(hs: Seq<(Seq<char>, Seq<char>)>, k: Seq<char>, v: Seq<char>)
    requires
        forall|t: int| 0 <= t < hs.len() ==> hs[t].0 != k,
    ensures
        headers_put(hs, k, v) == hs.push((k, v)),
    decreases hs.len(),
{
    if hs.len() == 0 {
        assert(seq![(k, v)] =~= hs.push((k, v)));
    } else {
        lemma_headers_put_absent(hs.drop_first(), k, v);
        assert(seq![hs[0]] + hs.drop_first().push((k, v)) =~= hs.push((k, v)));
    }
}

/// No key occurs twice.
pub open spec fn header_keys_distinct(hs: Seq<(Seq<char>, Seq<char>)>) -> bool {
    forall|i: int, j: int| 0 <= i < j < hs.len() ==> hs[i].0 != hs[j].0
}

/// The map that `pairs` make, read in order: a later pair with a key
/// already seen replaces its value in place.
pub open spec fn headers_from_pairs(pairs: Seq<(Seq<char>, Seq<char>)>) -> Seq<(Seq<char>, Seq<char>)>
    decreases pairs.len(),
{
    if pairs.len() == 0 {
        Seq::empty()
    } else {
        headers_put(headers_from_pairs(pairs.drop_last()), pairs.last().0, pairs.last().1)
    }
}

proof fn lemma_headers_put_keys(hs: Seq<(Seq<char>, Seq<char>)>, k: Seq<char>, v: Seq<char>)
    requires
        header_keys_distinct(hs),
    ensures
        header_keys_distinct(headers_put(hs, k, v)),
        (exists|j: int| 0 <= j < hs.len() && hs[j].0 == k) ==> headers_put(hs, k, v).len() == hs.len(),
        !(exists|j: int| 0 <= j < hs.len() && hs[j].0 == k) ==> headers_put(hs, k, v) == hs.push((k, v)),
{
    if exists|j: int| 0 <= j < hs.len() && hs[j].0 == k {
        let j = choose|j: int| 0 <= j < hs.len() && hs[j].0 == k;
        assert forall|t: int| 0 <= t < j implies hs[t].0 != k by {}
        lemma_headers_put_at(hs, k, v, j);
        let h2 = hs.update(j, (k, v));
        assert forall|a: int, b: int| 0 <= a < b < h2.len() implies h2[a].0 != h2[b].0 by {
            assert(h2[a].0 == hs[a].0 && h2[b].0 == hs[b].0);
        }
    } else {
        lemma_headers_put_absent(hs, k, v);
        let h2 = hs.push((k, v));
        assert forall|a: int, b: int| 0 <= a < b < h2.len() implies h2[a].0 != h2[b].0 by {
            if b == hs.len() {
                assert(h2[a] == hs[a]);
            } else {
                assert(h2[a] == hs[a] && h2[b] == hs[b]);
            }
        }
    }
}

/// A map read from pairs has distinct keys; pairs whose keys are already
/// distinct read as themselves.
pub proof fn lemma_headers_from_pairs(pairs: Seq<(Seq<char>, Seq<char>)>)
    ensures
        header_keys_distinct(headers_from_pairs(pairs)),
        header_keys_distinct(pairs) ==> headers_from_pairs(pairs) == pairs,
    decreases pairs.len(),
{
    if pairs.len() > 0 {
        let pre = pairs.drop_last();
        lemma_headers_from_pairs(pre);
        let e = pairs.last();
        lemma_headers_put_keys(headers_from_pairs(pre), e.0, e.1);
        if header_keys_distinct(pairs) {
            assert(header_keys_distinct(pre)) by {
                assert forall|a: int, b: int| 0 <= a < b < pre.len() implies pre[a].0 != pre[b].0 by {
                    assert(pre[a] == pairs[a] && pre[b] == pairs[b]);
                }
            }
            assert forall|j: int| 0 <= j < pre.len() implies pre[j].0 != e.0 by {
                assert(pre[j] == pairs[j]);
            }
            assert(pre.push(e) =~= pairs);
        }
    }
}

/// The map that `pairs` make, read in order (see `headers_from_pairs`).
pub fn collect_headers(pairs: Vec<(String, String)>) -> (r: Vec<(String, String)>)
    ensures
        header_view(r@) == headers_from_pairs(header_view(pairs@)),
        header_keys_distinct(header_view(r@)),
        header_keys_distinct(header_view(pairs@)) ==> header_view(r@) == header_view(pairs@),
{
    let ghost pv = header_view(pairs@);
    let mut out: Vec<(String, String)> = Vec::new();
    let mut i: usize = 0;
    let n = pairs.len();
    proof {
        assert(pv.take(0) =~= Seq::<(Seq<char>, Seq<char>)>::empty());
    }
    while i < n
        invariant
            n == pv.len(),
            i <= n,
            pairs@.len() == n,
            header_view(pairs@) == pv,
            header_view(out@) == headers_from_pairs(pv.take(i as int)),
        decreases n - i,
    {
        let k = pairs[i].0.clone();
        let v = pairs[i].1.clone();
        proof {
            assert(pv.take(i + 1).drop_last() =~= pv.take(i as int));
            assert(pv[i as int] == (k@, v@));
        }
        headers_insert(&mut out, k, v);
        i = i + 1;
    }
    proof {
        assert(pv.take(n as int) =~= pv);
        lemma_headers_from_pairs(pv);
    }
    out
}

/// Sets the value of key `k`, replacing an entry with that key in place or
/// appending a new one.
pub(crate) fn headers_insert(hs: &mut Vec<(String, String)>, k: String, v: String)
    ensures
        header_view(final(hs)@) == headers_put(header_view(old(hs)@), k@, v@),
{
    let ghost hv = header_view(hs@);
    let mut j: usize = 0;
    while j < hs.len()
        invariant
            j <= hs@.len(),
            hv == header_view(hs@),
            hv == header_view(old(hs)@),
            forall|t: int| 0 <= t < j ==> hv[t].0 != k@,
        decreases hs@.len() - j,
    {
        if hs[j].0 == k {
            proof {
                lemma_headers_put_at(hv, k@, v@, j as int);
            }
            hs.set(j, (k, v));
            assert(header_view(hs@) =~= hv.update(j as int, (k@, v@)));
            return ;
        }
        j = j + 1;
    }
    proof {
        lemma_headers_put_absent(hv, k@, v@);
    }
    hs.push((k, v));
    assert(header_view(hs@) =~= hv.push((k@, v@)));
}

// ---------------------------------------------------------------------------
// WssResponse
// ---------------------------------------------------------------------------

/// The outer frame of the push channel.
#[derive(Clone, Debug, PartialEq, Eq)]
pub struct WssResponse {
    pub seqid: u64,
    pub logid: u64,
    pub service: u64,
    pub method: u64,
    pub headers: Vec<(String, String)>,
    pub payload_encoding: String,
    pub payload_type: String,
    pub payload: Vec<u8>,
}

pub struct WssResponseV {
    pub seqid: u64,
    pub logid: u64,
    pub service: u64,
    pub method: u64,
    pub headers: Seq<(Seq<char>, Seq<char>)>,
    pub payload_encoding: Seq<char>,
    pub payload_type: Seq<char>,
    pub payload: Seq<u8>,
}

impl View for WssResponse {
    type V = WssResponseV;

    open spec fn view(&self) -> WssResponseV {
        WssResponseV {
            seqid: self.seqid,
            logid: self.logid,
            service: self.service,
            method: self.method,
            headers: header_view(self.headers@),
            payload_encoding: self.payload_encoding@,
            payload_type: self.payload_type@,
            payload: self.payload@,
        }
    }
}

pub open spec fn wss_response_default() -> WssResponseV {
    WssResponseV {
        seqid: 0,
        logid: 0,
        service: 0,
        method: 0,
        headers: Seq::empty(),
        payload_encoding: Seq::empty(),
        payload_type: Seq::empty(),
        payload: Seq::empty(),
    }
}

impl Default for WssResponse {
    fn default() -> (r: Self)
        ensures
            r@ == wss_response_default(),
    {
        let r = WssResponse {
            seqid: 0,
            logid: 0,
            service: 0,
            method: 0,
            headers: Vec::new(),
            payload_encoding: String::new(),
            payload_type: String::new(),
            payload: Vec::new(),
        };
        proof {
            assert(header_view(r.headers@) =~= Seq::empty());
            assert(r.payload@ =~= Seq::empty());
        }
        r
    }
}

/// Fields: `seqid` (1, uint64), `logid` (2, uint64), `service` (3, uint64), `method` (4, uint64), `headers` (5, map<string, string>), `payload_encoding` (6, string), `payload_type` (7, string), `payload` (8, bytes).
pub open spec fn wss_response_apply(m: WssResponseV, f: FieldV, d: nat) -> Option<WssResponseV> {
    if f.tag == 1 {
        match fv_u64(f) {
            Some(v) => Some(WssResponseV { seqid: v, ..m }),
            None => None,
        }
    } else if f.tag == 2 {
        match fv_u64(f) {
            Some(v) => Some(WssResponseV { logid: v, ..m }),
            None => None,
        }
    } else if f.tag == 3 {
        match fv_u64(f) {
            Some(v) => Some(WssResponseV { service: v, ..m }),
            None => None,
        }
    } else if f.tag == 4 {
        match fv_u64(f) {
            Some(v) => Some(WssResponseV { method: v, ..m }),
            None => None,
        }
    } else if f.tag == 5 {
        if d > 0 {
            match decode_with(f.data, (d - 1) as nat, 0, header_entry_default(), HeaderEntry::step((d - 1) as nat)) {
                Some(e) => Some(WssResponseV { headers: headers_put(m.headers, e.key, e.value), ..m }),
                None => None,
            }
        } else {
            None
        }
    } else if f.tag == 6 {
        match fv_string(f) {
            Some(v) => Some(WssResponseV { payload_encoding: v, ..m }),
            None => None,
        }
    } else if f.tag == 7 {
        match fv_string(f) {
            Some(v) => Some(WssResponseV { payload_type: v, ..m }),
            None => None,
        }
    } else if f.tag == 8 {
        match fv_bytes(f) {
            Some(v) => Some(WssResponseV { payload: v, ..m }),
            None => None,
        }
    } else {
        Some(m)
    }
}

impl WireMessage for WssResponse {
    open spec fn step(d: nat) -> spec_fn(WssResponseV, FieldV) -> Option<WssResponseV> {
        |m: WssResponseV, f: FieldV| wss_response_apply(m, f, d)
    }

    open spec fn map_tag() -> u32 {
        5
    }

    fn map_tag_exec() -> (t: u32) {
        5
    }

    fn merge_field(self, buf: &[u8], rf: RawField, f: Ghost<FieldV>, d: u32) -> (r: Option<Self>) {
        let mut m = self;
        if rf.tag == 1 {
            match raw_u64(rf, f) {
                Some(v) => m.seqid = v,
                None => return None,
            }
        } else if rf.tag == 2 {
            match raw_u64(rf, f) {
                Some(v) => m.logid = v,
                None => return None,
            }
        } else if rf.tag == 3 {
            match raw_u64(rf, f) {
                Some(v) => m.service = v,
                None => return None,
            }
        } else if rf.tag == 4 {
            match raw_u64(rf, f) {
                Some(v) => m.method = v,
                None => return None,
            }
        } else if rf.tag == 5 {
            if d == 0 {
                return None;
            }
            match decode_into(&buf[rf.start..rf.end], d - 1, HeaderEntry::default()) {
                Some(e) => headers_insert(&mut m.headers, e.key, e.value),
                None => return None,
            }
        } else if rf.tag == 6 {
            match raw_string(buf, rf, f) {
                Some(v) => m.payload_encoding = v,
                None => return None,
            }
        } else if rf.tag == 7 {
            match raw_string(buf, rf, f) {
                Some(v) => m.payload_type = v,
                None => return None,
            }
        } else if rf.tag == 8 {
            match raw_bytes(buf, rf, f) {
                Some(v) => m.payload = v,
                None => return None,
            }
        }
        Some(m)
    }
}

/// A top-level decode of `s` into `base`, with the full nesting budget.
pub open spec fn spec_decode<M: WireMessage>(s: Seq<u8>, base: M::V) -> Option<M::V> {
    decode_with(s, RECURSION_LIMIT as nat, M::map_tag(), base, M::step(RECURSION_LIMIT as nat))
}

impl WssResponse {
    /// The value of header `key`.
    pub fn header(&self, key: &str) -> (r: Option<String>)
        ensures
            match headers_get(self@.headers, key@) {
                Some(v) => r matches Some(s) && s@ == v,
                None => r is None,
            },
    {
        let k = key.to_owned();
        let ghost hv = header_view(self.headers@);
        let mut j: usize = 0;
        assert(hv.skip(0) =~= hv);
        while j < self.headers.len()
            invariant
                j <= self.headers@.len(),
                hv == header_view(self.headers@),
                k@ == key@,
                headers_get(hv, key@) == headers_get(hv.skip(j as int), key@),
            decreases self.headers@.len() - j,
        {
            assert(hv.skip(j as int).drop_first() =~= hv.skip(j + 1));
            if self.headers[j].0 == k {
                return Some(self.headers[j].1.clone());
            }
            j = j + 1;
        }
        assert(hv.skip(j as int) =~= Seq::<(Seq<char>, Seq<char>)>::empty());
        None
    }
}

} // verus!
