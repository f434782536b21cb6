//! The events that decoded push messages become.

use vstd::prelude::*;

use crate::message_method::{CHAT, CONTROL, FANSCLUB, GIFT, LIKE, MEMBER, ROOM_USER_SEQ, SOCIAL};
use crate::proto::{
    ChatMessage, ChatMessageV, CommonV, ControlMessage, ControlMessageV, FansclubMessage,
    FansclubMessageV, GiftMessage, GiftMessageV, LikeMessage, LikeMessageV, MemberMessage,
    MemberMessageV, RoomUserSeqMessage, RoomUserSeqMessageV, SocialMessage, SocialMessageV,
    Common,
};

verus! {

/// One decoded push message, by kind.  Chat, gift and like events are the
/// ones pushed downstream by default.
#[derive(Debug, Clone, PartialEq, Eq)]
pub enum BarrageEvent {
    ChatMessage(ChatMessage),
    GiftMessage(GiftMessage),
    LikeMessage(LikeMessage),
    MemberMessage(MemberMessage),
    SocialMessage(SocialMessage),
    ControlMessage(ControlMessage),
    RoomUserSeqMessage(RoomUserSeqMessage),
    FansclubMessage(FansclubMessage),
}

pub enum BarrageEventV {
    ChatMessage(ChatMessageV),
    GiftMessage(GiftMessageV),
    LikeMessage(LikeMessageV),
    MemberMessage(MemberMessageV),
    SocialMessage(SocialMessageV),
    ControlMessage(ControlMessageV),
    RoomUserSeqMessage(RoomUserSeqMessageV),
    FansclubMessage(FansclubMessageV),
}

impl View for BarrageEvent {
    type V = BarrageEventV;

    open spec fn view(&self) -> BarrageEventV {
        match self {
            BarrageEvent::ChatMessage(m) => BarrageEventV::ChatMessage(m@),
            BarrageEvent::GiftMessage(m) => BarrageEventV::GiftMessage(m@),
            BarrageEvent::LikeMessage(m) => BarrageEventV::LikeMessage(m@),
            BarrageEvent::MemberMessage(m) => BarrageEventV::MemberMessage(m@),
            BarrageEvent::SocialMessage(m) => BarrageEventV::SocialMessage(m@),
            BarrageEvent::ControlMessage(m) => BarrageEventV::ControlMessage(m@),
            BarrageEvent::RoomUserSeqMessage(m) => BarrageEventV::RoomUserSeqMessage(m@),
            BarrageEvent::FansclubMessage(m) => BarrageEventV::FansclubMessage(m@),
        }
    }
}

/// The method name of the message an event came from.
pub open spec fn event_method(e: BarrageEventV) -> Seq<char> {
    match e {
        BarrageEventV::ChatMessage(_) => CHAT@,
        BarrageEventV::GiftMessage(_) => GIFT@,
        BarrageEventV::LikeMessage(_) => LIKE@,
        BarrageEventV::MemberMessage(_) => MEMBER@,
        BarrageEventV::SocialMessage(_) => SOCIAL@,
        BarrageEventV::ControlMessage(_) => CONTROL@,
        BarrageEventV::RoomUserSeqMessage(_) => ROOM_USER_SEQ@,
        BarrageEventV::FansclubMessage(_) => FANSCLUB@,
    }
}

/// The common header of an event's message, where it has one.
pub open spec fn event_common(e: BarrageEventV) -> Option<CommonV> {
    match e {
        BarrageEventV::ChatMessage(m) => m.common,
        BarrageEventV::GiftMessage(m) => m.common,
        BarrageEventV::LikeMessage(m) => m.common,
        BarrageEventV::MemberMessage(m) => m.common,
        BarrageEventV::SocialMessage(m) => m.common,
        BarrageEventV::ControlMessage(m) => m.common,
        BarrageEventV::RoomUserSeqMessage(m) => m.common,
        BarrageEventV::FansclubMessage(m) => m.common,
    }
}

/// The message id of an event (0 without a common header).
pub open spec fn event_msg_id(e: BarrageEventV) -> i64 {
    match event_common(e) {
        Some(c) => c.msg_id,
        None => 0,
    }
}

/// For every kind of event, the id that de-duplication goes by is the
/// `msg_id` of the message's own common header; it is 0 only when the
/// message has no header.
pub proof fn lemma_msg_id_is_header_id(e: BarrageEventV)
    ensures
        e matches BarrageEventV::ChatMessage(m) ==> (m.common matches Some(c) ==> event_msg_id(e)
            == c.msg_id),
        e matches BarrageEventV::ChatMessage(m) && m.common is None ==> event_msg_id(e) == 0,
        e matches BarrageEventV::GiftMessage(m) ==> (m.common matches Some(c) ==> event_msg_id(e)
            == c.msg_id),
        e matches BarrageEventV::GiftMessage(m) && m.common is None ==> event_msg_id(e) == 0,
        e matches BarrageEventV::LikeMessage(m) ==> (m.common matches Some(c) ==> event_msg_id(e)
            == c.msg_id),
        e matches BarrageEventV::LikeMessage(m) && m.common is None ==> event_msg_id(e) == 0,
        e matches BarrageEventV::MemberMessage(m) ==> (m.common matches Some(c) ==> event_msg_id(e)
            == c.msg_id),
        e matches BarrageEventV::MemberMessage(m) && m.common is None ==> event_msg_id(e) == 0,
        e matches BarrageEventV::SocialMessage(m) ==> (m.common matches Some(c) ==> event_msg_id(e)
            == c.msg_id),
        e matches BarrageEventV::SocialMessage(m) && m.common is None ==> event_msg_id(e) == 0,
        e matches BarrageEventV::ControlMessage(m) ==> (m.common matches Some(c) ==> event_msg_id(e)
            == c.msg_id),
        e matches BarrageEventV::ControlMessage(m) && m.common is None ==> event_msg_id(e) == 0,
        e matches BarrageEventV::RoomUserSeqMessage(m) ==> (m.common matches Some(c) ==> event_msg_id(e)
            == c.msg_id),
        e matches BarrageEventV::RoomUserSeqMessage(m) && m.common is None ==> event_msg_id(e) == 0,
        e matches BarrageEventV::FansclubMessage(m) ==> (m.common matches Some(c) ==> event_msg_id(e)
            == c.msg_id),
        e matches BarrageEventV::FansclubMessage(m) && m.common is None ==> event_msg_id(e) == 0,
{
}

/// The creation time of an event in milliseconds (0 without a common header).
pub open spec fn event_timestamp(e: BarrageEventV) -> i64 {
    match event_common(e) {
        Some(c) => c.create_time,
        None => 0,
    }
}

/// Chat, gift and like: the kinds pushed downstream by default.
pub open spec fn event_is_mvp(e: BarrageEventV) -> bool {
    ||| e is ChatMessage
    ||| e is GiftMessage
    ||| e is LikeMessage
}

impl BarrageEvent {
    fn common(&self) -> (r: &Option<Common>)
        ensures
            crate::proto::opt_view(*r) == event_common(self@),
    {
        match self {
            BarrageEvent::ChatMessage(m) => &m.common,
            BarrageEvent::GiftMessage(m) => &m.common,
            BarrageEvent::LikeMessage(m) => &m.common,
            BarrageEvent::MemberMessage(m) => &m.common,
            BarrageEvent::SocialMessage(m) => &m.common,
            BarrageEvent::ControlMessage(m) => &m.common,
            BarrageEvent::RoomUserSeqMessage(m) => &m.common,
            BarrageEvent::FansclubMessage(m) => &m.common,
        }
    }

    /// The method name of the message the event came from.
    pub fn method(&self) -> (r: &'static str)
        ensures
            r@ == event_method(self@),
    {
        match self {
            BarrageEvent::ChatMessage(_) => CHAT,
            BarrageEvent::GiftMessage(_) => GIFT,
            BarrageEvent::LikeMessage(_) => LIKE,
            BarrageEvent::MemberMessage(_) => MEMBER,
            BarrageEvent::SocialMessage(_) => SOCIAL,
            BarrageEvent::ControlMessage(_) => CONTROL,
            BarrageEvent::RoomUserSeqMessage(_) => ROOM_USER_SEQ,
            BarrageEvent::FansclubMessage(_) => FANSCLUB,
        }
    }

    /// The message id, used for de-duplication.
    pub fn msg_id(&self) -> (r: i64)
        ensures
            r == event_msg_id(self@),
    {
        match self.common() {
            Some(c) => c.msg_id,
            None => 0,
        }
    }

    /// The creation time in milliseconds.
    pub fn timestamp_ms(&self) -> (r: i64)
        ensures
            r == event_timestamp(self@),
    {
        match self.common() {
            Some(c) => c.create_time,
            None => 0,
        }
    }

    /// Whether the event is of a kind pushed downstream by default.
    pub fn is_mvp_push(&self) -> (r: bool)
        ensures
            r == event_is_mvp(self@),
    {
        match self {
            BarrageEvent::ChatMessage(_) => true,
            BarrageEvent::GiftMessage(_) => true,
            BarrageEvent::LikeMessage(_) => true,
            _ => false,
        }
    }
}

} // verus!
