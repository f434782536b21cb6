//! Routing of the messages of a response to typed events by method name.
//! A message whose payload does not decode is skipped, as is one with an
//! unknown method; the others keep their order.

use vstd::prelude::*;

use crate::error::{CoreError, CoreResult};
use crate::event::{BarrageEvent, BarrageEventV};
use crate::message_method::{CHAT, CONTROL, FANSCLUB, GIFT, LIKE, MEMBER, ROOM_USER_SEQ, SOCIAL};
use crate::proto::{
    chat_default, control_default, decode_into, fansclub_default, gift_default, like_default,
    member_default, room_user_seq_default, social_default, spec_decode, ChatMessage,
    ControlMessage, FansclubMessage, GiftMessage, LikeMessage, MemberMessage, Message, MessageV,
    Response, RoomUserSeqMessage, SocialMessage, WssResponse,
};
use crate::wire::RECURSION_LIMIT;

verus! {

/// The event that message `m` becomes: `None` for an unknown method or a
/// payload that does not decode as the method's message type.
pub open spec fn dispatch_one(m: MessageV) -> Option<BarrageEventV> {
    if m.method == CHAT@ {
        match spec_decode::<ChatMessage>(m.payload, chat_default()) {
            Some(v) => Some(BarrageEventV::ChatMessage(v)),
            None => None,
        }
    } else if m.method == GIFT@ {
        match spec_decode::<GiftMessage>(m.payload, gift_default()) {
            Some(v) => Some(BarrageEventV::GiftMessage(v)),
            None => None,
        }
    } else if m.method == LIKE@ {
        match spec_decode::<LikeMessage>(m.payload, like_default()) {
            Some(v) => Some(BarrageEventV::LikeMessage(v)),
            None => None,
        }
    } else if m.method == MEMBER@ {
        match spec_decode::<MemberMessage>(m.payload, member_default()) {
            Some(v) => Some(BarrageEventV::MemberMessage(v)),
            None => None,
        }
    } else if m.method == SOCIAL@ {
        match spec_decode::<SocialMessage>(m.payload, social_default()) {
            Some(v) => Some(BarrageEventV::SocialMessage(v)),
            None => None,
        }
    } else if m.method == CONTROL@ {
        match spec_decode::<ControlMessage>(m.payload, control_default()) {
            Some(v) => Some(BarrageEventV::ControlMessage(v)),
            None => None,
        }
    } else if m.method == ROOM_USER_SEQ@ {
        match spec_decode::<RoomUserSeqMessage>(m.payload, room_user_seq_default()) {
            Some(v) => Some(BarrageEventV::RoomUserSeqMessage(v)),
            None => None,
        }
    } else if m.method == FANSCLUB@ {
        match spec_decode::<FansclubMessage>(m.payload, fansclub_default()) {
            Some(v) => Some(BarrageEventV::FansclubMessage(v)),
            None => None,
        }
    } else {
        None
    }
}

/// Whether the dispatcher knows the method `m`.
pub open spec fn known_method(m: Seq<char>) -> bool {
    m == CHAT@ || m == GIFT@ || m == LIKE@ || m == MEMBER@ || m == SOCIAL@ || m == CONTROL@ || m
        == ROOM_USER_SEQ@ || m == FANSCLUB@
}

/// The events of a message list, in order, skipping messages that yield none.
pub open spec fn dispatch_all(ms: Seq<MessageV>) -> Seq<BarrageEventV>
    decreases ms.len(),
{
    if ms.len() == 0 {
        Seq::empty()
    } else {
        let rest = dispatch_all(ms.drop_last());
        match dispatch_one(ms.last()) {
            Some(e) => rest.push(e),
            None => rest,
        }
    }
}

pub open spec fn events_view(v: Seq<BarrageEvent>) -> Seq<BarrageEventV> {
    v.map_values(|e: BarrageEvent| e@)
}

/// Router of response messages to events.
#[derive(Debug, Clone, Copy, PartialEq, Eq)]
pub struct Dispatcher;

impl Dispatcher {
    pub fn new() -> (r: Self) {
        Dispatcher
    }

    /// The events of all messages of `response`, in order.  Never fails: a
    /// message that yields no event is skipped.
    pub fn dispatch(&self, wss_response: &WssResponse, response: &Response) -> (r: CoreResult<
        Vec<BarrageEvent>,
    >)
        ensures
            r matches Ok(v) && events_view(v@) == dispatch_all(response@.messages),
    {
        self.dispatch_response(response)
    }

    /// The events of all messages of `response`, in order.
    pub fn dispatch_response(&self, response: &Response) -> (r: CoreResult<Vec<BarrageEvent>>)
        ensures
            r matches Ok(v) && events_view(v@) == dispatch_all(response@.messages),
    {
        let mut events: Vec<BarrageEvent> = Vec::new();
        let mut i: usize = 0;
        while i < response.messages.len()
            invariant
                i <= response.messages@.len(),
                response@.messages == response.messages@.map_values(|x: Message| x@),
                events_view(events@) == dispatch_all(response@.messages.take(i as int)),
            decreases response.messages@.len() - i,
        {
            let msg = &response.messages[i];
            let ghost ms = response@.messages;
            assert(ms.take(i + 1).drop_last() =~= ms.take(i as int));
            assert(ms.take(i + 1).last() == msg@);
            match self.dispatch_single(msg) {
                Ok(Some(event)) => {
                    events.push(event);
                    assert(events_view(events@) =~= events_view(events@.drop_last()).push(
                        event@,
                    ));
                },
                _ => {},
            }
            i = i + 1;
        }
        assert(response@.messages.take(i as int) =~= response@.messages);
        Ok(events)
    }

    /// The event of one message: `Ok(None)` for an unknown method, an error
    /// naming the method for a payload that does not decode.
    fn dispatch_single(&self, msg: &Message) -> (r: CoreResult<Option<BarrageEvent>>)
        ensures
            match dispatch_one(msg@) {
                Some(e) => r matches Ok(Some(x)) && x@ == e,
                None => if known_method(msg@.method) {
                    r matches Err(CoreError::ProtobufDecode(m)) && m@ == msg@.method
                } else {
                    r matches Ok(None)
                },
            },
    {
        let p = msg.payload.as_slice();
        if msg.method == CHAT.to_owned() {
            match decode_into(p, RECURSION_LIMIT, ChatMessage::default()) {
                Some(v) => Ok(Some(BarrageEvent::ChatMessage(v))),
                None => Err(CoreError::ProtobufDecode(CHAT.to_owned())),
            }
        } else if msg.method == GIFT.to_owned() {
            match decode_into(p, RECURSION_LIMIT, GiftMessage::default()) {
                Some(v) => Ok(Some(BarrageEvent::GiftMessage(v))),
                None => Err(CoreError::ProtobufDecode(GIFT.to_owned())),
            }
        } else if msg.method == LIKE.to_owned() {
            match decode_into(p, RECURSION_LIMIT, LikeMessage::default()) {
                Some(v) => Ok(Some(BarrageEvent::LikeMessage(v))),
                None => Err(CoreError::ProtobufDecode(LIKE.to_owned())),
            }
        } else if msg.method == MEMBER.to_owned() {
            match decode_into(p, RECURSION_LIMIT, MemberMessage::default()) {
                Some(v) => Ok(Some(BarrageEvent::MemberMessage(v))),
                None => Err(CoreError::ProtobufDecode(MEMBER.to_owned())),
            }
        } else if msg.method == SOCIAL.to_owned() {
            match decode_into(p, RECURSION_LIMIT, SocialMessage::default()) {
                Some(v) => Ok(Some(BarrageEvent::SocialMessage(v))),
                None => Err(CoreError::ProtobufDecode(SOCIAL.to_owned())),
            }
        } else if msg.method == CONTROL.to_owned() {
            match decode_into(p, RECURSION_LIMIT, ControlMessage::default()) {
                Some(v) => Ok(Some(BarrageEvent::ControlMessage(v))),
                None => Err(CoreError::ProtobufDecode(CONTROL.to_owned())),
            }
        } else if msg.method == ROOM_USER_SEQ.to_owned() {
            match decode_into(p, RECURSION_LIMIT, RoomUserSeqMessage::default()) {
                Some(v) => Ok(Some(BarrageEvent::RoomUserSeqMessage(v))),
                None => Err(CoreError::ProtobufDecode(ROOM_USER_SEQ.to_owned())),
            }
        } else if msg.method == FANSCLUB.to_owned() {
            match decode_into(p, RECURSION_LIMIT, FansclubMessage::default()) {
                Some(v) => Ok(Some(BarrageEvent::FansclubMessage(v))),
                None => Err(CoreError::ProtobufDecode(FANSCLUB.to_owned())),
            }
        } else {
            Ok(None)
        }
    }
}

} // verus!
