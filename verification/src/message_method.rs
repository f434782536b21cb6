//! The method names that route push messages to their payload types.

use vstd::prelude::*;

verus! {

pub const CHAT: &'static str = "WebcastChatMessage";

pub const GIFT: &'static str = "WebcastGiftMessage";

pub const LIKE: &'static str = "WebcastLikeMessage";

pub const MEMBER: &'static str = "WebcastMemberMessage";

pub const SOCIAL: &'static str = "WebcastSocialMessage";

pub const CONTROL: &'static str = "WebcastControlMessage";

pub const ROOM_USER_SEQ: &'static str = "WebcastRoomUserSeqMessage";

pub const FANSCLUB: &'static str = "WebcastFansclubMessage";

/// The three kinds of event pushed downstream in the first release.
pub const MVP_PUSH: [&'static str; 3] = [CHAT, GIFT, LIKE];

} // verus!
