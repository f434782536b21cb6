//! Selection of the events to push downstream by method name.

use vstd::prelude::*;

use crate::event::{event_is_mvp, event_method, BarrageEvent, BarrageEventV};
use crate::message_method::{CHAT, CONTROL, FANSCLUB, GIFT, LIKE, MEMBER, ROOM_USER_SEQ, SOCIAL};

verus! {

/// The events of `es` whose method is in `allow`, in order.
pub open spec fn filter_events(es: Seq<BarrageEventV>, allow: Seq<Seq<char>>) -> Seq<BarrageEventV>
    decreases es.len(),
{
    if es.len() == 0 {
        Seq::empty()
    } else {
        let rest = filter_events(es.drop_last(), allow);
        if allow.contains(event_method(es.last())) {
            rest.push(es.last())
        } else {
            rest
        }
    }
}

/// A list of allowed method names.
#[derive(Debug, Clone, PartialEq, Eq)]
pub struct EventFilter {
    allow_methods: Vec<String>,
}

impl View for EventFilter {
    type V = Seq<Seq<char>>;

    closed spec fn view(&self) -> Seq<Seq<char>> {
        self.allow_methods@.map_values(|s: String| s@)
    }
}

impl EventFilter {
    /// Chat, gift and like.
    pub fn mvp_default() -> (r: Self)
        ensures
            r@ == seq![CHAT@, GIFT@, LIKE@],
    {
        let mut v: Vec<String> = Vec::new();
        v.push(CHAT.to_owned());
        v.push(GIFT.to_owned());
        v.push(LIKE.to_owned());
        let r = EventFilter { allow_methods: v };
        assert(r@ =~= seq![CHAT@, GIFT@, LIKE@]);
        r
    }

    /// Exactly the given method names.
    pub fn new(allow_methods: Vec<String>) -> (r: Self)
        ensures
            r@ == allow_methods@.map_values(|s: String| s@),
    {
        EventFilter { allow_methods }
    }

    /// All eight known methods.
    pub fn allow_all() -> (r: Self)
        ensures
            r@ == seq![CHAT@, GIFT@, LIKE@, MEMBER@, SOCIAL@, CONTROL@, ROOM_USER_SEQ@, FANSCLUB@],
    {
        let mut v: Vec<String> = Vec::new();
        v.push(CHAT.to_owned());
        v.push(GIFT.to_owned());
        v.push(LIKE.to_owned());
        v.push(MEMBER.to_owned());
        v.push(SOCIAL.to_owned());
        v.push(CONTROL.to_owned());
        v.push(ROOM_USER_SEQ.to_owned());
        v.push(FANSCLUB.to_owned());
        let r = EventFilter { allow_methods: v };
        assert(r@ =~= seq![
            CHAT@,
            GIFT@,
            LIKE@,
            MEMBER@,
            SOCIAL@,
            CONTROL@,
            ROOM_USER_SEQ@,
            FANSCLUB@,
        ]);
        r
    }

    /// Whether the event's method is allowed.
    pub fn allows(&self, event: &BarrageEvent) -> (r: bool)
        ensures
            r == self@.contains(event_method(event@)),
    {
        let method = event.method().to_owned();
        let mut i: usize = 0;
        while i < self.allow_methods.len()
            invariant
                i <= self.allow_methods@.len(),
                method@ == event_method(event@),
                forall|t: int| 0 <= t < i ==> self@[t] != method@,
            decreases self.allow_methods@.len() - i,
        {
            if self.allow_methods[i] == method {
                assert(self@[i as int] == method@);
                return true;
            }
            i = i + 1;
        }
        false
    }

    /// The allowed events of `events`, in order.
    pub fn filter<'a>(&self, events: &'a [BarrageEvent]) -> (r: Vec<&'a BarrageEvent>)
        ensures
            r@.map_values(|e: &BarrageEvent| e@) == filter_events(
                events@.map_values(|e: BarrageEvent| e@),
                self@,
            ),
    {
        let mut out: Vec<&'a BarrageEvent> = Vec::new();
        let ghost es = events@.map_values(|e: BarrageEvent| e@);
        let mut i: usize = 0;
        while i < events.len()
            invariant
                i <= events@.len(),
                es == events@.map_values(|e: BarrageEvent| e@),
                out@.map_values(|e: &BarrageEvent| e@) == filter_events(es.take(i as int), self@),
            decreases events@.len() - i,
        {
            let e = &events[i];
            assert(es.take(i + 1).drop_last() =~= es.take(i as int));
            assert(es.take(i + 1).last() == e@);
            if self.allows(e) {
                let ghost before = out@;
                out.push(e);
                assert(out@.map_values(|e: &BarrageEvent| e@) =~= before.map_values(
                    |e: &BarrageEvent| e@,
                ).push(e@));
            }
            i = i + 1;
        }
        assert(es.take(i as int) =~= es);
        out
    }

    /// The allowed method names.
    pub fn allowed_methods(&self) -> (r: &[String])
        ensures
            r@.map_values(|s: String| s@) == self@,
    {
        self.allow_methods.as_slice()
    }
}

/// The default filter lets through exactly the chat, gift and like events.
pub proof fn lemma_mvp_filter_exact(e: BarrageEventV)
    ensures
        seq![CHAT@, GIFT@, LIKE@].contains(event_method(e)) <==> event_is_mvp(e),
{
    reveal_strlit("WebcastChatMessage");
    reveal_strlit("WebcastGiftMessage");
    reveal_strlit("WebcastLikeMessage");
    reveal_strlit("WebcastMemberMessage");
    reveal_strlit("WebcastSocialMessage");
    reveal_strlit("WebcastControlMessage");
    reveal_strlit("WebcastRoomUserSeqMessage");
    reveal_strlit("WebcastFansclubMessage");
    let s = seq![CHAT@, GIFT@, LIKE@];
    assert(s[0] == CHAT@ && s[1] == GIFT@ && s[2] == LIKE@);
    if !event_is_mvp(e) {
        let m = event_method(e);
        // the names part at their eighth or ninth character
        assert(m[7] != CHAT@[7] || m[8] != CHAT@[8] || m.len() != CHAT@.len());
        assert(m != CHAT@);
        assert(m != GIFT@);
        assert(m != LIKE@);
    }
}

} // verus!
