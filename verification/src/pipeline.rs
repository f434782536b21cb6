//! From received bytes to the events pushed downstream: decode, route,
//! keep the allowed methods, and drop what was already pushed.

use vstd::prelude::*;

use crate::dedup::{remember, MsgDedup};
use crate::dispatcher::events_view;
use crate::event::{event_method, event_msg_id, BarrageEvent, BarrageEventV};
use crate::filter::EventFilter;

verus! {

/// What a de-duplicator remembers: the ids of each method.
pub type Memory = spec_fn(Seq<char>) -> Seq<i64>;

/// The memory after remembering (m, id).
pub open spec fn mem_remember(f: Memory, m: Seq<char>, id: i64, cap: nat) -> Memory {
    |m2: Seq<char>|
        if m2 == m {
            remember(f(m), id, cap)
        } else {
            f(m2)
        }
}

/// The events of `es` that are pushed, in order, and the memory after:
/// an event is pushed when its method is allowed and its (method, id) is
/// not remembered; a pushed event is remembered.
pub open spec fn select_spec(es: Seq<BarrageEventV>, allow: Seq<Seq<char>>, f: Memory, cap: nat) -> (
    Seq<BarrageEventV>,
    Memory,
)
    decreases es.len(),
{
    if es.len() == 0 {
        (Seq::empty(), f)
    } else {
        let e = es[0];
        let m = event_method(e);
        let id = event_msg_id(e);
        if !allow.contains(m) || f(m).contains(id) {
            select_spec(es.drop_first(), allow, f, cap)
        } else {
            let (rest, f2) = select_spec(es.drop_first(), allow, mem_remember(f, m, id, cap), cap);
            (seq![e] + rest, f2)
        }
    }
}

/// The memory of a de-duplicator.
pub open spec fn memory_of(d: MsgDedup) -> Memory {
    |m: Seq<char>| d.fifo(m)
}

/// Keeps the events that pass `filter` and that `dedup` has not seen,
/// remembering them.
pub fn select_events(events: Vec<BarrageEvent>, filter: &EventFilter, dedup: &mut MsgDedup) -> (r:
    Vec<BarrageEvent>)
    requires
        old(dedup).wf(),
    ensures
        final(dedup).wf(),
        final(dedup).cap() == old(dedup).cap(),
        events_view(r@) == select_spec(
            events_view(events@),
            filter@,
            memory_of(*old(dedup)),
            old(dedup).cap(),
        ).0,
        memory_of(*final(dedup)) == select_spec(
            events_view(events@),
            filter@,
            memory_of(*old(dedup)),
            old(dedup).cap(),
        ).1,
{
    let ghost all = events_view(events@);
    let ghost cap = dedup.cap();
    let ghost f0 = memory_of(*dedup);
    let mut out: Vec<BarrageEvent> = Vec::new();
    let mut rest = events;
    while rest.len() > 0
        invariant
            dedup.wf(),
            dedup.cap() == cap,
            select_spec(all, filter@, f0, cap) == ({
                let (tail, f2) = select_spec(events_view(rest@), filter@, memory_of(*dedup), cap);
                (events_view(out@) + tail, f2)
            }),
        decreases rest@.len(),
    {
        let ghost before = events_view(rest@);
        let ghost fcur = memory_of(*dedup);
        let e = rest.remove(0);
        let ghost rs = events_view(rest@);
        assert(before.drop_first() =~= rs);
        assert(before[0] == e@);
        if filter.allows(&e) {
            let m = e.method();
            let id = e.msg_id();
            let fresh = dedup.check_and_mark(m, id);
            if fresh {
                proof {
                    assert(memory_of(*dedup) =~= mem_remember(fcur, m@, id, cap));
                }
                let ghost ov = events_view(out@);
                out.push(e);
                proof {
                    assert(events_view(out@) =~= ov.push(e@));
                    let (tail, f2) = select_spec(rs, filter@, memory_of(*dedup), cap);
                    assert(ov + (seq![e@] + tail) =~= events_view(out@) + tail);
                }
            } else {
                proof {
                    assert(memory_of(*dedup) =~= fcur);
                }
            }
        }
    }
    assert(events_view(rest@) =~= Seq::<BarrageEventV>::empty());
    assert(events_view(out@) + Seq::<BarrageEventV>::empty() =~= events_view(out@));
    out
}

/// Every pushed event's method is allowed.
pub proof fn lemma_selected_allowed(es: Seq<BarrageEventV>, allow: Seq<Seq<char>>, f: Memory, cap: nat)
    ensures
        forall|i: int|
            0 <= i < select_spec(es, allow, f, cap).0.len() ==> allow.contains(
                event_method(#[trigger] select_spec(es, allow, f, cap).0[i]),
            ),
    decreases es.len(),
{
    if es.len() > 0 {
        let e = es[0];
        let m = event_method(e);
        let id = event_msg_id(e);
        if !allow.contains(m) || f(m).contains(id) {
            lemma_selected_allowed(es.drop_first(), allow, f, cap);
            assert(select_spec(es, allow, f, cap).0 == select_spec(es.drop_first(), allow, f, cap).0);
        } else {
            let f1 = mem_remember(f, m, id, cap);
            lemma_selected_allowed(es.drop_first(), allow, f1, cap);
            let rest = select_spec(es.drop_first(), allow, f1, cap).0;
            assert(select_spec(es, allow, f, cap).0 == seq![e] + rest);
            assert forall|i: int|
                0 <= i < select_spec(es, allow, f, cap).0.len() implies allow.contains(
                event_method(#[trigger] select_spec(es, allow, f, cap).0[i]),
            ) by {
                if i > 0 {
                    assert(select_spec(es, allow, f, cap).0[i] == rest[i - 1]);
                }
            }
        }
    }
}

/// Without eviction (room for every event of the batch), the memory only
/// grows, and it ends up holding every allowed event of the batch.
proof fn lemma_batch_remembered(es: Seq<BarrageEventV>, allow: Seq<Seq<char>>, f: Memory, cap: nat)
    requires
        forall|m: Seq<char>| #[trigger] f(m).len() + es.len() <= cap,
    ensures
        forall|m: Seq<char>, x: i64|
            #[trigger] f(m).contains(x) ==> select_spec(es, allow, f, cap).1(m).contains(x),
        forall|i: int|
            0 <= i < es.len() && allow.contains(event_method(es[i])) ==> select_spec(
                es,
                allow,
                f,
                cap,
            ).1(event_method(#[trigger] es[i])).contains(event_msg_id(es[i])),
    decreases es.len(),
{
    if es.len() > 0 {
        let e = es[0];
        let m0 = event_method(e);
        let id0 = event_msg_id(e);
        let tail = es.drop_first();
        let f1 = if !allow.contains(m0) || f(m0).contains(id0) {
            f
        } else {
            mem_remember(f, m0, id0, cap)
        };
        assert forall|m: Seq<char>| #[trigger] f1(m).len() + tail.len() <= cap by {
            assert(f(m).len() + es.len() <= cap);
        }
        assert forall|m: Seq<char>, x: i64| #[trigger] f(m).contains(x) implies f1(m).contains(x) by {
            if f1 != f && m == m0 {
                assert(f(m0).len() < cap);
                let g = f(m0).push(id0);
                assert(f1(m0) == g);
                let j = choose|j: int| 0 <= j < f(m0).len() && #[trigger] f(m0)[j] == x;
                assert(g[j] == x);
            }
        }
        if f1 != f {
            let g = f(m0).push(id0);
            assert(f1(m0) == g);
            assert(g[g.len() - 1] == id0);
            assert(f1(m0).contains(id0));
        }
        if allow.contains(m0) {
            assert(f1(m0).contains(id0));
        }
        lemma_batch_remembered(tail, allow, f1, cap);
        assert(select_spec(es, allow, f, cap).1 == select_spec(tail, allow, f1, cap).1);
        assert forall|i: int|
            0 <= i < es.len() && allow.contains(event_method(es[i])) implies select_spec(
            es,
            allow,
            f,
            cap,
        ).1(event_method(#[trigger] es[i])).contains(event_msg_id(es[i])) by {
            if i > 0 {
                assert(es[i] == tail[i - 1]);
            }
        }
    }
}

proof fn lemma_nothing_new(es: Seq<BarrageEventV>, allow: Seq<Seq<char>>, g: Memory, cap: nat)
    requires
        forall|i: int|
            0 <= i < es.len() && allow.contains(event_method(es[i])) ==> g(
                event_method(#[trigger] es[i]),
            ).contains(event_msg_id(es[i])),
    ensures
        select_spec(es, allow, g, cap).0.len() == 0,
    decreases es.len(),
{
    if es.len() > 0 {
        let tail = es.drop_first();
        assert forall|i: int|
            0 <= i < tail.len() && allow.contains(event_method(tail[i])) implies g(
            event_method(#[trigger] tail[i]),
        ).contains(event_msg_id(tail[i])) by {
            assert(tail[i] == es[i + 1]);
        }
        assert(allow.contains(event_method(es[0])) ==> g(event_method(es[0])).contains(
            event_msg_id(es[0]),
        ));
        lemma_nothing_new(tail, allow, g, cap);
    }
}

/// A batch received twice is pushed once: when the memory has room for
/// the whole batch, processing it again right after pushes nothing.
pub proof fn lemma_replay_pushes_nothing(es: Seq<BarrageEventV>, allow: Seq<Seq<char>>, f: Memory, cap: nat)
    requires
        forall|m: Seq<char>| #[trigger] f(m).len() + es.len() <= cap,
    ensures
        select_spec(es, allow, select_spec(es, allow, f, cap).1, cap).0.len() == 0,
{
    lemma_batch_remembered(es, allow, f, cap);
    lemma_nothing_new(es, allow, select_spec(es, allow, f, cap).1, cap);
}

} // verus!
