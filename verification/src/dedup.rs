//! De-duplication of pushed messages by (method, message id), remembering
//! for each method the most recent ids in arrival order.

use vstd::prelude::*;

verus! {

/// The value stored under key `k`: the first entry with that key.
pub open spec fn assoc_get<K, V>(s: Seq<(K, V)>, k: K) -> Option<V>
    decreases s.len(),
{
    if s.len() == 0 {
        None
    } else if s[0].0 == k {
        Some(s[0].1)
    } else {
        assoc_get(s.drop_first(), k)
    }
}

/// No key occurs twice.
pub open spec fn keys_unique<K, V>(s: Seq<(K, V)>) -> bool {
    forall|i: int, j: int| 0 <= i < j < s.len() ==> s[i].0 != s[j].0
}

pub(crate) proof fn lemma_assoc_get_at<K, V>(s: Seq<(K, V)>, j: int)
    requires
        0 <= j < s.len(),
        keys_unique(s),
    ensures
        assoc_get(s, s[j].0) == Some(s[j].1),
    decreases j,
{
    if j > 0 {
        assert(s[0].0 != s[j].0);
        assert(keys_unique(s.drop_first()));
        lemma_assoc_get_at(s.drop_first(), j - 1);
    }
}

pub(crate) proof fn lemma_assoc_get_absent<K, V>(s: Seq<(K, V)>, k: K)
    requires
        forall|t: int| 0 <= t < s.len() ==> s[t].0 != k,
    ensures
        assoc_get(s, k) is None,
    decreases s.len(),
{
    if s.len() > 0 {
        lemma_assoc_get_absent(s.drop_first(), k);
    }
}

pub(crate) proof fn lemma_assoc_get_update<K, V>(s: Seq<(K, V)>, j: int, v: V, k: K)
    requires
        0 <= j < s.len(),
        keys_unique(s),
    ensures
        assoc_get(s.update(j, (s[j].0, v)), k) == if k == s[j].0 {
            Some(v)
        } else {
            assoc_get(s, k)
        },
    decreases j,
{
    let s2 = s.update(j, (s[j].0, v));
    if j == 0 {
        assert(s2.drop_first() =~= s.drop_first());
    } else {
        assert(s2.drop_first() =~= s.drop_first().update(j - 1, (s[j].0, v)));
        assert(keys_unique(s.drop_first()));
        lemma_assoc_get_update(s.drop_first(), j - 1, v, k);
        if k == s[j].0 {
            assert(s[0].0 != s[j].0);
        }
    }
}

pub(crate) proof fn lemma_assoc_get_push<K, V>(s: Seq<(K, V)>, k2: K, v: V, k: K)
    requires
        forall|t: int| 0 <= t < s.len() ==> s[t].0 != k2,
    ensures
        assoc_get(s.push((k2, v)), k) == if k == k2 {
            Some(v)
        } else {
            assoc_get(s, k)
        },
    decreases s.len(),
{
    if s.len() == 0 {
        assert(s.push((k2, v)).drop_first() =~= s);
    } else {
        assert(s.push((k2, v)).drop_first() =~= s.drop_first().push((k2, v)));
        lemma_assoc_get_push(s.drop_first(), k2, v, k);
    }
}

pub(crate) proof fn lemma_assoc_get_remove<K, V>(s: Seq<(K, V)>, j: int, k: K)
    requires
        0 <= j < s.len(),
        keys_unique(s),
    ensures
        assoc_get(s.remove(j), k) == if k == s[j].0 {
            None
        } else {
            assoc_get(s, k)
        },
        keys_unique(s.remove(j)),
    decreases j,
{
    let s2 = s.remove(j);
    if j == 0 {
        assert(s2 =~= s.drop_first());
        if k == s[0].0 {
            assert forall|t: int| 0 <= t < s2.len() implies s2[t].0 != k by {
                assert(s2[t] == s[t + 1]);
            }
            lemma_assoc_get_absent(s2, k);
        }
    } else {
        assert(s2.drop_first() =~= s.drop_first().remove(j - 1));
        assert(keys_unique(s.drop_first()));
        lemma_assoc_get_remove(s.drop_first(), j - 1, k);
        if k == s[j].0 {
            assert(s[0].0 != s[j].0);
        }
    }
    assert forall|a: int, b: int| 0 <= a < b < s2.len() implies s2[a].0 != s2[b].0 by {
        let a2 = if a < j { a } else { a + 1 };
        let b2 = if b < j { b } else { b + 1 };
        assert(s2[a] == s[a2] && s2[b] == s[b2]);
    }
}

/// The sum of the lengths of the value sequences.
pub open spec fn total_len<K, T>(s: Seq<(K, Seq<T>)>) -> nat
    decreases s.len(),
{
    if s.len() == 0 {
        0
    } else {
        total_len(s.drop_last()) + s.last().1.len()
    }
}

proof fn lemma_total_len_update<K, T>(s: Seq<(K, Seq<T>)>, j: int, e: (K, Seq<T>))
    requires
        0 <= j < s.len(),
    ensures
        total_len(s.update(j, e)) == total_len(s) - s[j].1.len() + e.1.len(),
    decreases s.len(),
{
    let s2 = s.update(j, e);
    if j == s.len() - 1 {
        assert(s2.drop_last() =~= s.drop_last());
    } else {
        assert(s2.drop_last() =~= s.drop_last().update(j, e));
        lemma_total_len_update(s.drop_last(), j, e);
    }
}

/// `fifo` after remembering `id` with room for `cap` ids: the oldest id
/// leaves first when the fifo is full (a capacity of 0 keeps the newest).
pub open spec fn remember(fifo: Seq<i64>, id: i64, cap: nat) -> Seq<i64> {
    let kept = if fifo.len() >= cap && fifo.len() > 0 {
        fifo.drop_first()
    } else {
        fifo
    };
    kept.push(id)
}

/// The most ids a fifo holds with capacity `cap`.
pub open spec fn fifo_bound(cap: nat) -> nat {
    if cap == 0 {
        1
    } else {
        cap
    }
}

/// One call for a method whose remembered ids are `fifo`: the id is
/// accepted when it is not remembered, and is then remembered.
pub open spec fn dedup_step(fifo: Seq<i64>, id: i64, cap: nat) -> (Seq<i64>, bool) {
    if fifo.contains(id) {
        (fifo, false)
    } else {
        (remember(fifo, id, cap), true)
    }
}

/// The ids remembered for a method after calls with `ids`, in order, from
/// an empty memory.
pub open spec fn fifo_after(ids: Seq<i64>, cap: nat) -> Seq<i64>
    decreases ids.len(),
{
    if ids.len() == 0 {
        Seq::empty()
    } else {
        dedup_step(fifo_after(ids.drop_last(), cap), ids.last(), cap).0
    }
}

/// The last `n` elements of `s` (all of them when there are fewer).
pub open spec fn last_n(s: Seq<i64>, n: nat) -> Seq<i64> {
    if s.len() <= n {
        s
    } else {
        s.skip(s.len() - n)
    }
}

/// The ids accepted, in order, over calls with `ids` from an empty memory:
/// a call is accepted when its id is not among the last `cap` ids
/// accepted before it.
pub open spec fn accepted_ids(ids: Seq<i64>, cap: nat) -> Seq<i64>
    decreases ids.len(),
{
    if ids.len() == 0 {
        Seq::empty()
    } else {
        let prev = accepted_ids(ids.drop_last(), cap);
        if last_n(prev, cap).contains(ids.last()) {
            prev
        } else {
            prev.push(ids.last())
        }
    }
}

/// Over any run of calls for one method since the memory was empty (a new
/// or cleared de-duplicator; other methods do not matter), the memory
/// holds exactly the last `cap` accepted ids, so the next call accepts its
/// id exactly when the id is not among them.
pub proof fn lemma_dedup_window(ids: Seq<i64>, cap: nat, id: i64)
    requires
        cap >= 1,
    ensures
        fifo_after(ids, cap) == last_n(accepted_ids(ids, cap), cap),
        dedup_step(fifo_after(ids, cap), id, cap).1 == !last_n(accepted_ids(ids, cap), cap).contains(id),
    decreases ids.len(),
{
    if ids.len() > 0 {
        let pre = ids.drop_last();
        let x = ids.last();
        lemma_dedup_window(pre, cap, x);
        let a = accepted_ids(pre, cap);
        let f = fifo_after(pre, cap);
        if !f.contains(x) {
            let a2 = a.push(x);
            if a.len() < cap {
                assert(last_n(a2, cap) =~= a2);
            } else {
                assert(f =~= a.skip(a.len() - cap));
                assert(f.len() == cap);
                assert(f.drop_first().push(x) =~= a2.skip(a2.len() - cap));
            }
        }
    }
}

/// Remembered (method, id) pairs, per method in arrival order.
#[derive(Debug)]
pub struct MsgDedup {
    fifos: Vec<(String, Vec<i64>)>,
    capacity: usize,
}

impl MsgDedup {
    /// The per-method fifos, by method name.
    pub closed spec fn entries(&self) -> Seq<(Seq<char>, Seq<i64>)> {
        self.fifos@.map_values(|e: (String, Vec<i64>)| (e.0@, e.1@))
    }

    pub closed spec fn cap(&self) -> nat {
        self.capacity as nat
    }

    /// The ids remembered for method `m`, oldest first.
    pub open spec fn fifo(&self, m: Seq<char>) -> Seq<i64> {
        match assoc_get(self.entries(), m) {
            Some(f) => f,
            None => Seq::empty(),
        }
    }

    /// Whether (m, id) is remembered.
    pub open spec fn seen(&self, m: Seq<char>, id: i64) -> bool {
        self.fifo(m).contains(id)
    }

    /// How many (method, id) pairs are remembered.
    pub open spec fn total(&self) -> nat {
        total_len(self.entries())
    }

    /// Methods are distinct, no fifo holds an id twice, and no fifo holds
    /// more than its bound.
    pub open spec fn wf(&self) -> bool {
        &&& keys_unique(self.entries())
        &&& forall|i: int|
            0 <= i < self.entries().len() ==> {
                &&& (#[trigger] self.entries()[i]).1.no_duplicates()
                &&& self.entries()[i].1.len() <= fifo_bound(self.cap())
            }
    }

    /// Default capacity: 300 ids per method.
    pub fn default() -> (r: Self)
        ensures
            r.wf(),
            r.cap() == 300,
            r.entries().len() == 0,
            forall|m: Seq<char>| #[trigger] r.fifo(m) == Seq::<i64>::empty(),
    {
        Self::new(300)
    }

    /// An empty de-duplicator keeping up to `capacity` ids per method.
    pub fn new(capacity: usize) -> (r: Self)
        ensures
            r.wf(),
            r.cap() == capacity,
            r.entries().len() == 0,
            forall|m: Seq<char>| #[trigger] r.fifo(m) == Seq::<i64>::empty(),
    {
        let r = MsgDedup { fifos: Vec::new(), capacity };
        assert(r.entries() =~= Seq::<(Seq<char>, Seq<i64>)>::empty());
        r
    }

    /// Returns `true` and remembers (method, msg_id) if it is not
    /// remembered yet; returns `false` and changes nothing if it is.
    pub fn check_and_mark(&mut self, method: &str, msg_id: i64) -> (r: bool)
        requires
            old(self).wf(),
        ensures
            final(self).wf(),
            final(self).cap() == old(self).cap(),
            r == !old(self).seen(method@, msg_id),
            final(self).seen(method@, msg_id),
            (final(self).fifo(method@), r) == dedup_step(old(self).fifo(method@), msg_id, old(self).cap()),
            forall|ids: Seq<i64>|
                old(self).fifo(method@) == fifo_after(ids, old(self).cap()) ==> #[trigger] fifo_after(
                    ids.push(msg_id),
                    old(self).cap(),
                ) == final(self).fifo(method@),
            forall|m: Seq<char>|
                #[trigger] final(self).fifo(m) == if r && m == method@ {
                    remember(old(self).fifo(method@), msg_id, old(self).cap())
                } else {
                    old(self).fifo(m)
                },
            final(self).total() == if !r {
                old(self).total()
            } else if old(self).fifo(method@).len() >= old(self).cap() && old(self).fifo(
                method@,
            ).len() > 0 {
                old(self).total()
            } else {
                old(self).total() + 1
            },
    {
        proof {
            assert forall|ids: Seq<i64>| #[trigger] ids.push(msg_id).drop_last() == ids by {
                assert(ids.push(msg_id).drop_last() =~= ids);
            }
        }
        let key = method.to_owned();
        let ghost es = self.entries();
        let ghost cap = self.cap();
        let mut j: usize = 0;
        while j < self.fifos.len()
            invariant
                j <= self.fifos@.len(),
                es == self.entries(),
                key@ == method@,
                forall|t: int| 0 <= t < j ==> es[t].0 != key@,
            ensures
                j <= self.fifos@.len(),
                j < self.fifos@.len() ==> es[j as int].0 == method@,
            decreases self.fifos@.len() - j,
        {
            if self.fifos[j].0 == key {
                break;
            }
            j = j + 1;
        }
        if j == self.fifos.len() {
            proof {
                lemma_assoc_get_absent(es, method@);
                assert forall|m: Seq<char>| #[trigger]
                    assoc_get(es.push((method@, seq![msg_id])), m) == if m == method@ {
                        Some(seq![msg_id])
                    } else {
                        assoc_get(es, m)
                    } by {
                    lemma_assoc_get_push(es, method@, seq![msg_id], m);
                }
            }
            let mut ids: Vec<i64> = Vec::new();
            ids.push(msg_id);
            self.fifos.push((key, ids));
            proof {
                assert(self.entries() =~= es.push((method@, seq![msg_id])));
                assert(remember(Seq::<i64>::empty(), msg_id, cap) =~= seq![msg_id]);
                assert(self.entries().drop_last() =~= es);
                assert(seq![msg_id][0] == msg_id);
                assert(self.fifo(method@) == seq![msg_id]);
            }
            return true;
        }
        proof {
            assert(es[j as int].0 == method@);
            lemma_assoc_get_at(es, j as int);
        }
        let mut k: usize = 0;
        let mut found = false;
        while k < self.fifos[j].1.len()
            invariant_except_break
                !found,
            invariant
                j < self.fifos@.len(),
                es == self.entries(),
                es[j as int].1 == self.fifos@[j as int].1@,
                k <= self.fifos@[j as int].1@.len(),
                forall|t: int| 0 <= t < k ==> es[j as int].1[t] != msg_id,
            ensures
                found == es[j as int].1.contains(msg_id),
            decreases self.fifos@[j as int].1@.len() - k,
        {
            if self.fifos[j].1[k] == msg_id {
                found = true;
                break;
            }
            k = k + 1;
        }
        if found {
            return false;
        }
        let (name, mut ids) = self.fifos.remove(j);
        let ghost old_ids = ids@;
        if ids.len() >= self.capacity && ids.len() > 0 {
            ids.remove(0);
        }
        ids.push(msg_id);
        let ghost new_ids = ids@;
        self.fifos.insert(j, (name, ids));
        proof {
            assert(old_ids == es[j as int].1);
            assert(new_ids =~= remember(old_ids, msg_id, cap));
            assert(self.entries() =~= es.update(j as int, (method@, new_ids)));
            assert forall|m: Seq<char>| #[trigger]
                assoc_get(es.update(j as int, (es[j as int].0, new_ids)), m) == if m == method@ {
                    Some(new_ids)
                } else {
                    assoc_get(es, m)
                } by {
                lemma_assoc_get_update(es, j as int, new_ids, m);
            }
            lemma_total_len_update(es, j as int, (method@, new_ids));
            assert(new_ids[new_ids.len() - 1] == msg_id);
            let e2 = self.entries();
            assert forall|i: int| 0 <= i < e2.len() implies {
                &&& (#[trigger] e2[i]).1.no_duplicates()
                &&& e2[i].1.len() <= fifo_bound(cap)
            } by {
                if i == j {
                    let kept = if old_ids.len() >= cap && old_ids.len() > 0 {
                        old_ids.drop_first()
                    } else {
                        old_ids
                    };
                    assert(!kept.contains(msg_id));
                    assert forall|a: int, b: int| 0 <= a < new_ids.len() && 0 <= b < new_ids.len()
                        && a != b implies new_ids[a] != new_ids[b] by {
                        if a < kept.len() && b < kept.len() {
                            assert(kept.no_duplicates());
                        } else if a < kept.len() {
                            assert(kept[a] != msg_id);
                        } else if b < kept.len() {
                            assert(kept[b] != msg_id);
                        }
                    }
                }
            }
        }
        true
    }

    /// How many (method, id) pairs are remembered (saturating at the
    /// largest `usize`).
    pub fn buffer_size(&self) -> (r: usize)
        ensures
            r == if self.total() <= usize::MAX {
                self.total()
            } else {
                usize::MAX as nat
            },
    {
        let mut n: usize = 0;
        let mut i: usize = 0;
        let ghost es = self.entries();
        while i < self.fifos.len()
            invariant
                i <= self.fifos@.len(),
                es == self.entries(),
                n == if total_len(es.take(i as int)) <= usize::MAX {
                    total_len(es.take(i as int))
                } else {
                    usize::MAX as nat
                },
            decreases self.fifos@.len() - i,
        {
            assert(es.take(i + 1).drop_last() =~= es.take(i as int));
            n = n.saturating_add(self.fifos[i].1.len());
            i = i + 1;
        }
        assert(es.take(i as int) =~= es);
        n
    }

    /// Forgets everything.
    pub fn clear(&mut self)
        ensures
            final(self).wf(),
            final(self).cap() == old(self).cap(),
            final(self).entries().len() == 0,
            forall|m: Seq<char>| #[trigger] final(self).fifo(m) == Seq::<i64>::empty(),
    {
        self.fifos = Vec::new();
        assert(self.entries() =~= Seq::<(Seq<char>, Seq<i64>)>::empty());
    }
}

/// Every fifo stays within its bound: a method remembers at most
/// `capacity` ids (one, for a capacity of 0).
pub proof fn lemma_fifo_bounded(d: &MsgDedup, m: Seq<char>)
    requires
        d.wf(),
    ensures
        d.fifo(m).len() <= fifo_bound(d.cap()),
        d.fifo(m).no_duplicates(),
{
    let es = d.entries();
    if exists|j: int| 0 <= j < es.len() && es[j].0 == m {
        let j = choose|j: int| 0 <= j < es.len() && es[j].0 == m;
        lemma_assoc_get_at(es, j);
        assert(d.entries()[j].1.len() <= fifo_bound(d.cap()));
    } else {
        lemma_assoc_get_absent(es, m);
        assert(Seq::<i64>::empty().no_duplicates());
    }
}

} // verus!
