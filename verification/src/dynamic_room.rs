//! The registry of rooms created on demand: each room's source URL, its
//! connection status and how many clients follow it.

use vstd::prelude::*;

use crate::dedup::{
    assoc_get, keys_unique, lemma_assoc_get_absent, lemma_assoc_get_at, lemma_assoc_get_push,
    lemma_assoc_get_remove, lemma_assoc_get_update,
};

verus! {

/// A room's upstream connection status.
#[derive(Debug, Clone, Copy, PartialEq, Eq)]
pub enum RoomStatus {
    Connecting,
    Connected,
    Failed,
}

pub open spec fn status_number(s: RoomStatus) -> u8 {
    match s {
        RoomStatus::Connecting => 0,
        RoomStatus::Connected => 1,
        RoomStatus::Failed => 2,
    }
}

impl RoomStatus {
    pub fn as_u8(self) -> (r: u8)
        ensures
            r == status_number(self),
    {
        match self {
            RoomStatus::Connecting => 0,
            RoomStatus::Connected => 1,
            RoomStatus::Failed => 2,
        }
    }

    /// The status numbered `v`; any unknown number reads as connecting.
    pub fn from_u8(v: u8) -> (r: Self)
        ensures
            v == 1 ==> r == RoomStatus::Connected,
            v == 2 ==> r == RoomStatus::Failed,
            v != 1 && v != 2 ==> r == RoomStatus::Connecting,
    {
        match v {
            1 => RoomStatus::Connected,
            2 => RoomStatus::Failed,
            _ => RoomStatus::Connecting,
        }
    }

    pub fn as_str(self) -> (r: &'static str)
        ensures
            r@ == match self {
                RoomStatus::Connecting => "connecting"@,
                RoomStatus::Connected => "connected"@,
                RoomStatus::Failed => "failed"@,
            },
    {
        match self {
            RoomStatus::Connecting => "connecting",
            RoomStatus::Connected => "connected",
            RoomStatus::Failed => "failed",
        }
    }
}

/// A status stored as its number reads back as itself.
pub proof fn lemma_status_round_trip(s: RoomStatus)
    ensures
        s == match status_number(s) {
            1 => RoomStatus::Connected,
            2 => RoomStatus::Failed,
            _ => RoomStatus::Connecting,
        },
{
}

/// What is known of a room.
#[derive(Debug, Clone, PartialEq, Eq)]
pub struct RoomSnapshot {
    pub room_id: String,
    pub url: String,
    pub status: RoomStatus,
    pub client_count: usize,
    pub created_at_unix: i64,
}

impl RoomSnapshot {
    /// A copy of the snapshot.
    pub fn duplicate(&self) -> (r: Self)
        ensures
            r == *self,
    {
        RoomSnapshot {
            room_id: self.room_id.clone(),
            url: self.url.clone(),
            status: self.status,
            client_count: self.client_count,
            created_at_unix: self.created_at_unix,
        }
    }
}

/// The room asked for does not exist.
#[derive(Debug, Clone, Copy, PartialEq, Eq)]
pub struct RoomManagerError;

impl RoomManagerError {
    pub fn message(&self) -> (r: String)
        ensures
            r@ == "room manager error"@,
    {
        "room manager error".to_owned()
    }
}

pub open spec fn keyed(rs: Seq<RoomSnapshot>) -> Seq<(Seq<char>, RoomSnapshot)> {
    rs.map_values(|r: RoomSnapshot| (r.room_id@, r))
}

/// The rooms, by web id.
#[derive(Debug)]
pub struct DynamicRoomManager {
    rooms: Vec<RoomSnapshot>,
}

impl DynamicRoomManager {
    /// The rooms in creation order.
    pub closed spec fn rooms(&self) -> Seq<RoomSnapshot> {
        self.rooms@
    }

    /// The room with web id `id`.
    pub open spec fn room(&self, id: Seq<char>) -> Option<RoomSnapshot> {
        assoc_get(keyed(self.rooms()), id)
    }

    /// No web id occurs twice.
    pub open spec fn wf(&self) -> bool {
        keys_unique(keyed(self.rooms()))
    }

    pub fn new() -> (r: Self)
        ensures
            r.wf(),
            r.rooms().len() == 0,
            forall|id: Seq<char>| r.room(id) is None,
    {
        let r = DynamicRoomManager { rooms: Vec::new() };
        assert(keyed(r.rooms()) =~= Seq::<(Seq<char>, RoomSnapshot)>::empty());
        r
    }

    fn find(&self, web_rid: &str) -> (r: Option<usize>)
        requires
            self.wf(),
        ensures
            match r {
                Some(j) => j < self.rooms().len() && self.rooms()[j as int].room_id@ == web_rid@
                    && self.room(web_rid@) == Some(self.rooms()[j as int]),
                None => self.room(web_rid@) is None && forall|t: int|
                    0 <= t < self.rooms().len() ==> self.rooms()[t].room_id@ != web_rid@,
            },
    {
        let key = web_rid.to_owned();
        let ghost ks = keyed(self.rooms());
        let mut j: usize = 0;
        while j < self.rooms.len()
            invariant
                j <= self.rooms@.len(),
                ks == keyed(self.rooms()),
                keys_unique(ks),
                key@ == web_rid@,
                forall|t: int| 0 <= t < j ==> self.rooms()[t].room_id@ != web_rid@,
            decreases self.rooms@.len() - j,
        {
            if self.rooms[j].room_id == key {
                proof {
                    lemma_assoc_get_at(ks, j as int);
                }
                return Some(j);
            }
            j = j + 1;
        }
        proof {
            assert forall|t: int| 0 <= t < ks.len() implies ks[t].0 != web_rid@ by {
                assert(ks[t].0 == self.rooms()[t].room_id@);
            }
            lemma_assoc_get_absent(ks, web_rid@);
        }
        None
    }

    /// The room with web id `web_rid`, created (connecting, no clients,
    /// created at `now`) if there is none yet.  Returns the room and
    /// whether it was created.
    pub fn create_or_get(&mut self, web_rid: &str, url: &str, now: i64) -> (r: (RoomSnapshot, bool))
        requires
            old(self).wf(),
        ensures
            final(self).wf(),
            match old(self).room(web_rid@) {
                Some(existing) => {
                    &&& r.0 == existing
                    &&& !r.1
                    &&& final(self).rooms() == old(self).rooms()
                },
                None => {
                    &&& r.1
                    &&& r.0.room_id@ == web_rid@
                    &&& r.0.url@ == url@
                    &&& r.0.status == RoomStatus::Connecting
                    &&& r.0.client_count == 0
                    &&& r.0.created_at_unix == now
                    &&& final(self).rooms() == old(self).rooms().push(r.0)
                },
            },
            final(self).room(web_rid@) == Some(r.0),
            forall|id: Seq<char>| id != web_rid@ ==> #[trigger] final(self).room(id) == old(self).room(id),
    {
        match self.find(web_rid) {
            Some(j) => (self.rooms[j].duplicate(), false),
            None => {
                let room = RoomSnapshot {
                    room_id: web_rid.to_owned(),
                    url: url.to_owned(),
                    status: RoomStatus::Connecting,
                    client_count: 0,
                    created_at_unix: now,
                };
                let ghost ks = keyed(self.rooms());
                let copy = room.duplicate();
                self.rooms.push(room);
                proof {
                    assert(keyed(self.rooms()) =~= ks.push((web_rid@, copy)));
                    assert forall|t: int| 0 <= t < ks.len() implies ks[t].0 != web_rid@ by {
                        assert(ks[t].0 == old(self).rooms()[t].room_id@);
                    }
                    assert forall|id: Seq<char>| #[trigger]
                        assoc_get(ks.push((web_rid@, copy)), id) == if id == web_rid@ {
                            Some(copy)
                        } else {
                            assoc_get(ks, id)
                        } by {
                        lemma_assoc_get_push(ks, web_rid@, copy, id);
                    }
                    let k2 = keyed(self.rooms());
                    assert forall|a: int, b: int| 0 <= a < b < k2.len() implies k2[a].0
                        != k2[b].0 by {
                        if b == k2.len() - 1 {
                            assert(k2[a] == ks[a]);
                        } else {
                            assert(k2[a] == ks[a] && k2[b] == ks[b]);
                        }
                    }
                }
                (copy, true)
            },
        }
    }

    /// The room with web id `web_rid`.
    pub fn get(&self, web_rid: &str) -> (r: Option<RoomSnapshot>)
        requires
            self.wf(),
        ensures
            r == self.room(web_rid@),
    {
        match self.find(web_rid) {
            Some(j) => Some(self.rooms[j].duplicate()),
            None => None,
        }
    }

    /// Removes the room with web id `web_rid`, returning it; fails if
    /// there is none.
    pub fn destroy(&mut self, web_rid: &str) -> (r: Result<RoomSnapshot, RoomManagerError>)
        requires
            old(self).wf(),
        ensures
            final(self).wf(),
            match old(self).room(web_rid@) {
                Some(existing) => r == Ok::<RoomSnapshot, RoomManagerError>(existing),
                None => r is Err && final(self).rooms() == old(self).rooms(),
            },
            final(self).room(web_rid@) is None,
            forall|id: Seq<char>| id != web_rid@ ==> #[trigger] final(self).room(id) == old(self).room(id),
    {
        match self.find(web_rid) {
            Some(j) => {
                let ghost ks = keyed(self.rooms());
                let removed = self.rooms.remove(j);
                proof {
                    assert(keyed(self.rooms()) =~= ks.remove(j as int));
                    assert forall|id: Seq<char>| #[trigger]
                        assoc_get(ks.remove(j as int), id) == if id == ks[j as int].0 {
                            None
                        } else {
                            assoc_get(ks, id)
                        } by {
                        lemma_assoc_get_remove(ks, j as int, id);
                    }
                    lemma_assoc_get_remove(ks, j as int, web_rid@);
                }
                Ok(removed)
            },
            None => Err(RoomManagerError),
        }
    }

    /// All rooms, in creation order.
    pub fn list(&self) -> (r: Vec<RoomSnapshot>)
        ensures
            r@ == self.rooms(),
    {
        let mut out: Vec<RoomSnapshot> = Vec::new();
        let mut i: usize = 0;
        while i < self.rooms.len()
            invariant
                i <= self.rooms@.len(),
                out@ == self.rooms@.take(i as int),
            decreases self.rooms@.len() - i,
        {
            out.push(self.rooms[i].duplicate());
            assert(out@ =~= self.rooms@.take(i + 1));
            i = i + 1;
        }
        assert(self.rooms@.take(i as int) =~= self.rooms@);
        out
    }

    fn update_at(&mut self, j: usize, room: RoomSnapshot)
        requires
            old(self).wf(),
            j < old(self).rooms().len(),
            room.room_id == old(self).rooms()[j as int].room_id,
        ensures
            final(self).wf(),
            final(self).rooms() == old(self).rooms().update(j as int, room),
            final(self).room(room.room_id@) == Some(room),
            forall|id: Seq<char>| id != room.room_id@ ==> #[trigger] final(self).room(id) == old(self).room(id),
    {
        let ghost ks = keyed(self.rooms());
        let ghost key = room.room_id@;
        let ghost copy = room;
        self.rooms.set(j, room);
        proof {
            assert(keyed(self.rooms()) =~= ks.update(j as int, (key, copy)));
            assert(ks[j as int].0 == key);
            assert forall|id: Seq<char>| #[trigger]
                assoc_get(ks.update(j as int, (ks[j as int].0, copy)), id) == if id == key {
                    Some(copy)
                } else {
                    assoc_get(ks, id)
                } by {
                lemma_assoc_get_update(ks, j as int, copy, id);
            }
            let k2 = keyed(self.rooms());
            assert forall|a: int, b: int| 0 <= a < b < k2.len() implies k2[a].0 != k2[b].0 by {
                assert(k2[a].0 == ks[a].0 && k2[b].0 == ks[b].0);
            }
        }
    }

    /// Counts a new client of the room; returns the room's web id, or
    /// `None` if there is no such room.
    pub fn subscribe(&mut self, web_rid: &str) -> (r: Option<String>)
        requires
            old(self).wf(),
        ensures
            final(self).wf(),
            match old(self).room(web_rid@) {
                Some(room) => {
                    &&& r matches Some(id) && id@ == web_rid@
                    &&& final(self).room(web_rid@) == Some(
                        (RoomSnapshot { client_count: room.client_count.wrapping_add(1), ..room }),
                    )
                },
                None => r is None && final(self).rooms() == old(self).rooms(),
            },
            forall|id: Seq<char>| id != web_rid@ ==> #[trigger] final(self).room(id) == old(self).room(id),
    {
        match self.find(web_rid) {
            Some(j) => {
                let room = self.rooms[j].duplicate();
                let id = room.room_id.clone();
                let updated = RoomSnapshot { client_count: room.client_count.wrapping_add(1), ..room };
                self.update_at(j, updated);
                Some(id)
            },
            None => None,
        }
    }

    /// Counts a client leaving the room (never below zero).
    pub fn unsubscribe(&mut self, web_rid: &str)
        requires
            old(self).wf(),
        ensures
            final(self).wf(),
            match old(self).room(web_rid@) {
                Some(room) => final(self).room(web_rid@) == Some(
                    (RoomSnapshot { client_count: room.client_count.saturating_sub(1), ..room }),
                ),
                None => final(self).rooms() == old(self).rooms(),
            },
            forall|id: Seq<char>| id != web_rid@ ==> #[trigger] final(self).room(id) == old(self).room(id),
    {
        match self.find(web_rid) {
            Some(j) => {
                let room = self.rooms[j].duplicate();
                let updated = RoomSnapshot { client_count: room.client_count.saturating_sub(1), ..room };
                self.update_at(j, updated);
            },
            None => {},
        }
    }

    /// Sets the room's status, if there is such a room.
    /// Registers a room whose URL was just signed: a new room is created
    /// connected (created at `now`, no clients); an existing room is left
    /// as it is.  Returns the room as it now stands and whether it is new.
    pub fn open_signed_room(&mut self, web_rid: &str, url: &str, now: i64) -> (r: (RoomSnapshot, bool))
        requires
            old(self).wf(),
        ensures
            final(self).wf(),
            match old(self).room(web_rid@) {
                Some(existing) => {
                    &&& r.0 == existing
                    &&& !r.1
                    &&& final(self).rooms() == old(self).rooms()
                },
                None => {
                    &&& r.1
                    &&& r.0.room_id@ == web_rid@
                    &&& r.0.url@ == url@
                    &&& r.0.status == RoomStatus::Connected
                    &&& r.0.client_count == 0
                    &&& r.0.created_at_unix == now
                },
            },
            final(self).room(web_rid@) == Some(r.0),
            forall|id: Seq<char>| id != web_rid@ ==> #[trigger] final(self).room(id) == old(self).room(id),
    {
        let (room, created) = self.create_or_get(web_rid, url, now);
        if !created {
            return (room, false);
        }
        let ghost mid = *self;
        self.set_status(web_rid, RoomStatus::Connected);
        proof {
            assert forall|id: Seq<char>| id != web_rid@ implies #[trigger] self.room(id) == old(
                self,
            ).room(id) by {
                assert(self.room(id) == mid.room(id));
            }
        }
        (RoomSnapshot { status: RoomStatus::Connected, ..room }, true)
    }

    pub fn set_status(&mut self, web_rid: &str, status: RoomStatus)
        requires
            old(self).wf(),
        ensures
            final(self).wf(),
            match old(self).room(web_rid@) {
                Some(room) => final(self).room(web_rid@) == Some((RoomSnapshot { status, ..room })),
                None => final(self).rooms() == old(self).rooms(),
            },
            forall|id: Seq<char>| id != web_rid@ ==> #[trigger] final(self).room(id) == old(self).room(id),
    {
        match self.find(web_rid) {
            Some(j) => {
                let room = self.rooms[j].duplicate();
                let updated = RoomSnapshot { status, ..room };
                self.update_at(j, updated);
            },
            None => {},
        }
    }
}

} // verus!
