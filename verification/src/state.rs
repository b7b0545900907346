//! The registry of live rooms: which room is live under which room code.
//!
//! The rooms are kept in a `DashMap`. The registry is modelled by the map
//! from room code to room that it holds; every room in it satisfies the room
//! invariant.

use crate::models::room::{Room, RoomView};
use vstd::prelude::*;

verus! {

/// The live rooms, keyed by room code.
pub type RoomMap = Map<Seq<char>, RoomView>;

/// What a room map holds: for each room code, the room stored under it.
pub uninterp spec fn live_rooms(rooms: dashmap::DashMap<String, Room>) -> RoomMap;

/// What `DashMap::remove` does to the map and returns: with an entry under
/// `code`, that entry leaves the map and its room is returned; without one,
/// nothing changes and nothing is returned.
pub open spec fn took_room(
    before: RoomMap,
    after: RoomMap,
    code: Seq<char>,
    taken: Option<Room>,
) -> bool {
    match taken {
        Some(room) => before.contains_key(code) && room@ == before[code] && after == before.remove(
            code,
        ),
        None => !before.contains_key(code) && after == before,
    }
}

/// Whether `upto` first entries of `codes` name `code`.
pub open spec fn listed(codes: Seq<String>, upto: int, code: Seq<char>) -> bool {
    exists|j: int| 0 <= j < upto && (#[trigger] codes[j])@ == code
}

/// Whether `codes` names every key of `rooms` exactly once.
pub open spec fn lists_codes(codes: Seq<String>, rooms: RoomMap) -> bool {
    &&& rooms.dom().finite()
    &&& codes.len() == rooms.dom().len()
    &&& forall|i: int| 0 <= i < codes.len() ==> rooms.contains_key((#[trigger] codes[i])@)
    &&& forall|code: Seq<char>| #[trigger]
        rooms.contains_key(code) ==> listed(codes, codes.len() as int, code)
    &&& forall|i: int, j: int|
        0 <= i < j < codes.len() ==> (#[trigger] codes[i])@ != (#[trigger] codes[j])@
}

/// `DashMap::new`: a map without entries.
#[verifier::external_body]
pub(crate) fn rooms_new() -> (fresh: dashmap::DashMap<String, Room>)
    ensures
        live_rooms(fresh) == RoomMap::empty(),
{
    dashmap::DashMap::new()
}

/// `DashMap::contains_key`: whether an entry is stored under `code`.
#[verifier::external_body]
pub(crate) fn rooms_contains(rooms: &dashmap::DashMap<String, Room>, code: &str) -> (found: bool)
    ensures
        found == live_rooms(*rooms).contains_key(code@),
{
    rooms.contains_key(code)
}

/// `DashMap::insert`: stores `room` under `code`, replacing what was stored
/// under that key before; the other entries stay.
#[verifier::external_body]
pub(crate) fn rooms_insert(rooms: &mut dashmap::DashMap<String, Room>, code: String, room: Room)
    ensures
        live_rooms(*final(rooms)) == live_rooms(*old(rooms)).insert(code@, room@),
{
    rooms.insert(code, room);
}

/// `DashMap::remove`: takes the entry under `code` out of the map and
/// returns its room, if there is one; the other entries stay.
#[verifier::external_body]
pub(crate) fn rooms_remove(rooms: &mut dashmap::DashMap<String, Room>, code: &str) -> (taken:
    Option<Room>)
    ensures
        took_room(live_rooms(*old(rooms)), live_rooms(*final(rooms)), code@, taken),
{
    rooms.remove(code).map(|(_, room)| room)
}

/// `DashMap::iter`: walks every entry once, in no particular order. The
/// result holds a copy of each key.
#[verifier::external_body]
pub(crate) fn rooms_codes(rooms: &dashmap::DashMap<String, Room>) -> (codes: Vec<String>)
    ensures
        lists_codes(codes@, live_rooms(*rooms)),
{
    rooms.iter().map(|entry| entry.key().clone()).collect()
}

/// The rooms that stay after a sweep at `now`: those that have not been
/// without peers for `timeout_secs` seconds or more.
pub open spec fn after_sweep(rooms: RoomMap, now: int, timeout_secs: int) -> RoomMap {
    Map::new(
        |code: Seq<char>| rooms.contains_key(code) && !rooms[code].idle_beyond(now, timeout_secs),
        |code: Seq<char>| rooms[code],
    )
}

/// The registry of live rooms.
#[derive(Debug)]
pub struct RoomRegistry {
    pub rooms: dashmap::DashMap<String, Room>,
}

impl View for RoomRegistry {
    type V = RoomMap;

    open spec fn view(&self) -> RoomMap {
        live_rooms(self.rooms)
    }
}

impl RoomRegistry {
    /// The invariant of the registry: finitely many rooms, each satisfying
    /// the room invariant.
    pub open spec fn wf(&self) -> bool {
        &&& self@.dom().finite()
        &&& forall|code: Seq<char>| #[trigger] self@.contains_key(code) ==> self@[code].wf()
    }

    /// A registry without rooms.
    pub fn new() -> (registry: RoomRegistry)
        ensures
            registry@ == RoomMap::empty(),
            registry.wf(),
    {
        RoomRegistry { rooms: rooms_new() }
    }

    /// Whether a room is live under `code`.
    pub fn contains(&self, code: &str) -> (found: bool)
        ensures
            found == self@.contains_key(code@),
    {
        rooms_contains(&self.rooms, code)
    }

    /// The number of live rooms.
    pub fn len(&self) -> (count: usize)
        ensures
            count == self@.dom().len(),
    {
        rooms_codes(&self.rooms).len()
    }

    /// Makes `room` live under `code` unless a room is live under that code
    /// already; then the live room stays and `room` is dropped. Returns
    /// whether `room` went in.
    pub fn insert_if_absent(&mut self, code: &str, room: Room) -> (inserted: bool)
        requires
            old(self).wf(),
            room@.wf(),
        ensures
            final(self).wf(),
            inserted == !old(self)@.contains_key(code@),
            inserted ==> final(self)@ == old(self)@.insert(code@, room@),
            !inserted ==> final(self)@ == old(self)@,
    {
        if rooms_contains(&self.rooms, code) {
            false
        } else {
            rooms_insert(&mut self.rooms, code.to_string(), room);
            true
        }
    }

    /// Drops the room that is live under `code`, if any. Returns whether
    /// there was one.
    pub fn remove(&mut self, code: &str) -> (removed: bool)
        requires
            old(self).wf(),
        ensures
            final(self).wf(),
            removed == old(self)@.contains_key(code@),
            final(self)@ == old(self)@.remove(code@),
    {
        let taken = rooms_remove(&mut self.rooms, code);
        proof {
            if taken is None {
                assert(old(self)@.remove(code@) =~= old(self)@);
            }
        }
        taken.is_some()
    }

    /// Takes the room that is live under `code` out of the registry.
    pub(crate) fn take(&mut self, code: &str) -> (taken: Option<Room>)
        requires
            old(self).wf(),
        ensures
            final(self).wf(),
            took_room(old(self)@, final(self)@, code@, taken),
            taken matches Some(room) ==> room@.wf(),
    {
        rooms_remove(&mut self.rooms, code)
    }

    /// Puts `room` under `code`, replacing what was there.
    pub(crate) fn put(&mut self, code: &str, room: Room)
        requires
            old(self).wf(),
            room@.wf(),
        ensures
            final(self).wf(),
            final(self)@ == old(self)@.insert(code@, room@),
    {
        rooms_insert(&mut self.rooms, code.to_string(), room);
    }

    /// Drops every room that has been without peers for at least
    /// `timeout_secs` whole seconds at `now`, and leaves the others as they
    /// are. Returns the codes of the rooms dropped, each once.
    pub fn sweep(&mut self, now: i64, timeout_secs: u64) -> (dropped: Vec<String>)
        requires
            old(self).wf(),
        ensures
            final(self).wf(),
            final(self)@ == after_sweep(old(self)@, now as int, timeout_secs as int),
            forall|code: Seq<char>|
                listed(dropped@, dropped@.len() as int, code) <==> old(self)@.contains_key(code)
                    && old(self)@[code].idle_beyond(now as int, timeout_secs as int),
            forall|i: int, j: int|
                0 <= i < j < dropped@.len() ==> (#[trigger] dropped@[i])@ != (
                #[trigger] dropped@[j])@,
    {
        let codes = rooms_codes(&self.rooms);
        let ghost before = self@;
        let mut dropped: Vec<String> = Vec::new();
        let mut i: usize = 0;
        while i < codes.len()
            invariant
                i <= codes.len(),
                before == old(self)@,
                lists_codes(codes@, before),
                self.wf(),
                forall|code: Seq<char>| #[trigger]
                    self@.contains_key(code) <==> before.contains_key(code) && !(listed(
                        codes@,
                        i as int,
                        code,
                    ) && before[code].idle_beyond(now as int, timeout_secs as int)),
                forall|code: Seq<char>| #[trigger]
                    self@.contains_key(code) ==> self@[code] == before[code],
                forall|code: Seq<char>|
                    #![trigger listed(dropped@, dropped@.len() as int, code)]
                    #![trigger listed(codes@, i as int, code)]
                    listed(dropped@, dropped@.len() as int, code) <==> listed(
                        codes@,
                        i as int,
                        code,
                    ) && before[code].idle_beyond(now as int, timeout_secs as int),
                forall|k: int, l: int|
                    0 <= k < l < dropped@.len() ==> (#[trigger] dropped@[k])@ != (
                    #[trigger] dropped@[l])@,
            decreases codes.len() - i,
        {
            let ghost current = self@;
            let ghost dropped_before = dropped@;
            let code = &codes[i];
            assert(before.contains_key(code@));
            assert(!listed(codes@, i as int, code@));
            assert(current.contains_key(code@));
            proof {
                assert forall|c: Seq<char>|
                    listed(codes@, i as int + 1, c) <==> listed(codes@, i as int, c) || c
                        == code@ by {
                    lemma_listed_step(codes@, i as int, c);
                }
            }
            let taken = rooms_remove(&mut self.rooms, code.as_str());
            match taken {
                Some(room) => {
                    if room.idle_beyond(now, timeout_secs) {
                        assert(!listed(dropped_before, dropped_before.len() as int, code@));
                        dropped.push(code.clone());
                        proof {
                            assert(dropped@ == dropped_before.push(dropped@[dropped@.len() - 1]));
                            assert forall|c: Seq<char>|
                                listed(dropped@, dropped@.len() as int, c) <==> listed(
                                    dropped_before,
                                    dropped_before.len() as int,
                                    c,
                                ) || c == code@ by {
                                lemma_listed_step(dropped@, dropped_before.len() as int, c);
                                lemma_listed_prefix(
                                    dropped_before,
                                    dropped@,
                                    dropped_before.len() as int,
                                    c,
                                );
                            }
                        }
                    } else {
                        rooms_insert(&mut self.rooms, code.clone(), room);
                        assert(self@ =~= current);
                        assert(dropped@ == dropped_before);
                    }
                },
                None => {},
            }
            proof {
                assert forall|c: Seq<char>|
                    listed(dropped@, dropped@.len() as int, c) <==> listed(
                        codes@,
                        i as int + 1,
                        c,
                    ) && before[c].idle_beyond(now as int, timeout_secs as int) by {
                    assert(listed(dropped_before, dropped_before.len() as int, c) <==> listed(
                        codes@,
                        i as int,
                        c,
                    ) && before[c].idle_beyond(now as int, timeout_secs as int));
                }
            }
            i += 1;
        }
        proof {
            assert forall|code: Seq<char>|
                listed(codes@, codes@.len() as int, code) <==> before.contains_key(code) by {
                if listed(codes@, codes@.len() as int, code) {
                    let k = choose|k: int|
                        0 <= k < codes@.len() && (#[trigger] codes@[k])@ == code;
                    assert(before.contains_key(codes@[k]@));
                }
            }
            assert(self@ =~= after_sweep(before, now as int, timeout_secs as int));
        }
        dropped
    }
}

/// One more entry of `codes` names `code` exactly when the earlier ones did
/// or the new one does.
proof fn lemma_listed_step(codes: Seq<String>, upto: int, code: Seq<char>)
    requires
        0 <= upto < codes.len(),
    ensures
        listed(codes, upto + 1, code) <==> listed(codes, upto, code) || codes[upto]@ == code,
{
    if listed(codes, upto + 1, code) {
        let k = choose|k: int| 0 <= k < upto + 1 && (#[trigger] codes[k])@ == code;
        if k < upto {
            assert(listed(codes, upto, code));
        }
    }
    if listed(codes, upto, code) {
        let k = choose|k: int| 0 <= k < upto && (#[trigger] codes[k])@ == code;
        assert(listed(codes, upto + 1, code));
    }
    if codes[upto]@ == code {
        assert(listed(codes, upto + 1, code));
    }
}

/// Two lists that agree on their first `upto` entries name the same codes
/// there.
proof fn lemma_listed_prefix(short: Seq<String>, long: Seq<String>, upto: int, code: Seq<char>)
    requires
        0 <= upto <= short.len() <= long.len(),
        forall|i: int| 0 <= i < upto ==> short[i] == long[i],
    ensures
        listed(short, upto, code) <==> listed(long, upto, code),
{
    if listed(short, upto, code) {
        let k = choose|k: int| 0 <= k < upto && (#[trigger] short[k])@ == code;
        assert(long[k]@ == code);
    }
    if listed(long, upto, code) {
        let k = choose|k: int| 0 <= k < upto && (#[trigger] long[k])@ == code;
        assert(short[k]@ == code);
    }
}

} // verus!
