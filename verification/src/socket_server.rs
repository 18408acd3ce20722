//! The chat server's registry: which sessions are connected, which rooms
//! exist and who joined them, and to whom each event must be delivered.
//!
//! Delivering a message is the caller's work; the registry says to whom.
use std::collections::{HashMap, HashSet};
use chrono::NaiveDateTime;
use vstd::prelude::*;
use crate::ids::{uuid_text, uuid_to_string};

verus! {

broadcast use vstd::std_specs::hash::group_hash_axioms;

/// A chat room: its name and the sessions that joined it.
struct Room {
    name: String,
    members: HashSet<u128>,
}

/// The registry seen as mathematics: the address registered for each session,
/// and the set of sessions that joined each room.
#[verifier::ext_equal]
pub struct ChatModel<R> {
    pub sessions: Map<u128, R>,
    pub rooms: Map<Seq<char>, Set<u128>>,
}

/// Every member of every room is a connected session.
pub open spec fn model_wf<R>(m: ChatModel<R>) -> bool {
    forall|name: Seq<char>, id: u128|
        #![trigger m.rooms[name].contains(id)]
        m.rooms.contains_key(name) && m.rooms[name].contains(id) ==> m.sessions.contains_key(id)
}

/// The members of a room; a room that does not exist has none.
pub open spec fn members_of<R>(m: ChatModel<R>, room: Seq<char>) -> Set<u128> {
    if m.rooms.contains_key(room) {
        m.rooms[room]
    } else {
        Set::empty()
    }
}

/// The state after session `id`, reachable at `addr`, joins `room`
/// (the room is created when it does not exist yet).
pub open spec fn model_connect<R>(m: ChatModel<R>, id: u128, room: Seq<char>, addr: R) -> ChatModel<R> {
    ChatModel {
        sessions: m.sessions.insert(id, addr),
        rooms: m.rooms.insert(room, members_of(m, room).insert(id)),
    }
}

/// The sessions told that `id` joined `room`: the room's other members.
pub open spec fn join_notices<R>(m: ChatModel<R>, id: u128, room: Seq<char>) -> Set<u128> {
    members_of(m, room).remove(id)
}

/// Every room, with `id` taken out of its members.
pub open spec fn without_member(rooms: Map<Seq<char>, Set<u128>>, id: u128) -> Map<Seq<char>, Set<u128>> {
    Map::new(|name: Seq<char>| rooms.contains_key(name), |name: Seq<char>| rooms[name].remove(id))
}

/// The state after session `id` disconnects: when it is connected, it is
/// forgotten and leaves every room; otherwise nothing changes.
pub open spec fn model_disconnect<R>(m: ChatModel<R>, id: u128) -> ChatModel<R> {
    if m.sessions.contains_key(id) {
        ChatModel { sessions: m.sessions.remove(id), rooms: without_member(m.rooms, id) }
    } else {
        m
    }
}

/// The rooms that session `id` is a member of.
pub open spec fn rooms_of<R>(m: ChatModel<R>, id: u128) -> Set<Seq<char>> {
    Set::new(|name: Seq<char>| m.rooms.contains_key(name) && m.rooms[name].contains(id))
}

/// The views of a list of strings.
pub open spec fn string_views(names: Seq<String>) -> Seq<Seq<char>> {
    names.map_values(|s: String| s@)
}

spec fn room_names_distinct(rooms: Seq<Room>) -> bool {
    forall|i: int, j: int|
        0 <= i < rooms.len() && 0 <= j < rooms.len() && i != j ==> #[trigger] rooms[i].name@
            != #[trigger] rooms[j].name@
}

spec fn has_room(rooms: Seq<Room>, name: Seq<char>) -> bool {
    exists|i: int| 0 <= i < rooms.len() && #[trigger] rooms[i].name@ == name
}

spec fn room_index(rooms: Seq<Room>, name: Seq<char>) -> int {
    choose|i: int| 0 <= i < rooms.len() && #[trigger] rooms[i].name@ == name
}

spec fn rooms_map(rooms: Seq<Room>) -> Map<Seq<char>, Set<u128>> {
    Map::new(
        |name: Seq<char>| has_room(rooms, name),
        |name: Seq<char>| rooms[room_index(rooms, name)].members@,
    )
}

proof fn lemma_room_index(rooms: Seq<Room>, i: int)
    requires
        room_names_distinct(rooms),
        0 <= i < rooms.len(),
    ensures
        has_room(rooms, rooms[i].name@),
        room_index(rooms, rooms[i].name@) == i,
        rooms_map(rooms).contains_key(rooms[i].name@),
        rooms_map(rooms)[rooms[i].name@] == rooms[i].members@,
{
    let name = rooms[i].name@;
    assert(has_room(rooms, name));
    let j = room_index(rooms, name);
    assert(rooms[j].name@ == name);
}

proof fn lemma_rooms_map_update(rooms: Seq<Room>, i: int, r: Room)
    requires
        room_names_distinct(rooms),
        0 <= i < rooms.len(),
        r.name@ == rooms[i].name@,
    ensures
        room_names_distinct(rooms.update(i, r)),
        rooms_map(rooms.update(i, r)) == rooms_map(rooms).insert(r.name@, r.members@),
{
    let s2 = rooms.update(i, r);
    assert(room_names_distinct(s2)) by {
        assert forall|a: int, b: int|
            0 <= a < s2.len() && 0 <= b < s2.len() && a != b implies #[trigger] s2[a].name@
            != #[trigger] s2[b].name@ by {
            assert(rooms[a].name@ != rooms[b].name@);
        }
    }
    lemma_room_index(s2, i);
    let expected = rooms_map(rooms).insert(r.name@, r.members@);
    assert forall|k: Seq<char>| #[trigger] rooms_map(s2).contains_key(k) <==> expected.contains_key(k) by {
        if has_room(rooms, k) {
            let j = choose|j: int| 0 <= j < rooms.len() && #[trigger] rooms[j].name@ == k;
            assert(s2[j].name@ == k);
        }
        if has_room(s2, k) {
            let j = choose|j: int| 0 <= j < s2.len() && #[trigger] s2[j].name@ == k;
            if j != i {
                assert(rooms[j].name@ == k);
            }
        }
    }
    assert forall|k: Seq<char>| #[trigger] rooms_map(s2).contains_key(k) implies rooms_map(s2)[k]
        == expected[k] by {
        if k != r.name@ {
            let j = room_index(s2, k);
            assert(s2[j].name@ == k);
            assert(j != i);
            assert(rooms[j] == s2[j]);
            lemma_room_index(rooms, j);
            lemma_room_index(s2, j);
        }
    }
    assert(rooms_map(s2) =~= expected);
}

proof fn lemma_rooms_map_push(rooms: Seq<Room>, r: Room)
    requires
        room_names_distinct(rooms),
        !has_room(rooms, r.name@),
    ensures
        room_names_distinct(rooms.push(r)),
        has_room(rooms.push(r), r.name@),
        rooms_map(rooms.push(r)) == rooms_map(rooms).insert(r.name@, r.members@),
{
    let s2 = rooms.push(r);
    let n = rooms.len() as int;
    assert(room_names_distinct(s2)) by {
        assert forall|a: int, b: int|
            0 <= a < s2.len() && 0 <= b < s2.len() && a != b implies #[trigger] s2[a].name@
            != #[trigger] s2[b].name@ by {
            if a < n && b < n {
                assert(rooms[a].name@ != rooms[b].name@);
            } else if a < n {
                assert(rooms[a].name@ == s2[a].name@);
            } else {
                assert(rooms[b].name@ == s2[b].name@);
            }
        }
    }
    lemma_room_index(s2, n);
    let expected = rooms_map(rooms).insert(r.name@, r.members@);
    assert forall|k: Seq<char>| #[trigger] rooms_map(s2).contains_key(k) <==> expected.contains_key(k) by {
        if has_room(rooms, k) {
            let j = choose|j: int| 0 <= j < rooms.len() && #[trigger] rooms[j].name@ == k;
            assert(s2[j].name@ == k);
        }
        if has_room(s2, k) {
            let j = choose|j: int| 0 <= j < s2.len() && #[trigger] s2[j].name@ == k;
            if j != n {
                assert(rooms[j].name@ == k);
            }
        }
    }
    assert forall|k: Seq<char>| #[trigger] rooms_map(s2).contains_key(k) implies rooms_map(s2)[k]
        == expected[k] by {
        if k != r.name@ {
            let j = room_index(s2, k);
            assert(s2[j].name@ == k);
            assert(j != n);
            assert(rooms[j] == s2[j]);
            lemma_room_index(rooms, j);
            lemma_room_index(s2, j);
        }
    }
    assert(rooms_map(s2) =~= expected);
}

proof fn lemma_rooms_map_without(old_rooms: Seq<Room>, new_rooms: Seq<Room>, id: u128)
    requires
        room_names_distinct(old_rooms),
        old_rooms.len() == new_rooms.len(),
        forall|j: int| 0 <= j < old_rooms.len() ==> #[trigger] new_rooms[j].name@ == old_rooms[j].name@,
        forall|j: int|
            0 <= j < old_rooms.len() ==> #[trigger] new_rooms[j].members@
                == old_rooms[j].members@.remove(id),
    ensures
        room_names_distinct(new_rooms),
        rooms_map(new_rooms) == without_member(rooms_map(old_rooms), id),
{
    assert(room_names_distinct(new_rooms)) by {
        assert forall|a: int, b: int|
            0 <= a < new_rooms.len() && 0 <= b < new_rooms.len() && a != b implies #[trigger] new_rooms[a].name@
            != #[trigger] new_rooms[b].name@ by {
            assert(old_rooms[a].name@ != old_rooms[b].name@);
        }
    }
    let expected = without_member(rooms_map(old_rooms), id);
    assert forall|k: Seq<char>| #[trigger] rooms_map(new_rooms).contains_key(k) <==> expected.contains_key(k) by {
        if has_room(old_rooms, k) {
            let j = choose|j: int| 0 <= j < old_rooms.len() && #[trigger] old_rooms[j].name@ == k;
            assert(new_rooms[j].name@ == k);
        }
        if has_room(new_rooms, k) {
            let j = choose|j: int| 0 <= j < new_rooms.len() && #[trigger] new_rooms[j].name@ == k;
            assert(old_rooms[j].name@ == k);
        }
    }
    assert forall|k: Seq<char>| #[trigger] rooms_map(new_rooms).contains_key(k) implies rooms_map(
        new_rooms,
    )[k] == expected[k] by {
        let j = room_index(new_rooms, k);
        assert(new_rooms[j].name@ == k);
        assert(old_rooms[j].name@ == k);
        lemma_room_index(old_rooms, j);
        lemma_room_index(new_rooms, j);
    }
    assert(rooms_map(new_rooms) =~= expected);
}

/// Where `name` stands in `rooms`, if it does.
fn find_room(rooms: &Vec<Room>, name: &String) -> (res: Option<usize>)
    ensures
        match res {
            Some(i) => i < rooms@.len() && rooms@[i as int].name@ == name@,
            None => !has_room(rooms@, name@),
        },
{
    let mut i: usize = 0;
    while i < rooms.len()
        invariant
            i <= rooms@.len(),
            forall|j: int| 0 <= j < i ==> #[trigger] rooms@[j].name@ != name@,
        decreases rooms@.len() - i,
    {
        if rooms[i].name == *name {
            return Some(i);
        }
        i = i + 1;
    }
    None
}

/// The members of a room, each once, leaving out `skip` when given.
fn member_ids(members: &HashSet<u128>, skip: Option<u128>) -> (res: Vec<u128>)
    ensures
        res@.no_duplicates(),
        res@.to_set() == match skip {
            Some(s) => members@.remove(s),
            None => members@,
        },
{
    let mut out: Vec<u128> = Vec::new();
    for m in it: members.iter()
        invariant
            it.seq().unref().to_set() == members@,
            it.seq().unref().no_duplicates(),
            out@.no_duplicates(),
            forall|x: u128|
                out@.contains(x) <==> (exists|j: int|
                    0 <= j < it.index() && it.seq().unref()[j] == x && skip != Some(x)),
        ensures
            out@.no_duplicates(),
            forall|x: u128| out@.contains(x) <==> (members@.contains(x) && skip != Some(x)),
    {
        let x = *m;
        let ghost k = it.index();
        assert(it.seq().unref()[k] == x);
        let keep = match skip {
            Some(s) => s != x,
            None => true,
        };
        if keep {
            assert(!out@.contains(x));
            let ghost prev = out@;
            out.push(x);
            assert forall|y: u128|
                out@.contains(y) <==> (exists|j: int|
                    0 <= j < k + 1 && it.seq().unref()[j] == y && skip != Some(y)) by {
                if out@.contains(y) && y != x {
                    assert(prev.contains(y)) by {
                        let q = choose|q: int| 0 <= q < out@.len() && out@[q] == y;
                        assert(q < out@.len() - 1);
                    }
                }
                if exists|j: int| 0 <= j < k + 1 && it.seq().unref()[j] == y && skip != Some(y) {
                    let j = choose|j: int| 0 <= j < k + 1 && it.seq().unref()[j] == y && skip != Some(y);
                    if j < k {
                        assert(prev.contains(y));
                        let q = choose|q: int| 0 <= q < prev.len() && prev[q] == y;
                        assert(out@[q] == y);
                    } else {
                        assert(out@[out@.len() - 1] == y);
                    }
                }
            }
        }
    }
    proof {
        let expected = match skip {
            Some(s) => members@.remove(s),
            None => members@,
        };
        assert(out@.to_set() =~= expected);
    }
    out
}

/// The text sent to a room's other members when a session joins it.
pub fn joined_message(id: u128) -> (res: String)
    ensures
        res@ == uuid_text(id) + " just joined!"@,
{
    let mut text = uuid_to_string(id);
    text.append(" just joined!");
    text
}

/// Whether a millisecond stamp names a `NaiveDateTime`: it lies between
/// midnight of `NaiveDate::MIN` (year -262143) and the last millisecond of
/// `NaiveDate::MAX` (year 262142), both counted from the Unix epoch.
pub open spec fn millis_in_range(ms: i64) -> bool {
    -8_334_601_228_800_000 <= ms <= 8_210_266_876_799_999
}

/// The date-time `NaiveDateTime::from_timestamp_millis` gives for a stamp in range.
pub uninterp spec fn datetime_of_millis(ms: i64) -> NaiveDateTime;

/// Calls `chrono::NaiveDateTime::from_timestamp_millis`. Trusted: it yields a
/// value exactly when the stamp lies in chrono's range (the stamp is split into
/// whole seconds and nanoseconds with `div_euclid`/`rem_euclid`, and
/// `NaiveDate::from_num_days_from_ce_opt` accepts exactly the days from
/// `NaiveDate::MIN` to `NaiveDate::MAX`), and the value depends on the stamp
/// alone, named `datetime_of_millis`.
#[verifier::external_body]
#[allow(deprecated)]
fn naive_from_timestamp_millis(ms: i64) -> (res: Option<NaiveDateTime>)
    ensures
        res.is_some() == millis_in_range(ms),
        res matches Some(t) ==> t == datetime_of_millis(ms),
{
    NaiveDateTime::from_timestamp_millis(ms)
}

#[verifier::external_type_specification]
#[verifier::external_body]
pub struct ExNaiveDateTime(NaiveDateTime);

/// What to do with a message a session sent to a room.
pub enum ClientMessagePlan {
    /// The message's timestamp names no date-time: nothing is stored or sent.
    Dropped,
    /// Store the message at `created_at` (the date-time of its stamp), then fail:
    /// the room is not registered.
    UnknownRoom { created_at: NaiveDateTime },
    /// Store the message at `created_at` (the date-time of its stamp) and send
    /// it to each of `targets`.
    Deliver { created_at: NaiveDateTime, targets: Vec<u128> },
}

/// The registry of sessions (each reachable at an address of type `R`) and rooms.
pub struct ChatServer<R> {
    sessions: HashMap<u128, R>,
    rooms: Vec<Room>,
}

impl<R> ChatServer<R> {
    #[verifier::type_invariant]
    spec fn wf(self) -> bool {
        &&& room_names_distinct(self.rooms@)
        &&& forall|i: int, m: u128|
            #![trigger self.rooms@[i].members@.contains(m)]
            0 <= i < self.rooms@.len() && self.rooms@[i].members@.contains(m)
                ==> self.sessions@.contains_key(m)
    }
}

impl<R> Default for ChatServer<R> {
    /// A registry with no session and no room.
    fn default() -> (res: Self)
        ensures
            res@.sessions == Map::<u128, R>::empty(),
            res@.rooms == Map::<Seq<char>, Set<u128>>::empty(),
            model_wf(res@),
    {
        Self::new()
    }
}

impl<R> View for ChatServer<R> {
    type V = ChatModel<R>;

    closed spec fn view(&self) -> ChatModel<R> {
        ChatModel { sessions: self.sessions@, rooms: rooms_map(self.rooms@) }
    }
}

impl<R> ChatServer<R> {
    /// A registry with no session and no room.
    pub fn new() -> (res: Self)
        ensures
            res@.sessions == Map::<u128, R>::empty(),
            res@.rooms == Map::<Seq<char>, Set<u128>>::empty(),
            model_wf(res@),
    {
        let res = ChatServer { sessions: HashMap::new(), rooms: Vec::new() };
        assert(rooms_map(res.rooms@) =~= Map::<Seq<char>, Set<u128>>::empty());
        res
    }

    proof fn lemma_view_wf(&self)
        requires
            self.wf(),
        ensures
            model_wf(self@),
    {
        assert forall|name: Seq<char>, id: u128|
            self@.rooms.contains_key(name) && #[trigger] self@.rooms[name].contains(id) implies self@.sessions.contains_key(id) by {
            let j = room_index(self.rooms@, name);
            assert(self.rooms@[j].members@.contains(id));
        }
    }

    /// The recipient a message for session `to_id` goes to, with the message's text;
    /// nothing when that session is not connected.
    pub fn send_message(&self, to_id: u128, message: &str) -> (res: Option<(&R, String)>)
        ensures
            match res {
                Some((addr, text)) => self@.sessions.contains_key(to_id) && *addr
                    == self@.sessions[to_id] && text@ == message@,
                None => !self@.sessions.contains_key(to_id),
            },
    {
        match self.sessions.get(&to_id) {
            Some(addr) => Some((addr, message.to_owned())),
            None => None,
        }
    }

    /// Session `self_id`, reachable at `addr`, joins room `room_id` (created when
    /// missing). Returns the sessions to tell that it joined: the room's other
    /// members, each once.
    pub fn connect(&mut self, self_id: u128, room_id: String, addr: R) -> (notified: Vec<u128>)
        ensures
            final(self)@ == model_connect(old(self)@, self_id, room_id@, addr),
            model_wf(final(self)@),
            notified@.no_duplicates(),
            notified@.to_set() == join_notices(old(self)@, self_id, room_id@),
    {
        proof {
            use_type_invariant(&*self);
        }
        let ghost old_model = self@;
        let mut taken = Self::new();
        std::mem::swap(self, &mut taken);
        proof {
            use_type_invariant(&taken);
        }
        let ChatServer { mut sessions, mut rooms } = taken;
        let ghost rooms0 = rooms@;
        let i: usize = match find_room(&rooms, &room_id) {
            Some(i) => {
                proof {
                    lemma_room_index(rooms@, i as int);
                }
                i
            },
            None => {
                let fresh = Room { name: room_id.clone(), members: HashSet::new() };
                proof {
                    lemma_rooms_map_push(rooms@, fresh);
                }
                rooms.push(fresh);
                proof {
                    lemma_room_index(rooms@, rooms@.len() - 1);
                }
                rooms.len() - 1
            },
        };
        let ghost rooms1 = rooms@;
        assert(rooms_map(rooms1)[room_id@] == members_of(old_model, room_id@));
        assert(rooms1[i as int].members@ == members_of(old_model, room_id@));
        let Room { name, mut members } = rooms.remove(i);
        let ghost members0 = members@;
        members.insert(self_id);
        assert(members@ == members0.insert(self_id));
        let notified = member_ids(&members, Some(self_id));
        assert(members0.insert(self_id).remove(self_id) =~= members0.remove(self_id));
        assert(members0 == members_of(old_model, room_id@));
        let updated = Room { name, members };
        rooms.insert(i, updated);
        proof {
            assert(rooms@ =~= rooms1.update(i as int, updated));
            lemma_rooms_map_update(rooms1, i as int, updated);
        }
        sessions.insert(self_id, addr);
        proof {
            assert forall|a: int, x: u128|
                0 <= a < rooms@.len() && #[trigger] rooms@[a].members@.contains(x) implies sessions@.contains_key(x) by {
                if a != i {
                    assert(rooms1[a] == rooms@[a]);
                } else if x != self_id {
                    assert(members0.contains(x));
                    assert(rooms1[a].members@.contains(x));
                }
            }
        }
        *self = ChatServer { sessions, rooms };
        proof {
            use_type_invariant(&*self);
            assert(self@ =~= model_connect(old_model, self_id, room_id@, addr));
            self.lemma_view_wf();
        }
        notified
    }

    /// Session `id` disconnects: when it is connected, it is forgotten and
    /// leaves every room. Returns the names of the rooms it left, each once.
    pub fn disconnect(&mut self, id: u128) -> (left: Vec<String>)
        ensures
            final(self)@ == model_disconnect(old(self)@, id),
            model_wf(final(self)@),
            string_views(left@).no_duplicates(),
            string_views(left@).to_set() == rooms_of(old(self)@, id),
    {
        proof {
            use_type_invariant(&*self);
            self.lemma_view_wf();
        }
        let ghost old_model = self@;
        let mut taken = Self::new();
        std::mem::swap(self, &mut taken);
        proof {
            use_type_invariant(&taken);
        }
        let ChatServer { mut sessions, mut rooms } = taken;
        let ghost rooms0 = rooms@;
        let mut left: Vec<String> = Vec::new();
        if sessions.remove(&id).is_some() {
            let mut r: usize = 0;
            while r < rooms.len()
                invariant
                    r <= rooms@.len(),
                    rooms@.len() == rooms0.len(),
                    room_names_distinct(rooms0),
                    forall|j: int| 0 <= j < r ==> #[trigger] rooms@[j].name@ == rooms0[j].name@,
                    forall|j: int| 0 <= j < r ==> #[trigger] rooms@[j].members@ == rooms0[j].members@.remove(id),
                    forall|j: int| r <= j < rooms@.len() ==> #[trigger] rooms@[j] == rooms0[j],
                    string_views(left@).no_duplicates(),
                    forall|name: Seq<char>|
                        #[trigger] string_views(left@).contains(name) <==> (exists|j: int|
                            0 <= j < r && rooms0[j].name@ == name && rooms0[j].members@.contains(id)),
                decreases rooms@.len() - r,
            {
                let ghost before = rooms@;
                assert(before[r as int] == rooms0[r as int]);
                let Room { name, mut members } = rooms.remove(r);
                let had = members.remove(&id);
                if had {
                    let ghost prev = string_views(left@);
                    let text = name.clone();
                    assert(!prev.contains(text@)) by {
                        if prev.contains(text@) {
                            let j = choose|j: int|
                                0 <= j < r && rooms0[j].name@ == text@ && rooms0[j].members@.contains(id);
                            assert(rooms0[j].name@ != rooms0[r as int].name@);
                        }
                    }
                    left.push(text);
                    assert(string_views(left@) =~= prev.push(name@));
                    assert forall|n: Seq<char>|
                        #[trigger] string_views(left@).contains(n) <==> (exists|j: int|
                            0 <= j < r + 1 && rooms0[j].name@ == n && rooms0[j].members@.contains(id)) by {
                        let views = string_views(left@);
                        if views.contains(n) && n != name@ {
                            let q = choose|q: int| 0 <= q < views.len() && views[q] == n;
                            assert(prev[q] == n);
                        }
                        if exists|j: int| 0 <= j < r + 1 && rooms0[j].name@ == n && rooms0[j].members@.contains(id) {
                            let j = choose|j: int|
                                0 <= j < r + 1 && rooms0[j].name@ == n && rooms0[j].members@.contains(id);
                            if j < r {
                                assert(prev.contains(n));
                                let q = choose|q: int| 0 <= q < prev.len() && prev[q] == n;
                                assert(views[q] == n);
                            } else {
                                assert(views[views.len() - 1] == n);
                            }
                        }
                    }
                } else {
                    assert forall|n: Seq<char>|
                        #[trigger] string_views(left@).contains(n) <==> (exists|j: int|
                            0 <= j < r + 1 && rooms0[j].name@ == n && rooms0[j].members@.contains(id)) by {
                        if exists|j: int| 0 <= j < r + 1 && rooms0[j].name@ == n && rooms0[j].members@.contains(id) {
                            let j = choose|j: int|
                                0 <= j < r + 1 && rooms0[j].name@ == n && rooms0[j].members@.contains(id);
                            assert(j < r);
                        }
                    }
                }
                let updated = Room { name, members };
                rooms.insert(r, updated);
                assert(rooms@ =~= before.update(r as int, updated));
                r = r + 1;
            }
            proof {
                lemma_rooms_map_without(rooms0, rooms@, id);
                assert forall|a: int, x: u128|
                    0 <= a < rooms@.len() && #[trigger] rooms@[a].members@.contains(x) implies sessions@.contains_key(x) by {
                    assert(rooms0[a].members@.contains(x));
                }
                assert forall|n: Seq<char>| #[trigger] string_views(left@).to_set().contains(n) <==> rooms_of(old_model, id).contains(n) by {
                    if string_views(left@).contains(n) {
                        let j = choose|j: int|
                            0 <= j < rooms0.len() && rooms0[j].name@ == n && rooms0[j].members@.contains(id);
                        lemma_room_index(rooms0, j);
                    }
                    if rooms_of(old_model, id).contains(n) {
                        let j = room_index(rooms0, n);
                        assert(rooms0[j].name@ == n);
                        assert(rooms0[j].members@.contains(id));
                    }
                }
                assert(string_views(left@).to_set() =~= rooms_of(old_model, id));
            }
            *self = ChatServer { sessions, rooms };
            proof {
                use_type_invariant(&*self);
                assert(self@ =~= model_disconnect(old_model, id));
                self.lemma_view_wf();
            }
        } else {
            proof {
                assert forall|n: Seq<char>| !(#[trigger] rooms_of(old_model, id).contains(n)) by {
                    if rooms_of(old_model, id).contains(n) {
                        assert(old_model.rooms[n].contains(id));
                    }
                }
                assert(string_views(left@).to_set() =~= rooms_of(old_model, id));
            }
            *self = ChatServer { sessions, rooms };
            proof {
                use_type_invariant(&*self);
                assert(self@ =~= model_disconnect(old_model, id));
                self.lemma_view_wf();
            }
        }
        left
    }

    /// The names of all rooms, each once.
    pub fn list_rooms(&self) -> (names: Vec<String>)
        ensures
            string_views(names@).no_duplicates(),
            string_views(names@).to_set() == self@.rooms.dom(),
    {
        proof {
            use_type_invariant(self);
        }
        let mut names: Vec<String> = Vec::new();
        let mut r: usize = 0;
        while r < self.rooms.len()
            invariant
                r <= self.rooms@.len(),
                room_names_distinct(self.rooms@),
                names@.len() == r,
                forall|j: int| 0 <= j < r ==> #[trigger] names@[j]@ == self.rooms@[j].name@,
            decreases self.rooms@.len() - r,
        {
            names.push(self.rooms[r].name.clone());
            r = r + 1;
        }
        proof {
            let views = string_views(names@);
            assert forall|a: int, b: int| 0 <= a < views.len() && 0 <= b < views.len() && a != b implies views[a] != views[b] by {
                assert(self.rooms@[a].name@ != self.rooms@[b].name@);
            }
            assert forall|n: Seq<char>| #[trigger] views.to_set().contains(n) <==> self@.rooms.dom().contains(n) by {
                if views.contains(n) {
                    let j = choose|j: int| 0 <= j < views.len() && views[j] == n;
                    assert(self.rooms@[j].name@ == n);
                }
                if has_room(self.rooms@, n) {
                    let j = choose|j: int| 0 <= j < self.rooms@.len() && #[trigger] self.rooms@[j].name@ == n;
                    assert(views[j] == n);
                }
            }
            assert(views.to_set() =~= self@.rooms.dom());
        }
        names
    }

    /// What to do with message text a session sent to `room`, stamped
    /// `created_at_ms` milliseconds after the epoch: drop it when the stamp
    /// names no date-time; otherwise store it, and send it to every member of
    /// the room (the sender included), or fail when the room is unknown.
    pub fn client_message(&self, room: &String, created_at_ms: i64) -> (plan: ClientMessagePlan)
        ensures
            match plan {
                ClientMessagePlan::Dropped => !millis_in_range(created_at_ms),
                ClientMessagePlan::UnknownRoom { created_at } => millis_in_range(created_at_ms)
                    && created_at == datetime_of_millis(created_at_ms)
                    && !self@.rooms.contains_key(room@),
                ClientMessagePlan::Deliver { created_at, targets } => {
                    &&& millis_in_range(created_at_ms)
                    &&& created_at == datetime_of_millis(created_at_ms)
                    &&& self@.rooms.contains_key(room@)
                    &&& targets@.no_duplicates()
                    &&& targets@.to_set() == self@.rooms[room@]
                },
            },
    {
        proof {
            use_type_invariant(self);
        }
        let created_at = match naive_from_timestamp_millis(created_at_ms) {
            Some(t) => t,
            None => return ClientMessagePlan::Dropped,
        };
        match find_room(&self.rooms, room) {
            None => ClientMessagePlan::UnknownRoom { created_at },
            Some(i) => {
                proof {
                    lemma_room_index(self.rooms@, i as int);
                }
                let targets = member_ids(&self.rooms[i].members, None);
                ClientMessagePlan::Deliver { created_at, targets }
            },
        }
    }
}

/// Joining a room keeps every room member a connected session.
pub proof fn connect_keeps_wf<R>(m: ChatModel<R>, id: u128, room: Seq<char>, addr: R)
    requires
        model_wf(m),
    ensures
        model_wf(model_connect(m, id, room, addr)),
{
    let m2 = model_connect(m, id, room, addr);
    assert forall|name: Seq<char>, x: u128|
        m2.rooms.contains_key(name) && #[trigger] m2.rooms[name].contains(x) implies m2.sessions.contains_key(x) by {
        if name != room {
            assert(m.rooms[name].contains(x));
        } else if x != id {
            assert(m.rooms[name].contains(x));
        }
    }
}

/// Disconnecting keeps every room member a connected session.
pub proof fn disconnect_keeps_wf<R>(m: ChatModel<R>, id: u128)
    requires
        model_wf(m),
    ensures
        model_wf(model_disconnect(m, id)),
{
    let m2 = model_disconnect(m, id);
    assert forall|name: Seq<char>, x: u128|
        m2.rooms.contains_key(name) && #[trigger] m2.rooms[name].contains(x) implies m2.sessions.contains_key(x) by {
        assert(m.rooms[name].contains(x));
    }
}

/// After a session disconnects it is neither connected nor a member of any room.
pub proof fn disconnect_forgets_session<R>(m: ChatModel<R>, id: u128)
    requires
        model_wf(m),
    ensures
        !model_disconnect(m, id).sessions.contains_key(id),
        forall|name: Seq<char>|
            #[trigger] model_disconnect(m, id).rooms.contains_key(name) ==> !model_disconnect(m, id).rooms[name].contains(id),
{
    assert forall|name: Seq<char>|
        #[trigger] model_disconnect(m, id).rooms.contains_key(name) implies !model_disconnect(m, id).rooms[name].contains(id) by {
        if !m.sessions.contains_key(id) && m.rooms[name].contains(id) {
            assert(m.sessions.contains_key(id));
        }
    }
}

/// After a session joins a room it is a member of that room and reachable at the address it gave.
pub proof fn connect_joins_room<R>(m: ChatModel<R>, id: u128, room: Seq<char>, addr: R)
    ensures
        model_connect(m, id, room, addr).rooms.contains_key(room),
        model_connect(m, id, room, addr).rooms[room].contains(id),
        model_connect(m, id, room, addr).sessions.contains_key(id),
        model_connect(m, id, room, addr).sessions[id] == addr,
{
}

/// Joining changes nothing but the joiner: every other session keeps its
/// address, every other room keeps its members, and the joined room's members
/// are its former members and the joiner.
pub proof fn connect_changes_only_the_joiner<R>(m: ChatModel<R>, id: u128, room: Seq<char>, addr: R)
    ensures
        forall|s: u128|
            s != id ==> (#[trigger] model_connect(m, id, room, addr).sessions.contains_key(s) == m.sessions.contains_key(s)
                && (m.sessions.contains_key(s) ==> model_connect(m, id, room, addr).sessions[s] == m.sessions[s])),
        forall|name: Seq<char>|
            name != room ==> (#[trigger] model_connect(m, id, room, addr).rooms.contains_key(name) == m.rooms.contains_key(
                name,
            ) && (m.rooms.contains_key(name) ==> model_connect(m, id, room, addr).rooms[name] == m.rooms[name])),
        forall|x: u128|
            #[trigger] model_connect(m, id, room, addr).rooms[room].contains(x) <==> (x == id || (m.rooms.contains_key(room)
                && m.rooms[room].contains(x))),
        forall|x: u128| #[trigger] join_notices(m, id, room).contains(x) <==> (x != id && m.rooms.contains_key(room)
            && m.rooms[room].contains(x)),
{
}

/// Leaving takes the session out and nothing else: a connected session is
/// forgotten, every other session keeps its address, and every room keeps
/// exactly its other members; a session that was not connected changes nothing.
pub proof fn disconnect_changes_only_the_leaver<R>(m: ChatModel<R>, id: u128)
    ensures
        !m.sessions.contains_key(id) ==> model_disconnect(m, id) == m,
        forall|s: u128|
            s != id ==> (#[trigger] model_disconnect(m, id).sessions.contains_key(s) == m.sessions.contains_key(s) && (
            m.sessions.contains_key(s) ==> model_disconnect(m, id).sessions[s] == m.sessions[s])),
        forall|name: Seq<char>, x: u128|
            m.sessions.contains_key(id) && m.rooms.contains_key(name) ==> (#[trigger] model_disconnect(m, id).rooms[name].contains(x)
                <==> (x != id && m.rooms[name].contains(x))),
{
}

/// Rooms are never removed: joining only adds the joined room, and
/// disconnecting keeps every room.
pub proof fn rooms_persist<R>(m: ChatModel<R>, id: u128, room: Seq<char>, addr: R)
    ensures
        model_connect(m, id, room, addr).rooms.dom() == m.rooms.dom().insert(room),
        model_disconnect(m, id).rooms.dom() == m.rooms.dom(),
{
    assert(model_connect(m, id, room, addr).rooms.dom() =~= m.rooms.dom().insert(room));
    assert(model_disconnect(m, id).rooms.dom() =~= m.rooms.dom());
}

/// A session that was not connected, joins a room and then disconnects leaves
/// the sessions and every room's members as they were; the room it joined
/// stays registered (empty if it was new).
pub proof fn disconnect_undoes_connect<R>(m: ChatModel<R>, id: u128, room: Seq<char>, addr: R)
    requires
        model_wf(m),
        !m.sessions.contains_key(id),
    ensures
        model_disconnect(model_connect(m, id, room, addr), id) == (ChatModel {
            sessions: m.sessions,
            rooms: m.rooms.insert(room, members_of(m, room)),
        }),
{
    let m1 = model_connect(m, id, room, addr);
    let m2 = model_disconnect(m1, id);
    let expected = ChatModel { sessions: m.sessions, rooms: m.rooms.insert(room, members_of(m, room)) };
    assert(m1.sessions.contains_key(id));
    assert(m2.sessions =~= m.sessions);
    assert forall|name: Seq<char>| #[trigger] m2.rooms.contains_key(name) implies m2.rooms[name] == expected.rooms[name] by {
        if name == room {
            assert(!members_of(m, room).contains(id)) by {
                if m.rooms.contains_key(room) && m.rooms[room].contains(id) {
                    assert(m.sessions.contains_key(id));
                }
            }
            assert(m2.rooms[name] =~= members_of(m, room));
        } else {
            assert(!m.rooms[name].contains(id)) by {
                if m.rooms[name].contains(id) {
                    assert(m.sessions.contains_key(id));
                }
            }
            assert(m2.rooms[name] =~= m.rooms[name]);
        }
    }
    assert(m2.rooms =~= expected.rooms);
    assert(m2 =~= expected);
}

/// The sessions told that a session joined a room never include the joiner,
/// and are all connected sessions.
pub proof fn joiner_not_notified<R>(m: ChatModel<R>, id: u128, room: Seq<char>)
    requires
        model_wf(m),
    ensures
        !join_notices(m, id, room).contains(id),
        forall|x: u128| #[trigger] join_notices(m, id, room).contains(x) ==> m.sessions.contains_key(x),
{
    assert forall|x: u128| #[trigger] join_notices(m, id, room).contains(x) implies m.sessions.contains_key(x) by {
        assert(m.rooms[room].contains(x));
    }
}

} // verus!
