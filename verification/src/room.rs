//! One active game session and its members.
//!
//! A `Lobby` owns the ordered member list (insertion order is join order),
//! the `started` and `public` flags and the last-activity timestamp.  All
//! timestamps are plain seconds handed in by the caller, so the logic here
//! is a pure function of its inputs.  Outbound traffic is described as
//! `Delivery` values — which member index receives which event — and the
//! application layer moves them onto the wire.

use vstd::prelude::*;

use crate::room_code::RoomCode;
use crate::room_event::{PlayerInfo, Role, RoomEvent};

verus! {

/// One connected member: identity, room-scoped id, role and the time of its
/// last inbound activity.
pub struct Player {
    pub name: String,
    pub id: u32,
    pub role: Role,
    pub hb: u64,
}

impl Clone for Player {
    fn clone(&self) -> (r: Self)
        ensures
            r == *self,
    {
        Player { name: self.name.clone(), id: self.id, role: self.role, hb: self.hb }
    }
}

/// One room: member list, game-lifecycle flags and last activity.
pub struct Lobby {
    pub players: Vec<Player>,
    pub started: bool,
    pub public: bool,
    pub updated: u64,
}

/// One outbound event: deliver `event` to the member at index `to` of the
/// room's current member list.
pub struct Delivery {
    pub to: usize,
    pub event: RoomEvent,
}

/// The delivery list of a broadcast: `e` to every one of `n` members.
pub open spec fn broadcast_to(n: nat, e: RoomEvent) -> Seq<Delivery> {
    Seq::new(n, |i: int| Delivery { to: i as usize, event: e })
}

/// The delivery list of a directed message: `e` to the member at `i` only.
pub open spec fn unicast(i: int, e: RoomEvent) -> Seq<Delivery> {
    seq![Delivery { to: i as usize, event: e }]
}

/// Index of the first member satisfying `p`, or -1 if there is none.
pub open spec fn first_where(s: Seq<Player>, p: spec_fn(Player) -> bool) -> int
    decreases s.len(),
{
    if s.len() == 0 {
        -1
    } else if p(s[0]) {
        0
    } else {
        let r = first_where(s.skip(1), p);
        if r < 0 {
            -1
        } else {
            r + 1
        }
    }
}

/// Index of the first member holding the host role, or -1.
pub open spec fn first_host(s: Seq<Player>) -> int {
    first_where(s, |q: Player| q.role == Role::Host)
}

/// Index of the first member with id `id`, or -1.
pub open spec fn first_with_id(s: Seq<Player>, id: u32) -> int {
    first_where(s, |q: Player| q.id == id)
}

/// What `first_where` means: -1 exactly when no member satisfies `p`, and
/// otherwise the least satisfying index.
pub proof fn lemma_first_where(s: Seq<Player>, p: spec_fn(Player) -> bool)
    ensures
        first_where(s, p) == -1 ==> forall|j: int| 0 <= j < s.len() ==> !p(s[j]),
        first_where(s, p) != -1 ==> 0 <= first_where(s, p) < s.len() && p(s[first_where(s, p)])
            && forall|j: int| 0 <= j < first_where(s, p) ==> !p(s[j]),
    decreases s.len(),
{
    if s.len() > 0 && !p(s[0]) {
        let tail = s.skip(1);
        lemma_first_where(tail, p);
        assert(forall|j: int| 0 <= j < tail.len() ==> tail[j] == s[j + 1]);
        let r = first_where(tail, p);
        if r < 0 {
            assert forall|j: int| 0 <= j < s.len() implies !p(s[j]) by {
                if j > 0 {
                    assert(s[j] == tail[j - 1]);
                }
            }
        } else {
            assert(first_where(s, p) == r + 1);
            assert(p(s[r + 1]));
            assert forall|j: int| 0 <= j < r + 1 implies !p(s[j]) by {
                if j > 0 {
                    assert(s[j] == tail[j - 1]);
                }
            }
        }
    }
}

/// The member list after every member with id `id` has left, in order.
pub open spec fn remove_id(s: Seq<Player>, id: u32) -> Seq<Player>
    decreases s.len(),
{
    if s.len() == 0 {
        Seq::empty()
    } else {
        let r = remove_id(s.drop_last(), id);
        if s.last().id == id {
            r
        } else {
            r.push(s.last())
        }
    }
}

/// What `remove_id` keeps: no member with the removed id survives, every
/// survivor comes from the input, and a list without that id is unchanged.
pub proof fn lemma_remove_id(s: Seq<Player>, id: u32)
    ensures
        remove_id(s, id).len() <= s.len(),
        forall|j: int|
            0 <= j < remove_id(s, id).len() ==> remove_id(s, id)[j].id != id && exists|k: int|
                0 <= k < s.len() && s[k] == remove_id(s, id)[j],
        (forall|k: int| 0 <= k < s.len() ==> s[k].id != id) ==> remove_id(s, id) =~= s,
    decreases s.len(),
{
    if s.len() > 0 {
        lemma_remove_id(s.drop_last(), id);
        assert(forall|k: int| 0 <= k < s.drop_last().len() ==> s.drop_last()[k] == s[k]);
    }
}

/// The member list as shown to a joining client.
pub open spec fn snapshot(s: Seq<Player>) -> Seq<PlayerInfo> {
    s.map_values(|p: Player| PlayerInfo { name: p.name, id: p.id })
}

impl Lobby {
    /// A fresh room: no members, not started, not public, active at `now`.
    pub fn new(now: u64) -> (l: Lobby)
        ensures
            l.players@.len() == 0,
            !l.started,
            !l.public,
            l.updated == now,
    {
        Lobby { players: Vec::new(), started: false, public: false, updated: now }
    }

    /// Records activity at `now`; everything else is untouched.
    pub fn update(&mut self, now: u64)
        ensures
            *final(self) == (Lobby { updated: now, ..*old(self) }),
    {
        self.updated = now;
    }

    /// The time of the last recorded activity.
    pub fn updated(&self) -> (t: u64)
        ensures
            t == self.updated,
    {
        self.updated
    }

    /// How many members the room currently has.
    pub fn player_count(&self) -> (n: usize)
        ensures
            n == self.players@.len(),
    {
        self.players.len()
    }

    /// Whether the host has started the game.
    pub fn has_started(&self) -> (b: bool)
        ensures
            b == self.started,
    {
        self.started
    }

    /// Whether the room is publicly listed.
    pub fn is_public(&self) -> (b: bool)
        ensures
            b == self.public,
    {
        self.public
    }

    /// Index of the current host, or `None` if the room has no host (the
    /// host left and no re-election exists, by design).
    pub fn host_index(&self) -> (r: Option<usize>)
        ensures
            r matches Some(i) ==> first_host(self.players@) == i && i < self.players@.len(),
            r is None ==> first_host(self.players@) == -1,
    {
        proof {
            lemma_first_where(self.players@, |q: Player| q.role == Role::Host);
        }
        let n = self.players.len();
        let mut i: usize = 0;
        while i < n
            invariant
                n == self.players@.len(),
                i <= n,
                forall|j: int| 0 <= j < i ==> self.players@[j].role != Role::Host,
                first_host(self.players@) == -1 ==> forall|j: int|
                    0 <= j < n ==> self.players@[j].role != Role::Host,
                first_host(self.players@) != -1 ==> 0 <= first_host(self.players@) < n
                    && self.players@[first_host(self.players@)].role == Role::Host && forall|
                    j: int,
                |
                    0 <= j < first_host(self.players@) ==> self.players@[j].role != Role::Host,
            decreases n - i,
        {
            if self.players[i].role == Role::Host {
                return Some(i);
            }
            i = i + 1;
        }
        None
    }

    /// The current host, or `None` if no member holds the host role.
    pub fn host(&self) -> (r: Option<&Player>)
        ensures
            r matches Some(p) ==> first_host(self.players@) >= 0 && *p == self.players@[first_host(
                self.players@,
            )],
            r is None ==> first_host(self.players@) == -1,
    {
        match self.host_index() {
            Some(i) => Some(&self.players[i]),
            None => None,
        }
    }

    /// Index of the first member with id `id`, or `None`.  Room-scoped ids
    /// can repeat after departures; directed messages go to the first match,
    /// in join order.
    pub fn index_of_id(&self, id: u32) -> (r: Option<usize>)
        ensures
            r matches Some(i) ==> first_with_id(self.players@, id) == i && i
                < self.players@.len(),
            r is None ==> first_with_id(self.players@, id) == -1,
    {
        proof {
            lemma_first_where(self.players@, |q: Player| q.id == id);
        }
        let n = self.players.len();
        let mut i: usize = 0;
        while i < n
            invariant
                n == self.players@.len(),
                i <= n,
                forall|j: int| 0 <= j < i ==> self.players@[j].id != id,
                first_with_id(self.players@, id) == -1 ==> forall|j: int|
                    0 <= j < n ==> self.players@[j].id != id,
                first_with_id(self.players@, id) != -1 ==> 0 <= first_with_id(self.players@, id)
                    < n && self.players@[first_with_id(self.players@, id)].id == id && forall|
                    j: int,
                |
                    0 <= j < first_with_id(self.players@, id) ==> self.players@[j].id != id,
            decreases n - i,
        {
            if self.players[i].id == id {
                return Some(i);
            }
            i = i + 1;
        }
        None
    }

    /// Drops every member whose id is `id`, keeping the others in order.
    pub fn remove_players(&mut self, id: u32)
        ensures
            final(self).players@ == remove_id(old(self).players@, id),
            final(self).started == old(self).started,
            final(self).public == old(self).public,
            final(self).updated == old(self).updated,
    {
        let ghost orig = self.players@;
        let n = self.players.len();
        let mut kept: Vec<Player> = Vec::new();
        let mut i: usize = 0;
        while i < n
            invariant
                n == self.players@.len(),
                self.players@ == orig,
                self.started == old(self).started,
                self.public == old(self).public,
                self.updated == old(self).updated,
                i <= n,
                kept@ == remove_id(orig.take(i as int), id),
            decreases n - i,
        {
            proof {
                assert(orig.take(i + 1).drop_last() =~= orig.take(i as int));
                assert(orig.take(i + 1).last() == orig[i as int]);
            }
            let p = &self.players[i];
            if p.id != id {
                kept.push(p.clone());
            }
            i = i + 1;
        }
        proof {
            assert(orig.take(n as int) =~= orig);
        }
        self.players = kept;
    }

    /// The delivery list that broadcasts `event` to every current member.
    /// `InitData` is never broadcast: it is unicast to a joining client.
    pub fn event(&self, event: &RoomEvent) -> (r: Vec<Delivery>)
        requires
            !(event is InitData),
        ensures
            r@ =~= broadcast_to(self.players@.len(), *event),
    {
        let n = self.players.len();
        let mut r: Vec<Delivery> = Vec::new();
        let mut i: usize = 0;
        while i < n
            invariant
                !(event is InitData),
                i <= n,
                r@.len() == i as int,
                forall|j: int| 0 <= j < i ==> r@[j] == (Delivery { to: j as usize, event: *event }),
            decreases n - i,
        {
            r.push(Delivery { to: i, event: event.clone() });
            i = i + 1;
        }
        r
    }

    /// The room's name in the public listing: "<host name>'s lobby" while a
    /// host is present, else the bare room code.
    pub fn display_name(&self, code: &RoomCode) -> (r: String)
        requires
            code.wf(),
        ensures
            first_host(self.players@) >= 0 ==> r@ == self.players@[first_host(
                self.players@,
            )].name@ + "'s lobby"@,
            first_host(self.players@) == -1 ==> r@ == code.chars(),
    {
        match self.host_index() {
            Some(i) => {
                let mut s = self.players[i].name.clone();
                s.append("'s lobby");
                s
            },
            None => code.as_string(),
        }
    }

    /// The member list as shown to a joining client, in join order.
    pub fn snapshot_players(&self) -> (r: Vec<PlayerInfo>)
        ensures
            r@ =~= snapshot(self.players@),
    {
        let n = self.players.len();
        let mut r: Vec<PlayerInfo> = Vec::new();
        let mut i: usize = 0;
        while i < n
            invariant
                n == self.players@.len(),
                i <= n,
                r@.len() == i as int,
                forall|j: int|
                    0 <= j < i ==> r@[j] == (PlayerInfo {
                        name: self.players@[j].name,
                        id: self.players@[j].id,
                    }),
            decreases n - i,
        {
            let p = &self.players[i];
            r.push(PlayerInfo { name: p.name.clone(), id: p.id });
            i = i + 1;
        }
        r
    }
}

impl Player {
    /// A freshly connected, not yet joined member: provisional identity,
    /// plain role, last activity `now`.  Connecting also counts as activity
    /// for the room.
    pub fn new(name: &str, lobby: &mut Lobby, now: u64) -> (p: Player)
        ensures
            p.name@ == name@,
            p.id == 0,
            p.role == Role::Player,
            p.hb == now,
            *final(lobby) == (Lobby { updated: now, ..*old(lobby) }),
    {
        lobby.update(now);
        Player { name: name.to_owned(), id: 0, role: Role::Player, hb: now }
    }

    /// The member's display name.
    pub fn name(&self) -> (r: &str)
        ensures
            r@ == self.name@,
    {
        self.name.as_str()
    }
}

} // verus!
