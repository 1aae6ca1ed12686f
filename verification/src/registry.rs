//! The room registry: code allocation, lookup and idle eviction.
//!
//! Rooms are stored as a list of (code index, room) pairs whose keys are
//! unique and below [`MAX_CODE`](crate::room_code::MAX_CODE).  Allocation
//! draws a random starting index and probes forward, wrapping once around
//! the whole code space, so it fails only when every single code is taken.
//! The surrounding application serializes access (one registry lock) and
//! supplies the current time to every operation that reads or writes it.

use vstd::prelude::*;

use crate::room::Lobby;
use crate::room_code::{RoomCode, MAX_CODE};

verus! {

/// Seconds of inactivity after which a room is evicted by [`Lobbies::purge`].
pub const MAX_CODE_AGE_SECS: u64 = 3600;

/// Why no room could be created.
#[derive(Clone, Copy, PartialEq, Eq, Structural, Debug)]
pub enum AllocError {
    /// Every one of the 26^4 codes is currently in use.
    SpaceExhausted,
}

/// Some entry of `s` has key `k`.
pub open spec fn seq_has(s: Seq<(u32, Lobby)>, k: int) -> bool {
    exists|i: int| 0 <= i < s.len() && s[i].0 as int == k
}

/// The position of the entry with key `k` (unique when keys are unique).
pub open spec fn seq_at(s: Seq<(u32, Lobby)>, k: int) -> int {
    choose|i: int| 0 <= i < s.len() && s[i].0 as int == k
}

/// The room stored under key `k`.
pub open spec fn seq_lobby(s: Seq<(u32, Lobby)>, k: int) -> Lobby {
    s[seq_at(s, k)].1
}

/// No two entries share a key.
pub open spec fn keys_unique(s: Seq<(u32, Lobby)>) -> bool {
    forall|i: int, j: int| 0 <= i < j < s.len() ==> s[i].0 != s[j].0
}

/// With unique keys, an entry with key `k` at position `i` is the entry
/// the key-based readers speak of.
pub proof fn lemma_entry_at(s: Seq<(u32, Lobby)>, i: int)
    requires
        keys_unique(s),
        0 <= i < s.len(),
    ensures
        seq_has(s, s[i].0 as int),
        seq_at(s, s[i].0 as int) == i,
        seq_lobby(s, s[i].0 as int) == s[i].1,
{
    let k = s[i].0 as int;
    let j = seq_at(s, k);
    if j != i {
        assert(s[i].0 != s[j].0);
    }
}

/// The room was active within the idle threshold, measured at `now`.
pub open spec fn recently_active(l: Lobby, now: u64) -> bool {
    now - l.updated < MAX_CODE_AGE_SECS
}

/// The registry of active rooms, keyed by code index.
pub struct Lobbies {
    pub entries: Vec<(u32, Lobby)>,
}

/// What a successful allocation did: the returned code was free before, and
/// exactly one entry was appended — that code, mapped to a fresh empty room
/// stamped `now`.
pub open spec fn create_step(pre: Lobbies, post: Lobbies, c: RoomCode, now: u64) -> bool {
    &&& c.wf()
    &&& !pre.has_index(c.idx())
    &&& post.entries@.len() == pre.entries@.len() + 1
    &&& (forall|i: int| 0 <= i < pre.entries@.len() ==> post.entries@[i] == pre.entries@[i])
    &&& post.entries@.last().0 as int == c.idx()
    &&& post.entries@.last().1.players@.len() == 0
    &&& !post.entries@.last().1.started
    &&& !post.entries@.last().1.public
    &&& post.entries@.last().1.updated == now
}

/// The probe sequence: the `j`-th index tried when starting at `init`,
/// wrapping around the code space.
pub open spec fn wrap_index(init: int, j: int) -> int {
    if init + j < MAX_CODE {
        init + j
    } else {
        init + j - MAX_CODE
    }
}

impl Lobbies {
    /// Keys are unique and lie in the code space.
    pub open spec fn wf(self) -> bool {
        keys_unique(self.entries@) && (forall|i: int|
            0 <= i < self.entries@.len() ==> self.entries@[i].0 < MAX_CODE)
    }

    /// A room is registered under code index `k`.
    pub open spec fn has_index(self, k: int) -> bool {
        seq_has(self.entries@, k)
    }

    /// The room registered under code index `k`.
    pub open spec fn lobby_of(self, k: int) -> Lobby {
        seq_lobby(self.entries@, k)
    }

    /// An empty registry.
    pub fn new() -> (r: Lobbies)
        ensures
            r.entries@.len() == 0,
            r.wf(),
    {
        Lobbies { entries: Vec::new() }
    }

    /// Whether any room is registered under code index `k`.
    fn contains_index(&self, k: u32) -> (r: bool)
        ensures
            r == self.has_index(k as int),
    {
        let n = self.entries.len();
        let mut i: usize = 0;
        while i < n
            invariant
                n == self.entries@.len(),
                i <= n,
                forall|j: int| 0 <= j < i ==> self.entries@[j].0 != k,
            decreases n - i,
        {
            if self.entries[i].0 == k {
                return true;
            }
            i = i + 1;
        }
        false
    }

    /// Allocates a fresh code and registers an empty room under it, in one
    /// atomic step with respect to this registry value.  Starts at a random
    /// index and probes forward, wrapping once around the full code space,
    /// so it reports exhaustion only when every code is occupied.
    pub fn create_code(&mut self, now: u64) -> (r: Result<RoomCode, AllocError>)
        requires
            old(self).wf(),
        ensures
            final(self).wf(),
            r matches Ok(c) ==> create_step(*old(self), *final(self), c, now),
            r is Err ==> (forall|k: int| 0 <= k < MAX_CODE ==> old(self).has_index(k))
                && *final(self) == *old(self),
    {
        let init = random_index();
        let mut found: Option<u32> = None;
        let mut j: u32 = 0;
        while j < MAX_CODE && found.is_none()
            invariant
                *self == *old(self),
                init < MAX_CODE,
                j <= MAX_CODE,
                found is None ==> forall|j2: int|
                    0 <= j2 < j ==> self.has_index(wrap_index(init as int, j2)),
                found matches Some(k) ==> k < MAX_CODE && !self.has_index(k as int),
            decreases MAX_CODE - j,
        {
            let k = if init < MAX_CODE - j {
                init + j
            } else {
                init + j - MAX_CODE
            };
            if !self.contains_index(k) {
                found = Some(k);
            }
            j = j + 1;
        }
        match found {
            Some(k) => {
                let code = RoomCode::from_index(k);
                let room = Lobby::new(now);
                proof {
                    assert forall|i: int| 0 <= i < self.entries@.len() implies self.entries@[i].0
                        != k by {
                        if self.entries@[i].0 == k {
                            assert(self.has_index(k as int));
                        }
                    }
                }
                self.entries.push((k, room));
                Ok(code)
            },
            None => {
                proof {
                    assert forall|k: int| 0 <= k < MAX_CODE implies self.has_index(k) by {
                        let j2 = if k >= init as int {
                            k - init as int
                        } else {
                            k + MAX_CODE - init as int
                        };
                        assert(wrap_index(init as int, j2) == k);
                        assert(self.has_index(wrap_index(init as int, j2)));
                    }
                }
                Err(AllocError::SpaceExhausted)
            },
        }
    }

    /// Whether `code` resolves to an active room.
    pub fn contains(&mut self, code: &RoomCode) -> (r: bool)
        requires
            code.wf(),
        ensures
            r == old(self).has_index(code.idx()),
            *final(self) == *old(self),
    {
        let k = code.to_index();
        self.contains_index(k)
    }

    /// Position of the room registered under `code`, or `None`.
    pub fn index_of(&self, code: &RoomCode) -> (r: Option<usize>)
        requires
            code.wf(),
            self.wf(),
        ensures
            r matches Some(i) ==> i < self.entries@.len() && self.entries@[i as int].0 as int
                == code.idx() && self.has_index(code.idx()) && self.entries@[i as int].1
                == self.lobby_of(code.idx()),
            r is None ==> !self.has_index(code.idx()),
    {
        let k = code.to_index();
        let n = self.entries.len();
        let mut i: usize = 0;
        while i < n
            invariant
                self.wf(),
                n == self.entries@.len(),
                i <= n,
                k as int == code.idx(),
                forall|j: int| 0 <= j < i ==> self.entries@[j].0 != k,
            decreases n - i,
        {
            if self.entries[i].0 == k {
                proof {
                    lemma_entry_at(self.entries@, i as int);
                }
                return Some(i);
            }
            i = i + 1;
        }
        None
    }

    /// The room registered under `code`, read-only; `None` when the code
    /// does not resolve.
    pub fn get(&self, code: &RoomCode) -> (r: Option<&Lobby>)
        requires
            code.wf(),
            self.wf(),
        ensures
            r matches Some(l) ==> self.has_index(code.idx()) && *l == self.lobby_of(code.idx()),
            r is None ==> !self.has_index(code.idx()),
    {
        match self.index_of(code) {
            Some(i) => Some(&self.entries[i].1),
            None => None,
        }
    }

    /// Mutable access to the room at position `i` (as found by
    /// [`Lobbies::index_of`]); the rest of the registry is untouched.
    pub fn lobby_at_mut(&mut self, i: usize) -> (r: &mut Lobby)
        requires
            i < old(self).entries@.len(),
        ensures
            *r == old(self).entries@[i as int].1,
            final(self).entries@ == old(self).entries@.update(
                i as int,
                (old(self).entries@[i as int].0, *final(r)),
            ),
    {
        &mut self.entries[i].1
    }

    /// Unregisters the room under `code`, if any.
    pub fn remove(&mut self, code: &RoomCode)
        requires
            code.wf(),
            old(self).wf(),
        ensures
            final(self).wf(),
            !final(self).has_index(code.idx()),
            forall|k: int|
                k != code.idx() ==> (final(self).has_index(k) <==> old(self).has_index(k)),
            forall|k: int|
                k != code.idx() && final(self).has_index(k) ==> final(self).lobby_of(k) == old(
                    self,
                ).lobby_of(k),
    {
        match self.index_of(code) {
            Some(i) => {
                let ghost pre = self.entries@;
                self.entries.remove(i);
                proof {
                    pre.remove_ensures(i as int);
                    lemma_remove_keyed(pre, i as int);
                }
            },
            None => {},
        }
    }

    /// Evicts every room whose last activity is older than the idle
    /// threshold at time `now`; every room touched since then is retained,
    /// unchanged.
    pub fn purge(&mut self, now: u64)
        requires
            old(self).wf(),
        ensures
            final(self).wf(),
            forall|k: int|
                final(self).has_index(k) <==> old(self).has_index(k) && recently_active(
                    old(self).lobby_of(k),
                    now,
                ),
            forall|k: int|
                final(self).has_index(k) ==> final(self).lobby_of(k) == old(self).lobby_of(k),
    {
        let mut i: usize = 0;
        while i < self.entries.len()
            invariant
                self.wf(),
                i <= self.entries@.len(),
                forall|j: int|
                    0 <= j < i ==> recently_active(#[trigger] self.entries@[j].1, now),
                forall|k: int|
                    self.has_index(k) ==> old(self).has_index(k) && self.lobby_of(k) == old(
                        self,
                    ).lobby_of(k),
                forall|k: int|
                    old(self).has_index(k) && recently_active(old(self).lobby_of(k), now)
                        ==> self.has_index(k),
            decreases self.entries@.len() - i,
        {
            let up = self.entries[i].1.updated();
            let active = if now >= up {
                now - up < MAX_CODE_AGE_SECS
            } else {
                true
            };
            proof {
                lemma_entry_at(self.entries@, i as int);
            }
            if !active {
                let ghost pre = self.entries@;
                self.entries.remove(i);
                proof {
                    pre.remove_ensures(i as int);
                    lemma_remove_keyed(pre, i as int);
                }
            } else {
                i = i + 1;
            }
        }
        proof {
            assert forall|k: int| self.has_index(k) implies recently_active(
                old(self).lobby_of(k),
                now,
            ) by {
                let i2 = seq_at(self.entries@, k);
                assert(0 <= i2 < self.entries@.len() && self.entries@[i2].0 as int == k);
                assert(recently_active(self.entries@[i2].1, now));
                lemma_entry_at(self.entries@, i2);
            }
        }
    }

    /// The codes of every publicly listed room, one entry per room.
    pub fn list_public(&self) -> (r: Vec<RoomCode>)
        requires
            self.wf(),
        ensures
            forall|j: int|
                0 <= j < r@.len() ==> (#[trigger] r@[j]).wf() && self.has_index(r@[j].idx())
                    && self.lobby_of(r@[j].idx()).public,
            forall|k: int|
                self.has_index(k) && self.lobby_of(k).public ==> exists|j: int|
                    0 <= j < r@.len() && r@[j].idx() == k,
    {
        let n = self.entries.len();
        let mut r: Vec<RoomCode> = Vec::new();
        let mut i: usize = 0;
        while i < n
            invariant
                self.wf(),
                n == self.entries@.len(),
                i <= n,
                forall|j: int|
                    0 <= j < r@.len() ==> (#[trigger] r@[j]).wf() && self.has_index(r@[j].idx())
                        && self.lobby_of(r@[j].idx()).public,
                forall|j2: int|
                    0 <= j2 < i && (#[trigger] self.entries@[j2]).1.public ==> exists|j: int|
                        0 <= j < r@.len() && r@[j].idx() == self.entries@[j2].0 as int,
            decreases n - i,
        {
            proof {
                lemma_entry_at(self.entries@, i as int);
            }
            if self.entries[i].1.is_public() {
                let ghost pre_r = r@;
                let code = RoomCode::from_index(self.entries[i].0);
                r.push(code);
                proof {
                    assert(forall|j: int| 0 <= j < pre_r.len() ==> r@[j] == pre_r[j]);
                    assert(r@[r@.len() - 1].idx() == self.entries@[i as int].0 as int);
                }
            }
            i = i + 1;
        }
        proof {
            assert forall|k: int| self.has_index(k) && self.lobby_of(k).public implies exists|
                j: int,
            | 0 <= j < r@.len() && r@[j].idx() == k by {
                let i2 = seq_at(self.entries@, k);
                assert(self.entries@[i2].1.public);
            }
        }
        r
    }
}

/// Removing the entry at `i` from a uniquely keyed list removes exactly its
/// key: uniqueness survives, the key is gone, every other key keeps its room.
proof fn lemma_remove_keyed(s: Seq<(u32, Lobby)>, i: int)
    requires
        keys_unique(s),
        0 <= i < s.len(),
    ensures
        keys_unique(s.remove(i)),
        !seq_has(s.remove(i), s[i].0 as int),
        forall|k: int| k != s[i].0 as int ==> (seq_has(s.remove(i), k) <==> seq_has(s, k)),
        forall|k: int|
            k != s[i].0 as int && seq_has(s.remove(i), k) ==> seq_lobby(s.remove(i), k)
                == seq_lobby(s, k),
{
    let t = s.remove(i);
    s.remove_ensures(i);
    assert forall|a: int, b: int| 0 <= a < b < t.len() implies t[a].0 != t[b].0 by {
        let a2 = if a < i {
            a
        } else {
            a + 1
        };
        let b2 = if b < i {
            b
        } else {
            b + 1
        };
        assert(t[a] == s[a2] && t[b] == s[b2]);
    }
    assert forall|j: int| 0 <= j < t.len() implies t[j].0 != s[i].0 by {
        let j2 = if j < i {
            j
        } else {
            j + 1
        };
        assert(t[j] == s[j2]);
    }
    assert forall|k: int| k != s[i].0 as int && seq_has(s, k) implies seq_has(t, k) by {
        let j = seq_at(s, k);
        if j < i {
            assert(t[j] == s[j]);
        } else {
            assert(j > i);
            assert(t[j - 1] == s[j]);
        }
    }
    assert forall|k: int| seq_has(t, k) implies seq_has(s, k) by {
        let j = seq_at(t, k);
        let j2 = if j < i {
            j
        } else {
            j + 1
        };
        assert(t[j] == s[j2]);
    }
    assert forall|k: int| k != s[i].0 as int && seq_has(t, k) implies seq_lobby(t, k)
        == seq_lobby(s, k) by {
        let j = seq_at(t, k);
        let j2 = if j < i {
            j
        } else {
            j + 1
        };
        assert(t[j] == s[j2]);
        lemma_entry_at(t, j);
        lemma_entry_at(s, j2);
    }
}

/// Two allocations in a row, with nothing evicted between them, hand out
/// two distinct codes: the second allocation's code was free in the state
/// the first one left behind, where the first code is present.
pub proof fn lemma_create_twice_distinct(
    s0: Lobbies,
    s1: Lobbies,
    s2: Lobbies,
    c1: RoomCode,
    c2: RoomCode,
    t1: u64,
    t2: u64,
)
    requires
        create_step(s0, s1, c1, t1),
        create_step(s1, s2, c2, t2),
    ensures
        c1 != c2,
{
    let last = s1.entries@.len() - 1;
    assert(s1.entries@[last].0 as int == c1.idx());
    assert(s1.has_index(c1.idx()));
}

/// Codes registered once stay registered across later allocations.
proof fn lemma_create_preserves(pre: Lobbies, post: Lobbies, c: RoomCode, now: u64, k: int)
    requires
        create_step(pre, post, c, now),
        pre.has_index(k),
    ensures
        post.has_index(k),
{
    let i = seq_at(pre.entries@, k);
    assert(post.entries@[i].0 as int == k);
}

/// Any run of allocations with no eviction in between yields pairwise
/// distinct codes — for any number of them, up to the whole code space.
pub proof fn lemma_create_chain_distinct(
    states: Seq<Lobbies>,
    codes: Seq<RoomCode>,
    times: Seq<u64>,
)
    requires
        states.len() == codes.len() + 1,
        times.len() == codes.len(),
        forall|i: int|
            0 <= i < codes.len() ==> create_step(
                #[trigger] states[i],
                states[i + 1],
                codes[i],
                times[i],
            ),
    ensures
        forall|i: int, j: int| 0 <= i < j < codes.len() ==> codes[i] != codes[j],
{
    assert forall|i: int, j: int| 0 <= i < j < codes.len() implies codes[i] != codes[j] by {
        lemma_chain_has(states, codes, times, i, j);
        assert(create_step(states[j], states[j + 1], codes[j], times[j]));
        assert(!states[j].has_index(codes[j].idx()));
    }
}

/// In a chain of allocations, the `i`-th code is still registered when the
/// `m`-th allocation runs.
proof fn lemma_chain_has(
    states: Seq<Lobbies>,
    codes: Seq<RoomCode>,
    times: Seq<u64>,
    i: int,
    m: int,
)
    requires
        states.len() == codes.len() + 1,
        times.len() == codes.len(),
        forall|i2: int|
            0 <= i2 < codes.len() ==> create_step(
                #[trigger] states[i2],
                states[i2 + 1],
                codes[i2],
                times[i2],
            ),
        0 <= i < m <= codes.len(),
    ensures
        states[m].has_index(codes[i].idx()),
    decreases m - i,
{
    assert(create_step(states[i], states[i + 1], codes[i], times[i]));
    if m == i + 1 {
        let last = states[i + 1].entries@.len() - 1;
        assert(states[i + 1].entries@[last].0 as int == codes[i].idx());
    } else {
        lemma_chain_has(states, codes, times, i, m - 1);
        lemma_create_preserves(states[m - 1], states[m], codes[m - 1], times[m - 1], codes[i].idx());
    }
}

/// Relies on `rand`: `random_range(0..MAX_CODE)` draws a value from that
/// half-open range, so the result is always below `MAX_CODE`.
#[verifier::external_body]
fn random_index() -> (r: u32)
    ensures
        r < MAX_CODE,
{
    rand::RngExt::random_range(&mut rand::rng(), 0..MAX_CODE)
}

} // verus!
