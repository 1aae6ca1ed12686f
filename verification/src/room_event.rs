//! The event protocol between server and clients.
//!
//! Events form a closed, tagged set.  Several kinds carry an opaque payload
//! blob that the server never interprets: it only authorizes and routes by
//! kind, so arbitrary game logic can ride inside those envelopes.  The blob
//! is kept here as the raw text of the payload; the application layer
//! encloses it in the JSON wire frame.

use vstd::prelude::*;

verus! {

/// The privilege level of a room member.  The first member to join an empty
/// room is the host; everyone after is a plain player.
#[derive(Clone, Copy, PartialEq, Eq, Structural, Debug)]
pub enum Role {
    Host,
    Player,
}

/// Identity of one member as shown to other members.
pub struct PlayerInfo {
    pub name: String,
    pub id: u32,
}

impl Clone for PlayerInfo {
    fn clone(&self) -> (r: Self)
        ensures
            r == *self,
    {
        PlayerInfo { name: self.name.clone(), id: self.id }
    }
}

/// One protocol event.
///
/// `String` payloads on `GameStart`, `ToHost`, `FromHost`, `HostEvent` and
/// `GameEvent` are opaque blobs carried verbatim.
pub enum RoomEvent {
    /// Join request (inbound) and join announcement (outbound, with `id` set).
    PlayerJoined { name: String, id: Option<u32> },
    /// A member left; broadcast to the remaining members.
    PlayerLeft { id: u32 },
    /// Unicast to a member right after its join is accepted: the member list
    /// before the join, plus the assigned id and role.
    InitData { players: Vec<PlayerInfo>, id: u32, role: Role },
    /// Chat line; the sender-supplied id is ignored and replaced.
    ChatMessage { msg: String, id: Option<u32> },
    /// Host starts the game; late joins are rejected from then on.
    GameStart(String),
    /// Host resets the game.
    Reset,
    /// Directed message from any member to the current host.
    ToHost(String),
    /// Directed message from the host to the member with the given id.
    FromHost { id: u32, msg: String },
    /// Host toggles whether the room is publicly listed.
    SetPublic(bool),
    /// Host-only broadcast envelope.
    HostEvent(String),
    /// Broadcast envelope open to every member.
    GameEvent(String),
    /// Notice sent to a client that tries to join after the game started.
    GameInProgress,
}

impl Clone for RoomEvent {
    /// A clone is the same event.  For `InitData` the member list is cloned
    /// element by element, so the two lists agree as sequences.
    fn clone(&self) -> (r: Self)
        ensures
            !(self is InitData) ==> r == *self,
            *self matches RoomEvent::InitData { players, id, role } ==> (r matches
                RoomEvent::InitData { players: rp, id: rid, role: rr } && rp@ == players@ && rid
                == id && rr == role),
    {
        match self {
            RoomEvent::PlayerJoined { name, id } => RoomEvent::PlayerJoined {
                name: name.clone(),
                id: *id,
            },
            RoomEvent::PlayerLeft { id } => RoomEvent::PlayerLeft { id: *id },
            RoomEvent::InitData { players, id, role } => {
                let mut rp: Vec<PlayerInfo> = Vec::new();
                let mut i: usize = 0;
                while i < players.len()
                    invariant
                        i <= players.len(),
                        rp@.len() == i as int,
                        forall|j: int| 0 <= j < i ==> rp@[j] == players@[j],
                    decreases players.len() - i,
                {
                    rp.push(players[i].clone());
                    i = i + 1;
                }
                proof {
                    assert(rp@ =~= players@);
                }
                RoomEvent::InitData { players: rp, id: *id, role: *role }
            },
            RoomEvent::ChatMessage { msg, id } => RoomEvent::ChatMessage {
                msg: msg.clone(),
                id: *id,
            },
            RoomEvent::GameStart(p) => RoomEvent::GameStart(p.clone()),
            RoomEvent::Reset => RoomEvent::Reset,
            RoomEvent::ToHost(p) => RoomEvent::ToHost(p.clone()),
            RoomEvent::FromHost { id, msg } => RoomEvent::FromHost { id: *id, msg: msg.clone() },
            RoomEvent::SetPublic(b) => RoomEvent::SetPublic(*b),
            RoomEvent::HostEvent(p) => RoomEvent::HostEvent(p.clone()),
            RoomEvent::GameEvent(p) => RoomEvent::GameEvent(p.clone()),
            RoomEvent::GameInProgress => RoomEvent::GameInProgress,
        }
    }
}

} // verus!
