//! Per-connection protocol state machine.
//!
//! A connection moves `Connecting` → `Joined` → `Closed`.  While
//! `Connecting`, only a `PlayerJoined` event means anything; while `Joined`,
//! every inbound event is authorized by the sender's role and routed —
//! broadcast, directed to the host, directed by id, or silently dropped.
//! Unauthorized combinations fall through to a no-op on purpose: the
//! protocol never surfaces an authorization error to the sender.
//!
//! Each call takes the current time and returns an [`Output`]: the direct
//! reply to the sender, the deliveries to room members (by index into the
//! member list as it stands after the call), and what the application layer
//! must mirror — a push of the new connection on a join, a drop of the
//! connections with a removed id.

use vstd::prelude::*;

use crate::room::{
    broadcast_to,
    first_host,
    first_with_id,
    remove_id,
    snapshot,
    unicast,
    Delivery,
    Lobby,
    Player,
};
use crate::room_event::{Role, RoomEvent};

verus! {

/// Seconds between transport-level pings to the client.
pub const HEARTBEAT_INTERVAL_SECS: u64 = 5;

/// Seconds of inbound silence after which a connection counts as dead.
pub const HEARTBEAT_TIMEOUT_SECS: u64 = 10;

/// Lifecycle of one connection.
#[derive(Clone, Copy, PartialEq, Eq, Structural, Debug)]
pub enum Phase {
    /// Socket open, no join handshake yet.
    Connecting,
    /// Join accepted; the member record is in the room.
    Joined,
    /// Terminal: closed, errored or timed out.
    Closed,
}

/// The protocol handler of one connection: the member record it owns, and
/// where in the lifecycle it stands.
pub struct PlayerHandle {
    pub player: Player,
    pub phase: Phase,
}

/// What one handler step asks of the transport layer.
pub struct Output {
    /// Event to send to this connection's own client, before any delivery.
    pub reply: Option<RoomEvent>,
    /// Events for current room members, by index into the member list as it
    /// stands after the step.
    pub deliveries: Vec<Delivery>,
    /// Members with this id were dropped from the room; the transport layer
    /// drops its matching connections the same way.
    pub removed_id: Option<u32>,
    /// The sender was appended to the room; the transport layer appends its
    /// connection likewise.
    pub joined: bool,
    /// Close this connection once the output is flushed.
    pub stop: bool,
}

/// No reply, no delivery, no membership change, no close.
pub open spec fn quiet_output(o: Output) -> bool {
    o.reply is None && o.deliveries@.len() == 0 && o.removed_id is None && !o.joined && !o.stop
}

/// The connection with only its heartbeat moved to `now`.
pub open spec fn conn_touched(pre_c: PlayerHandle, now: u64) -> PlayerHandle {
    PlayerHandle { player: Player { hb: now, ..pre_c.player }, ..pre_c }
}

/// Only the activity clocks moved: the connection's heartbeat and the
/// room's last-activity timestamp.
pub open spec fn touched(
    pre_c: PlayerHandle,
    pre_l: Lobby,
    now: u64,
    post_c: PlayerHandle,
    post_l: Lobby,
) -> bool {
    post_c == conn_touched(pre_c, now) && post_l == (Lobby { updated: now, ..pre_l })
}

/// The event was silently ignored: clocks advance, nothing else happens.
pub open spec fn ignored(
    pre_c: PlayerHandle,
    pre_l: Lobby,
    now: u64,
    post_c: PlayerHandle,
    post_l: Lobby,
    o: Output,
) -> bool {
    touched(pre_c, pre_l, now, post_c, post_l) && quiet_output(o)
}

/// A join against a started game: the client is told `GameInProgress` and
/// cut off; the membership is not mutated.
pub open spec fn rejected_join(
    pre_c: PlayerHandle,
    pre_l: Lobby,
    name: String,
    now: u64,
    post_c: PlayerHandle,
    post_l: Lobby,
    o: Output,
) -> bool {
    &&& post_c == (PlayerHandle {
        player: Player {
            name,
            id: pre_l.players@.len() as u32,
            hb: now,
            ..pre_c.player
        },
        phase: Phase::Closed,
    })
    &&& post_l == (Lobby { updated: now, ..pre_l })
    &&& o.reply == Some(RoomEvent::GameInProgress)
    &&& o.deliveries@.len() == 0
    &&& o.removed_id is None
    &&& !o.joined
    &&& o.stop
}

/// An accepted join: id is the member count, role is host exactly on an
/// empty room, the joiner gets `InitData` with the prior member list, the
/// member is appended, and the join is broadcast to everyone including the
/// joiner.
pub open spec fn accepted_join(
    pre_c: PlayerHandle,
    pre_l: Lobby,
    name: String,
    now: u64,
    post_c: PlayerHandle,
    post_l: Lobby,
    o: Output,
) -> bool {
    let id = pre_l.players@.len() as u32;
    let role = if pre_l.players@.len() == 0 {
        Role::Host
    } else {
        Role::Player
    };
    let member = Player { name, id, role, hb: now };
    &&& post_c == (PlayerHandle { player: member, phase: Phase::Joined })
    &&& post_l.players@ == pre_l.players@.push(member)
    &&& post_l.started == pre_l.started
    &&& post_l.public == pre_l.public
    &&& post_l.updated == now
    &&& (o.reply matches Some(e) && (e matches RoomEvent::InitData {
        players,
        id: rid,
        role: rrole,
    } && players@ == snapshot(pre_l.players@) && rid == id && rrole == role))
    &&& o.deliveries@ =~= broadcast_to(
        pre_l.players@.len() + 1,
        RoomEvent::PlayerJoined { name, id: Some(id) },
    )
    &&& o.removed_id is None
    &&& o.joined
    &&& !o.stop
}

/// A departure notice: every member with that id is dropped and the notice
/// is re-broadcast to the remaining members.
pub open spec fn leave_step(
    pre_c: PlayerHandle,
    pre_l: Lobby,
    id: u32,
    now: u64,
    post_c: PlayerHandle,
    post_l: Lobby,
    o: Output,
) -> bool {
    &&& post_c == conn_touched(pre_c, now)
    &&& post_l.players@ == remove_id(pre_l.players@, id)
    &&& post_l.started == pre_l.started
    &&& post_l.public == pre_l.public
    &&& post_l.updated == now
    &&& o.reply is None
    &&& o.deliveries@ =~= broadcast_to(
        remove_id(pre_l.players@, id).len(),
        RoomEvent::PlayerLeft { id },
    )
    &&& o.removed_id == Some(id)
    &&& !o.joined
    &&& !o.stop
}

/// A broadcast that changes no room state: the event goes to every member.
pub open spec fn broadcast_step(
    pre_c: PlayerHandle,
    pre_l: Lobby,
    e: RoomEvent,
    now: u64,
    post_c: PlayerHandle,
    post_l: Lobby,
    o: Output,
) -> bool {
    &&& touched(pre_c, pre_l, now, post_c, post_l)
    &&& o.reply is None
    &&& o.deliveries@ =~= broadcast_to(pre_l.players@.len(), e)
    &&& o.removed_id is None
    &&& !o.joined
    &&& !o.stop
}

/// The host moved the `started` flag; the triggering event is re-broadcast.
pub open spec fn lifecycle_step(
    pre_c: PlayerHandle,
    pre_l: Lobby,
    e: RoomEvent,
    started: bool,
    now: u64,
    post_c: PlayerHandle,
    post_l: Lobby,
    o: Output,
) -> bool {
    &&& post_c == conn_touched(pre_c, now)
    &&& post_l == (Lobby { started, updated: now, ..pre_l })
    &&& o.reply is None
    &&& o.deliveries@ =~= broadcast_to(pre_l.players@.len(), e)
    &&& o.removed_id is None
    &&& !o.joined
    &&& !o.stop
}

/// The host set the `public` flag; a host-local setting, nothing is sent.
pub open spec fn set_public_step(
    pre_c: PlayerHandle,
    pre_l: Lobby,
    public: bool,
    now: u64,
    post_c: PlayerHandle,
    post_l: Lobby,
    o: Output,
) -> bool {
    &&& post_c == conn_touched(pre_c, now)
    &&& post_l == (Lobby { public, updated: now, ..pre_l })
    &&& quiet_output(o)
}

/// A directed message to the current host: delivered to the first member
/// holding the host role, or to nobody if the room has no host.
pub open spec fn to_host_step(
    pre_c: PlayerHandle,
    pre_l: Lobby,
    e: RoomEvent,
    now: u64,
    post_c: PlayerHandle,
    post_l: Lobby,
    o: Output,
) -> bool {
    &&& touched(pre_c, pre_l, now, post_c, post_l)
    &&& o.reply is None
    &&& if first_host(pre_l.players@) >= 0 {
        o.deliveries@ =~= unicast(first_host(pre_l.players@), e)
    } else {
        o.deliveries@.len() == 0
    }
    &&& o.removed_id is None
    &&& !o.joined
    &&& !o.stop
}

/// A directed message from the host: delivered to the first member with the
/// addressed id, or to nobody if no member has it.
pub open spec fn from_host_step(
    pre_c: PlayerHandle,
    pre_l: Lobby,
    id: u32,
    e: RoomEvent,
    now: u64,
    post_c: PlayerHandle,
    post_l: Lobby,
    o: Output,
) -> bool {
    &&& touched(pre_c, pre_l, now, post_c, post_l)
    &&& o.reply is None
    &&& if first_with_id(pre_l.players@, id) >= 0 {
        o.deliveries@ =~= unicast(first_with_id(pre_l.players@, id), e)
    } else {
        o.deliveries@.len() == 0
    }
    &&& o.removed_id is None
    &&& !o.joined
    &&& !o.stop
}

/// The whole protocol table: what one inbound event does, as a relation
/// between the states before and after and the produced output.
pub open spec fn handle_step(
    pre_c: PlayerHandle,
    pre_l: Lobby,
    event: RoomEvent,
    now: u64,
    post_c: PlayerHandle,
    post_l: Lobby,
    o: Output,
) -> bool {
    match pre_c.phase {
        Phase::Closed => ignored(pre_c, pre_l, now, post_c, post_l, o),
        Phase::Connecting => match event {
            RoomEvent::PlayerJoined { name, id: _ } => if pre_l.started {
                rejected_join(pre_c, pre_l, name, now, post_c, post_l, o)
            } else {
                accepted_join(pre_c, pre_l, name, now, post_c, post_l, o)
            },
            _ => ignored(pre_c, pre_l, now, post_c, post_l, o),
        },
        Phase::Joined => match event {
            RoomEvent::PlayerLeft { id } => leave_step(pre_c, pre_l, id, now, post_c, post_l, o),
            RoomEvent::ChatMessage { msg, id: _ } => if msg@.len() > 0 {
                broadcast_step(
                    pre_c,
                    pre_l,
                    RoomEvent::ChatMessage { msg, id: Some(pre_c.player.id) },
                    now,
                    post_c,
                    post_l,
                    o,
                )
            } else {
                ignored(pre_c, pre_l, now, post_c, post_l, o)
            },
            RoomEvent::GameStart(p) => if pre_c.player.role == Role::Host {
                lifecycle_step(
                    pre_c,
                    pre_l,
                    RoomEvent::GameStart(p),
                    true,
                    now,
                    post_c,
                    post_l,
                    o,
                )
            } else {
                ignored(pre_c, pre_l, now, post_c, post_l, o)
            },
            RoomEvent::Reset => if pre_c.player.role == Role::Host {
                lifecycle_step(pre_c, pre_l, RoomEvent::Reset, false, now, post_c, post_l, o)
            } else {
                ignored(pre_c, pre_l, now, post_c, post_l, o)
            },
            RoomEvent::SetPublic(b) => if pre_c.player.role == Role::Host {
                set_public_step(pre_c, pre_l, b, now, post_c, post_l, o)
            } else {
                ignored(pre_c, pre_l, now, post_c, post_l, o)
            },
            RoomEvent::GameEvent(p) => broadcast_step(
                pre_c,
                pre_l,
                RoomEvent::GameEvent(p),
                now,
                post_c,
                post_l,
                o,
            ),
            RoomEvent::ToHost(p) => to_host_step(
                pre_c,
                pre_l,
                RoomEvent::ToHost(p),
                now,
                post_c,
                post_l,
                o,
            ),
            RoomEvent::FromHost { id, msg } => if pre_c.player.role == Role::Host {
                from_host_step(
                    pre_c,
                    pre_l,
                    id,
                    RoomEvent::FromHost { id, msg },
                    now,
                    post_c,
                    post_l,
                    o,
                )
            } else {
                ignored(pre_c, pre_l, now, post_c, post_l, o)
            },
            RoomEvent::HostEvent(p) => if pre_c.player.role == Role::Host {
                broadcast_step(pre_c, pre_l, RoomEvent::HostEvent(p), now, post_c, post_l, o)
            } else {
                ignored(pre_c, pre_l, now, post_c, post_l, o)
            },
            _ => ignored(pre_c, pre_l, now, post_c, post_l, o),
        },
    }
}

/// What a termination does: the connection becomes `Closed`; if it had
/// joined, its member records leave the room and the departure is broadcast
/// to the remaining members.  A second call finds the phase `Closed` and
/// does nothing again, so cleanup runs at most once.
pub open spec fn disconnect_step(
    pre_c: PlayerHandle,
    pre_l: Lobby,
    post_c: PlayerHandle,
    post_l: Lobby,
    o: Output,
) -> bool {
    &&& post_c == (PlayerHandle { phase: Phase::Closed, ..pre_c })
    &&& if pre_c.phase == Phase::Joined {
        &&& post_l.players@ == remove_id(pre_l.players@, pre_c.player.id)
        &&& post_l.started == pre_l.started
        &&& post_l.public == pre_l.public
        &&& post_l.updated == pre_l.updated
        &&& o.deliveries@ =~= broadcast_to(
            remove_id(pre_l.players@, pre_c.player.id).len(),
            RoomEvent::PlayerLeft { id: pre_c.player.id },
        )
        &&& o.removed_id == Some(pre_c.player.id)
    } else {
        &&& post_l == pre_l
        &&& o.deliveries@.len() == 0
        &&& o.removed_id is None
    }
    &&& o.reply is None
    &&& !o.joined
    &&& o.stop
}

/// The connection has been silent longer than the heartbeat timeout.
pub open spec fn hb_expired_spec(hb: u64, now: u64) -> bool {
    now > hb + HEARTBEAT_TIMEOUT_SECS
}

impl PlayerHandle {
    /// A handler for a connection that just opened: provisional member
    /// record, not yet joined.
    pub fn new(player: Player) -> (h: PlayerHandle)
        ensures
            h.player == player,
            h.phase == Phase::Connecting,
    {
        PlayerHandle { player, phase: Phase::Connecting }
    }

    /// Records inbound transport activity (any frame) on both clocks.
    pub fn touch(&mut self, lobby: &mut Lobby, now: u64)
        ensures
            touched(*old(self), *old(lobby), now, *final(self), *final(lobby)),
    {
        self.player.hb = now;
        lobby.update(now);
    }

    /// Whether this connection has been silent past the heartbeat timeout
    /// at time `now` and must be closed.
    pub fn hb_expired(&self, now: u64) -> (r: bool)
        ensures
            r == hb_expired_spec(self.player.hb, now),
    {
        if now <= self.player.hb {
            false
        } else {
            now - self.player.hb > HEARTBEAT_TIMEOUT_SECS
        }
    }

    /// One decoded inbound event, dispatched per the protocol table
    /// [`handle_step`].  Joining assigns the member count as the id, so the
    /// count must fit the id type.
    pub fn handle(&mut self, lobby: &mut Lobby, event: RoomEvent, now: u64) -> (o: Output)
        requires
            old(lobby).players@.len() < 0xffff_ffff,
        ensures
            handle_step(*old(self), *old(lobby), event, now, *final(self), *final(lobby), o),
    {
        self.player.hb = now;
        lobby.update(now);
        match self.phase {
            Phase::Closed => quiet(),
            Phase::Connecting => match event {
                RoomEvent::PlayerJoined { name, id: _ } => {
                    let id_new = lobby.player_count() as u32;
                    if lobby.has_started() {
                        self.player.name = name;
                        self.player.id = id_new;
                        self.phase = Phase::Closed;
                        Output {
                            reply: Some(RoomEvent::GameInProgress),
                            deliveries: Vec::new(),
                            removed_id: None,
                            joined: false,
                            stop: true,
                        }
                    } else {
                        let role = if lobby.player_count() == 0 {
                            Role::Host
                        } else {
                            Role::Player
                        };
                        let infos = lobby.snapshot_players();
                        let member_name = name.clone();
                        let bcast_name = name.clone();
                        self.player = Player { name, id: id_new, role, hb: now };
                        self.phase = Phase::Joined;
                        lobby.players.push(
                            Player { name: member_name, id: id_new, role, hb: now },
                        );
                        let deliveries = lobby.event(
                            &RoomEvent::PlayerJoined { name: bcast_name, id: Some(id_new) },
                        );
                        Output {
                            reply: Some(
                                RoomEvent::InitData { players: infos, id: id_new, role },
                            ),
                            deliveries,
                            removed_id: None,
                            joined: true,
                            stop: false,
                        }
                    }
                },
                _ => quiet(),
            },
            Phase::Joined => match event {
                RoomEvent::PlayerLeft { id } => {
                    lobby.remove_players(id);
                    let deliveries = lobby.event(&RoomEvent::PlayerLeft { id });
                    Output {
                        reply: None,
                        deliveries,
                        removed_id: Some(id),
                        joined: false,
                        stop: false,
                    }
                },
                RoomEvent::ChatMessage { msg, id: _ } => {
                    if msg.as_str().is_empty() {
                        quiet()
                    } else {
                        let deliveries = lobby.event(
                            &RoomEvent::ChatMessage { msg, id: Some(self.player.id) },
                        );
                        Output {
                            reply: None,
                            deliveries,
                            removed_id: None,
                            joined: false,
                            stop: false,
                        }
                    }
                },
                RoomEvent::GameStart(p) => {
                    if matches!(self.player.role, Role::Host) {
                        lobby.started = true;
                        let deliveries = lobby.event(&RoomEvent::GameStart(p));
                        Output {
                            reply: None,
                            deliveries,
                            removed_id: None,
                            joined: false,
                            stop: false,
                        }
                    } else {
                        quiet()
                    }
                },
                RoomEvent::Reset => {
                    if matches!(self.player.role, Role::Host) {
                        lobby.started = false;
                        let deliveries = lobby.event(&RoomEvent::Reset);
                        Output {
                            reply: None,
                            deliveries,
                            removed_id: None,
                            joined: false,
                            stop: false,
                        }
                    } else {
                        quiet()
                    }
                },
                RoomEvent::SetPublic(b) => {
                    if matches!(self.player.role, Role::Host) {
                        lobby.public = b;
                        quiet()
                    } else {
                        quiet()
                    }
                },
                RoomEvent::GameEvent(p) => {
                    let deliveries = lobby.event(&RoomEvent::GameEvent(p));
                    Output {
                        reply: None,
                        deliveries,
                        removed_id: None,
                        joined: false,
                        stop: false,
                    }
                },
                RoomEvent::ToHost(p) => {
                    match lobby.host_index() {
                        Some(i) => {
                            let mut deliveries: Vec<Delivery> = Vec::new();
                            deliveries.push(Delivery { to: i, event: RoomEvent::ToHost(p) });
                            Output {
                                reply: None,
                                deliveries,
                                removed_id: None,
                                joined: false,
                                stop: false,
                            }
                        },
                        None => quiet(),
                    }
                },
                RoomEvent::FromHost { id, msg } => {
                    if matches!(self.player.role, Role::Host) {
                        match lobby.index_of_id(id) {
                            Some(i) => {
                                let mut deliveries: Vec<Delivery> = Vec::new();
                                deliveries.push(
                                    Delivery { to: i, event: RoomEvent::FromHost { id, msg } },
                                );
                                Output {
                                    reply: None,
                                    deliveries,
                                    removed_id: None,
                                    joined: false,
                                    stop: false,
                                }
                            },
                            None => quiet(),
                        }
                    } else {
                        quiet()
                    }
                },
                RoomEvent::HostEvent(p) => {
                    if matches!(self.player.role, Role::Host) {
                        let deliveries = lobby.event(&RoomEvent::HostEvent(p));
                        Output {
                            reply: None,
                            deliveries,
                            removed_id: None,
                            joined: false,
                            stop: false,
                        }
                    } else {
                        quiet()
                    }
                },
                _ => quiet(),
            },
        }
    }

    /// Termination of this connection, whatever triggered it: explicit
    /// close, protocol error, heartbeat timeout or the room disappearing.
    pub fn disconnect(&mut self, lobby: &mut Lobby) -> (o: Output)
        ensures
            disconnect_step(*old(self), *old(lobby), *final(self), *final(lobby), o),
    {
        let was_joined = matches!(self.phase, Phase::Joined);
        self.phase = Phase::Closed;
        if was_joined {
            let id = self.player.id;
            lobby.remove_players(id);
            let deliveries = lobby.event(&RoomEvent::PlayerLeft { id });
            Output { reply: None, deliveries, removed_id: Some(id), joined: false, stop: true }
        } else {
            Output {
                reply: None,
                deliveries: Vec::new(),
                removed_id: None,
                joined: false,
                stop: true,
            }
        }
    }
}

/// Cleanup runs exactly once per connection: after a termination has run,
/// a second one finds the connection `Closed` and leaves the room alone —
/// no second removal, no second departure broadcast.
pub proof fn lemma_disconnect_runs_once(
    c0: PlayerHandle,
    l0: Lobby,
    c1: PlayerHandle,
    l1: Lobby,
    o1: Output,
    c2: PlayerHandle,
    l2: Lobby,
    o2: Output,
)
    requires
        disconnect_step(c0, l0, c1, l1, o1),
        disconnect_step(c1, l1, c2, l2, o2),
    ensures
        l2 == l1,
        o2.deliveries@.len() == 0,
        o2.removed_id is None,
{
}

/// The first member to join an empty room is assigned the host role, and
/// every later joiner the plain player role; the joiner's id is the member
/// count at join time.
pub proof fn lemma_join_roles(
    pre_c: PlayerHandle,
    pre_l: Lobby,
    name: String,
    sent_id: Option<u32>,
    now: u64,
    post_c: PlayerHandle,
    post_l: Lobby,
    o: Output,
)
    requires
        pre_c.phase == Phase::Connecting,
        !pre_l.started,
        handle_step(
            pre_c,
            pre_l,
            RoomEvent::PlayerJoined { name, id: sent_id },
            now,
            post_c,
            post_l,
            o,
        ),
    ensures
        post_c.phase == Phase::Joined,
        o.joined,
        post_c.player.id == pre_l.players@.len() as u32,
        pre_l.players@.len() == 0 ==> post_c.player.role == Role::Host,
        pre_l.players@.len() > 0 ==> post_c.player.role == Role::Player,
{
}

/// A join attempted after the game has started draws exactly a
/// `GameInProgress` reply, the connection closes, and the membership is not
/// mutated.
pub proof fn lemma_join_rejected(
    pre_c: PlayerHandle,
    pre_l: Lobby,
    name: String,
    sent_id: Option<u32>,
    now: u64,
    post_c: PlayerHandle,
    post_l: Lobby,
    o: Output,
)
    requires
        pre_c.phase == Phase::Connecting,
        pre_l.started,
        handle_step(
            pre_c,
            pre_l,
            RoomEvent::PlayerJoined { name, id: sent_id },
            now,
            post_c,
            post_l,
            o,
        ),
    ensures
        o.reply == Some(RoomEvent::GameInProgress),
        post_l.players@ == pre_l.players@,
        o.deliveries@.len() == 0,
        !o.joined,
        o.stop,
        post_c.phase == Phase::Closed,
{
}

/// A non-host sender of any host-gated event — `GameStart`, `Reset`,
/// `SetPublic`, `FromHost` or `HostEvent` — causes no state change beyond
/// the activity clocks, and nothing is sent to anyone.
pub proof fn lemma_non_host_silent(
    pre_c: PlayerHandle,
    pre_l: Lobby,
    event: RoomEvent,
    now: u64,
    post_c: PlayerHandle,
    post_l: Lobby,
    o: Output,
)
    requires
        pre_c.phase == Phase::Joined,
        pre_c.player.role != Role::Host,
        event is GameStart || event is Reset || event is SetPublic || event is FromHost
            || event is HostEvent,
        handle_step(pre_c, pre_l, event, now, post_c, post_l, o),
    ensures
        post_l == (Lobby { updated: now, ..pre_l }),
        post_c == conn_touched(pre_c, now),
        quiet_output(o),
{
}

/// `ToHost` sent while the room has no host delivers to nobody and changes
/// nothing beyond the activity clocks.
pub proof fn lemma_to_host_without_host(
    pre_c: PlayerHandle,
    pre_l: Lobby,
    payload: String,
    now: u64,
    post_c: PlayerHandle,
    post_l: Lobby,
    o: Output,
)
    requires
        pre_c.phase == Phase::Joined,
        first_host(pre_l.players@) == -1,
        handle_step(pre_c, pre_l, RoomEvent::ToHost(payload), now, post_c, post_l, o),
    ensures
        o.deliveries@.len() == 0,
        quiet_output(o),
        touched(pre_c, pre_l, now, post_c, post_l),
{
}

/// The output of a silently ignored event.
fn quiet() -> (o: Output)
    ensures
        quiet_output(o),
{
    Output { reply: None, deliveries: Vec::new(), removed_id: None, joined: false, stop: false }
}

} // verus!
