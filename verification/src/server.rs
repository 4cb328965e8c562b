//! The server's side of a session: who is in the world, and what each
//! packet changes and causes to be sent.
//!
//! Nothing is sent from here. Every packet is answered with a `Response`
//! that names what is to be sent and to whom.

use vstd::prelude::*;
use vstd::std_specs::iter::IteratorSpec;
use std::collections::HashMap;
use crate::net::{
    lemma_push_contains,
    lemma_walk_entry_is_new,
    lemma_walk_meets_every_key,
    lists,
    Address,
    ClientPacket,
    Player,
    Position,
    ServerPacket,
};

verus! {

/// A player and how to reach and to recognise their client.
#[derive(Debug, Clone, PartialEq, Eq)]
pub struct NetworkPlayer {
    pub token: u128,
    pub address: Address,
    pub player: Player,
}

/// Why a packet was not acted on.
#[derive(Debug, Clone, Copy, PartialEq, Eq, Structural)]
pub enum Rejection {
    /// The packet names a player but does not carry that player's token.
    IncorrectToken,
    /// The packet names a player that is not in the world.
    NoSuchPlayer,
}

/// What the server does in answer to a packet.
#[derive(Debug, Clone, PartialEq, Eq)]
pub enum Response {
    /// Send the sender the players of the world.
    PlayerList { players: Vec<(u128, Player)> },
    /// Send the sender their identifier and token, then send the
    /// announcement to each of the recipients.
    Joined { uuid: u128, token: u128, announcement: ServerPacket, recipients: Vec<Address> },
    /// Send the announcement to each of the recipients.
    Announced { announcement: ServerPacket, recipients: Vec<Address> },
    /// Send nothing.
    Rejected { reason: Rejection },
}

/// Whether `recipients` holds the address of every player but `sender`,
/// once for each of them, in some order.
pub open spec fn is_broadcast(
    recipients: Seq<Address>,
    players: Map<u128, NetworkPlayer>,
    sender: u128,
) -> bool {
    exists|keys: Seq<u128>|
        #![trigger lists(keys, players.dom().remove(sender))]
        lists(keys, players.dom().remove(sender)) && recipients == keys.map_values(
            |k: u128| players[k].address,
        )
}

/// Whether `list` holds every player with their identifier, once for each
/// of them, in some order.
pub open spec fn is_player_list(list: Seq<(u128, Player)>, players: Map<u128, NetworkPlayer>) -> bool {
    exists|keys: Seq<u128>|
        #![trigger lists(keys, players.dom())]
        lists(keys, players.dom()) && list == keys.map_values(|k: u128| (k, players[k].player))
}

/// Whether a packet that names `uuid` and carries `token` is acted on, and
/// if not, why.
pub open spec fn verdict(players: Map<u128, NetworkPlayer>, token: u128, uuid: u128) -> Option<
    Rejection,
> {
    if !players.contains_key(uuid) {
        Some(Rejection::NoSuchPlayer)
    } else if players[uuid].token != token {
        Some(Rejection::IncorrectToken)
    } else {
        None
    }
}

/// The entry of a player who has just joined: at the origin.
pub open spec fn newcomer(name: String, address: Address, token: u128) -> NetworkPlayer {
    NetworkPlayer { token, address, player: Player { name, position: Position::origin() } }
}

/// Whether `response` and the players `after` are what a join leaves of
/// the players `before`: the newcomer is entered under `uuid`, taking the
/// place of whoever had that identifier; the sender is told `uuid` and
/// `token`, and everybody else is told of the newcomer.
pub open spec fn join_outcome(
    before: Map<u128, NetworkPlayer>,
    after: Map<u128, NetworkPlayer>,
    response: Response,
    name: String,
    address: Address,
    uuid: u128,
    token: u128,
) -> bool {
    &&& after == before.insert(uuid, newcomer(name, address, token))
    &&& response matches Response::Joined { uuid: u, token: t, announcement, recipients }
    &&& u == uuid
    &&& t == token
    &&& announcement == (ServerPacket::PlayerJoin {
        uuid,
        player: Player { name, position: Position::origin() },
    })
    &&& is_broadcast(recipients@, after, uuid)
}

/// Whether `response` and the players `after` are what a leave leaves of
/// the players `before`: a player who is known and shows their token is
/// taken out and everybody else is told; otherwise nothing changes.
pub open spec fn leave_outcome(
    before: Map<u128, NetworkPlayer>,
    after: Map<u128, NetworkPlayer>,
    response: Response,
    token: u128,
    uuid: u128,
) -> bool {
    match verdict(before, token, uuid) {
        Some(reason) => after == before && response == (Response::Rejected { reason }),
        None => {
            &&& after == before.remove(uuid)
            &&& response matches Response::Announced { announcement, recipients }
            &&& announcement == (ServerPacket::PlayerLeave { uuid })
            &&& is_broadcast(recipients@, after, uuid)
        },
    }
}

/// The entry `old` after its player has moved to `position`.
pub open spec fn relocated(old: NetworkPlayer, position: Position) -> NetworkPlayer {
    NetworkPlayer {
        token: old.token,
        address: old.address,
        player: Player { name: old.player.name, position },
    }
}

/// Whether `response` and the players `after` are what a move leaves of
/// the players `before`: a player who is known and shows their token is at
/// the new position and everybody else is told; otherwise nothing changes.
pub open spec fn move_outcome(
    before: Map<u128, NetworkPlayer>,
    after: Map<u128, NetworkPlayer>,
    response: Response,
    token: u128,
    uuid: u128,
    position: Position,
) -> bool {
    match verdict(before, token, uuid) {
        Some(reason) => after == before && response == (Response::Rejected { reason }),
        None => {
            &&& after == before.insert(uuid, relocated(before[uuid], position))
            &&& response matches Response::Announced { announcement, recipients }
            &&& announcement == (ServerPacket::PlayerMove { uuid, position })
            &&& is_broadcast(recipients@, after, uuid)
        },
    }
}

/// Whether `response` and the players `after` are what `packet`, sent from
/// `src`, leaves of the players `before`. A join is answered under the
/// identifier and the token that the response names.
pub open spec fn packet_outcome(
    before: Map<u128, NetworkPlayer>,
    after: Map<u128, NetworkPlayer>,
    response: Response,
    packet: ClientPacket,
    src: Address,
) -> bool {
    match packet {
        ClientPacket::QueryPlayerList => {
            &&& after == before
            &&& response matches Response::PlayerList { players }
            &&& is_player_list(players@, before)
        },
        ClientPacket::PlayerJoin { name } => {
            &&& response matches Response::Joined { uuid, token, .. }
            &&& join_outcome(before, after, response, name, src, uuid, token)
        },
        ClientPacket::PlayerLeave { token, uuid } => leave_outcome(
            before,
            after,
            response,
            token,
            uuid,
        ),
        ClientPacket::PlayerMove { token, uuid, position } => move_outcome(
            before,
            after,
            response,
            token,
            uuid,
            position,
        ),
    }
}

/// A fresh random identifier, from `uuid::Uuid::new_v4` as the number that
/// `Uuid::as_u128` gives for it. Nothing is promised of the value: two calls
/// may return anything, even the same number.
#[verifier::external_body]
fn fresh_uuid() -> (id: u128) {
    uuid::Uuid::new_v4().as_u128()
}

/// The players of one world, by their identifiers.
pub struct Server {
    pub players: HashMap<u128, NetworkPlayer>,
}

impl Server {
    /// A server without players.
    pub fn new() -> (server: Server)
        ensures
            server.players@ == Map::<u128, NetworkPlayer>::empty(),
    {
        Server { players: HashMap::new() }
    }

    /// The addresses to which a packet caused by `uuid` is sent: those of
    /// all players but `uuid`.
    pub fn broadcast(&self, uuid: u128) -> (recipients: Vec<Address>)
        ensures
            is_broadcast(recipients@, self.players@, uuid),
    {
        broadcast use vstd::std_specs::hash::group_hash_axioms;

        let mut recipients: Vec<Address> = Vec::new();
        let ghost mut keys: Seq<u128> = Seq::empty();
        for entry in it: self.players.iter()
            invariant
                it.seq().no_duplicates(),
                it.seq() == self.players.iter().remaining(),
                keys.no_duplicates(),
                recipients@ == keys.map_values(|k: u128| self.players@[k].address),
                forall|k: u128|
                    keys.contains(k) <==> k != uuid && exists|j: int|
                        0 <= j < it.index() && *(#[trigger] it.seq()[j]).0 == k,
        {
            let (k, player) = entry;
            let ghost s = it.seq();
            let ghost i = it.index();
            let ghost before = keys;
            proof {
                lemma_walk_entry_is_new(self.players@, s, i);
                assert(!before.contains(*k));
            }
            if *k != uuid {
                recipients.push(player.address);
                proof {
                    keys = keys.push(*k);
                }
            }
            proof {
                assert forall|q: u128|
                    keys.contains(q) <==> q != uuid && exists|j: int|
                        0 <= j < i + 1 && *(#[trigger] s[j]).0 == q by {
                    lemma_push_contains(before, *k, q);
                    if before.contains(q) {
                        let j = choose|j: int| 0 <= j < i && *(#[trigger] s[j]).0 == q;
                        assert(0 <= j < i + 1 && *s[j].0 == q);
                    }
                    if q == *k {
                        assert(0 <= i < i + 1 && *s[i].0 == q);
                    }
                }
            }
        }
        proof {
            lemma_walk_meets_every_key(self.players@, self.players.iter().remaining());
            assert(lists(keys, self.players@.dom().remove(uuid)));
        }
        recipients
    }

    /// Enters a newcomer under `uuid` with `token`, at the origin.
    pub fn join(&mut self, name: String, address: Address, uuid: u128, token: u128) -> (response:
        Response)
        ensures
            join_outcome(
                old(self).players@,
                final(self).players@,
                response,
                name,
                address,
                uuid,
                token,
            ),
    {
        broadcast use vstd::std_specs::hash::group_hash_axioms;

        let player = Player { name: name.clone(), position: Position::origin() };
        self.players.insert(uuid, NetworkPlayer { token, address, player });
        let announcement = ServerPacket::PlayerJoin {
            uuid,
            player: Player { name, position: Position::origin() },
        };
        let recipients = self.broadcast(uuid);
        Response::Joined { uuid, token, announcement, recipients }
    }

    /// Takes the player `uuid` out of the world if `token` is theirs.
    pub fn leave(&mut self, token: u128, uuid: u128) -> (response: Response)
        ensures
            leave_outcome(old(self).players@, final(self).players@, response, token, uuid),
    {
        broadcast use vstd::std_specs::hash::group_hash_axioms;

        match self.players.get(&uuid) {
            Some(net_player) => {
                if net_player.token == token {
                    self.players.remove(&uuid);
                    let recipients = self.broadcast(uuid);
                    Response::Announced {
                        announcement: ServerPacket::PlayerLeave { uuid },
                        recipients,
                    }
                } else {
                    Response::Rejected { reason: Rejection::IncorrectToken }
                }
            },
            None => Response::Rejected { reason: Rejection::NoSuchPlayer },
        }
    }

    /// Puts the player `uuid` at `position` if `token` is theirs.
    pub fn move_player(&mut self, token: u128, uuid: u128, position: Position) -> (response:
        Response)
        ensures
            move_outcome(
                old(self).players@,
                final(self).players@,
                response,
                token,
                uuid,
                position,
            ),
    {
        broadcast use vstd::std_specs::hash::group_hash_axioms;

        match self.players.get(&uuid) {
            Some(net_player) => {
                if net_player.token == token {
                    let moved = NetworkPlayer {
                        token: net_player.token,
                        address: net_player.address,
                        player: Player { name: net_player.player.name.clone(), position },
                    };
                    self.players.insert(uuid, moved);
                    let recipients = self.broadcast(uuid);
                    Response::Announced {
                        announcement: ServerPacket::PlayerMove { uuid, position },
                        recipients,
                    }
                } else {
                    Response::Rejected { reason: Rejection::IncorrectToken }
                }
            },
            None => Response::Rejected { reason: Rejection::NoSuchPlayer },
        }
    }

    /// Acts on one packet that came from `src`. A newcomer gets a fresh
    /// random identifier and a fresh random token.
    pub fn handle(&mut self, packet: ClientPacket, src: Address) -> (response: Response)
        ensures
            packet_outcome(old(self).players@, final(self).players@, response, packet, src),
    {
        match packet {
            ClientPacket::QueryPlayerList => Response::PlayerList { players: self.player_list() },
            ClientPacket::PlayerJoin { name } => {
                let uuid = fresh_uuid();
                let token = fresh_uuid();
                self.join(name, src, uuid, token)
            },
            ClientPacket::PlayerLeave { token, uuid } => self.leave(token, uuid),
            ClientPacket::PlayerMove { token, uuid, position } => self.move_player(
                token,
                uuid,
                position,
            ),
        }
    }

    /// The players of the world with their identifiers.
    pub fn player_list(&self) -> (list: Vec<(u128, Player)>)
        ensures
            is_player_list(list@, self.players@),
    {
        broadcast use vstd::std_specs::hash::group_hash_axioms;

        let mut list: Vec<(u128, Player)> = Vec::new();
        let ghost mut keys: Seq<u128> = Seq::empty();
        for entry in it: self.players.iter()
            invariant
                it.seq().no_duplicates(),
                it.seq() == self.players.iter().remaining(),
                keys.no_duplicates(),
                list@ == keys.map_values(|k: u128| (k, self.players@[k].player)),
                forall|k: u128|
                    keys.contains(k) <==> exists|j: int|
                        0 <= j < it.index() && *(#[trigger] it.seq()[j]).0 == k,
        {
            let (k, player) = entry;
            let ghost s = it.seq();
            let ghost i = it.index();
            let ghost before = keys;
            proof {
                lemma_walk_entry_is_new(self.players@, s, i);
                assert(!before.contains(*k));
            }
            list.push((*k, player.player.duplicate()));
            proof {
                keys = keys.push(*k);
                assert forall|q: u128|
                    keys.contains(q) <==> exists|j: int|
                        0 <= j < i + 1 && *(#[trigger] s[j]).0 == q by {
                    lemma_push_contains(before, *k, q);
                    if before.contains(q) {
                        let j = choose|j: int| 0 <= j < i && *(#[trigger] s[j]).0 == q;
                        assert(0 <= j < i + 1 && *s[j].0 == q);
                    }
                    if q == *k {
                        assert(0 <= i < i + 1 && *s[i].0 == q);
                    }
                }
            }
        }
        proof {
            lemma_walk_meets_every_key(self.players@, self.players.iter().remaining());
            assert(lists(keys, self.players@.dom()));
        }
        list
    }
}

} // verus!
