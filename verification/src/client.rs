//! The client's side of a session: the other players as the server has
//! announced them, and what each announcement means for their avatars.
//!
//! The avatars are drawn as instances of one mesh, one instance at each
//! player's position. Whoever owns the graphics device keeps the instance
//! list and its buffer; an announcement is answered with what to do to them.

use vstd::prelude::*;
use vstd::std_specs::iter::IteratorSpec;
use std::collections::HashMap;
use crate::mesh::Instance;
use crate::net::{
    lemma_push_contains,
    lemma_walk_entry_is_new,
    lemma_walk_meets_every_key,
    lists,
    Player,
    Position,
    ServerPacket,
};

verus! {

/// What an announcement asks of the avatars.
#[derive(Debug, Clone, PartialEq, Eq)]
pub enum Refresh {
    /// Replace the instance list and upload it into a new buffer.
    Rebuild { instances: Vec<Instance> },
    /// Replace the instance list and leave the buffer as it is.
    Replace { instances: Vec<Instance> },
    /// Write the instances into the buffer that is there and leave the
    /// instance list as it is.
    Rewrite { instances: Vec<Instance> },
    /// Do nothing: the announcement speaks of a player that is not known.
    UnknownPlayer { uuid: u128 },
}

/// Whether `instances` holds an instance at the position of every player,
/// one for each of them, in some order, and none of them rotated.
pub open spec fn is_avatars(instances: Seq<Instance>, players: Map<u128, Player>) -> bool {
    exists|keys: Seq<u128>|
        #![trigger lists(keys, players.dom())]
        lists(keys, players.dom()) && instances == keys.map_values(
            |k: u128| Instance::at(players[k].position),
        )
}

/// The map that a list of entries makes when they are entered one after the
/// other: a later entry replaces an earlier one under the same identifier.
pub open spec fn collected(entries: Seq<(u128, Player)>) -> Map<u128, Player>
    decreases entries.len(),
{
    if entries.len() == 0 {
        Map::empty()
    } else {
        collected(entries.drop_last()).insert(entries.last().0, entries.last().1)
    }
}

/// The player `player` after a move to `position`.
pub open spec fn with_position(player: Player, position: Position) -> Player {
    Player { name: player.name, position }
}

/// Whether `refresh` and the players `after` are what the announcement
/// `packet` leaves of the players `before`.
pub open spec fn announcement_outcome(
    before: Map<u128, Player>,
    after: Map<u128, Player>,
    refresh: Refresh,
    packet: ServerPacket,
) -> bool {
    match packet {
        ServerPacket::PlayerJoin { uuid, player } => {
            &&& after == before.insert(uuid, player)
            &&& refresh matches Refresh::Rebuild { instances }
            &&& is_avatars(instances@, after)
        },
        ServerPacket::PlayerLeave { uuid } => {
            &&& after == before.remove(uuid)
            &&& refresh matches Refresh::Replace { instances }
            &&& is_avatars(instances@, after)
        },
        ServerPacket::PlayerMove { uuid, position } => if before.contains_key(uuid) {
            &&& after == before.insert(uuid, with_position(before[uuid], position))
            &&& refresh matches Refresh::Rewrite { instances }
            &&& is_avatars(instances@, after)
        } else {
            after == before && refresh == (Refresh::UnknownPlayer { uuid })
        },
    }
}

/// The other players of the world, by their identifiers.
pub struct PlayerList {
    pub players: HashMap<u128, Player>,
}

impl PlayerList {
    /// The list that the server's answer to a query makes.
    pub fn new(entries: Vec<(u128, Player)>) -> (list: PlayerList)
        ensures
            list.players@ == collected(entries@),
    {
        broadcast use vstd::std_specs::hash::group_hash_axioms;

        let mut players: HashMap<u128, Player> = HashMap::new();
        let mut i: usize = 0;
        while i < entries.len()
            invariant
                i <= entries.len(),
                players@ == collected(entries@.take(i as int)),
            decreases entries.len() - i,
        {
            proof {
                let next = entries@.take(i + 1);
                assert(next.drop_last() == entries@.take(i as int));
                assert(next.last() == entries@[i as int]);
            }
            players.insert(entries[i].0, entries[i].1.duplicate());
            i += 1;
        }
        proof {
            assert(entries@.take(i as int) == entries@);
        }
        PlayerList { players }
    }

    /// The avatars of the players: one instance for each.
    pub fn avatars(&self) -> (instances: Vec<Instance>)
        ensures
            is_avatars(instances@, self.players@),
    {
        broadcast use vstd::std_specs::hash::group_hash_axioms;

        let mut instances: Vec<Instance> = Vec::new();
        let ghost mut keys: Seq<u128> = Seq::empty();
        for entry in it: self.players.iter()
            invariant
                it.seq().no_duplicates(),
                it.seq() == self.players.iter().remaining(),
                keys.no_duplicates(),
                instances@ == keys.map_values(|k: u128| Instance::at(self.players@[k].position)),
                forall|k: u128|
                    keys.contains(k) <==> exists|j: int|
                        0 <= j < it.index() && *(#[trigger] it.seq()[j]).0 == k,
        {
            let (k, player) = entry;
            let ghost s = it.seq();
            let ghost i = it.index();
            let ghost before = keys;
            proof {
                lemma_walk_entry_is_new(self.players@, s, i);
                assert(!before.contains(*k));
            }
            instances.push(Instance::at(player.position));
            proof {
                keys = keys.push(*k);
                assert forall|q: u128|
                    keys.contains(q) <==> exists|j: int|
                        0 <= j < i + 1 && *(#[trigger] s[j]).0 == q by {
                    lemma_push_contains(before, *k, q);
                    if before.contains(q) {
                        let j = choose|j: int| 0 <= j < i && *(#[trigger] s[j]).0 == q;
                        assert(0 <= j < i + 1 && *s[j].0 == q);
                    }
                    if q == *k {
                        assert(0 <= i < i + 1 && *s[i].0 == q);
                    }
                }
            }
        }
        proof {
            lemma_walk_meets_every_key(self.players@, self.players.iter().remaining());
            assert(lists(keys, self.players@.dom()));
        }
        instances
    }

    /// Takes in one announcement of the server.
    pub fn apply(&mut self, packet: ServerPacket) -> (refresh: Refresh)
        ensures
            announcement_outcome(old(self).players@, final(self).players@, refresh, packet),
    {
        broadcast use vstd::std_specs::hash::group_hash_axioms;

        match packet {
            ServerPacket::PlayerJoin { uuid, player } => {
                self.players.insert(uuid, player);
                Refresh::Rebuild { instances: self.avatars() }
            },
            ServerPacket::PlayerLeave { uuid } => {
                self.players.remove(&uuid);
                Refresh::Replace { instances: self.avatars() }
            },
            ServerPacket::PlayerMove { uuid, position } => {
                match self.players.get(&uuid) {
                    Some(player) => {
                        let moved = Player { name: player.name.clone(), position };
                        self.players.insert(uuid, moved);
                        Refresh::Rewrite { instances: self.avatars() }
                    },
                    None => Refresh::UnknownPlayer { uuid },
                }
            },
        }
    }
}

} // verus!
