//! What travels between the clients and the server of a shared world.
//!
//! Identifiers and tokens are 128-bit numbers. Coordinates are carried as
//! the bit patterns of single-precision numbers and are never computed with.

use vstd::prelude::*;
use vstd::slice::slice_subrange;

verus! {

/// A point of the world, by the bit patterns of its three coordinates.
#[derive(Debug, Clone, Copy, PartialEq, Eq, Structural)]
pub struct Position {
    pub x: u32,
    pub y: u32,
    pub z: u32,
}

impl Position {
    /// The origin: all three coordinates are zero.
    pub open spec fn origin_spec() -> Position {
        Position { x: 0, y: 0, z: 0 }
    }

    /// The origin: all three coordinates are zero.
    #[verifier::when_used_as_spec(origin_spec)]
    pub fn origin() -> (p: Position)
        ensures
            p == Position::origin_spec(),
    {
        Position { x: 0, y: 0, z: 0 }
    }
}

/// A player as the others see them.
#[derive(Debug, Clone, PartialEq, Eq)]
pub struct Player {
    pub name: String,
    pub position: Position,
}

impl Player {
    /// A copy of this player.
    pub fn duplicate(&self) -> (copy: Player)
        ensures
            copy == *self,
    {
        Player { name: self.name.clone(), position: self.position }
    }
}

/// Where a datagram came from and where an answer goes.
#[derive(Debug, Clone, Copy, PartialEq, Eq, Structural, Hash)]
pub enum Address {
    /// An IPv4 address, its four bytes from the first to the last as one
    /// number, and a port.
    V4 { host: u32, port: u16 },
    /// An IPv6 address, its sixteen bytes from the first to the last as
    /// one number, a port, and the two fields that go with them.
    V6 { host6: u128, port: u16, flowinfo: u32, scope_id: u32 },
}

/// What a client sends.
#[derive(Debug, Clone, PartialEq, Eq)]
pub enum ClientPacket {
    QueryPlayerList,
    PlayerJoin { name: String },
    PlayerLeave { token: u128, uuid: u128 },
    PlayerMove { token: u128, uuid: u128, position: Position },
}

/// What the server tells the other clients.
#[derive(Debug, Clone, PartialEq, Eq)]
pub enum ServerPacket {
    PlayerJoin { uuid: u128, player: Player },
    PlayerLeave { uuid: u128 },
    PlayerMove { uuid: u128, position: Position },
}

/// Whether `keys` lists the members of `wanted`, each of them once.
pub open spec fn lists(keys: Seq<u128>, wanted: Set<u128>) -> bool {
    &&& keys.no_duplicates()
    &&& forall|k: u128| keys.contains(k) <==> wanted.contains(k)
}

/// Adding an element to a list adds it to what the list holds.
pub proof fn lemma_push_contains<A>(s: Seq<A>, x: A, q: A)
    ensures
        s.push(x).contains(q) <==> s.contains(q) || q == x,
{
    if s.contains(q) {
        let i = choose|i: int| 0 <= i < s.len() && s[i] == q;
        assert(s.push(x)[i] == q);
    }
    if q == x {
        assert(s.push(x)[s.len() as int] == q);
    }
    if s.push(x).contains(q) {
        let i = choose|i: int| 0 <= i < s.push(x).len() && s.push(x)[i] == q;
        if i < s.len() {
            assert(s[i] == q);
        }
    }
}

/// The entry at `i` of a walk over a map has a key that no earlier entry
/// has, and holds what the map holds under that key.
pub proof fn lemma_walk_entry_is_new<V>(players: Map<u128, V>, s: Seq<(&u128, &V)>, i: int)
    requires
        0 <= i < s.len(),
        s.no_duplicates(),
        forall|j: int|
            #![trigger players.contains_key(*s[j].0)]
            #![trigger players[*s[j].0]]
            0 <= j < s.len() ==> players.contains_key(*s[j].0) && players[*s[j].0] == *s[j].1,
    ensures
        players.contains_key(*s[i].0),
        players[*s[i].0] == *s[i].1,
        forall|j: int| 0 <= j < i ==> *(#[trigger] s[j]).0 != *s[i].0,
{
    assert(players.contains_key(*s[i].0) && players[*s[i].0] == *s[i].1);
    assert forall|j: int| 0 <= j < i implies *(#[trigger] s[j]).0 != *s[i].0 by {
        if *s[j].0 == *s[i].0 {
            assert(players[*s[j].0] == *s[j].1);
            assert(s[j] == s[i]);
        }
    }
}

/// A walk over a map meets the keys of the map and no others.
pub proof fn lemma_walk_meets_every_key<V>(players: Map<u128, V>, s: Seq<(&u128, &V)>)
    requires
        forall|j: int|
            #![trigger players.contains_key(*s[j].0)]
            0 <= j < s.len() ==> players.contains_key(*s[j].0),
        forall|k: u128| #[trigger] players.contains_key(k) ==> s.contains((&k, &players[k])),
    ensures
        forall|k: u128|
            players.contains_key(k) <==> exists|j: int|
                0 <= j < s.len() && *(#[trigger] s[j]).0 == k,
{
    assert forall|k: u128|
        players.contains_key(k) <==> exists|j: int|
            0 <= j < s.len() && *(#[trigger] s[j]).0 == k by {
        if players.contains_key(k) {
            assert(s.contains((&k, &players[k])));
            let j = choose|j: int| 0 <= j < s.len() && s[j] == (&k, &players[k]);
            assert(*s[j].0 == k);
        }
        if exists|j: int| 0 <= j < s.len() && *(#[trigger] s[j]).0 == k {
            let j = choose|j: int| 0 <= j < s.len() && *(#[trigger] s[j]).0 == k;
            assert(players.contains_key(*s[j].0));
        }
    }
}

/// The byte at place `i` of the sixteen bytes of `x`, the most significant
/// byte at place 0.
pub open spec fn be_byte(x: u128, i: int) -> u8 {
    ((x >> (((15 - i) * 8) as u128)) & 0xff) as u8
}

/// The sixteen bytes of `x`, the most significant first.
pub open spec fn be_bytes(x: u128) -> Seq<u8> {
    Seq::new(16, |i: int| be_byte(x, i))
}

/// The number whose sixteen bytes, the most significant first, are `b`.
pub open spec fn from_be_bytes(b: Seq<u8>) -> u128
    recommends
        b.len() == 16,
{
    (b[0] as u128) << 120 | (b[1] as u128) << 112 | (b[2] as u128) << 104 | (b[3] as u128) << 96
        | (b[4] as u128) << 88 | (b[5] as u128) << 80 | (b[6] as u128) << 72 | (b[7] as u128) << 64
        | (b[8] as u128) << 56 | (b[9] as u128) << 48 | (b[10] as u128) << 40 | (b[11] as u128)
        << 32 | (b[12] as u128) << 24 | (b[13] as u128) << 16 | (b[14] as u128) << 8 | (
    b[15] as u128)
}

/// A number is read back from its bytes.
pub proof fn lemma_bytes_round_trip(x: u128)
    ensures
        be_bytes(x).len() == 16,
        from_be_bytes(be_bytes(x)) == x,
{
    let b = be_bytes(x);
    assert(b[0] == ((x >> 120) & 0xff) as u8);
    assert(b[1] == ((x >> 112) & 0xff) as u8);
    assert(b[2] == ((x >> 104) & 0xff) as u8);
    assert(b[3] == ((x >> 96) & 0xff) as u8);
    assert(b[4] == ((x >> 88) & 0xff) as u8);
    assert(b[5] == ((x >> 80) & 0xff) as u8);
    assert(b[6] == ((x >> 72) & 0xff) as u8);
    assert(b[7] == ((x >> 64) & 0xff) as u8);
    assert(b[8] == ((x >> 56) & 0xff) as u8);
    assert(b[9] == ((x >> 48) & 0xff) as u8);
    assert(b[10] == ((x >> 40) & 0xff) as u8);
    assert(b[11] == ((x >> 32) & 0xff) as u8);
    assert(b[12] == ((x >> 24) & 0xff) as u8);
    assert(b[13] == ((x >> 16) & 0xff) as u8);
    assert(b[14] == ((x >> 8) & 0xff) as u8);
    assert(b[15] == ((x >> 0) & 0xff) as u8);
    assert((((x >> 120) & 0xff) as u8 as u128) << 120 | (((x >> 112) & 0xff) as u8 as u128) << 112
        | (((x >> 104) & 0xff) as u8 as u128) << 104 | (((x >> 96) & 0xff) as u8 as u128) << 96 | (((x
        >> 88) & 0xff) as u8 as u128) << 88 | (((x >> 80) & 0xff) as u8 as u128) << 80 | (((x >> 72)
        & 0xff) as u8 as u128) << 72 | (((x >> 64) & 0xff) as u8 as u128) << 64 | (((x >> 56)
        & 0xff) as u8 as u128) << 56 | (((x >> 48) & 0xff) as u8 as u128) << 48 | (((x >> 40)
        & 0xff) as u8 as u128) << 40 | (((x >> 32) & 0xff) as u8 as u128) << 32 | (((x >> 24)
        & 0xff) as u8 as u128) << 24 | (((x >> 16) & 0xff) as u8 as u128) << 16 | (((x >> 8)
        & 0xff) as u8 as u128) << 8 | (((x >> 0) & 0xff) as u8 as u128) == x) by (bit_vector);
}

/// Sixteen bytes are the bytes of the number that is read from them.
pub proof fn lemma_number_round_trip(b: Seq<u8>)
    requires
        b.len() == 16,
    ensures
        be_bytes(from_be_bytes(b)) == b,
{
    let x = from_be_bytes(b);
    let (b0, b1, b2, b3) = (b[0], b[1], b[2], b[3]);
    let (b4, b5, b6, b7) = (b[4], b[5], b[6], b[7]);
    let (b8, b9, b10, b11) = (b[8], b[9], b[10], b[11]);
    let (b12, b13, b14, b15) = (b[12], b[13], b[14], b[15]);
    assert(((x >> 120) & 0xff) as u8 == b0 && ((x >> 112) & 0xff) as u8 == b1 && ((x >> 104)
        & 0xff) as u8 == b2 && ((x >> 96) & 0xff) as u8 == b3 && ((x >> 88) & 0xff) as u8 == b4 && ((x
        >> 80) & 0xff) as u8 == b5 && ((x >> 72) & 0xff) as u8 == b6 && ((x >> 64) & 0xff) as u8
        == b7 && ((x >> 56) & 0xff) as u8 == b8 && ((x >> 48) & 0xff) as u8 == b9 && ((x >> 40)
        & 0xff) as u8 == b10 && ((x >> 32) & 0xff) as u8 == b11 && ((x >> 24) & 0xff) as u8 == b12
        && ((x >> 16) & 0xff) as u8 == b13 && ((x >> 8) & 0xff) as u8 == b14 && ((x >> 0)
        & 0xff) as u8 == b15) by (bit_vector)
        requires
            x == (b0 as u128) << 120 | (b1 as u128) << 112 | (b2 as u128) << 104 | (b3 as u128)
                << 96 | (b4 as u128) << 88 | (b5 as u128) << 80 | (b6 as u128) << 72 | (b7 as u128)
                << 64 | (b8 as u128) << 56 | (b9 as u128) << 48 | (b10 as u128) << 40 | (
            b11 as u128) << 32 | (b12 as u128) << 24 | (b13 as u128) << 16 | (b14 as u128) << 8 | (
            b15 as u128),
    ;
    assert forall|i: int| 0 <= i < 16 implies be_bytes(x)[i] == b[i] by {
        if i == 0 {
        } else if i == 1 {
        } else if i == 2 {
        } else if i == 3 {
        } else if i == 4 {
        } else if i == 5 {
        } else if i == 6 {
        } else if i == 7 {
        } else if i == 8 {
        } else if i == 9 {
        } else if i == 10 {
        } else if i == 11 {
        } else if i == 12 {
        } else if i == 13 {
        } else if i == 14 {
        } else {
        }
    }
    assert(be_bytes(x) =~= b);
}

/// What a newcomer is sent: the bytes of their identifier, then those of
/// their token.
pub open spec fn auth_bytes(uuid: u128, token: u128) -> Seq<u8> {
    be_bytes(uuid) + be_bytes(token)
}

/// Appends the sixteen bytes of `x`, the most significant first.
fn push_be_bytes(out: &mut Vec<u8>, x: u128)
    ensures
        final(out)@ == old(out)@ + be_bytes(x),
{
    let mut i: usize = 0;
    while i < 16
        invariant
            i <= 16,
            out.len() == old(out).len() + i,
            forall|j: int| 0 <= j < old(out).len() ==> out[j] == old(out)[j],
            forall|j: int| 0 <= j < i ==> out[old(out).len() + j] == be_byte(x, j),
        decreases 16 - i,
    {
        let shift: u128 = ((15 - i) * 8) as u128;
        let byte: u128 = (x >> shift) & 0xff;
        assert(byte <= 0xff) by (bit_vector)
            requires
                byte == (x >> shift) & 0xff,
        ;
        out.push(byte as u8);
        i += 1;
    }
    assert(out@ =~= old(out)@ + be_bytes(x));
}

/// Reads a number from its sixteen bytes, the most significant first.
fn read_be_bytes(b: &[u8]) -> (x: u128)
    requires
        b.len() == 16,
    ensures
        x == from_be_bytes(b@),
{
    (b[0] as u128) << 120 | (b[1] as u128) << 112 | (b[2] as u128) << 104 | (b[3] as u128) << 96
        | (b[4] as u128) << 88 | (b[5] as u128) << 80 | (b[6] as u128) << 72 | (b[7] as u128) << 64
        | (b[8] as u128) << 56 | (b[9] as u128) << 48 | (b[10] as u128) << 40 | (b[11] as u128)
        << 32 | (b[12] as u128) << 24 | (b[13] as u128) << 16 | (b[14] as u128) << 8 | (
    b[15] as u128)
}

/// Frames the answer to a join: 32 bytes, the identifier and then the
/// token.
pub fn encode_auth(uuid: u128, token: u128) -> (bytes: Vec<u8>)
    ensures
        bytes@ == auth_bytes(uuid, token),
        bytes.len() == 32,
{
    let mut bytes: Vec<u8> = Vec::new();
    push_be_bytes(&mut bytes, uuid);
    push_be_bytes(&mut bytes, token);
    assert(bytes@ =~= auth_bytes(uuid, token));
    bytes
}

/// Reads the answer to a join: the identifier and the token, or `None`
/// where the datagram is not 32 bytes long.
pub fn decode_auth(data: &[u8]) -> (auth: Option<(u128, u128)>)
    ensures
        auth.is_some() == (data.len() == 32),
        auth matches Some((uuid, token)) ==> uuid == from_be_bytes(data@.subrange(0, 16)) && token
            == from_be_bytes(data@.subrange(16, 32)) && data@ == auth_bytes(uuid, token),
{
    if data.len() != 32 {
        return None;
    }
    let uuid = read_be_bytes(slice_subrange(data, 0, 16));
    let token = read_be_bytes(slice_subrange(data, 16, 32));
    proof {
        lemma_number_round_trip(data@.subrange(0, 16));
        lemma_number_round_trip(data@.subrange(16, 32));
        assert(data@ =~= data@.subrange(0, 16) + data@.subrange(16, 32));
    }
    Some((uuid, token))
}

/// What is framed is read back.
pub proof fn lemma_auth_round_trip(uuid: u128, token: u128)
    ensures
        auth_bytes(uuid, token).len() == 32,
        from_be_bytes(auth_bytes(uuid, token).subrange(0, 16)) == uuid,
        from_be_bytes(auth_bytes(uuid, token).subrange(16, 32)) == token,
{
    lemma_bytes_round_trip(uuid);
    lemma_bytes_round_trip(token);
    assert(auth_bytes(uuid, token).subrange(0, 16) =~= be_bytes(uuid));
    assert(auth_bytes(uuid, token).subrange(16, 32) =~= be_bytes(token));
}

} // verus!
