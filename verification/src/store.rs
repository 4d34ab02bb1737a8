//! Room storage: the expiring in-memory store and the key layout of the
//! Redis store.
//!
//! The in-memory store keeps each room with a deadline on a monotonic clock
//! that counts nanoseconds from the store's creation. A room is readable
//! while the clock is before its deadline; a read at or after the deadline
//! finds nothing and removes the room.
use vstd::prelude::*;
use vstd::hash_map::StringHashMap;
use vstd::string::StringExecFns;
use crate::crypto::{CipherEnvelope, RoomMeta};
use crate::primitives::{duration_as_nanos, instant_elapsed, instant_now};

verus! {

#[verifier::external_type_specification]
#[verifier::external_body]
pub struct ExMultiplexedConnection(redis::aio::MultiplexedConnection);

/// What the server keeps of a room: its metadata and latest envelope.
#[derive(Debug, PartialEq, Eq)]
pub struct StoredRoom {
    pub meta: RoomMeta,
    pub envelope: CipherEnvelope,
}

impl Clone for StoredRoom {
    fn clone(&self) -> (r: Self)
        ensures
            r == *self,
    {
        StoredRoom { meta: self.meta.clone(), envelope: self.envelope.clone() }
    }
}

/// A stored room and the clock reading at which it expires.
struct ExpiringRoom {
    room: StoredRoom,
    expires_at: u128,
}

/// The contents of a store: for each room id, the room and its deadline.
pub type RoomTable = Map<Seq<char>, (StoredRoom, u128)>;

/// What a read of `room_id` at clock reading `now` finds.
pub enum RoomLookup {
    /// The room is stored and its deadline is after `now`.
    Fresh(StoredRoom),
    /// The room is stored but its deadline has passed.
    Expired,
    /// No room is stored under the id.
    Missing,
}

pub open spec fn lookup_spec(rooms: RoomTable, room_id: Seq<char>, now: u128) -> RoomLookup {
    if rooms.contains_key(room_id) {
        if rooms[room_id].1 > now {
            RoomLookup::Fresh(rooms[room_id].0)
        } else {
            RoomLookup::Expired
        }
    } else {
        RoomLookup::Missing
    }
}

/// The room a read returns: only one whose deadline is after `now`.
pub open spec fn read_spec(rooms: RoomTable, room_id: Seq<char>, now: u128) -> Option<StoredRoom> {
    match lookup_spec(rooms, room_id, now) {
        RoomLookup::Fresh(room) => Some(room),
        _ => None,
    }
}

/// The contents after a read: an expired room is removed.
pub open spec fn after_read_spec(rooms: RoomTable, room_id: Seq<char>, now: u128) -> RoomTable {
    match lookup_spec(rooms, room_id, now) {
        RoomLookup::Expired => rooms.remove(room_id),
        _ => rooms,
    }
}

/// The deadline of a write at `now` with a time to live of `ttl` nanoseconds,
/// where the sum fits.
pub open spec fn deadline_spec(now: u128, ttl: u128) -> Option<u128> {
    if now + ttl <= u128::MAX {
        Some((now + ttl) as u128)
    } else {
        None
    }
}

/// The deadline a write at `now` gives a room: `ttl` nanoseconds later, or
/// `now` itself where that does not fit the clock.
pub open spec fn expiry_spec(now: u128, ttl: u128) -> u128 {
    match deadline_spec(now, ttl) {
        Some(deadline) => deadline,
        None => now,
    }
}

/// A room written with a deadline is read back unchanged at any clock
/// reading before that deadline, and the read leaves the store as it was.
pub proof fn lemma_read_after_write(rooms: RoomTable, room_id: Seq<char>, room: StoredRoom, expires_at: u128, now: u128)
    requires
        now < expires_at,
    ensures
        read_spec(rooms.insert(room_id, (room, expires_at)), room_id, now) == Some(room),
        after_read_spec(rooms.insert(room_id, (room, expires_at)), room_id, now) == rooms.insert(room_id, (room, expires_at)),
{
}

/// A room written at clock reading `written_at` with a time to live of
/// `ttl` nanoseconds is read back by every read from `written_at` until
/// `ttl` nanoseconds later, and by none from then on; where that deadline
/// does not fit the clock, no read at or after the write finds it.
pub proof fn lemma_room_lives_for_its_ttl(rooms: RoomTable, room_id: Seq<char>, room: StoredRoom, written_at: u128, ttl: u128, read_at: u128)
    ensures
        written_at <= read_at && read_at < written_at + ttl && written_at + ttl <= u128::MAX
            ==> read_spec(rooms.insert(room_id, (room, expiry_spec(written_at, ttl))), room_id, read_at) == Some(room),
        written_at + ttl <= read_at
            ==> read_spec(rooms.insert(room_id, (room, expiry_spec(written_at, ttl))), room_id, read_at) is None,
        written_at + ttl > u128::MAX && written_at <= read_at
            ==> read_spec(rooms.insert(room_id, (room, expiry_spec(written_at, ttl))), room_id, read_at) is None,
{
}

/// Writing a new room under an id that a read found empty overwrites no
/// live room: the id held nothing readable before, the new room is read
/// back until its deadline, and every other room is as it was.
pub proof fn lemma_fresh_write(rooms: RoomTable, room_id: Seq<char>, room: StoredRoom, expires_at: u128, checked_at: u128, now: u128)
    requires
        read_spec(rooms, room_id, checked_at) is None,
        now < expires_at,
    ensures
        !rooms.contains_key(room_id) || rooms[room_id].1 <= checked_at,
        read_spec(rooms.insert(room_id, (room, expires_at)), room_id, now) == Some(room),
        forall|other: Seq<char>| other != room_id ==> #[trigger] rooms.insert(room_id, (room, expires_at)).contains_key(other)
            == rooms.contains_key(other),
        forall|other: Seq<char>| other != room_id && rooms.contains_key(other) ==> #[trigger] rooms.insert(room_id, (room, expires_at))[other]
            == rooms[other],
{
}

/// Once a room's deadline has passed, a read finds nothing and removes it.
pub proof fn lemma_expired_read_evicts(rooms: RoomTable, room_id: Seq<char>, now: u128)
    requires
        rooms.contains_key(room_id),
        rooms[room_id].1 <= now,
    ensures
        read_spec(rooms, room_id, now) is None,
        !after_read_spec(rooms, room_id, now).contains_key(room_id),
{
}

/// A write or a read of one room leaves every other room as it was.
pub proof fn lemma_rooms_independent(rooms: RoomTable, room_id: Seq<char>, other: Seq<char>, room: StoredRoom, expires_at: u128, now: u128)
    requires
        room_id != other,
    ensures
        rooms.insert(room_id, (room, expires_at)).contains_key(other) == rooms.contains_key(other),
        rooms.insert(room_id, (room, expires_at)).contains_key(other) ==> rooms.insert(room_id, (room, expires_at))[other] == rooms[other],
        after_read_spec(rooms, room_id, now).contains_key(other) == rooms.contains_key(other),
        after_read_spec(rooms, room_id, now).contains_key(other) ==> after_read_spec(rooms, room_id, now)[other] == rooms[other],
{
}

/// The in-memory room store. Besides the rooms it keeps the latest clock
/// reading that a timed read or write used, so that later ones never go
/// back before it.
pub struct MemoryRoomStore {
    rooms: StringHashMap<ExpiringRoom>,
    origin: std::time::Instant,
    latest: u128,
}

impl View for MemoryRoomStore {
    type V = RoomTable;

    closed spec fn view(&self) -> RoomTable {
        self.rooms@.map_values(|e: ExpiringRoom| (e.room, e.expires_at))
    }
}

impl MemoryRoomStore {
    /// The latest clock reading that a timed read or write of the store used.
    pub closed spec fn clock_floor(&self) -> u128 {
        self.latest
    }

    /// An empty store whose clock starts now.
    pub fn new() -> (r: Self)
        ensures
            r@ == RoomTable::empty(),
            r.clock_floor() == 0,
    {
        let r = MemoryRoomStore { rooms: StringHashMap::new(), origin: instant_now(), latest: 0 };
        assert(r@ =~= RoomTable::empty());
        r
    }

    /// The store's clock: nanoseconds since the store was created, and never
    /// before a reading that a read or write already used.
    pub fn now(&self) -> (r: u128)
        ensures
            r >= self.clock_floor(),
    {
        let elapsed = instant_elapsed(&self.origin);
        let nanos = duration_as_nanos(&elapsed);
        if nanos < self.latest {
            self.latest
        } else {
            nanos
        }
    }

    /// What a read of `room_id` at clock reading `now` finds, without
    /// changing the store.
    pub fn lookup_at(&self, room_id: &str, now: u128) -> (r: RoomLookup)
        ensures
            r == lookup_spec(self@, room_id@, now),
    {
        match self.rooms.get(room_id) {
            Some(stored) => {
                if stored.expires_at > now {
                    RoomLookup::Fresh(stored.room.clone())
                } else {
                    RoomLookup::Expired
                }
            },
            None => RoomLookup::Missing,
        }
    }

    /// Reads `room_id` at clock reading `now`: the room while its deadline is
    /// after `now`; otherwise nothing, and an expired room is removed.
    pub fn get_at(&mut self, room_id: &str, now: u128) -> (r: Option<StoredRoom>)
        ensures
            r == read_spec(old(self)@, room_id@, now),
            final(self)@ == after_read_spec(old(self)@, room_id@, now),
            final(self).clock_floor() == old(self).clock_floor(),
    {
        match self.lookup_at(room_id, now) {
            RoomLookup::Fresh(room) => Some(room),
            RoomLookup::Expired => {
                self.rooms.remove(room_id);
                assert(self@ =~= old(self)@.remove(room_id@));
                None
            },
            RoomLookup::Missing => None,
        }
    }

    /// Stores `room` under `room_id` until clock reading `expires_at`,
    /// replacing what was there.
    pub fn set_until(&mut self, room_id: &str, room: StoredRoom, expires_at: u128)
        ensures
            final(self)@ == old(self)@.insert(room_id@, (room, expires_at)),
            final(self).clock_floor() == old(self).clock_floor(),
    {
        let key = String::from_str(room_id);
        self.rooms.insert(key, ExpiringRoom { room, expires_at });
        assert(self@ =~= old(self)@.insert(room_id@, (room, expires_at)));
    }

    /// Reads `room_id` at the store's current clock reading: the room while
    /// its deadline is after that reading; otherwise nothing, and an expired
    /// room is removed. The reading is recorded as the store's clock floor.
    pub fn get(&mut self, room_id: &str) -> (r: Option<StoredRoom>)
        ensures
            old(self).clock_floor() <= final(self).clock_floor(),
            r == read_spec(old(self)@, room_id@, final(self).clock_floor()),
            final(self)@ == after_read_spec(old(self)@, room_id@, final(self).clock_floor()),
    {
        let now = self.now();
        self.latest = now;
        self.get_at(room_id, now)
    }

    /// Stores `room` under `room_id` for `ttl_nanos` nanoseconds from the
    /// store's current clock reading, which is recorded as its clock floor;
    /// where the deadline does not fit the clock, the room expires at once.
    /// A read at any reading from the write's up to its deadline finds the
    /// room; a read at or after the deadline finds nothing.
    pub fn set(&mut self, room_id: &str, room: StoredRoom, ttl_nanos: u128)
        ensures
            old(self).clock_floor() <= final(self).clock_floor(),
            final(self)@ == old(self)@.insert(room_id@, (room, expiry_spec(final(self).clock_floor(), ttl_nanos))),
            forall|t: u128|
                final(self).clock_floor() <= t && t < final(self).clock_floor() + ttl_nanos
                    && final(self).clock_floor() + ttl_nanos <= u128::MAX ==> #[trigger] read_spec(final(self)@, room_id@, t) == Some(room),
            forall|t: u128|
                final(self).clock_floor() + ttl_nanos <= t ==> #[trigger] read_spec(final(self)@, room_id@, t) is None,
    {
        let now = self.now();
        self.latest = now;
        let expires_at = match now.checked_add(ttl_nanos) {
            Some(deadline) => deadline,
            None => now,
        };
        let ghost stored = room;
        self.set_until(room_id, room, expires_at);
        assert(expires_at == expiry_spec(now, ttl_nanos));
        proof {
            assert forall|t: u128| now <= t && t < now + ttl_nanos && now + ttl_nanos <= u128::MAX implies #[trigger] read_spec(self@, room_id@, t)
                == Some(stored) by {
                lemma_room_lives_for_its_ttl(old(self)@, room_id@, stored, now, ttl_nanos, t);
            }
            assert forall|t: u128| now + ttl_nanos <= t implies #[trigger] read_spec(self@, room_id@, t) is None by {
                lemma_room_lives_for_its_ttl(old(self)@, room_id@, stored, now, ttl_nanos, t);
            }
        }
    }
}

/// The prefix of every room key in Redis.
pub open spec fn redis_key_prefix() -> Seq<char> {
    "scpy:room:"@
}

/// The Redis-backed room store: a connection and the key prefix of rooms.
pub struct RedisRoomStore {
    connection: redis::aio::MultiplexedConnection,
    key_prefix: String,
}

impl RedisRoomStore {
    pub closed spec fn prefix(&self) -> Seq<char> {
        self.key_prefix@
    }

    pub closed spec fn link(&self) -> redis::aio::MultiplexedConnection {
        self.connection
    }

    /// A store over an open connection, with the prefix `scpy:room:`.
    pub fn with_connection(connection: redis::aio::MultiplexedConnection) -> (r: Self)
        ensures
            r.prefix() == redis_key_prefix(),
            r.link() == connection,
    {
        RedisRoomStore { connection, key_prefix: String::from_str("scpy:room:") }
    }

    /// The connection the store talks over.
    pub fn connection(&self) -> (r: &redis::aio::MultiplexedConnection)
        ensures
            *r == self.link(),
    {
        &self.connection
    }

    /// The Redis key of a room: the prefix followed by the room id.
    pub fn key_for(&self, room_id: &str) -> (r: String)
        ensures
            r@ == self.prefix() + room_id@,
    {
        let mut key = String::from_str(self.key_prefix.as_str());
        key.append(room_id);
        key
    }
}

/// The expiry Redis is given for a time to live of `ttl_nanos` nanoseconds:
/// whole milliseconds, at least one, and at most `u64::MAX`.
pub open spec fn redis_ttl_spec(ttl_nanos: u128) -> u64 {
    let millis = ttl_nanos / 1_000_000;
    if millis == 0 {
        1
    } else if millis > u64::MAX {
        u64::MAX
    } else {
        millis as u64
    }
}

/// The `PX` argument of a Redis `SET` for a time to live of `ttl_nanos`.
pub fn redis_ttl_millis(ttl_nanos: u128) -> (r: u64)
    ensures
        r == redis_ttl_spec(ttl_nanos),
{
    let millis = ttl_nanos / 1_000_000;
    let at_least_one = if millis < 1 { 1 } else { millis };
    if at_least_one > u64::MAX as u128 {
        u64::MAX
    } else {
        at_least_one as u64
    }
}

} // verus!
