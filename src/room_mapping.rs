use vstd::prelude::*;

use std::collections::HashMap;

use rand::Rng;

use crate::message::RoomIdentifier;

verus! {

broadcast use vstd::std_specs::hash::group_hash_axioms;

pub const FIRST_ROOM: u16 = 1000;

pub const LAST_ROOM: u16 = 9999;

/// How many random rooms are tried before the table is searched in order.
pub const MAX_DRAWS: u32 = 64;

/// Relies on rand's `Rng::gen_range` over `thread_rng()`: a random number in the inclusive
/// range.
#[verifier::external_body]
fn random_room() -> (r: u16)
    ensures
        FIRST_ROOM <= r <= LAST_ROOM,
{
    rand::thread_rng().gen_range(FIRST_ROOM..=LAST_ROOM)
}

/// The senders that wait for their receiver, by room.
#[verifier::reject_recursive_types(S)]
pub struct RoomMapping<S> {
    rooms: HashMap<RoomIdentifier, S>,
}

impl<S> View for RoomMapping<S> {
    type V = Map<RoomIdentifier, S>;

    closed spec fn view(&self) -> Map<RoomIdentifier, S> {
        self.rooms@
    }
}

pub open spec fn is_room(r: RoomIdentifier) -> bool {
    FIRST_ROOM <= r <= LAST_ROOM
}

impl<S> RoomMapping<S> {
    pub fn new() -> (r: Self)
        ensures
            r@ == Map::<RoomIdentifier, S>::empty(),
    {
        RoomMapping { rooms: HashMap::new() }
    }

    /// Registers a waiting sender under a free room drawn at random (drawn again on a
    /// collision), and returns the room; `None` when every room is taken.
    pub fn insert_socket(&mut self, socket: S) -> (r: Option<RoomIdentifier>)
        ensures
            r matches Some(room) ==> is_room(room) && !old(self)@.contains_key(room)
                && final(self)@ == old(self)@.insert(room, socket),
            r is None ==> final(self)@ == old(self)@ && forall|room: RoomIdentifier|
                is_room(room) ==> old(self)@.contains_key(room),
    {
        // Draw again on a collision, as long as the draws are likely to find a free room;
        // then take the first free room in order, so that a nearly full table still ends.
        let mut draws: u32 = 0;
        while draws < MAX_DRAWS
            invariant
                self@ == old(self)@,
            decreases MAX_DRAWS - draws,
        {
            let room = random_room();
            if !self.rooms.contains_key(&room) {
                self.rooms.insert(room, socket);
                return Some(room);
            }
            draws = draws + 1;
        }
        let mut room: u16 = FIRST_ROOM;
        while room <= LAST_ROOM
            invariant
                FIRST_ROOM <= room <= LAST_ROOM + 1,
                self@ == old(self)@,
                forall|k: RoomIdentifier| FIRST_ROOM <= k < room ==> old(self)@.contains_key(k),
            decreases LAST_ROOM + 1 - room,
        {
            if !self.rooms.contains_key(&room) {
                self.rooms.insert(room, socket);
                return Some(room);
            }
            room = room + 1;
        }
        None
    }

    /// Takes the sender waiting in `room` out of the table, if there is one.
    pub fn get_and_remove_socket(&mut self, room_identifier: RoomIdentifier) -> (r: Option<S>)
        ensures
            final(self)@ == old(self)@.remove(room_identifier),
            old(self)@.contains_key(room_identifier) ==> r == Some(old(self)@[room_identifier]),
            !old(self)@.contains_key(room_identifier) ==> r is None,
    {
        self.rooms.remove(&room_identifier)
    }
}

} // verus!
