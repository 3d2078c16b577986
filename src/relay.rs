use vstd::prelude::*;

use crate::message::{encode_message, message_json, parse_message, read_message, IrisMessage, RoomIdentifier};
use crate::room_mapping::{is_room, RoomMapping};

verus! {

/// What a new connection to the relay announced.
#[derive(Clone, Copy, Debug, PartialEq, Eq, Structural)]
pub enum Greeting {
    Sender,
    Receiver { room_identifier: RoomIdentifier },
    Other,
}

/// Reads the first frame of a connection: a sender registering, a receiver naming its room,
/// or anything else (which the relay drops).
pub fn read_greeting(frame: &[u8]) -> (r: Greeting)
    ensures
        match parse_message(frame@) {
            Some(IrisMessage::SenderConnecting) => r == Greeting::Sender,
            Some(IrisMessage::ReceiverConnecting { room_identifier }) => r == (Greeting::Receiver {
                room_identifier,
            }),
            _ => r == Greeting::Other,
        },
{
    match read_message(frame) {
        Ok(IrisMessage::SenderConnecting) => Greeting::Sender,
        Ok(IrisMessage::ReceiverConnecting { room_identifier }) => Greeting::Receiver {
            room_identifier,
        },
        _ => Greeting::Other,
    }
}

/// The pairing state of the relay: senders that wait for a receiver, each under its room.
#[verifier::reject_recursive_types(S)]
pub struct Relay<S> {
    pub rooms: RoomMapping<S>,
}

impl<S> Relay<S> {
    pub fn new() -> (r: Self)
        ensures
            r.rooms@ == Map::<RoomIdentifier, S>::empty(),
    {
        Relay { rooms: RoomMapping::new() }
    }

    /// Registers a sender's connection and returns the reply for it: the room it was given,
    /// or `ServerError` when no room is free.
    pub fn register(&mut self, socket: S) -> (r: (Option<RoomIdentifier>, Vec<u8>))
        ensures
            r.0 matches Some(room) ==> is_room(room) && !old(self).rooms@.contains_key(room)
                && final(self).rooms@ == old(self).rooms@.insert(room, socket) && r.1@
                == message_json(IrisMessage::AssignedRoomIdentifier { room_identifier: room }),
            r.0 is None ==> final(self).rooms@ == old(self).rooms@ && r.1@ == message_json(
                IrisMessage::ServerError,
            ) && forall|room: RoomIdentifier| is_room(room) ==> old(self).rooms@.contains_key(room),
    {
        match self.rooms.insert_socket(socket) {
            Some(room) => (
                Some(room),
                encode_message(IrisMessage::AssignedRoomIdentifier { room_identifier: room }),
            ),
            None => (None, encode_message(IrisMessage::ServerError)),
        }
    }

    /// Forgets a registration whose reply could not be delivered; a sender that got no room
    /// left nothing to forget.
    pub fn reply_failed(&mut self, room: Option<RoomIdentifier>)
        ensures
            room matches Some(id) ==> final(self).rooms@ == old(self).rooms@.remove(id),
            room is None ==> final(self).rooms@ == old(self).rooms@,
    {
        if let Some(id) = room {
            let _ = self.rooms.get_and_remove_socket(id);
        }
    }

    /// Pairs a receiver with the sender waiting in `room`: `Ok` hands over the sender's
    /// connection, `Err` holds the `BadRoomIdentifier` reply for the receiver.
    pub fn pair(&mut self, room: RoomIdentifier) -> (r: Result<S, Vec<u8>>)
        ensures
            final(self).rooms@ == old(self).rooms@.remove(room),
            old(self).rooms@.contains_key(room) ==> r == Ok::<S, Vec<u8>>(old(self).rooms@[room]),
            !old(self).rooms@.contains_key(room) ==> (r matches Err(reply) && reply@ == message_json(
                IrisMessage::BadRoomIdentifier,
            )),
    {
        match self.rooms.get_and_remove_socket(room) {
            Some(sender) => Ok(sender),
            None => Err(encode_message(IrisMessage::BadRoomIdentifier)),
        }
    }
}

/// One step of a paired session at the relay.
#[derive(Debug)]
pub enum SessionStep {
    /// Write this frame to the sender.
    NotifySender(Vec<u8>),
    /// Read one frame from the sender and write it unchanged to the receiver.
    SenderToReceiver,
    /// Read one frame from the receiver and write it unchanged to the sender.
    ReceiverToSender,
}

/// The relay's script for a paired session: tell the sender that its receiver is there, then
/// forward frames alternately, the sender's first.
pub open spec fn session_script(i: nat) -> int {
    if i == 0 {
        0
    } else if i % 2 == 1 {
        1
    } else {
        2
    }
}

/// The `i`-th step of a paired session.
pub fn session_step(i: u64) -> (r: SessionStep)
    ensures
        session_script(i as nat) == 0 ==> (r matches SessionStep::NotifySender(f) && f@
            == message_json(IrisMessage::ReceiverConnected)),
        session_script(i as nat) == 1 ==> r is SenderToReceiver,
        session_script(i as nat) == 2 ==> r is ReceiverToSender,
{
    if i == 0 {
        SessionStep::NotifySender(encode_message(IrisMessage::ReceiverConnected))
    } else if i % 2 == 1 {
        SessionStep::SenderToReceiver
    } else {
        SessionStep::ReceiverToSender
    }
}

/// The handshake takes the first seven steps; from then on the session relays data.
pub const HANDSHAKE_STEPS: u64 = 7;

/// Whether a paired session that failed at step `i` ended as it should: the sender closing its
/// side during the data relay is the normal end, any other failure aborts the session.
pub fn session_finished(i: u64) -> (r: bool)
    ensures
        r == (i >= HANDSHAKE_STEPS && session_script(i as nat) == 1),
{
    i >= HANDSHAKE_STEPS && i % 2 == 1
}

/// After the notice, the relay forwards one frame in each direction in turn.
pub proof fn session_alternates(i: nat)
    requires
        i >= 1,
    ensures
        session_script(i) != session_script(i + 1),
        session_script(i) != 0,
{
}

} // verus!
