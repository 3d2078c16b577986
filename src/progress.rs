use vstd::prelude::*;

use crate::errors::IrisError;
use crate::message::{CipherType, RoomIdentifier};

verus! {

/// What a sending session reports to its user interface.
#[derive(Debug)]
pub enum SenderProgressMessage {
    AssignedRoomIdentifier { room_identifier: RoomIdentifier },
    SetCipher { cipher_type: CipherType },
    TransferMetadata { total_files: usize, total_bytes: u64 },
    FileMetadata { filename: String, file_size: u64 },
    ChunkSent { size: u64 },
    FileDone,
    DirectoryCreated,
    FileSkipped,
    Error(IrisError),
}

/// What a receiving session reports to its user interface.
#[derive(Debug)]
pub enum ReceiverProgressMessage {
    SetCipher { cipher_type: CipherType },
    TransferMetadata { total_files: usize, total_bytes: u64 },
    FileMetadata { filename: String, file_size: u64 },
    ChunkReceived { size: u64 },
    FileDone,
    DirectoryCreated,
    FileSkipped,
    Error(IrisError),
}

/// What a user interface can ask of a running session.
#[derive(Clone, Copy, Debug, PartialEq, Eq, Structural)]
pub enum WorkerMessage {
    Cancel,
}

} // verus!
