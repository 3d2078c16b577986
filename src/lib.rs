//! Iris moves files and directories between two peers through a relay that pairs them by
//! room and forwards their frames blindly. The peers turn a short shared passphrase into a
//! session key with a symmetric PAKE and seal every later message with an AEAD cipher.
//!
//! The library holds the protocol: the wire encodings, the framing, the cipher adapter, the
//! key exchange, the relay's pairing and forwarding script, and the sending and receiving
//! sessions as state machines that a driver feeds with what its connection and disk did.

pub mod cipher;
pub mod constants;
pub mod errors;
pub mod escape;
pub mod files;
pub mod framing;
pub mod json;
pub mod message;
pub mod pake;
pub mod passphrase;
pub mod progress;
pub mod receiver;
pub mod relay;
pub mod room_mapping;
pub mod sender;
pub mod words;

pub use crate::cipher::{get_cipher, Cipher};
pub use crate::errors::{IrisError, SpakeFailure};
pub use crate::files::{FileMetadata, FileType};
pub use crate::message::{CipherType, IrisMessage, MessageTracker, RoomIdentifier};
pub use crate::passphrase::{
    get_passphrase_from_str_wordlist, get_passphrase_from_string_wordlist, parse_passphrase,
};
pub use crate::progress::{ReceiverProgressMessage, SenderProgressMessage, WorkerMessage};
pub use crate::receiver::{receive, ConflictingFileMode, ReceiverSession};
pub use crate::room_mapping::RoomMapping;
pub use crate::sender::{send, simple_send, SenderSession};
