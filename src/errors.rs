use vstd::prelude::*;

verus! {

/// Why the key exchange could not be completed.
#[derive(Clone, Copy, Debug, PartialEq, Eq, Structural)]
pub enum SpakeFailure {
    /// The peer's share does not have the length of a group element plus its side byte.
    WrongLength,
    /// The peer's share is marked for another side of the exchange.
    BadSide,
    /// The peer's share is not a valid group element.
    CorruptMessage,
}

/// Everything that can end a transfer session.
#[derive(Clone, Debug, PartialEq, Eq)]
pub enum IrisError {
    /// The cipher for encrypted communication could not be set up.
    CryptoInitError,
    /// A message could not be encrypted.
    CryptoEncryptionError,
    /// A message could not be decrypted or authenticated.
    CryptoDecryptionError,
    /// A value could not be encoded for the wire.
    SerializationError,
    /// Bytes from the wire are not the encoding of the expected value.
    DeserializationError,
    /// The peer sent a message that the current state does not allow.
    UnexpectedMessage,
    /// A length does not fit the four-byte frame prefix.
    U32TypecastError,
    /// No connection could be made.
    StreamInitializationError,
    /// Reading from the connection failed.
    UserConnectionReadError,
    /// Writing to the connection failed.
    UserConnectionWriteError,
    /// A local path could not be read or written.
    PermissionsUserIOError(String),
    /// A local path already exists and the conflict mode forbids touching it.
    AlreadyExistsUserIOError(String),
    /// The passphrase is malformed or names no waiting sender.
    InvalidPassphrase,
    /// The key exchange failed.
    SpakeError(SpakeFailure),
    /// No more data can be read.
    EndOfFile,
}

} // verus!
