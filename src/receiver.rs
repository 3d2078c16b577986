use vstd::prelude::*;

use crate::cipher::{get_cipher, Cipher};
use crate::constants::CHUNK_SIZE;
use crate::errors::IrisError;
use crate::files::{is_relative_below, is_safe_destination, parse_metadata, read_metadata, FileType};
use crate::pake::pake_identity;
use vstd::string::StringSliceAdditionalSpecFns;
use vstd::utf8::encode_utf8;
use crate::message::{
    encode_message, message_json, parse_message, read_message, CipherType, IrisMessage, RoomIdentifier,
};
use crate::pake::KeyExchange;
use crate::progress::ReceiverProgressMessage;

verus! {

/// What the receiver does when a destination path already exists.
#[derive(Clone, Copy, Debug, PartialEq, Eq, Structural)]
pub enum ConflictingFileMode {
    Overwrite,
    Skip,
    Resume,
    Error,
}

impl Default for ConflictingFileMode {
    fn default() -> (r: ConflictingFileMode)
        ensures
            r == ConflictingFileMode::Error,
    {
        ConflictingFileMode::Error
    }
}

/// How the receiver opens a destination file.
#[derive(Clone, Copy, Debug, PartialEq, Eq, Structural)]
pub enum OpenMode {
    /// Create the file or cut an existing one to length 0, then append.
    Truncate,
    /// Create the file; fail if it exists.
    CreateNew,
    /// Create the file or append to an existing one.
    Append,
}

/// What came of opening a destination file.
#[derive(Clone, Copy, Debug, PartialEq, Eq, Structural)]
pub enum OpenOutcome {
    /// The file is open; `existing_size` is its length on disk.
    Opened { existing_size: u64 },
    /// The file exists and the open mode was `CreateNew`.
    AlreadyExists,
    /// The file could not be opened, or its length could not be read.
    Failed,
}

pub open spec fn spec_open_mode(mode: ConflictingFileMode) -> OpenMode {
    match mode {
        ConflictingFileMode::Overwrite => OpenMode::Truncate,
        ConflictingFileMode::Skip => OpenMode::CreateNew,
        ConflictingFileMode::Resume => OpenMode::Append,
        ConflictingFileMode::Error => OpenMode::CreateNew,
    }
}

/// How a destination file is opened under each conflict mode.
pub fn open_mode(mode: ConflictingFileMode) -> (r: OpenMode)
    ensures
        r == spec_open_mode(mode),
{
    match mode {
        ConflictingFileMode::Overwrite => OpenMode::Truncate,
        ConflictingFileMode::Skip => OpenMode::CreateNew,
        ConflictingFileMode::Resume => OpenMode::Append,
        ConflictingFileMode::Error => OpenMode::CreateNew,
    }
}

/// Where writing starts (`Some`) or that the file is skipped (`None`), for a file opened under
/// `mode`.
pub open spec fn spec_start_pos(mode: ConflictingFileMode, outcome: OpenOutcome) -> Result<
    Option<u64>,
    (),
> {
    match (mode, outcome) {
        (ConflictingFileMode::Resume, OpenOutcome::Opened { existing_size }) => Ok(
            Some(existing_size),
        ),
        (_, OpenOutcome::Opened { .. }) => Ok(Some(0)),
        (ConflictingFileMode::Skip, _) => Ok(None),
        _ => Err(()),
    }
}

/// The error for a destination file that could not be opened under `mode`.
pub open spec fn spec_open_error(mode: ConflictingFileMode, outcome: OpenOutcome, path: String) -> IrisError {
    if mode == ConflictingFileMode::Error && outcome == OpenOutcome::AlreadyExists {
        IrisError::AlreadyExistsUserIOError(path)
    } else {
        IrisError::PermissionsUserIOError(path)
    }
}

/// Decides, from how the destination file was opened, where writing starts: `Ok(Some(p))`
/// starts at `p`, `Ok(None)` skips the file.
pub fn get_file_and_start_pos(mode: ConflictingFileMode, outcome: OpenOutcome, path: &String) -> (r:
    Result<Option<u64>, IrisError>)
    ensures
        spec_start_pos(mode, outcome) matches Ok(p) ==> r == Ok::<Option<u64>, IrisError>(p),
        spec_start_pos(mode, outcome) is Err ==> r == Err::<Option<u64>, IrisError>(
            spec_open_error(mode, outcome, *path),
        ),
{
    match outcome {
        OpenOutcome::Opened { existing_size } => match mode {
            ConflictingFileMode::Resume => Ok(Some(existing_size)),
            _ => Ok(Some(0)),
        },
        _ => match mode {
            ConflictingFileMode::Skip => Ok(None),
            ConflictingFileMode::Error => match outcome {
                OpenOutcome::AlreadyExists => Err(
                    IrisError::AlreadyExistsUserIOError(path.clone()),
                ),
                _ => Err(IrisError::PermissionsUserIOError(path.clone())),
            },
            _ => Err(IrisError::PermissionsUserIOError(path.clone())),
        },
    }
}

/// The reply to a file entry of `size` bytes whose writing would start at `start`: the file is
/// skipped when nothing is left to write.
pub open spec fn spec_file_reply(start: Option<u64>, size: u64) -> IrisMessage {
    match start {
        Some(p) => if p >= size {
            IrisMessage::FileSkipped
        } else {
            IrisMessage::FileStartAtPos { start_pos: p }
        },
        None => IrisMessage::FileSkipped,
    }
}

/// Whether an existing directory is removed before it is created again.
pub open spec fn spec_removes_directory(mode: ConflictingFileMode) -> bool {
    mode == ConflictingFileMode::Overwrite
}

/// The reply to a directory entry once creating it succeeded or failed.
pub open spec fn spec_directory_reply(mode: ConflictingFileMode, created: bool) -> Result<
    IrisMessage,
    (),
> {
    if created {
        Ok(IrisMessage::DirectoryCreated)
    } else if mode == ConflictingFileMode::Skip || mode == ConflictingFileMode::Resume {
        Ok(IrisMessage::FileSkipped)
    } else {
        Err(())
    }
}

/// Decides the reply to a directory entry: `DirectoryCreated`, `FileSkipped` where the mode
/// tolerates an existing directory, or the error of the mode.
pub fn process_directory(mode: ConflictingFileMode, created: bool, path: &String) -> (r: Result<
    IrisMessage,
    IrisError,
>)
    ensures
        spec_directory_reply(mode, created) matches Ok(m) ==> r == Ok::<IrisMessage, IrisError>(m),
        spec_directory_reply(mode, created) is Err && mode == ConflictingFileMode::Error ==> r
            == Err::<IrisMessage, IrisError>(IrisError::AlreadyExistsUserIOError(*path)),
        spec_directory_reply(mode, created) is Err && mode == ConflictingFileMode::Overwrite ==> r
            == Err::<IrisMessage, IrisError>(IrisError::PermissionsUserIOError(*path)),
{
    if created {
        Ok(IrisMessage::DirectoryCreated)
    } else {
        match mode {
            ConflictingFileMode::Skip | ConflictingFileMode::Resume => Ok(IrisMessage::FileSkipped),
            ConflictingFileMode::Error => Err(IrisError::AlreadyExistsUserIOError(path.clone())),
            ConflictingFileMode::Overwrite => Err(
                IrisError::PermissionsUserIOError(path.clone()),
            ),
        }
    }
}

/// Bytes still expected after one more chunk has arrived.
pub open spec fn spec_after_chunk(left: u64) -> u64 {
    if left <= CHUNK_SIZE {
        0
    } else {
        (left - CHUNK_SIZE) as u64
    }
}

/// The size that progress reports for one chunk.
pub open spec fn spec_chunk_progress(left: u64) -> u64 {
    if left <= CHUNK_SIZE {
        left
    } else {
        CHUNK_SIZE
    }
}

/// How many chunks it takes to receive `left` bytes.
pub open spec fn chunks_for(left: u64) -> nat
    decreases left,
{
    if left == 0 {
        0
    } else {
        1 + chunks_for(spec_after_chunk(left))
    }
}

/// The bytes that progress counts over all chunks of `left` bytes.
pub open spec fn progress_total(left: u64) -> nat
    decreases left,
{
    if left == 0 {
        0
    } else {
        spec_chunk_progress(left) as nat + progress_total(spec_after_chunk(left))
    }
}

/// Accounts for one received chunk: the bytes still expected, and the size reported.
pub fn account_chunk(left: u64) -> (r: (u64, u64))
    ensures
        r.0 == spec_after_chunk(left),
        r.1 == spec_chunk_progress(left),
{
    let size = if left < CHUNK_SIZE {
        left
    } else {
        CHUNK_SIZE
    };
    (left.saturating_sub(CHUNK_SIZE), size)
}

/// Receiving `left` bytes accounts for exactly `left` bytes, in `ceil(left / CHUNK_SIZE)`
/// chunks, the last one acknowledged with `is_last`.
pub proof fn chunk_accounting(left: u64)
    ensures
        progress_total(left) == left,
        chunks_for(left) == (left + CHUNK_SIZE - 1) / (CHUNK_SIZE as int),
    decreases left,
{
    if left > 0 {
        chunk_accounting(spec_after_chunk(left));
    }
}

/// Resuming a file of `size` bytes of which `existing` are on disk: the receiver asks for the
/// bytes from `existing` on, and receives exactly the `size - existing` that are missing; a
/// file already complete is skipped.
pub proof fn resume_requests_the_remainder(existing: u64, size: u64)
    ensures
        spec_start_pos(
            ConflictingFileMode::Resume,
            OpenOutcome::Opened { existing_size: existing },
        ) == Ok::<Option<u64>, ()>(Some(existing)),
        existing < size ==> spec_file_reply(Some(existing), size) == (IrisMessage::FileStartAtPos {
            start_pos: existing,
        }),
        existing < size ==> progress_total((size - existing) as u64) == size - existing,
        existing >= size ==> spec_file_reply(Some(existing), size) == IrisMessage::FileSkipped,
{
    if existing < size {
        chunk_accounting((size - existing) as u64);
    }
}

/// In `Skip` mode an existing destination is never changed: files are only ever created new,
/// an existing file is answered with `FileSkipped`, and an existing directory is not removed
/// and is answered with `FileSkipped`.
pub proof fn skip_leaves_existing_entries(size: u64)
    ensures
        spec_open_mode(ConflictingFileMode::Skip) == OpenMode::CreateNew,
        spec_start_pos(ConflictingFileMode::Skip, OpenOutcome::AlreadyExists) == Ok::<
            Option<u64>,
            (),
        >(None),
        spec_file_reply(None, size) == IrisMessage::FileSkipped,
        !spec_removes_directory(ConflictingFileMode::Skip),
        spec_directory_reply(ConflictingFileMode::Skip, false) == Ok::<IrisMessage, ()>(
            IrisMessage::FileSkipped,
        ),
{
}

} // verus!


verus! {

/// What a receiving session asks its driver to do next.
#[derive(Debug)]
pub enum ReceiverAction {
    /// Read one frame from the connection.
    ReadFrame,
    /// Write this frame payload to the connection.
    WriteFrame(Vec<u8>),
    /// Create a directory, removing what is there first if `remove_existing`.
    CreateDirectory { path: String, remove_existing: bool },
    /// Open the destination file of the current entry.
    OpenFile { path: String, mode: OpenMode },
    /// Append these bytes to the open destination file.
    AppendToFile(Vec<u8>),
    /// The transfer is complete.
    Done,
    /// The session ends with this error.
    Fail(IrisError),
}

/// What the driver reports back after performing an action.
#[derive(Debug)]
pub enum ReceiverEvent {
    /// A frame was read; this is its payload.
    Frame(Vec<u8>),
    /// The peer closed the connection, or reading failed.
    Closed,
    /// The frame was written.
    Written,
    /// Whether the directory was created.
    DirectoryResult(bool),
    /// How opening the destination file went.
    FileOpened(OpenOutcome),
    /// Whether the bytes were appended.
    Appended(bool),
}

/// Where a receiving session stands.
#[derive(Clone, Copy, Debug, PartialEq, Eq, Structural)]
pub enum ReceiverPhase {
    AwaitCipher,
    SentShare,
    AwaitShare,
    SentReadyForMetadata,
    AwaitTransferMetadata,
    SentReadyForFiles,
    AwaitEntry,
    CreatingDirectory,
    OpeningFile,
    SentEntryReply,
    SentStartPos,
    AwaitChunk,
    Appending,
    SentChunkAck,
    Done,
    Failed,
}

/// One decision of a receiving session: the next action, what to report (in order), and
/// whether the user's cancel request is to be honoured now.
#[derive(Debug)]
pub struct ReceiverStep {
    pub action: ReceiverAction,
    pub progress: Vec<ReceiverProgressMessage>,
    pub check_cancel: bool,
}

/// The phases that wait for a write to complete.
pub open spec fn receiver_sent_phase(p: ReceiverPhase) -> bool {
    p == ReceiverPhase::SentShare || p == ReceiverPhase::SentReadyForMetadata || p
        == ReceiverPhase::SentReadyForFiles || p == ReceiverPhase::SentEntryReply || p
        == ReceiverPhase::SentStartPos || p == ReceiverPhase::SentChunkAck
}

/// What the session reads after each write; after an acknowledgement, the next chunk while
/// bytes are left, else the next entry.
pub open spec fn receiver_after_write(p: ReceiverPhase, bytes_left: u64) -> ReceiverPhase {
    match p {
        ReceiverPhase::SentShare => ReceiverPhase::AwaitShare,
        ReceiverPhase::SentReadyForMetadata => ReceiverPhase::AwaitTransferMetadata,
        ReceiverPhase::SentStartPos => ReceiverPhase::AwaitChunk,
        ReceiverPhase::SentChunkAck => if bytes_left == 0 {
            ReceiverPhase::AwaitEntry
        } else {
            ReceiverPhase::AwaitChunk
        },
        _ => ReceiverPhase::AwaitEntry,
    }
}

/// Whether an action is a read (`Some(false)`) or a write (`Some(true)`) on the connection.
pub open spec fn receiver_io(a: ReceiverAction) -> Option<bool> {
    match a {
        ReceiverAction::ReadFrame => Some(false),
        ReceiverAction::WriteFrame(_) => Some(true),
        _ => None,
    }
}

/// Reads and writes alternate: an action on the connection differs in kind from the last one,
/// and becomes the last one.
pub open spec fn alternates(before: Option<bool>, after: Option<bool>, a: ReceiverAction) -> bool {
    &&& (receiver_io(a) matches Some(k) ==> before != Some(k) && after == Some(k))
    &&& (receiver_io(a) is None ==> after == before)
}

/// The decisions of the receiving peer, from the cipher announcement to the last entry.
pub struct ReceiverSession {
    pub phase: ReceiverPhase,
    pub mode: ConflictingFileMode,
    pub exchange: KeyExchange,
    pub cipher_type: CipherType,
    pub cipher: Option<Cipher>,
    pub entry_path: String,
    pub entry_size: u64,
    pub bytes_left: u64,
    /// The kind of the last read or write on the connection.
    pub last_io: Ghost<Option<bool>>,
}

/// Two session states that agree on everything but the phase and the last connection action.
pub open spec fn same_data(a: ReceiverSession, b: ReceiverSession) -> bool {
    &&& b.mode == a.mode
    &&& b.exchange == a.exchange
    &&& b.cipher_type == a.cipher_type
    &&& b.cipher == a.cipher
    &&& b.entry_path == a.entry_path
    &&& b.entry_size == a.entry_size
    &&& b.bytes_left == a.bytes_left
}

/// The session writes `m` sealed, reports `progress` and moves to `next`. (A control message
/// is always short enough to seal.)
pub open spec fn sealed_reply(
    b: ReceiverSession,
    r: ReceiverStep,
    m: IrisMessage,
    next: ReceiverPhase,
    progress: Seq<ReceiverProgressMessage>,
) -> bool {
    r.action matches ReceiverAction::WriteFrame(g) && b.seals(g@, m) && b.phase == next
        && r.progress@ == progress
}

/// The error for a directory that could not be created under `mode`.
pub open spec fn spec_directory_error(mode: ConflictingFileMode, path: String) -> IrisError {
    if mode == ConflictingFileMode::Error {
        IrisError::AlreadyExistsUserIOError(path)
    } else {
        IrisError::PermissionsUserIOError(path)
    }
}

/// The sender's cipher announcement, read in the clear.
pub open spec fn on_cipher_spec(a: ReceiverSession, b: ReceiverSession, f: Seq<u8>, r: ReceiverStep) -> bool {
    match parse_message(f) {
        Some(IrisMessage::SetCipherType { cipher_type }) => b.phase == ReceiverPhase::SentShare
            && b.cipher_type == cipher_type && (r.action matches ReceiverAction::WriteFrame(s)
            && s@ == a.exchange.share()) && r.progress@.len() == 0,
        Some(IrisMessage::BadRoomIdentifier) => r.action == ReceiverAction::Fail(
            IrisError::InvalidPassphrase,
        ),
        Some(_) => r.action == ReceiverAction::Fail(IrisError::UnexpectedMessage),
        None => r.action == ReceiverAction::Fail(IrisError::DeserializationError),
    }
}

/// The sender's share: the session key, and the request for the transfer's totals.
pub open spec fn on_share_spec(a: ReceiverSession, b: ReceiverSession, f: Seq<u8>, r: ReceiverStep) -> bool {
    match crate::pake::pake_key(a.exchange.password@, a.exchange.identity@, a.exchange.seed@, f) {
        Some(k) => b.cipher matches Some(c) && c.key@ == k && c.cipher_type == a.cipher_type
            && sealed_reply(
            b,
            r,
            IrisMessage::ReadyToReceiveMetadata,
            ReceiverPhase::SentReadyForMetadata,
            seq![ReceiverProgressMessage::SetCipher { cipher_type: a.cipher_type }],
        ),
        None => r.action matches ReceiverAction::Fail(e) && e is SpakeError,
    }
}

/// The transfer's totals, and the request for the files.
pub open spec fn on_totals_spec(a: ReceiverSession, b: ReceiverSession, f: Seq<u8>, r: ReceiverStep) -> bool {
    match a.cipher->Some_0.opened(f) {
        None => r.action == ReceiverAction::Fail(IrisError::CryptoDecryptionError),
        Some(p) => match parse_message(p) {
            Some(IrisMessage::TransferMetadata { total_files, total_bytes }) => sealed_reply(
                b,
                r,
                IrisMessage::ReadyToReceiveFiles,
                ReceiverPhase::SentReadyForFiles,
                seq![ReceiverProgressMessage::TransferMetadata { total_files, total_bytes }],
            ),
            Some(_) => r.action == ReceiverAction::Fail(IrisError::UnexpectedMessage),
            None => r.action == ReceiverAction::Fail(IrisError::DeserializationError),
        },
    }
}

/// An entry's metadata: a directory is created and a file opened at exactly the sent path,
/// as the mode says; a path that would leave the working directory ends the session.
pub open spec fn on_entry_spec(a: ReceiverSession, b: ReceiverSession, f: Seq<u8>, r: ReceiverStep) -> bool {
    match a.cipher->Some_0.opened(f) {
        None => r.action == ReceiverAction::Fail(IrisError::CryptoDecryptionError),
        Some(p) => match parse_metadata(p) {
            None => r.action == ReceiverAction::Fail(IrisError::DeserializationError),
            Some((name, t, size)) => if !is_relative_below(encode_utf8(name)) {
                r.action matches ReceiverAction::Fail(e) && (e matches IrisError::PermissionsUserIOError(
                    s,
                ) && s@ == name)
            } else {
                &&& b.entry_path@ == name
                &&& b.entry_size == size
                &&& r.progress@ == seq![
                    ReceiverProgressMessage::FileMetadata { filename: b.entry_path, file_size: size },
                ]
                &&& match t {
                    FileType::Directory => r.action == (ReceiverAction::CreateDirectory {
                        path: b.entry_path,
                        remove_existing: spec_removes_directory(a.mode),
                    }) && b.phase == ReceiverPhase::CreatingDirectory,
                    FileType::File => r.action == (ReceiverAction::OpenFile {
                        path: b.entry_path,
                        mode: spec_open_mode(a.mode),
                    }) && b.phase == ReceiverPhase::OpeningFile,
                }
            },
        },
    }
}

/// The reply once the entry's directory was created, or not.
pub open spec fn on_directory_spec(a: ReceiverSession, b: ReceiverSession, created: bool, r: ReceiverStep) -> bool {
    match spec_directory_reply(a.mode, created) {
        Ok(m) => sealed_reply(
            b,
            r,
            m,
            ReceiverPhase::SentEntryReply,
            seq![
                if m == IrisMessage::DirectoryCreated {
                    ReceiverProgressMessage::DirectoryCreated
                } else {
                    ReceiverProgressMessage::FileSkipped
                },
            ],
        ),
        Err(_) => r.action == ReceiverAction::Fail(spec_directory_error(a.mode, a.entry_path)),
    }
}

/// The reply once the entry's file was opened, or not: where writing starts, or a skip.
pub open spec fn on_file_spec(a: ReceiverSession, b: ReceiverSession, o: OpenOutcome, r: ReceiverStep) -> bool {
    match spec_start_pos(a.mode, o) {
        Ok(start) => match spec_file_reply(start, a.entry_size) {
            IrisMessage::FileStartAtPos { start_pos } => sealed_reply(
                b,
                r,
                IrisMessage::FileStartAtPos { start_pos },
                ReceiverPhase::SentStartPos,
                seq![ReceiverProgressMessage::ChunkReceived { size: start_pos }],
            ) && b.bytes_left == a.entry_size - start_pos,
            m => sealed_reply(
                b,
                r,
                m,
                ReceiverPhase::SentEntryReply,
                seq![ReceiverProgressMessage::FileSkipped],
            ),
        },
        Err(_) => r.action == ReceiverAction::Fail(spec_open_error(a.mode, o, a.entry_path)),
    }
}

/// A chunk frame: its plaintext is appended.
pub open spec fn on_chunk_spec(a: ReceiverSession, b: ReceiverSession, f: Seq<u8>, r: ReceiverStep) -> bool {
    match a.cipher->Some_0.opened(f) {
        Some(p) => (r.action matches ReceiverAction::AppendToFile(q) && q@ == p) && b.phase
            == ReceiverPhase::Appending && r.progress@.len() == 0,
        None => r.action == ReceiverAction::Fail(IrisError::CryptoDecryptionError),
    }
}

/// After a chunk is appended: the acknowledgement says whether it was the last; the file is
/// done after the last one.
pub open spec fn on_appended_spec(a: ReceiverSession, b: ReceiverSession, ok: bool, r: ReceiverStep) -> bool {
    if ok {
        &&& b.bytes_left == spec_after_chunk(a.bytes_left)
        &&& sealed_reply(
            b,
            r,
            IrisMessage::ChunkReceived { is_last: b.bytes_left == 0 },
            ReceiverPhase::SentChunkAck,
            if b.bytes_left == 0 {
                seq![
                    ReceiverProgressMessage::ChunkReceived { size: spec_chunk_progress(a.bytes_left) },
                    ReceiverProgressMessage::FileDone,
                ]
            } else {
                seq![ReceiverProgressMessage::ChunkReceived { size: spec_chunk_progress(a.bytes_left) }]
            },
        )
    } else {
        r.action == ReceiverAction::Fail(IrisError::PermissionsUserIOError(a.entry_path))
    }
}

impl ReceiverSession {
    pub open spec fn wf(&self) -> bool {
        &&& self.exchange.wf()
        &&& (self.cipher matches Some(c) ==> c.wf() && c.cipher_type == self.cipher_type)
        &&& (self.phase == ReceiverPhase::AwaitChunk || self.phase == ReceiverPhase::SentStartPos
            ==> self.bytes_left > 0)
        &&& (self.phase == ReceiverPhase::AwaitCipher ==> self.cipher is None)
        &&& (self.phase != ReceiverPhase::AwaitCipher && self.phase != ReceiverPhase::SentShare
            && self.phase != ReceiverPhase::AwaitShare && self.phase != ReceiverPhase::Done
            && self.phase != ReceiverPhase::Failed ==> self.cipher is Some)
        &&& (self.phase == ReceiverPhase::SentShare || self.phase
            == ReceiverPhase::SentReadyForMetadata || self.phase == ReceiverPhase::SentReadyForFiles
            || self.phase == ReceiverPhase::SentEntryReply || self.phase == ReceiverPhase::SentStartPos
            || self.phase == ReceiverPhase::SentChunkAck ==> self.last_io@ == Some(true))
        &&& (self.phase == ReceiverPhase::AwaitCipher || self.phase == ReceiverPhase::AwaitShare
            || self.phase == ReceiverPhase::AwaitTransferMetadata || self.phase
            == ReceiverPhase::AwaitEntry || self.phase == ReceiverPhase::CreatingDirectory
            || self.phase == ReceiverPhase::OpeningFile || self.phase == ReceiverPhase::AwaitChunk
            || self.phase == ReceiverPhase::Appending ==> self.last_io@ == Some(false))
    }

    /// Whether `frame` is a sealing of message `m` under the session cipher.
    pub open spec fn seals(&self, frame: Seq<u8>, m: IrisMessage) -> bool {
        self.cipher matches Some(c) && c.opened(frame) == Some(message_json(m))
    }

    fn fail(&mut self, e: IrisError) -> (r: ReceiverStep)
        requires
            old(self).wf(),
        ensures
            final(self).wf(),
            same_data(*old(self), *final(self)),
            final(self).phase == ReceiverPhase::Failed,
            final(self).last_io == old(self).last_io,
            r.action == ReceiverAction::Fail(e),
            r.progress@.len() == 0,
            !r.check_cancel,
    {
        self.phase = ReceiverPhase::Failed;
        ReceiverStep { action: ReceiverAction::Fail(e), progress: Vec::new(), check_cancel: false }
    }

    /// Seals a control message under the session cipher.
    fn seal_message(&self, m: IrisMessage) -> (r: Result<Vec<u8>, IrisError>)
        requires
            self.wf(),
            self.cipher is Some,
        ensures
            r matches Ok(f) && self.seals(f@, m),
    {
        proof {
            crate::message::message_encoding_is_short(m);
        }
        let plain = encode_message(m);
        match &self.cipher {
            Some(c) => c.encrypt(plain.as_slice()),
            None => Err(IrisError::CryptoEncryptionError),
        }
    }

    /// Opens a sealed frame under the session cipher.
    fn open_frame(&self, frame: &[u8]) -> (r: Result<Vec<u8>, IrisError>)
        requires
            self.wf(),
            self.cipher is Some,
        ensures
            match self.cipher->Some_0.opened(frame@) {
                Some(p) => r matches Ok(q) && q@ == p,
                None => r == Err::<Vec<u8>, IrisError>(IrisError::CryptoDecryptionError),
            },
    {
        match &self.cipher {
            Some(c) => c.decrypt(frame),
            None => Err(IrisError::CryptoDecryptionError),
        }
    }

    /// Writes a sealed reply and moves to `next`.
    fn reply(&mut self, m: IrisMessage, next: ReceiverPhase, progress: Vec<ReceiverProgressMessage>) -> (r:
        ReceiverStep)
        requires
            old(self).wf(),
            old(self).cipher is Some,
            old(self).last_io@ == Some(false),
            next == ReceiverPhase::SentReadyForMetadata || next == ReceiverPhase::SentReadyForFiles
                || next == ReceiverPhase::SentEntryReply || next == ReceiverPhase::SentStartPos
                || next == ReceiverPhase::SentChunkAck,
            next == ReceiverPhase::SentStartPos ==> old(self).bytes_left > 0,
        ensures
            final(self).wf(),
            r.action is Fail ==> r.progress@.len() == 0,
            same_data(*old(self), *final(self)),
            alternates(old(self).last_io@, final(self).last_io@, r.action),
            sealed_reply(*final(self), r, m, next, progress@),
            !r.check_cancel,
    {
        match self.seal_message(m) {
            Ok(frame) => {
                self.phase = next;
                self.last_io = Ghost(Some(true));
                ReceiverStep { action: ReceiverAction::WriteFrame(frame), progress, check_cancel: false }
            },
            Err(e) => self.fail(e),
        }
    }

    /// Reads the next frame in phase `next`.
    fn read_next(&mut self, next: ReceiverPhase, check_cancel: bool) -> (r: ReceiverStep)
        requires
            old(self).wf(),
            old(self).last_io@ == Some(true),
            next == ReceiverPhase::AwaitChunk ==> old(self).bytes_left > 0,
            next == ReceiverPhase::AwaitShare || next == ReceiverPhase::AwaitTransferMetadata
                || next == ReceiverPhase::AwaitEntry || next == ReceiverPhase::AwaitChunk,
            next != ReceiverPhase::AwaitShare ==> old(self).cipher is Some,
        ensures
            final(self).wf(),
            same_data(*old(self), *final(self)),
            final(self).phase == next,
            final(self).last_io@ == Some(false),
            r.action is ReadFrame,
            r.check_cancel == check_cancel,
            r.progress@.len() == 0,
    {
        self.phase = next;
        self.last_io = Ghost(Some(false));
        ReceiverStep { action: ReceiverAction::ReadFrame, progress: Vec::new(), check_cancel }
    }
}

/// Starts a session for `room` with the secret part of the passphrase; the first action is
/// to read the sender's cipher announcement.
pub fn receive(room: RoomIdentifier, passphrase: &str, mode: ConflictingFileMode) -> (r: (
    ReceiverSession,
    ReceiverStep,
))
    ensures
        r.0.wf(),
        r.0.phase == ReceiverPhase::AwaitCipher,
        r.0.mode == mode,
        r.0.exchange.password@ == passphrase.spec_bytes(),
        r.0.exchange.identity@ == pake_identity(room),
        r.0.cipher is None,
        r.1.action is ReadFrame,
        r.1.progress@.len() == 0,
        r.0.last_io@ == Some(false),
{
    let session = ReceiverSession {
        phase: ReceiverPhase::AwaitCipher,
        mode,
        exchange: KeyExchange::start(room, passphrase),
        cipher_type: CipherType::XChaCha20Poly1305,
        cipher: None,
        entry_path: String::new(),
        entry_size: 0,
        bytes_left: 0,
        last_io: Ghost(Some(false)),
    };
    (session, ReceiverStep { action: ReceiverAction::ReadFrame, progress: Vec::new(), check_cancel: false })
}

impl ReceiverSession {
    /// Takes the outcome of the last action and decides the next one.
    pub fn step(&mut self, event: ReceiverEvent) -> (r: ReceiverStep)
        requires
            old(self).wf(),
        ensures
            final(self).wf(),
            r.action is Fail ==> r.progress@.len() == 0,
            // What stays fixed, and what only one kind of step changes.
            final(self).mode == old(self).mode,
            final(self).exchange == old(self).exchange,
            old(self).phase != ReceiverPhase::AwaitCipher ==> final(self).cipher_type == old(
                self,
            ).cipher_type,
            old(self).phase != ReceiverPhase::AwaitShare ==> final(self).cipher == old(self).cipher,
            old(self).phase != ReceiverPhase::AwaitEntry ==> final(self).entry_path == old(
                self,
            ).entry_path && final(self).entry_size == old(self).entry_size,
            old(self).phase != ReceiverPhase::OpeningFile && old(self).phase
                != ReceiverPhase::Appending ==> final(self).bytes_left == old(self).bytes_left,
            // Reads and writes on the connection alternate.
            alternates(old(self).last_io@, final(self).last_io@, r.action),
            // After each write the session reads the peer's next frame.
            event is Written && receiver_sent_phase(old(self).phase) ==> r.action is ReadFrame
                && final(self).phase == receiver_after_write(old(self).phase, old(self).bytes_left)
                && r.progress@.len() == 0 && r.check_cancel == (old(self).phase
                == ReceiverPhase::SentEntryReply || old(self).phase == ReceiverPhase::SentChunkAck),
            old(self).phase == ReceiverPhase::AwaitCipher ==> (event matches ReceiverEvent::Frame(f)
                ==> on_cipher_spec(*old(self), *final(self), f@, r)),
            old(self).phase == ReceiverPhase::AwaitShare ==> (event matches ReceiverEvent::Frame(f)
                ==> on_share_spec(*old(self), *final(self), f@, r)),
            old(self).phase == ReceiverPhase::AwaitTransferMetadata ==> (event matches ReceiverEvent::Frame(
                f,
            ) ==> on_totals_spec(*old(self), *final(self), f@, r)),
            // The sender closing the connection between entries ends the transfer.
            old(self).phase == ReceiverPhase::AwaitEntry && event is Closed ==> r.action is Done
                && final(self).phase == ReceiverPhase::Done,
            old(self).phase == ReceiverPhase::AwaitEntry ==> (event matches ReceiverEvent::Frame(f)
                ==> on_entry_spec(*old(self), *final(self), f@, r)),
            old(self).phase == ReceiverPhase::CreatingDirectory ==> (event matches ReceiverEvent::DirectoryResult(
                created,
            ) ==> on_directory_spec(*old(self), *final(self), created, r)),
            old(self).phase == ReceiverPhase::OpeningFile ==> (event matches ReceiverEvent::FileOpened(
                o,
            ) ==> on_file_spec(*old(self), *final(self), o, r)),
            old(self).phase == ReceiverPhase::AwaitChunk ==> (event matches ReceiverEvent::Frame(f)
                ==> on_chunk_spec(*old(self), *final(self), f@, r)),
            old(self).phase == ReceiverPhase::AwaitChunk && event is Closed ==> r.action
                == ReceiverAction::Fail(IrisError::UserConnectionReadError),
            old(self).phase == ReceiverPhase::Appending ==> (event matches ReceiverEvent::Appended(ok)
                ==> on_appended_spec(*old(self), *final(self), ok, r)),
    {
        match self.phase {
            ReceiverPhase::AwaitCipher => match event {
                ReceiverEvent::Frame(f) => self.on_cipher(f),
                _ => self.fail(IrisError::UserConnectionReadError),
            },
            ReceiverPhase::SentShare => match event {
                ReceiverEvent::Written => self.read_next(ReceiverPhase::AwaitShare, false),
                _ => self.fail(IrisError::UserConnectionWriteError),
            },
            ReceiverPhase::AwaitShare => match event {
                ReceiverEvent::Frame(f) => self.on_share(f),
                _ => self.fail(IrisError::UserConnectionReadError),
            },
            ReceiverPhase::SentReadyForMetadata => match event {
                ReceiverEvent::Written => self.read_next(ReceiverPhase::AwaitTransferMetadata, false),
                _ => self.fail(IrisError::UserConnectionWriteError),
            },
            ReceiverPhase::AwaitTransferMetadata => match event {
                ReceiverEvent::Frame(f) => self.on_transfer_metadata(f),
                _ => self.fail(IrisError::UserConnectionReadError),
            },
            ReceiverPhase::SentReadyForFiles => match event {
                ReceiverEvent::Written => self.read_next(ReceiverPhase::AwaitEntry, false),
                _ => self.fail(IrisError::UserConnectionWriteError),
            },
            ReceiverPhase::AwaitEntry => match event {
                ReceiverEvent::Frame(f) => self.on_entry(f),
                ReceiverEvent::Closed => {
                    self.phase = ReceiverPhase::Done;
                    ReceiverStep { action: ReceiverAction::Done, progress: Vec::new(), check_cancel: false }
                },
                _ => self.fail(IrisError::UserConnectionReadError),
            },
            ReceiverPhase::CreatingDirectory => match event {
                ReceiverEvent::DirectoryResult(created) => self.on_directory(created),
                _ => self.fail(IrisError::UnexpectedMessage),
            },
            ReceiverPhase::OpeningFile => match event {
                ReceiverEvent::FileOpened(outcome) => self.on_file_opened(outcome),
                _ => self.fail(IrisError::UnexpectedMessage),
            },
            ReceiverPhase::SentEntryReply => match event {
                ReceiverEvent::Written => self.read_next(ReceiverPhase::AwaitEntry, true),
                _ => self.fail(IrisError::UserConnectionWriteError),
            },
            ReceiverPhase::SentStartPos => match event {
                ReceiverEvent::Written => self.read_next(ReceiverPhase::AwaitChunk, false),
                _ => self.fail(IrisError::UserConnectionWriteError),
            },
            ReceiverPhase::AwaitChunk => match event {
                ReceiverEvent::Frame(f) => match self.open_frame(f.as_slice()) {
                    Ok(p) => {
                        self.phase = ReceiverPhase::Appending;
                        ReceiverStep {
                            action: ReceiverAction::AppendToFile(p),
                            progress: Vec::new(),
                            check_cancel: false,
                        }
                    },
                    Err(e) => self.fail(e),
                },
                _ => self.fail(IrisError::UserConnectionReadError),
            },
            ReceiverPhase::Appending => match event {
                ReceiverEvent::Appended(true) => {
                    let (left, size) = account_chunk(self.bytes_left);
                    self.bytes_left = left;
                    let mut progress: Vec<ReceiverProgressMessage> = Vec::new();
                    progress.push(ReceiverProgressMessage::ChunkReceived { size });
                    if left == 0 {
                        progress.push(ReceiverProgressMessage::FileDone);
                    }
                    proof {
                        if left == 0 {
                            assert(progress@ =~= seq![
                                ReceiverProgressMessage::ChunkReceived { size },
                                ReceiverProgressMessage::FileDone,
                            ]);
                        } else {
                            assert(progress@ =~= seq![ReceiverProgressMessage::ChunkReceived { size }]);
                        }
                    }
                    self.reply(
                        IrisMessage::ChunkReceived { is_last: left == 0 },
                        ReceiverPhase::SentChunkAck,
                        progress,
                    )
                },
                ReceiverEvent::Appended(false) => self.fail(
                    IrisError::PermissionsUserIOError(self.entry_path.clone()),
                ),
                _ => self.fail(IrisError::UnexpectedMessage),
            },
            ReceiverPhase::SentChunkAck => match event {
                ReceiverEvent::Written => if self.bytes_left == 0 {
                    self.read_next(ReceiverPhase::AwaitEntry, true)
                } else {
                    self.read_next(ReceiverPhase::AwaitChunk, true)
                },
                _ => self.fail(IrisError::UserConnectionWriteError),
            },
            ReceiverPhase::Done | ReceiverPhase::Failed => self.fail(IrisError::UnexpectedMessage),
        }
    }

    fn on_cipher(&mut self, f: Vec<u8>) -> (r: ReceiverStep)
        requires
            old(self).wf(),
            old(self).phase == ReceiverPhase::AwaitCipher,
        ensures
            final(self).wf(),
            r.action is Fail ==> r.progress@.len() == 0,
            final(self).mode == old(self).mode,
            final(self).exchange == old(self).exchange,
            final(self).cipher == old(self).cipher,
            final(self).entry_path == old(self).entry_path,
            final(self).entry_size == old(self).entry_size,
            final(self).bytes_left == old(self).bytes_left,
            alternates(old(self).last_io@, final(self).last_io@, r.action),
            on_cipher_spec(*old(self), *final(self), f@, r),
    {
        match read_message(f.as_slice()) {
            Ok(IrisMessage::SetCipherType { cipher_type }) => {
                let share = self.exchange.outbound_share();
                self.cipher_type = cipher_type;
                self.phase = ReceiverPhase::SentShare;
                self.last_io = Ghost(Some(true));
                ReceiverStep { action: ReceiverAction::WriteFrame(share), progress: Vec::new(), check_cancel: false }
            },
            Ok(IrisMessage::BadRoomIdentifier) => self.fail(IrisError::InvalidPassphrase),
            Ok(_) => self.fail(IrisError::UnexpectedMessage),
            Err(e) => self.fail(e),
        }
    }

    fn on_share(&mut self, f: Vec<u8>) -> (r: ReceiverStep)
        requires
            old(self).wf(),
            old(self).phase == ReceiverPhase::AwaitShare,
        ensures
            final(self).wf(),
            r.action is Fail ==> r.progress@.len() == 0,
            final(self).mode == old(self).mode,
            final(self).exchange == old(self).exchange,
            final(self).cipher_type == old(self).cipher_type,
            final(self).entry_path == old(self).entry_path,
            final(self).entry_size == old(self).entry_size,
            final(self).bytes_left == old(self).bytes_left,
            alternates(old(self).last_io@, final(self).last_io@, r.action),
            on_share_spec(*old(self), *final(self), f@, r),
    {
        match self.exchange.finish(f.as_slice()) {
            Ok(key) => match get_cipher(self.cipher_type, key.as_slice()) {
                Ok(c) => {
                    self.cipher = Some(c);
                    let mut progress: Vec<ReceiverProgressMessage> = Vec::new();
                    progress.push(ReceiverProgressMessage::SetCipher { cipher_type: self.cipher_type });
                    proof {
                        assert(progress@ =~= seq![
                            ReceiverProgressMessage::SetCipher { cipher_type: self.cipher_type },
                        ]);
                    }
                    self.reply(
                        IrisMessage::ReadyToReceiveMetadata,
                        ReceiverPhase::SentReadyForMetadata,
                        progress,
                    )
                },
                Err(e) => self.fail(e),
            },
            Err(e) => self.fail(e),
        }
    }

    fn on_transfer_metadata(&mut self, f: Vec<u8>) -> (r: ReceiverStep)
        requires
            old(self).wf(),
            old(self).phase == ReceiverPhase::AwaitTransferMetadata,
        ensures
            final(self).wf(),
            r.action is Fail ==> r.progress@.len() == 0,
            same_data(*old(self), *final(self)),
            alternates(old(self).last_io@, final(self).last_io@, r.action),
            on_totals_spec(*old(self), *final(self), f@, r),
    {
        match self.open_frame(f.as_slice()) {
            Ok(p) => match read_message(p.as_slice()) {
                Ok(IrisMessage::TransferMetadata { total_files, total_bytes }) => {
                    let mut progress: Vec<ReceiverProgressMessage> = Vec::new();
                    progress.push(ReceiverProgressMessage::TransferMetadata { total_files, total_bytes });
                    proof {
                        assert(progress@ =~= seq![
                            ReceiverProgressMessage::TransferMetadata { total_files, total_bytes },
                        ]);
                    }
                    self.reply(IrisMessage::ReadyToReceiveFiles, ReceiverPhase::SentReadyForFiles, progress)
                },
                Ok(_) => self.fail(IrisError::UnexpectedMessage),
                Err(e) => self.fail(e),
            },
            Err(e) => self.fail(e),
        }
    }

    fn on_entry(&mut self, f: Vec<u8>) -> (r: ReceiverStep)
        requires
            old(self).wf(),
            old(self).phase == ReceiverPhase::AwaitEntry,
        ensures
            final(self).wf(),
            r.action is Fail ==> r.progress@.len() == 0,
            final(self).mode == old(self).mode,
            final(self).exchange == old(self).exchange,
            final(self).cipher_type == old(self).cipher_type,
            final(self).cipher == old(self).cipher,
            final(self).bytes_left == old(self).bytes_left,
            alternates(old(self).last_io@, final(self).last_io@, r.action),
            on_entry_spec(*old(self), *final(self), f@, r),
    {
        let p = match self.open_frame(f.as_slice()) {
            Ok(p) => p,
            Err(e) => {
                return self.fail(e);
            },
        };
        let metadata = match read_metadata(p.as_slice()) {
            Ok(m) => m,
            Err(e) => {
                return self.fail(e);
            },
        };
        if !is_safe_destination(&metadata.dest_filename) {
            return self.fail(IrisError::PermissionsUserIOError(metadata.dest_filename));
        }
        self.entry_path = metadata.dest_filename.clone();
        self.entry_size = metadata.size;
        let mut progress: Vec<ReceiverProgressMessage> = Vec::new();
        progress.push(
            ReceiverProgressMessage::FileMetadata {
                filename: metadata.dest_filename.clone(),
                file_size: metadata.size,
            },
        );
        proof {
            assert(progress@ =~= seq![
                ReceiverProgressMessage::FileMetadata {
                    filename: self.entry_path,
                    file_size: metadata.size,
                },
            ]);
        }
        match metadata.file_type {
            FileType::Directory => {
                self.phase = ReceiverPhase::CreatingDirectory;
                ReceiverStep {
                    action: ReceiverAction::CreateDirectory {
                        path: metadata.dest_filename,
                        remove_existing: match self.mode {
                            ConflictingFileMode::Overwrite => true,
                            _ => false,
                        },
                    },
                    progress,
                    check_cancel: false,
                }
            },
            FileType::File => {
                self.phase = ReceiverPhase::OpeningFile;
                ReceiverStep {
                    action: ReceiverAction::OpenFile {
                        path: metadata.dest_filename,
                        mode: open_mode(self.mode),
                    },
                    progress,
                    check_cancel: false,
                }
            },
        }
    }

    fn on_directory(&mut self, created: bool) -> (r: ReceiverStep)
        requires
            old(self).wf(),
            old(self).phase == ReceiverPhase::CreatingDirectory,
        ensures
            final(self).wf(),
            r.action is Fail ==> r.progress@.len() == 0,
            same_data(*old(self), *final(self)),
            alternates(old(self).last_io@, final(self).last_io@, r.action),
            on_directory_spec(*old(self), *final(self), created, r),
    {
        match process_directory(self.mode, created, &self.entry_path) {
            Ok(m) => {
                let note = match m {
                    IrisMessage::DirectoryCreated => ReceiverProgressMessage::DirectoryCreated,
                    _ => ReceiverProgressMessage::FileSkipped,
                };
                let mut progress: Vec<ReceiverProgressMessage> = Vec::new();
                progress.push(note);
                proof {
                    assert(progress@ =~= seq![note]);
                }
                self.reply(m, ReceiverPhase::SentEntryReply, progress)
            },
            Err(e) => self.fail(e),
        }
    }

    fn on_file_opened(&mut self, outcome: OpenOutcome) -> (r: ReceiverStep)
        requires
            old(self).wf(),
            old(self).phase == ReceiverPhase::OpeningFile,
        ensures
            final(self).wf(),
            r.action is Fail ==> r.progress@.len() == 0,
            final(self).mode == old(self).mode,
            final(self).exchange == old(self).exchange,
            final(self).cipher_type == old(self).cipher_type,
            final(self).cipher == old(self).cipher,
            final(self).entry_path == old(self).entry_path,
            final(self).entry_size == old(self).entry_size,
            alternates(old(self).last_io@, final(self).last_io@, r.action),
            on_file_spec(*old(self), *final(self), outcome, r),
    {
        let mut progress: Vec<ReceiverProgressMessage> = Vec::new();
        match get_file_and_start_pos(self.mode, outcome, &self.entry_path) {
            Ok(Some(start)) => if start >= self.entry_size {
                progress.push(ReceiverProgressMessage::FileSkipped);
                proof {
                    assert(progress@ =~= seq![ReceiverProgressMessage::FileSkipped]);
                }
                self.reply(IrisMessage::FileSkipped, ReceiverPhase::SentEntryReply, progress)
            } else {
                self.bytes_left = self.entry_size - start;
                progress.push(ReceiverProgressMessage::ChunkReceived { size: start });
                proof {
                    assert(progress@ =~= seq![ReceiverProgressMessage::ChunkReceived { size: start }]);
                }
                self.reply(
                    IrisMessage::FileStartAtPos { start_pos: start },
                    ReceiverPhase::SentStartPos,
                    progress,
                )
            },
            Ok(None) => {
                progress.push(ReceiverProgressMessage::FileSkipped);
                proof {
                    assert(progress@ =~= seq![ReceiverProgressMessage::FileSkipped]);
                }
                self.reply(IrisMessage::FileSkipped, ReceiverPhase::SentEntryReply, progress)
            },
            Err(e) => self.fail(e),
        }
    }
}

} // verus!


verus! {

/// A chunk survives the wire: when both sessions hold the same key for the same cipher, a
/// frame that the sender sealed from some bytes opens at the receiver to exactly those bytes,
/// which the receiver then appends.
pub proof fn chunk_bytes_survive_the_wire(
    sender: crate::sender::SenderSession,
    receiver: ReceiverSession,
    frame: Seq<u8>,
    bytes: Seq<u8>,
)
    requires
        sender.cipher is Some,
        receiver.cipher is Some,
        sender.cipher->Some_0.cipher_type == receiver.cipher->Some_0.cipher_type,
        sender.cipher->Some_0.key@ == receiver.cipher->Some_0.key@,
        sender.seals(frame, bytes),
    ensures
        receiver.cipher->Some_0.opened(frame) == Some(bytes),
{
}

} // verus!

verus! {

/// An entry lands where the sender put it: when the receiver, holding the sender's key, reads
/// the frame that the sender sealed for an entry whose destination stays below the working
/// directory, it creates the directory or opens the file at exactly that destination.
pub proof fn entries_land_at_their_sent_paths(
    sender: crate::sender::SenderSession,
    entry: (String, crate::files::FileMetadata),
    before: ReceiverSession,
    after: ReceiverSession,
    frame: Seq<u8>,
    r: ReceiverStep,
)
    requires
        sender.cipher is Some,
        before.cipher is Some,
        sender.cipher->Some_0.cipher_type == before.cipher->Some_0.cipher_type,
        sender.cipher->Some_0.key@ == before.cipher->Some_0.key@,
        sender.seals(frame, crate::sender::entry_json(entry)),
        on_entry_spec(before, after, frame, r),
        is_relative_below(encode_utf8(entry.1.dest_filename@)),
    ensures
        after.entry_path@ == entry.1.dest_filename@,
        after.entry_size == entry.1.size,
        entry.1.file_type == FileType::Directory ==> (r.action matches ReceiverAction::CreateDirectory {
            path,
            ..
        } && path@ == entry.1.dest_filename@),
        entry.1.file_type == FileType::File ==> (r.action matches ReceiverAction::OpenFile {
            path,
            ..
        } && path@ == entry.1.dest_filename@),
{
    crate::files::metadata_parses_back(entry.1.dest_filename@, entry.1.file_type, entry.1.size);
}

} // verus!

verus! {

/// A control message crosses the wire intact in both directions: when both sessions hold the
/// same key for the same cipher, a frame one side sealed for a message is read by the other
/// side as exactly that message.
pub proof fn messages_are_read_as_written(
    sender: crate::sender::SenderSession,
    receiver: ReceiverSession,
    frame: Seq<u8>,
    m: IrisMessage,
)
    requires
        sender.cipher is Some,
        receiver.cipher is Some,
        sender.cipher->Some_0.cipher_type == receiver.cipher->Some_0.cipher_type,
        sender.cipher->Some_0.key@ == receiver.cipher->Some_0.key@,
    ensures
        receiver.seals(frame, m) ==> crate::sender::opened_reply(sender, frame) == Ok::<
            IrisMessage,
            IrisError,
        >(m),
        sender.seals(frame, message_json(m)) ==> (receiver.cipher->Some_0.opened(frame) matches Some(
            p,
        ) && parse_message(p) == Some(m)),
{
    crate::message::message_parses_back(m);
}

} // verus!
