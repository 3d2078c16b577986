use vstd::prelude::*;

use crate::cipher::{get_cipher, seal_fits, Cipher};
use crate::constants::CHUNK_SIZE;
use crate::errors::IrisError;
use crate::files::{encode_metadata, metadata_json, FileMetadata, FileType};
use crate::message::{
    encode_message, message_json, parse_message, read_message, CipherType, IrisMessage, RoomIdentifier,
};
use crate::pake::{pake_identity, KeyExchange};
use vstd::utf8::encode_utf8;
use crate::progress::SenderProgressMessage;

verus! {

/// What a sending session asks its driver to do next.
#[derive(Debug)]
pub enum SenderAction {
    /// Read one frame from the connection.
    ReadFrame,
    /// Write this frame payload to the connection.
    WriteFrame(Vec<u8>),
    /// Open the source file and position it at `start`.
    OpenSource { path: String, start: u64 },
    /// Read the next chunk of at most `max_len` bytes from the open source file.
    ReadChunk { max_len: u64 },
    /// The transfer is complete.
    Done,
    /// The session ends with this error.
    Fail(IrisError),
}

/// What the driver reports back after performing an action.
#[derive(Debug)]
pub enum SenderEvent {
    /// A frame was read; this is its payload.
    Frame(Vec<u8>),
    /// The peer closed the connection, or reading failed.
    Closed,
    /// The frame was written.
    Written,
    /// Whether the source file could be opened and positioned.
    SourceOpened(bool),
    /// The bytes read from the source file; none at its end or when reading failed.
    Chunk(Vec<u8>),
}

/// Where a sending session stands.
#[derive(Clone, Copy, Debug, PartialEq, Eq, Structural)]
pub enum SenderPhase {
    SentGreeting,
    AwaitRoom,
    AwaitReceiver,
    SentCipher,
    AwaitShare,
    SentShare,
    AwaitReadyForMetadata,
    SentTransferMetadata,
    AwaitReadyForFiles,
    SentEntry,
    AwaitEntryReply,
    OpeningSource,
    ReadingChunk,
    SentChunk,
    AwaitChunkAck,
    Done,
    Failed,
}

/// One decision of a sending session: the next action, what to report (in order), and
/// whether the user's cancel request is to be honoured now.
#[derive(Debug)]
pub struct SenderStep {
    pub action: SenderAction,
    pub progress: Vec<SenderProgressMessage>,
    pub check_cancel: bool,
}

/// Whether an action is a read (`Some(false)`) or a write (`Some(true)`) on the connection.
pub open spec fn sender_io(a: SenderAction) -> Option<bool> {
    match a {
        SenderAction::ReadFrame => Some(false),
        SenderAction::WriteFrame(_) => Some(true),
        _ => None,
    }
}

/// Reads and writes alternate: an action on the connection differs in kind from the last one,
/// and becomes the last one.
pub open spec fn sender_alternates(before: Option<bool>, after: Option<bool>, a: SenderAction) -> bool {
    &&& (sender_io(a) matches Some(k) ==> before != Some(k) && after == Some(k))
    &&& (sender_io(a) is None ==> after == before)
}

/// The phases that wait for a write to complete.
pub open spec fn sent_phase(p: SenderPhase) -> bool {
    p == SenderPhase::SentGreeting || p == SenderPhase::SentCipher || p == SenderPhase::SentShare
        || p == SenderPhase::SentTransferMetadata || p == SenderPhase::SentEntry || p
        == SenderPhase::SentChunk
}

/// What the session reads after each write.
pub open spec fn after_write(p: SenderPhase) -> SenderPhase {
    match p {
        SenderPhase::SentGreeting => SenderPhase::AwaitRoom,
        SenderPhase::SentCipher => SenderPhase::AwaitShare,
        SenderPhase::SentShare => SenderPhase::AwaitReadyForMetadata,
        SenderPhase::SentTransferMetadata => SenderPhase::AwaitReadyForFiles,
        SenderPhase::SentEntry => SenderPhase::AwaitEntryReply,
        _ => SenderPhase::AwaitChunkAck,
    }
}

/// The JSON of an entry's metadata.
pub open spec fn entry_json(e: (String, FileMetadata)) -> Seq<u8> {
    metadata_json(e.1.name_bytes(), e.1.file_type, e.1.size)
}

/// The decisions of the sending peer, from the relay greeting to the last entry.

pub struct SenderSession {
    pub phase: SenderPhase,
    pub passphrase: String,
    pub cipher_type: CipherType,
    pub exchange: Option<KeyExchange>,
    pub cipher: Option<Cipher>,
    pub entries: Vec<(String, FileMetadata)>,
    pub total_bytes: u64,
    pub index: usize,
    /// The kind of the last read or write on the connection.
    pub last_io: Ghost<Option<bool>>,
}

/// Two session states that agree on everything but the phase, the entry index and the last
/// connection action.
pub open spec fn same_setup(a: SenderSession, b: SenderSession) -> bool {
    &&& b.passphrase == a.passphrase
    &&& b.cipher_type == a.cipher_type
    &&& b.exchange == a.exchange
    &&& b.cipher == a.cipher
    &&& b.entries == a.entries
    &&& b.total_bytes == a.total_bytes
}

/// The session writes the plaintext `p` sealed and moves to `next`; only a plaintext too long
/// for the cipher ends the session instead.
pub open spec fn sealed_write(b: SenderSession, r: SenderStep, p: Seq<u8>, next: SenderPhase) -> bool {
    if seal_fits(b.cipher_type, p.len()) {
        r.action matches SenderAction::WriteFrame(g) && b.seals(g@, p) && b.phase == next
    } else {
        r.action == SenderAction::Fail(IrisError::CryptoEncryptionError) && b.phase
            == SenderPhase::Failed
    }
}

/// The session moves on to the entry at `next_index`: it writes that entry's metadata, or
/// ends the transfer after the last entry; the user may cancel here.
pub open spec fn next_entry_spec(a: SenderSession, b: SenderSession, r: SenderStep, next_index: int) -> bool {
    &&& r.check_cancel
    &&& if next_index == a.entries@.len() {
        r.action is Done && b.phase == SenderPhase::Done
    } else {
        b.index == next_index && sealed_write(
            b,
            r,
            entry_json(a.entries@[next_index]),
            SenderPhase::SentEntry,
        )
    }
}

/// What a sealed frame carries under the session cipher: the message, or why it is none.
pub open spec fn opened_reply(a: SenderSession, f: Seq<u8>) -> Result<IrisMessage, IrisError> {
    match a.cipher->Some_0.opened(f) {
        None => Err(IrisError::CryptoDecryptionError),
        Some(p) => match parse_message(p) {
            Some(m) => Ok(m),
            None => Err(IrisError::DeserializationError),
        },
    }
}

/// The receiver asks for the totals.
pub open spec fn on_ready_for_metadata_spec(a: SenderSession, b: SenderSession, f: Seq<u8>, r: SenderStep) -> bool {
    match opened_reply(a, f) {
        Err(e) => r.action == SenderAction::Fail(e),
        Ok(IrisMessage::ReadyToReceiveMetadata) => r.action matches SenderAction::WriteFrame(g)
            && b.seals(
            g@,
            message_json(
                IrisMessage::TransferMetadata {
                    total_files: a.entries@.len() as usize,
                    total_bytes: a.total_bytes,
                },
            ),
        ) && b.phase == SenderPhase::SentTransferMetadata,
        Ok(_) => r.action == SenderAction::Fail(IrisError::UnexpectedMessage),
    }
}

/// The receiver asks for the files: the first entry follows.
pub open spec fn on_ready_for_files_spec(a: SenderSession, b: SenderSession, f: Seq<u8>, r: SenderStep) -> bool {
    match opened_reply(a, f) {
        Err(e) => r.action == SenderAction::Fail(e),
        Ok(IrisMessage::ReadyToReceiveFiles) => next_entry_spec(a, b, r, 0),
        Ok(_) => r.action == SenderAction::Fail(IrisError::UnexpectedMessage),
    }
}

/// The receiver's reply to an entry: a file's source is opened where the receiver asks, and a
/// skipped entry or a created directory moves on to the next entry.
pub open spec fn on_entry_reply_spec(a: SenderSession, b: SenderSession, f: Seq<u8>, r: SenderStep) -> bool {
    let e = a.entries@[a.index as int];
    match opened_reply(a, f) {
        Err(err) => r.action == SenderAction::Fail(err),
        Ok(IrisMessage::FileStartAtPos { start_pos }) => if e.1.file_type == FileType::File {
            r.action == (SenderAction::OpenSource { path: e.0, start: start_pos }) && b.phase
                == SenderPhase::OpeningSource && b.index == a.index
        } else {
            r.action == SenderAction::Fail(IrisError::UnexpectedMessage)
        },
        Ok(IrisMessage::FileSkipped) => next_entry_spec(a, b, r, a.index + 1),
        Ok(IrisMessage::DirectoryCreated) => if e.1.file_type == FileType::Directory {
            next_entry_spec(a, b, r, a.index + 1)
        } else {
            r.action == SenderAction::Fail(IrisError::UnexpectedMessage)
        },
        Ok(_) => r.action == SenderAction::Fail(IrisError::UnexpectedMessage),
    }
}

/// A chunk read from the source is sent sealed; the end of the source ends the entry.
pub open spec fn on_chunk_spec(a: SenderSession, b: SenderSession, d: Seq<u8>, r: SenderStep) -> bool {
    if d.len() == 0 {
        next_entry_spec(a, b, r, a.index + 1)
    } else {
        sealed_write(b, r, d, SenderPhase::SentChunk) && b.index == a.index
    }
}

/// The acknowledgement of a chunk: the next chunk, or the next entry after the last one.
pub open spec fn on_chunk_ack_spec(a: SenderSession, b: SenderSession, f: Seq<u8>, r: SenderStep) -> bool {
    match opened_reply(a, f) {
        Err(e) => r.action == SenderAction::Fail(e),
        Ok(IrisMessage::ChunkReceived { is_last }) => if is_last {
            next_entry_spec(a, b, r, a.index + 1)
        } else {
            r.action == (SenderAction::ReadChunk { max_len: CHUNK_SIZE }) && b.phase
                == SenderPhase::ReadingChunk && b.index == a.index && r.check_cancel
        },
        Ok(_) => r.action == SenderAction::Fail(IrisError::UnexpectedMessage),
    }
}

/// The phases in which the session may move on to another entry.
pub open spec fn moves_index(p: SenderPhase) -> bool {
    p == SenderPhase::AwaitReadyForFiles || p == SenderPhase::AwaitEntryReply || p
        == SenderPhase::ReadingChunk || p == SenderPhase::AwaitChunkAck
}

impl SenderSession {
    pub open spec fn wf(&self) -> bool {
        &&& (self.exchange matches Some(x) ==> x.wf())
        &&& (self.cipher matches Some(c) ==> c.wf() && c.cipher_type == self.cipher_type)
        &&& (self.phase == SenderPhase::AwaitReceiver || self.phase == SenderPhase::SentCipher
            || self.phase == SenderPhase::AwaitShare ==> self.exchange is Some)
        &&& (self.phase == SenderPhase::SentShare || self.phase
            == SenderPhase::AwaitReadyForMetadata || self.phase == SenderPhase::SentTransferMetadata
            || self.phase == SenderPhase::AwaitReadyForFiles || self.phase == SenderPhase::SentEntry
            || self.phase == SenderPhase::AwaitEntryReply || self.phase == SenderPhase::OpeningSource
            || self.phase == SenderPhase::ReadingChunk || self.phase == SenderPhase::SentChunk
            || self.phase == SenderPhase::AwaitChunkAck ==> self.cipher is Some)
        &&& (self.phase == SenderPhase::SentEntry || self.phase == SenderPhase::AwaitEntryReply
            || self.phase == SenderPhase::OpeningSource || self.phase == SenderPhase::ReadingChunk
            || self.phase == SenderPhase::SentChunk || self.phase == SenderPhase::AwaitChunkAck
            ==> self.index < self.entries@.len())
        &&& (self.phase == SenderPhase::SentGreeting || self.phase == SenderPhase::SentCipher
            || self.phase == SenderPhase::SentShare || self.phase == SenderPhase::SentTransferMetadata
            || self.phase == SenderPhase::SentEntry || self.phase == SenderPhase::SentChunk
            ==> self.last_io@ == Some(true))
        &&& (self.phase == SenderPhase::AwaitRoom || self.phase == SenderPhase::AwaitReceiver
            || self.phase == SenderPhase::AwaitShare || self.phase
            == SenderPhase::AwaitReadyForMetadata || self.phase == SenderPhase::AwaitReadyForFiles
            || self.phase == SenderPhase::AwaitEntryReply || self.phase == SenderPhase::OpeningSource
            || self.phase == SenderPhase::ReadingChunk || self.phase == SenderPhase::AwaitChunkAck
            ==> self.last_io@ == Some(false))
    }

    /// Whether `frame` is a sealing of the plaintext `p` under the session cipher.
    pub open spec fn seals(&self, frame: Seq<u8>, p: Seq<u8>) -> bool {
        self.cipher matches Some(c) && c.opened(frame) == Some(p)
    }

    fn fail(&mut self, e: IrisError) -> (r: SenderStep)
        requires
            old(self).wf(),
        ensures
            final(self).wf(),
            same_setup(*old(self), *final(self)),
            final(self).phase == SenderPhase::Failed,
            final(self).last_io == old(self).last_io,
            final(self).index == old(self).index,
            r.action == SenderAction::Fail(e),
            r.progress@.len() == 0,
            !r.check_cancel,
    {
        self.phase = SenderPhase::Failed;
        SenderStep { action: SenderAction::Fail(e), progress: Vec::new(), check_cancel: false }
    }

    fn read_next(&mut self, next: SenderPhase) -> (r: SenderStep)
        requires
            old(self).wf(),
            old(self).last_io@ == Some(true),
            next == SenderPhase::AwaitRoom || next == SenderPhase::AwaitShare || next
                == SenderPhase::AwaitReadyForMetadata || next == SenderPhase::AwaitReadyForFiles
                || next == SenderPhase::AwaitEntryReply || next == SenderPhase::AwaitChunkAck,
            next == SenderPhase::AwaitShare ==> old(self).exchange is Some,
            next != SenderPhase::AwaitRoom && next != SenderPhase::AwaitShare ==> old(self).cipher
                is Some,
            next == SenderPhase::AwaitEntryReply || next == SenderPhase::AwaitChunkAck ==> old(
                self,
            ).index < old(self).entries@.len(),
        ensures
            final(self).wf(),
            same_setup(*old(self), *final(self)),
            final(self).phase == next,
            final(self).index == old(self).index,
            final(self).last_io@ == Some(false),
            r.action is ReadFrame,
            !r.check_cancel,
    {
        self.phase = next;
        self.last_io = Ghost(Some(false));
        SenderStep { action: SenderAction::ReadFrame, progress: Vec::new(), check_cancel: false }
    }

    /// Seals a plaintext under the session cipher.
    fn seal(&self, p: &[u8]) -> (r: Result<Vec<u8>, IrisError>)
        requires
            self.wf(),
            self.cipher is Some,
        ensures
            r matches Ok(f) ==> self.seals(f@, p@),
            r is Err ==> r == Err::<Vec<u8>, IrisError>(IrisError::CryptoEncryptionError),
            seal_fits(self.cipher_type, p@.len()) <==> r is Ok,
    {
        match &self.cipher {
            Some(c) => c.encrypt(p),
            None => Err(IrisError::CryptoEncryptionError),
        }
    }

    /// Reads the control message of a sealed frame.
    fn open_message(&self, frame: &[u8]) -> (r: Result<IrisMessage, IrisError>)
        requires
            self.wf(),
            self.cipher is Some,
        ensures
            r == opened_reply(*self, frame@),
    {
        match &self.cipher {
            Some(c) => match c.decrypt(frame) {
                Ok(p) => read_message(p.as_slice()),
                Err(e) => Err(e),
            },
            None => Err(IrisError::CryptoDecryptionError),
        }
    }

    /// Writes a sealed plaintext and moves to `next`.
    fn write_sealed(
        &mut self,
        p: &[u8],
        next: SenderPhase,
        progress: Vec<SenderProgressMessage>,
        check_cancel: bool,
    ) -> (r: SenderStep)
        requires
            old(self).wf(),
            old(self).cipher is Some,
            old(self).last_io@ == Some(false),
            next == SenderPhase::SentTransferMetadata || next == SenderPhase::SentEntry || next
                == SenderPhase::SentChunk,
            next == SenderPhase::SentEntry || next == SenderPhase::SentChunk ==> old(self).index < old(
                self,
            ).entries@.len(),
        ensures
            final(self).wf(),
            r.action is Fail ==> r.progress@.len() == 0,
            same_setup(*old(self), *final(self)),
            final(self).index == old(self).index,
            sender_alternates(old(self).last_io@, final(self).last_io@, r.action),
            sealed_write(*final(self), r, p@, next),
            r.action is WriteFrame ==> r.check_cancel == check_cancel,
            r.action is WriteFrame ==> r.progress == progress,
    {
        match self.seal(p) {
            Ok(frame) => {
                self.phase = next;
                self.last_io = Ghost(Some(true));
                SenderStep { action: SenderAction::WriteFrame(frame), progress, check_cancel }
            },
            Err(e) => self.fail(e),
        }
    }

    /// Moves on to the entry at `next_index`: writes its metadata, or ends the transfer after
    /// the last entry.
    fn next_entry(&mut self, next_index: usize, progress: Vec<SenderProgressMessage>) -> (r: SenderStep)
        requires
            old(self).wf(),
            old(self).cipher is Some,
            old(self).last_io@ == Some(false),
            next_index <= old(self).entries@.len(),
        ensures
            final(self).wf(),
            r.action is Fail ==> r.progress@.len() == 0,
            same_setup(*old(self), *final(self)),
            sender_alternates(old(self).last_io@, final(self).last_io@, r.action),
            next_entry_spec(*old(self), *final(self), r, next_index as int),
    {
        if next_index == self.entries.len() {
            self.phase = SenderPhase::Done;
            return SenderStep { action: SenderAction::Done, progress, check_cancel: true };
        }
        self.index = next_index;
        let mut progress = progress;
        progress.push(
            SenderProgressMessage::FileMetadata {
                filename: self.entries[next_index].1.dest_filename.clone(),
                file_size: self.entries[next_index].1.size,
            },
        );
        let encoded = encode_metadata(&self.entries[next_index].1);
        match self.seal(encoded.as_slice()) {
            Ok(frame) => {
                self.phase = SenderPhase::SentEntry;
                self.last_io = Ghost(Some(true));
                SenderStep { action: SenderAction::WriteFrame(frame), progress, check_cancel: true }
            },
            Err(e) => {
                self.phase = SenderPhase::Failed;
                SenderStep { action: SenderAction::Fail(e), progress: Vec::new(), check_cancel: true }
            },
        }
    }
}

} // verus!

verus! {

/// Starts a session that first registers with the relay; the first action writes the
/// `SenderConnecting` greeting.
pub fn simple_send(
    cipher_type: CipherType,
    passphrase: String,
    entries: Vec<(String, FileMetadata)>,
    total_bytes: u64,
) -> (r: (SenderSession, SenderStep))
    ensures
        r.0.wf(),
        r.0.phase == SenderPhase::SentGreeting,
        r.0.passphrase == passphrase,
        r.0.cipher_type == cipher_type,
        r.0.entries == entries,
        r.0.total_bytes == total_bytes,
        r.0.index == 0,
        r.0.exchange is None,
        r.0.cipher is None,
        r.1.action matches SenderAction::WriteFrame(f) && f@ == message_json(
            IrisMessage::SenderConnecting,
        ),
{
    let session = SenderSession {
        phase: SenderPhase::SentGreeting,
        passphrase,
        cipher_type,
        exchange: None,
        cipher: None,
        entries,
        total_bytes,
        index: 0,
        last_io: Ghost(Some(true)),
    };
    let greeting = encode_message(IrisMessage::SenderConnecting);
    (session, SenderStep { action: SenderAction::WriteFrame(greeting), progress: Vec::new(), check_cancel: false })
}

/// Starts a session whose receiver is already paired in `room`; the first action announces
/// the cipher.
pub fn send(
    room: RoomIdentifier,
    passphrase: String,
    cipher_type: CipherType,
    entries: Vec<(String, FileMetadata)>,
    total_bytes: u64,
) -> (r: (SenderSession, SenderStep))
    ensures
        r.0.wf(),
        r.0.phase == SenderPhase::SentCipher,
        r.0.passphrase == passphrase,
        r.0.cipher_type == cipher_type,
        r.0.entries == entries,
        r.0.total_bytes == total_bytes,
        r.0.index == 0,
        r.0.exchange matches Some(x) && x.password@ == encode_utf8(passphrase@) && x.identity@
            == pake_identity(room),
        r.0.cipher is None,
        r.0.last_io@ == Some(true),
        r.1.action matches SenderAction::WriteFrame(f) && f@ == message_json(
            IrisMessage::SetCipherType { cipher_type },
        ),
{
    let exchange = KeyExchange::start(room, passphrase.as_str());
    let session = SenderSession {
        phase: SenderPhase::SentCipher,
        passphrase,
        cipher_type,
        exchange: Some(exchange),
        cipher: None,
        entries,
        total_bytes,
        index: 0,
        last_io: Ghost(Some(true)),
    };
    let offer = encode_message(IrisMessage::SetCipherType { cipher_type });
    (session, SenderStep { action: SenderAction::WriteFrame(offer), progress: Vec::new(), check_cancel: false })
}

impl SenderSession {
    /// Takes the outcome of the last action and decides the next one.
    pub fn step(&mut self, event: SenderEvent) -> (r: SenderStep)
        requires
            old(self).wf(),
        ensures
            final(self).wf(),
            r.action is Fail ==> r.progress@.len() == 0,
            // What stays fixed, and what only one kind of step changes.
            final(self).passphrase == old(self).passphrase,
            final(self).cipher_type == old(self).cipher_type,
            final(self).entries == old(self).entries,
            final(self).total_bytes == old(self).total_bytes,
            old(self).phase != SenderPhase::AwaitRoom ==> final(self).exchange == old(self).exchange,
            old(self).phase != SenderPhase::AwaitShare ==> final(self).cipher == old(self).cipher,
            !moves_index(old(self).phase) ==> final(self).index == old(self).index,
            // The relay's greeting is the only place the session comes back to.
            final(self).phase == SenderPhase::AwaitRoom ==> old(self).phase
                == SenderPhase::SentGreeting,
            // Past the relay's greeting, reads and writes on the connection alternate.
            old(self).phase != SenderPhase::AwaitRoom ==> sender_alternates(
                old(self).last_io@,
                final(self).last_io@,
                r.action,
            ),
            // After each write the session reads the peer's answer.
            event is Written && sent_phase(old(self).phase) ==> r.action is ReadFrame
                && final(self).phase == after_write(old(self).phase),
            // The relay assigns a room; the exchange of that room starts.
            old(self).phase == SenderPhase::AwaitRoom ==> (event matches SenderEvent::Frame(f)
                ==> match parse_message(f@) {
                Some(IrisMessage::AssignedRoomIdentifier { room_identifier }) => r.action
                    is ReadFrame && final(self).phase == SenderPhase::AwaitReceiver && (
                final(self).exchange matches Some(x) && x.identity@ == pake_identity(room_identifier)
                    && x.password@ == encode_utf8(old(self).passphrase@)),
                Some(_) => r.action == SenderAction::Fail(IrisError::UnexpectedMessage),
                None => r.action == SenderAction::Fail(IrisError::DeserializationError),
            }),
            // The receiver is there: the cipher is announced in the clear.
            old(self).phase == SenderPhase::AwaitReceiver ==> (event matches SenderEvent::Frame(f)
                ==> match parse_message(f@) {
                Some(IrisMessage::ReceiverConnected) => final(self).phase == SenderPhase::SentCipher
                    && (r.action matches SenderAction::WriteFrame(g) && g@ == message_json(
                    IrisMessage::SetCipherType { cipher_type: old(self).cipher_type },
                )),
                Some(_) => r.action == SenderAction::Fail(IrisError::UnexpectedMessage),
                None => r.action == SenderAction::Fail(IrisError::DeserializationError),
            }),
            // The receiver's share gives the session key; the sender's own share follows.
            old(self).phase == SenderPhase::AwaitShare ==> (event matches SenderEvent::Frame(f)
                ==> match crate::pake::pake_key(
                old(self).exchange->Some_0.password@,
                old(self).exchange->Some_0.identity@,
                old(self).exchange->Some_0.seed@,
                f@,
            ) {
                Some(k) => final(self).cipher matches Some(c) && c.key@ == k && (
                r.action matches SenderAction::WriteFrame(s) && s@ == old(
                    self,
                ).exchange->Some_0.share()) && final(self).phase == SenderPhase::SentShare,
                None => r.action matches SenderAction::Fail(e) && e is SpakeError,
            }),
            old(self).phase == SenderPhase::AwaitReadyForMetadata ==> (event matches SenderEvent::Frame(
                f,
            ) ==> on_ready_for_metadata_spec(*old(self), *final(self), f@, r)),
            old(self).phase == SenderPhase::AwaitReadyForFiles ==> (event matches SenderEvent::Frame(
                f,
            ) ==> on_ready_for_files_spec(*old(self), *final(self), f@, r)),
            old(self).phase == SenderPhase::AwaitEntryReply ==> (event matches SenderEvent::Frame(f)
                ==> on_entry_reply_spec(*old(self), *final(self), f@, r)),
            // The source of a file entry is read chunk by chunk once it is open.
            old(self).phase == SenderPhase::OpeningSource ==> (event matches SenderEvent::SourceOpened(
                ok,
            ) ==> if ok {
                r.action == (SenderAction::ReadChunk { max_len: CHUNK_SIZE }) && final(self).phase
                    == SenderPhase::ReadingChunk
            } else {
                r.action == SenderAction::Fail(
                    IrisError::PermissionsUserIOError(old(self).entries@[old(self).index as int].0),
                )
            }),
            old(self).phase == SenderPhase::ReadingChunk ==> (event matches SenderEvent::Chunk(d)
                ==> on_chunk_spec(*old(self), *final(self), d@, r)),
            old(self).phase == SenderPhase::AwaitChunkAck ==> (event matches SenderEvent::Frame(f)
                ==> on_chunk_ack_spec(*old(self), *final(self), f@, r)),
    {
        match self.phase {
            SenderPhase::SentGreeting => match event {
                SenderEvent::Written => self.read_next(SenderPhase::AwaitRoom),
                _ => self.fail(IrisError::UserConnectionWriteError),
            },
            SenderPhase::AwaitRoom => match event {
                SenderEvent::Frame(f) => match read_message(f.as_slice()) {
                    Ok(IrisMessage::AssignedRoomIdentifier { room_identifier }) => {
                        self.exchange = Some(
                            KeyExchange::start(room_identifier, self.passphrase.as_str()),
                        );
                        self.phase = SenderPhase::AwaitReceiver;
                        let mut progress: Vec<SenderProgressMessage> = Vec::new();
                        progress.push(
                            SenderProgressMessage::AssignedRoomIdentifier { room_identifier },
                        );
                        SenderStep { action: SenderAction::ReadFrame, progress, check_cancel: false }
                    },
                    Ok(_) => self.fail(IrisError::UnexpectedMessage),
                    Err(e) => self.fail(e),
                },
                _ => self.fail(IrisError::UserConnectionReadError),
            },
            SenderPhase::AwaitReceiver => match event {
                SenderEvent::Frame(f) => match read_message(f.as_slice()) {
                    Ok(IrisMessage::ReceiverConnected) => {
                        self.phase = SenderPhase::SentCipher;
                        self.last_io = Ghost(Some(true));
                        let offer = encode_message(
                            IrisMessage::SetCipherType { cipher_type: self.cipher_type },
                        );
                        SenderStep {
                            action: SenderAction::WriteFrame(offer),
                            progress: Vec::new(),
                            check_cancel: false,
                        }
                    },
                    Ok(_) => self.fail(IrisError::UnexpectedMessage),
                    Err(e) => self.fail(e),
                },
                _ => self.fail(IrisError::UserConnectionReadError),
            },
            SenderPhase::SentCipher => match event {
                SenderEvent::Written => self.read_next(SenderPhase::AwaitShare),
                _ => self.fail(IrisError::UserConnectionWriteError),
            },
            SenderPhase::AwaitShare => match event {
                SenderEvent::Frame(f) => self.on_share(f),
                _ => self.fail(IrisError::UserConnectionReadError),
            },
            SenderPhase::SentShare => match event {
                SenderEvent::Written => self.read_next(SenderPhase::AwaitReadyForMetadata),
                _ => self.fail(IrisError::UserConnectionWriteError),
            },
            SenderPhase::AwaitReadyForMetadata => match event {
                SenderEvent::Frame(f) => match self.open_message(f.as_slice()) {
                    Ok(IrisMessage::ReadyToReceiveMetadata) => {
                        let totals = IrisMessage::TransferMetadata {
                            total_files: self.entries.len(),
                            total_bytes: self.total_bytes,
                        };
                        let encoded = encode_message(totals);
                        proof {
                            crate::message::message_encoding_is_short(totals);
                        }
                        let mut progress: Vec<SenderProgressMessage> = Vec::new();
                        progress.push(
                            SenderProgressMessage::TransferMetadata {
                                total_files: self.entries.len(),
                                total_bytes: self.total_bytes,
                            },
                        );
                        self.write_sealed(
                            encoded.as_slice(),
                            SenderPhase::SentTransferMetadata,
                            progress,
                            false,
                        )
                    },
                    Ok(_) => self.fail(IrisError::UnexpectedMessage),
                    Err(e) => self.fail(e),
                },
                _ => self.fail(IrisError::UserConnectionReadError),
            },
            SenderPhase::SentTransferMetadata => match event {
                SenderEvent::Written => self.read_next(SenderPhase::AwaitReadyForFiles),
                _ => self.fail(IrisError::UserConnectionWriteError),
            },
            SenderPhase::AwaitReadyForFiles => match event {
                SenderEvent::Frame(f) => match self.open_message(f.as_slice()) {
                    Ok(IrisMessage::ReadyToReceiveFiles) => self.next_entry(0, Vec::new()),
                    Ok(_) => self.fail(IrisError::UnexpectedMessage),
                    Err(e) => self.fail(e),
                },
                _ => self.fail(IrisError::UserConnectionReadError),
            },
            SenderPhase::SentEntry => match event {
                SenderEvent::Written => self.read_next(SenderPhase::AwaitEntryReply),
                _ => self.fail(IrisError::UserConnectionWriteError),
            },
            SenderPhase::AwaitEntryReply => match event {
                SenderEvent::Frame(f) => self.on_entry_reply(f),
                _ => self.fail(IrisError::UserConnectionReadError),
            },
            SenderPhase::OpeningSource => match event {
                SenderEvent::SourceOpened(true) => {
                    self.phase = SenderPhase::ReadingChunk;
                    SenderStep {
                        action: SenderAction::ReadChunk { max_len: CHUNK_SIZE },
                        progress: Vec::new(),
                        check_cancel: false,
                    }
                },
                SenderEvent::SourceOpened(false) => {
                    let path = self.entries[self.index].0.clone();
                    self.fail(IrisError::PermissionsUserIOError(path))
                },
                _ => self.fail(IrisError::UnexpectedMessage),
            },
            SenderPhase::ReadingChunk => match event {
                SenderEvent::Chunk(d) => {
                    if d.len() == 0 {
                        let mut progress: Vec<SenderProgressMessage> = Vec::new();
                        progress.push(SenderProgressMessage::FileDone);
                        proof {
                            assert(self.entries.len() == self.entries@.len());
                        }
                        self.next_entry(self.index + 1, progress)
                    } else {
                        let mut progress: Vec<SenderProgressMessage> = Vec::new();
                        progress.push(SenderProgressMessage::ChunkSent { size: d.len() as u64 });
                        self.write_sealed(d.as_slice(), SenderPhase::SentChunk, progress, false)
                    }
                },
                _ => self.fail(IrisError::UnexpectedMessage),
            },
            SenderPhase::SentChunk => match event {
                SenderEvent::Written => self.read_next(SenderPhase::AwaitChunkAck),
                _ => self.fail(IrisError::UserConnectionWriteError),
            },
            SenderPhase::AwaitChunkAck => match event {
                SenderEvent::Frame(f) => match self.open_message(f.as_slice()) {
                    Ok(IrisMessage::ChunkReceived { is_last }) => if is_last {
                        let mut progress: Vec<SenderProgressMessage> = Vec::new();
                        progress.push(SenderProgressMessage::FileDone);
                        proof {
                            assert(self.entries.len() == self.entries@.len());
                        }
                        self.next_entry(self.index + 1, progress)
                    } else {
                        self.phase = SenderPhase::ReadingChunk;
                        SenderStep {
                            action: SenderAction::ReadChunk { max_len: CHUNK_SIZE },
                            progress: Vec::new(),
                            check_cancel: true,
                        }
                    },
                    Ok(_) => self.fail(IrisError::UnexpectedMessage),
                    Err(e) => self.fail(e),
                },
                _ => self.fail(IrisError::UserConnectionReadError),
            },
            SenderPhase::Done | SenderPhase::Failed => self.fail(IrisError::UnexpectedMessage),
        }
    }

    fn on_share(&mut self, f: Vec<u8>) -> (r: SenderStep)
        requires
            old(self).wf(),
            old(self).phase == SenderPhase::AwaitShare,
        ensures
            final(self).wf(),
            r.action is Fail ==> r.progress@.len() == 0,
            final(self).passphrase == old(self).passphrase,
            final(self).cipher_type == old(self).cipher_type,
            final(self).exchange == old(self).exchange,
            final(self).entries == old(self).entries,
            final(self).total_bytes == old(self).total_bytes,
            final(self).index == old(self).index,
            final(self).phase != SenderPhase::AwaitRoom,
            sender_alternates(old(self).last_io@, final(self).last_io@, r.action),
            match crate::pake::pake_key(
                old(self).exchange->Some_0.password@,
                old(self).exchange->Some_0.identity@,
                old(self).exchange->Some_0.seed@,
                f@,
            ) {
                Some(k) => final(self).cipher matches Some(c) && c.key@ == k && (
                r.action matches SenderAction::WriteFrame(s) && s@ == old(
                    self,
                ).exchange->Some_0.share()) && final(self).phase == SenderPhase::SentShare,
                None => r.action matches SenderAction::Fail(e) && e is SpakeError,
            },
    {
        let (key, share) = match &self.exchange {
            Some(x) => match x.finish(f.as_slice()) {
                Ok(key) => (key, x.outbound_share()),
                Err(e) => {
                    return self.fail(e);
                },
            },
            None => {
                return self.fail(IrisError::UnexpectedMessage);
            },
        };
        match get_cipher(self.cipher_type, key.as_slice()) {
            Ok(c) => {
                self.cipher = Some(c);
                self.phase = SenderPhase::SentShare;
                self.last_io = Ghost(Some(true));
                let mut progress: Vec<SenderProgressMessage> = Vec::new();
                progress.push(SenderProgressMessage::SetCipher { cipher_type: self.cipher_type });
                SenderStep { action: SenderAction::WriteFrame(share), progress, check_cancel: false }
            },
            Err(e) => self.fail(e),
        }
    }

    fn on_entry_reply(&mut self, f: Vec<u8>) -> (r: SenderStep)
        requires
            old(self).wf(),
            old(self).phase == SenderPhase::AwaitEntryReply,
        ensures
            final(self).wf(),
            r.action is Fail ==> r.progress@.len() == 0,
            same_setup(*old(self), *final(self)),
            sender_alternates(old(self).last_io@, final(self).last_io@, r.action),
            on_entry_reply_spec(*old(self), *final(self), f@, r),
            final(self).phase != SenderPhase::AwaitRoom,
    {
        let i = self.index;
        proof {
            assert(self.entries.len() == self.entries@.len());
        }
        let is_file = match self.entries[i].1.file_type {
            FileType::File => true,
            FileType::Directory => false,
        };
        match self.open_message(f.as_slice()) {
            Ok(IrisMessage::FileStartAtPos { start_pos }) => if is_file {
                self.phase = SenderPhase::OpeningSource;
                let path = self.entries[i].0.clone();
                SenderStep {
                    action: SenderAction::OpenSource { path, start: start_pos },
                    progress: Vec::new(),
                    check_cancel: false,
                }
            } else {
                self.fail(IrisError::UnexpectedMessage)
            },
            Ok(IrisMessage::FileSkipped) => {
                let mut progress: Vec<SenderProgressMessage> = Vec::new();
                progress.push(SenderProgressMessage::FileSkipped);
                self.next_entry(i + 1, progress)
            },
            Ok(IrisMessage::DirectoryCreated) => if is_file {
                self.fail(IrisError::UnexpectedMessage)
            } else {
                let mut progress: Vec<SenderProgressMessage> = Vec::new();
                progress.push(SenderProgressMessage::DirectoryCreated);
                self.next_entry(i + 1, progress)
            },
            Ok(_) => self.fail(IrisError::UnexpectedMessage),
            Err(e) => self.fail(e),
        }
    }
}

} // verus!


verus! {

/// What the walk of an input found at one place.
#[derive(Debug)]
pub enum WalkKind {
    Directory,
    File { size: u64 },
    /// The place could not be read; `path` names it for the error.
    Unreadable { path: String },
}

/// One place found by walking an input: its path on disk, the final name of the input it was
/// found under, and its path relative to that input (empty for the input itself).
#[derive(Debug)]
pub struct WalkEntry {
    pub source: String,
    pub root_name: String,
    pub relative: String,
    pub kind: WalkKind,
}

/// Where an entry goes at the receiver: under the input's name, at the same relative path.
pub open spec fn dest_path(e: WalkEntry) -> Seq<char> {
    if e.relative@.len() == 0 {
        e.root_name@
    } else {
        e.root_name@ + seq!['/'] + e.relative@
    }
}

pub open spec fn walk_size(k: WalkKind) -> nat {
    match k {
        WalkKind::File { size } => size as nat,
        _ => 0,
    }
}

/// The bytes of all files among `s`.
pub open spec fn walk_total(s: Seq<WalkEntry>) -> nat
    decreases s.len(),
{
    if s.len() == 0 {
        0
    } else {
        walk_total(s.drop_last()) + walk_size(s.last().kind)
    }
}

pub open spec fn saturate(n: nat) -> u64 {
    if n > u64::MAX {
        u64::MAX
    } else {
        n as u64
    }
}

/// Turns the walk of the inputs into the list of entries to send, each with its source path
/// and metadata, and the total size of the files (capped at `u64::MAX`); the first unreadable
/// place ends it with an error that names that place.
pub fn get_complete_file_list_and_total_size(entries: &Vec<WalkEntry>) -> (r: Result<
    (Vec<(String, FileMetadata)>, u64),
    IrisError,
>)
    ensures
        r is Err <==> exists|i: int| 0 <= i < entries@.len() && entries@[i].kind is Unreadable,
        r matches Err(e) ==> exists|i: int|
            0 <= i < entries@.len() && (#[trigger] entries@[i].kind matches WalkKind::Unreadable { path }
                && e == IrisError::PermissionsUserIOError(path)) && forall|j: int|
                0 <= j < i ==> !(entries@[j].kind is Unreadable),
        r matches Ok((list, total)) ==> {
            &&& list@.len() == entries@.len()
            &&& total == saturate(walk_total(entries@))
            &&& forall|i: int|
                #![trigger list@[i]]
                0 <= i < list@.len() ==> {
                    &&& list@[i].0 == entries@[i].source
                    &&& list@[i].1.dest_filename@ == dest_path(entries@[i])
                    &&& list@[i].1.size == walk_size(entries@[i].kind)
                    &&& list@[i].1.file_type == (if entries@[i].kind is Directory {
                        FileType::Directory
                    } else {
                        FileType::File
                    })
                }
        },
{
    let mut list: Vec<(String, FileMetadata)> = Vec::new();
    let mut total: u64 = 0;
    let mut i: usize = 0;
    while i < entries.len()
        invariant
            0 <= i <= entries@.len(),
            list@.len() == i,
            total == saturate(walk_total(entries@.subrange(0, i as int))),
            forall|j: int| 0 <= j < i ==> !(entries@[j].kind is Unreadable),
            forall|j: int|
                #![trigger list@[j]]
                0 <= j < i ==> {
                    &&& list@[j].0 == entries@[j].source
                    &&& list@[j].1.dest_filename@ == dest_path(entries@[j])
                    &&& list@[j].1.size == walk_size(entries@[j].kind)
                    &&& list@[j].1.file_type == (if entries@[j].kind is Directory {
                        FileType::Directory
                    } else {
                        FileType::File
                    })
                },
        decreases entries@.len() - i,
    {
        let e = &entries[i];
        let mut dest = e.root_name.clone();
        if !e.relative.as_str().is_empty() {
            let sep = "/";
            proof {
                reveal_strlit("/");
            }
            dest.append(sep);
            dest.append(e.relative.as_str());
        }
        assert(dest@ =~= dest_path(entries@[i as int]));
        let metadata = match &e.kind {
            WalkKind::Directory => FileMetadata::new(dest, FileType::Directory, 0),
            WalkKind::File { size } => FileMetadata::new(dest, FileType::File, *size),
            WalkKind::Unreadable { path } => {
                return Err(IrisError::PermissionsUserIOError(path.clone()));
            },
        };
        let size = metadata.size;
        proof {
            assert(entries@.subrange(0, i + 1).drop_last() =~= entries@.subrange(0, i as int));
        }
        total = total.saturating_add(size);
        let source = e.source.clone();
        let ghost kind = entries@[i as int].kind;
        assert(metadata.size == walk_size(kind));
        list.push((source, metadata));
        assert(list@[i as int].0 == entries@[i as int].source);
        assert(list@[i as int].1.dest_filename@ == dest_path(entries@[i as int]));
        i = i + 1;
    }
    assert(entries@.subrange(0, i as int) =~= entries@);
    Ok((list, total))
}

/// The bytes after the last `/` of a path.
pub open spec fn last_component(b: Seq<u8>) -> Seq<u8>
    decreases b.len(),
{
    if b.len() == 0 || b.last() == 47 {
        Seq::empty()
    } else {
        last_component(b.drop_last()).push(b.last())
    }
}

/// The name under which an input is sent: the last component of its canonical path. A path
/// without one (the root) is refused with an error that names the input as given.
pub fn canonicalize_path(input: &String, canonical: &String) -> (r: Result<String, IrisError>)
    ensures
        r matches Ok(name) ==> vstd::utf8::encode_utf8(name@) == last_component(
            vstd::utf8::encode_utf8(canonical@),
        ) && name@.len() > 0,
        last_component(vstd::utf8::encode_utf8(canonical@)).len() == 0 ==> r
            == Err::<String, IrisError>(IrisError::PermissionsUserIOError(*input)),
        last_component(vstd::utf8::encode_utf8(canonical@)).len() > 0 ==> r is Ok,
        r is Err ==> r == Err::<String, IrisError>(IrisError::PermissionsUserIOError(*input)),
{
    let b = canonical.as_str().as_bytes();
    proof {
        vstd::utf8::encode_utf8_valid_utf8(canonical@);
    }
    let mut start: usize = b.len();
    assert(b@.subrange(0, start as int) =~= b@);
    assert(last_component(b@) + b@.subrange(start as int, b@.len() as int) =~= last_component(b@));
    while start > 0 && b[start - 1] != 47
        invariant
            0 <= start <= b@.len(),
            last_component(b@) == last_component(b@.subrange(0, start as int)) + b@.subrange(
                start as int,
                b@.len() as int,
            ),
        decreases start,
    {
        proof {
            let p = b@.subrange(0, start as int);
            assert(p.drop_last() =~= b@.subrange(0, start - 1));
            assert(b@.subrange(start - 1, b@.len() as int) =~= seq![p.last()] + b@.subrange(
                start as int,
                b@.len() as int,
            ));
            assert(last_component(p) == last_component(p.drop_last()).push(p.last()));
            assert(last_component(p.drop_last()).push(p.last()) + b@.subrange(
                start as int,
                b@.len() as int,
            ) =~= last_component(p.drop_last()) + b@.subrange(start - 1, b@.len() as int));
        }
        start = start - 1;
    }
    proof {
        assert(last_component(b@.subrange(0, start as int)) =~= Seq::<u8>::empty());
        assert(last_component(b@) =~= b@.subrange(start as int, b@.len() as int));
    }
    if start == b.len() {
        return Err(IrisError::PermissionsUserIOError(input.clone()));
    }
    let mut name: Vec<u8> = Vec::new();
    crate::json::push_all(&mut name, &b[start..b.len()]);
    let ghost bytes = name@;
    proof {
        // What follows a `/` in UTF-8 is UTF-8 again.
        assert(bytes =~= b@.subrange(start as int, b@.len() as int));
        if start > 0 {
            let slash = (start - 1) as int;
            vstd::utf8::is_char_boundary_iff_is_leading_byte(b@, slash);
            vstd::utf8::valid_utf8_split(b@, slash);
            let c = b@.subrange(slash, b@.len() as int);
            assert(c[0] == 47);
            assert(vstd::utf8::pop_first_scalar(c) =~= bytes);
        } else {
            assert(bytes =~= b@);
        }
    }
    match crate::files::string_from_utf8(name) {
        Some(s) => {
            proof {
                vstd::utf8::decode_utf8_encode_utf8(bytes);
            }
            Ok(s)
        },
        None => Err(IrisError::PermissionsUserIOError(input.clone())),
    }
}

} // verus!
