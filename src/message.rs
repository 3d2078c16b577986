use vstd::prelude::*;

use crate::errors::IrisError;
use crate::json::{
    bytes_equal, decimal, digits_value, is_digit, lemma_decimal_digits, lemma_decimal_len,
    lemma_pow10_20, parse_digits, pow10, push_byte, push_decimal, quoted,
};
use crate::words::{push_word, word, Word};

verus! {

/// The number that the relay gives a waiting sender, in 1000..=9999.
pub type RoomIdentifier = u16;

/// The authenticated cipher that protects a session.
#[derive(Clone, Copy, Debug, PartialEq, Eq, Structural)]
pub enum CipherType {
    Aes256Gcm,
    XChaCha20Poly1305,
}

impl Default for CipherType {
    fn default() -> (r: CipherType)
        ensures
            r == CipherType::XChaCha20Poly1305,
    {
        CipherType::XChaCha20Poly1305
    }
}

/// A control message of the protocol.
#[derive(Clone, Copy, Debug, PartialEq, Eq, Structural)]
pub enum IrisMessage {
    Acknowledge,
    SenderConnecting,
    AssignedRoomIdentifier { room_identifier: RoomIdentifier },
    ReceiverConnecting { room_identifier: RoomIdentifier },
    ReceiverConnected,
    SetCipherType { cipher_type: CipherType },
    ReadyToReceiveMetadata,
    TransferMetadata { total_files: usize, total_bytes: u64 },
    ReadyToReceiveFiles,
    DirectoryCreated,
    FileSkipped,
    FileStartAtPos { start_pos: u64 },
    ChunkReceived { is_last: bool },
    UnexpectedMessage,
    ServerError,
    BadRoomIdentifier,
}

pub open spec fn cipher_word(c: CipherType) -> Word {
    match c {
        CipherType::Aes256Gcm => Word::Aes256Gcm,
        CipherType::XChaCha20Poly1305 => Word::XChaCha20Poly1305,
    }
}

pub open spec fn bool_word(b: bool) -> Word {
    if b {
        Word::True
    } else {
        Word::False
    }
}

/// `{"<tag>":{"<field>":`, the opening of a struct variant whose first field is `field`.
pub open spec fn variant_head(tag: Word, field: Word) -> Seq<u8> {
    seq![123u8] + quoted(word(tag)) + seq![58u8, 123u8] + quoted(word(field)) + seq![58u8]
}

/// `,"<field>":`, the opening of a later field.
pub open spec fn field_head(field: Word) -> Seq<u8> {
    seq![44u8] + quoted(word(field)) + seq![58u8]
}

pub open spec fn variant_tail() -> Seq<u8> {
    seq![125u8, 125u8]
}

/// The compact JSON of a message: a variant without fields is its quoted name, a variant
/// with fields is an object from its name to an object of its fields, in declaration order.
pub open spec fn message_json(m: IrisMessage) -> Seq<u8> {
    match m {
        IrisMessage::Acknowledge => quoted(word(Word::Acknowledge)),
        IrisMessage::SenderConnecting => quoted(word(Word::SenderConnecting)),
        IrisMessage::AssignedRoomIdentifier { room_identifier } => variant_head(
            Word::AssignedRoomIdentifier,
            Word::RoomIdentifierField,
        ) + decimal(room_identifier as nat) + variant_tail(),
        IrisMessage::ReceiverConnecting { room_identifier } => variant_head(
            Word::ReceiverConnecting,
            Word::RoomIdentifierField,
        ) + decimal(room_identifier as nat) + variant_tail(),
        IrisMessage::ReceiverConnected => quoted(word(Word::ReceiverConnected)),
        IrisMessage::SetCipherType { cipher_type } => variant_head(
            Word::SetCipherType,
            Word::CipherTypeField,
        ) + quoted(word(cipher_word(cipher_type))) + variant_tail(),
        IrisMessage::ReadyToReceiveMetadata => quoted(word(Word::ReadyToReceiveMetadata)),
        IrisMessage::TransferMetadata { total_files, total_bytes } => variant_head(
            Word::TransferMetadata,
            Word::TotalFilesField,
        ) + decimal(total_files as nat) + field_head(Word::TotalBytesField) + decimal(
            total_bytes as nat,
        ) + variant_tail(),
        IrisMessage::ReadyToReceiveFiles => quoted(word(Word::ReadyToReceiveFiles)),
        IrisMessage::DirectoryCreated => quoted(word(Word::DirectoryCreated)),
        IrisMessage::FileSkipped => quoted(word(Word::FileSkipped)),
        IrisMessage::FileStartAtPos { start_pos } => variant_head(
            Word::FileStartAtPos,
            Word::StartPosField,
        ) + decimal(start_pos as nat) + variant_tail(),
        IrisMessage::ChunkReceived { is_last } => variant_head(
            Word::ChunkReceived,
            Word::IsLastField,
        ) + word(bool_word(is_last)) + variant_tail(),
        IrisMessage::UnexpectedMessage => quoted(word(Word::UnexpectedMessage)),
        IrisMessage::ServerError => quoted(word(Word::ServerError)),
        IrisMessage::BadRoomIdentifier => quoted(word(Word::BadRoomIdentifier)),
    }
}

fn push_quoted_word(out: &mut Vec<u8>, w: Word)
    ensures
        final(out)@ == old(out)@ + quoted(word(w)),
{
    push_byte(out, 34);
    push_word(out, w);
    push_byte(out, 34);
    assert(out@ =~= old(out)@ + quoted(word(w)));
}

fn push_variant_head(out: &mut Vec<u8>, tag: Word, field: Word)
    ensures
        final(out)@ == old(out)@ + variant_head(tag, field),
{
    push_byte(out, 123);
    push_quoted_word(out, tag);
    push_byte(out, 58);
    push_byte(out, 123);
    push_quoted_word(out, field);
    push_byte(out, 58);
    assert(out@ =~= old(out)@ + variant_head(tag, field));
}

fn push_variant_tail(out: &mut Vec<u8>)
    ensures
        final(out)@ == old(out)@ + variant_tail(),
{
    push_byte(out, 125);
    push_byte(out, 125);
    assert(out@ =~= old(out)@ + variant_tail());
}

fn cipher_word_of(c: CipherType) -> (r: Word)
    ensures
        r == cipher_word(c),
{
    match c {
        CipherType::Aes256Gcm => Word::Aes256Gcm,
        CipherType::XChaCha20Poly1305 => Word::XChaCha20Poly1305,
    }
}

/// Encodes a message as compact JSON.
pub fn encode_message(m: IrisMessage) -> (r: Vec<u8>)
    ensures
        r@ == message_json(m),
{
    let mut out: Vec<u8> = Vec::new();
    match m {
        IrisMessage::Acknowledge => push_quoted_word(&mut out, Word::Acknowledge),
        IrisMessage::SenderConnecting => push_quoted_word(&mut out, Word::SenderConnecting),
        IrisMessage::AssignedRoomIdentifier { room_identifier } => {
            push_variant_head(&mut out, Word::AssignedRoomIdentifier, Word::RoomIdentifierField);
            push_decimal(&mut out, room_identifier as u64);
            push_variant_tail(&mut out);
        },
        IrisMessage::ReceiverConnecting { room_identifier } => {
            push_variant_head(&mut out, Word::ReceiverConnecting, Word::RoomIdentifierField);
            push_decimal(&mut out, room_identifier as u64);
            push_variant_tail(&mut out);
        },
        IrisMessage::ReceiverConnected => push_quoted_word(&mut out, Word::ReceiverConnected),
        IrisMessage::SetCipherType { cipher_type } => {
            push_variant_head(&mut out, Word::SetCipherType, Word::CipherTypeField);
            push_quoted_word(&mut out, cipher_word_of(cipher_type));
            push_variant_tail(&mut out);
        },
        IrisMessage::ReadyToReceiveMetadata => push_quoted_word(
            &mut out,
            Word::ReadyToReceiveMetadata,
        ),
        IrisMessage::TransferMetadata { total_files, total_bytes } => {
            push_variant_head(&mut out, Word::TransferMetadata, Word::TotalFilesField);
            push_decimal(&mut out, total_files as u64);
            push_byte(&mut out, 44);
            push_quoted_word(&mut out, Word::TotalBytesField);
            push_byte(&mut out, 58);
            push_decimal(&mut out, total_bytes);
            push_variant_tail(&mut out);
        },
        IrisMessage::ReadyToReceiveFiles => push_quoted_word(&mut out, Word::ReadyToReceiveFiles),
        IrisMessage::DirectoryCreated => push_quoted_word(&mut out, Word::DirectoryCreated),
        IrisMessage::FileSkipped => push_quoted_word(&mut out, Word::FileSkipped),
        IrisMessage::FileStartAtPos { start_pos } => {
            push_variant_head(&mut out, Word::FileStartAtPos, Word::StartPosField);
            push_decimal(&mut out, start_pos);
            push_variant_tail(&mut out);
        },
        IrisMessage::ChunkReceived { is_last } => {
            push_variant_head(&mut out, Word::ChunkReceived, Word::IsLastField);
            if is_last {
                push_word(&mut out, Word::True);
            } else {
                push_word(&mut out, Word::False);
            }
            push_variant_tail(&mut out);
        },
        IrisMessage::UnexpectedMessage => push_quoted_word(&mut out, Word::UnexpectedMessage),
        IrisMessage::ServerError => push_quoted_word(&mut out, Word::ServerError),
        IrisMessage::BadRoomIdentifier => push_quoted_word(&mut out, Word::BadRoomIdentifier),
    }
    assert(out@ =~= message_json(m));
    out
}

/// `b` holds, from `start` on, the decimal spelling of `n`, which ends at `end` (the end of
/// `b` or a byte that is no digit).
pub open spec fn decimal_at(b: Seq<u8>, start: int, n: nat, end: int) -> bool {
    &&& 0 <= start
    &&& end == start + decimal(n).len()
    &&& end <= b.len()
    &&& b.subrange(start, end) == decimal(n)
    &&& (end == b.len() || !is_digit(b[end]))
}

/// Reads the decimal number that starts at `start`, if there is one that fits in a `u64`.
pub fn parse_decimal_at(b: &[u8], start: usize) -> (r: Option<(u64, usize)>)
    requires
        start <= b@.len(),
    ensures
        forall|n: nat, end: int|
            #![trigger decimal_at(b@, start as int, n, end)]
            decimal_at(b@, start as int, n, end) && n <= u64::MAX ==> r == Some(
                (n as u64, end as usize),
            ),
{
    let (value, end) = parse_digits(b, start);
    proof {
        assert forall|n: nat, e: int|
            #![trigger decimal_at(b@, start as int, n, e)]
            decimal_at(b@, start as int, n, e) && n <= u64::MAX implies value == n && end
                == e by {
            lemma_pow10_20();
            lemma_decimal_digits(n);
            lemma_decimal_len(n, 20);
            assert forall|i: int| start <= i < e implies is_digit(#[trigger] b@[i]) by {
                assert(b@[i] == b@.subrange(start as int, e)[i - start]);
            }
            if end < e {
                assert(is_digit(b@[end as int]));
            }
            if end > e {
                assert(is_digit(b@[e]));
            }
            assert(end == e);
        }
    }
    if end > start && value <= u64::MAX as u128 {
        Some((value as u64, end))
    } else {
        None
    }
}

} // verus!

verus! {

/// The bytes of an encoding that tell its variant and where its values stand.
pub open spec fn message_shape(m: IrisMessage, j: Seq<u8>) -> bool {
    match m {
        IrisMessage::Acknowledge => j.len() == 13 && j[0] == 34 && j[1] == 65,
        IrisMessage::SenderConnecting => j.len() == 18 && j[0] == 34 && j[1] == 83,
        IrisMessage::ReceiverConnected => j.len() == 19 && j[0] == 34 && j[1] == 82,
        IrisMessage::ReadyToReceiveMetadata => j.len() == 24 && j[0] == 34,
        IrisMessage::ReadyToReceiveFiles => j.len() == 21 && j[0] == 34,
        IrisMessage::DirectoryCreated => j.len() == 18 && j[0] == 34 && j[1] == 68,
        IrisMessage::FileSkipped => j.len() == 13 && j[0] == 34 && j[1] == 70,
        IrisMessage::UnexpectedMessage => j.len() == 19 && j[0] == 34 && j[1] == 85,
        IrisMessage::ServerError => j.len() == 13 && j[0] == 34 && j[1] == 83,
        IrisMessage::BadRoomIdentifier => j.len() == 19 && j[0] == 34 && j[1] == 66,
        IrisMessage::AssignedRoomIdentifier { room_identifier } => j.len() >= 45 && j[0] == 123
            && j[2] == 65 && decimal_at(
            j,
            45,
            room_identifier as nat,
            (45 + decimal(room_identifier as nat).len()) as int,
        ),
        IrisMessage::ReceiverConnecting { room_identifier } => j.len() >= 41 && j[0] == 123
            && j[2] == 82 && decimal_at(
            j,
            41,
            room_identifier as nat,
            (41 + decimal(room_identifier as nat).len()) as int,
        ),
        IrisMessage::SetCipherType { cipher_type } => j.len() > 33 && j[0] == 123 && j[2] == 83
            && j[33] == word(cipher_word(cipher_type))[0],
        IrisMessage::TransferMetadata { total_files, total_bytes } => {
            let e1: int = 35 + decimal(total_files as nat).len() as int;
            &&& j.len() >= 35
            &&& j[0] == 123
            &&& j[2] == 84
            &&& decimal_at(j, 35, total_files as nat, e1)
            &&& e1 + 15 <= j.len()
            &&& decimal_at(
                j,
                e1 + 15,
                total_bytes as nat,
                e1 + 15 + decimal(total_bytes as nat).len() as int,
            )
        },
        IrisMessage::FileStartAtPos { start_pos } => j.len() >= 31 && j[0] == 123 && j[2] == 70
            && decimal_at(j, 31, start_pos as nat, (31 + decimal(start_pos as nat).len()) as int),
        IrisMessage::ChunkReceived { is_last } => j.len() > 28 && j[0] == 123 && j[2] == 67
            && j[28] == word(bool_word(is_last))[0],
    }
}

proof fn lemma_head_value(tag: Word, field: Word, v: Seq<u8>, rest: Seq<u8>)
    requires
        word(tag).len() > 0,
    ensures
        ({
            let j = variant_head(tag, field) + v + rest;
            let h = variant_head(tag, field).len();
            &&& h == word(tag).len() + word(field).len() + 8
            &&& j[0] == 123
            &&& j[2] == word(tag)[0]
            &&& j.len() == h + v.len() + rest.len()
            &&& j.subrange(h as int, (h + v.len()) as int) == v
            &&& forall|i: int| 0 <= i < rest.len() ==> j[h + v.len() + i] == rest[i]
            &&& forall|i: int| 0 <= i < v.len() ==> j[h + i] == v[i]
        }),
{
    let j = variant_head(tag, field) + v + rest;
    let h = variant_head(tag, field).len();
    let head = variant_head(tag, field);
    assert(j.subrange(h as int, (h + v.len()) as int) =~= v);
    assert(head[0] == 123);
    assert(head[2] == quoted(word(tag))[1]);
    assert(j[0] == head[0]);
    assert(j[2] == head[2]);
    assert forall|i: int| 0 <= i < rest.len() implies j[h + v.len() + i] == rest[i] by {
        assert(j == (head + v) + rest);
    }
    assert forall|i: int| 0 <= i < v.len() implies j[h + i] == v[i] by {
        assert(j == (head + v) + rest);
        assert((head + v)[h + i] == v[i]);
    }
}

proof fn lemma_decimal_then(n: nat, rest: Seq<u8>, b: Seq<u8>, start: int)
    requires
        0 <= start,
        start + decimal(n).len() + rest.len() <= b.len(),
        forall|i: int| 0 <= i < decimal(n).len() ==> b[start + i] == decimal(n)[i],
        forall|i: int| 0 <= i < rest.len() ==> b[start + decimal(n).len() + i] == rest[i],
        rest.len() > 0,
        !is_digit(rest[0]),
    ensures
        decimal_at(b, start, n, start + decimal(n).len()),
{
    assert(b.subrange(start, start + decimal(n).len()) =~= decimal(n));
}

/// Every encoding has the shape that decoding looks for.
proof fn lemma_message_shape(m: IrisMessage)
    ensures
        message_shape(m, message_json(m)),
{
    let j = message_json(m);
    match m {
        IrisMessage::AssignedRoomIdentifier { room_identifier } => {
            let d = decimal(room_identifier as nat);
            lemma_head_value(Word::AssignedRoomIdentifier, Word::RoomIdentifierField, d, variant_tail());
            lemma_decimal_then(room_identifier as nat, variant_tail(), j, 45);
        },
        IrisMessage::ReceiverConnecting { room_identifier } => {
            let d = decimal(room_identifier as nat);
            lemma_head_value(Word::ReceiverConnecting, Word::RoomIdentifierField, d, variant_tail());
            lemma_decimal_then(room_identifier as nat, variant_tail(), j, 41);
        },
        IrisMessage::SetCipherType { cipher_type } => {
            let q = quoted(word(cipher_word(cipher_type)));
            lemma_head_value(Word::SetCipherType, Word::CipherTypeField, q, variant_tail());
            assert(j[33] == q[1]);
        },
        IrisMessage::TransferMetadata { total_files, total_bytes } => {
            let d1 = decimal(total_files as nat);
            let d2 = decimal(total_bytes as nat);
            let rest = field_head(Word::TotalBytesField) + d2 + variant_tail();
            assert(j =~= variant_head(Word::TransferMetadata, Word::TotalFilesField) + d1 + rest);
            lemma_head_value(Word::TransferMetadata, Word::TotalFilesField, d1, rest);
            lemma_decimal_digits(total_bytes as nat);
            lemma_decimal_then(total_files as nat, rest, j, 35);
            let e1: int = 35 + d1.len() as int;
            assert forall|i: int| 0 <= i < d2.len() implies j[e1 + 15 + i] == d2[i] by {
                assert(j[e1 + (15 + i)] == rest[15 + i]);
            }
            assert forall|i: int| 0 <= i < variant_tail().len() implies j[e1 + 15 + d2.len()
                + i] == variant_tail()[i] by {
                assert(j[e1 + (15 + d2.len() + i)] == rest[15 + d2.len() + i]);
            }
            lemma_decimal_then(total_bytes as nat, variant_tail(), j, e1 + 15);
        },
        IrisMessage::FileStartAtPos { start_pos } => {
            let d = decimal(start_pos as nat);
            lemma_head_value(Word::FileStartAtPos, Word::StartPosField, d, variant_tail());
            lemma_decimal_then(start_pos as nat, variant_tail(), j, 31);
        },
        IrisMessage::ChunkReceived { is_last } => {
            let w = word(bool_word(is_last));
            lemma_head_value(Word::ChunkReceived, Word::IsLastField, w, variant_tail());
        },
        _ => {},
    }
}

/// Picks the only message whose encoding `b` can be, judging by a few bytes.
fn guess_message(b: &[u8]) -> (r: Option<IrisMessage>)
    ensures
        forall|m: IrisMessage| message_json(m) == b@ ==> r == Some(m),
{
    proof {
        assert forall|m: IrisMessage| message_json(m) == b@ implies message_shape(m, b@) by {
            lemma_message_shape(m);
        }
    }
    if b.len() < 3 {
        return None;
    }
    if b[0] == 34 {
        let n = b.len();
        let c = b[1];
        if n == 13 && c == 65 {
            Some(IrisMessage::Acknowledge)
        } else if n == 13 && c == 70 {
            Some(IrisMessage::FileSkipped)
        } else if n == 13 && c == 83 {
            Some(IrisMessage::ServerError)
        } else if n == 18 && c == 83 {
            Some(IrisMessage::SenderConnecting)
        } else if n == 18 && c == 68 {
            Some(IrisMessage::DirectoryCreated)
        } else if n == 19 && c == 82 {
            Some(IrisMessage::ReceiverConnected)
        } else if n == 19 && c == 85 {
            Some(IrisMessage::UnexpectedMessage)
        } else if n == 19 && c == 66 {
            Some(IrisMessage::BadRoomIdentifier)
        } else if n == 24 {
            Some(IrisMessage::ReadyToReceiveMetadata)
        } else if n == 21 {
            Some(IrisMessage::ReadyToReceiveFiles)
        } else {
            None
        }
    } else if b[2] == 65 && b.len() >= 45 {
        match parse_decimal_at(b, 45) {
            Some((v, _)) => if v <= 65535 {
                Some(IrisMessage::AssignedRoomIdentifier { room_identifier: v as u16 })
            } else {
                None
            },
            None => None,
        }
    } else if b[2] == 82 && b.len() >= 41 {
        match parse_decimal_at(b, 41) {
            Some((v, _)) => if v <= 65535 {
                Some(IrisMessage::ReceiverConnecting { room_identifier: v as u16 })
            } else {
                None
            },
            None => None,
        }
    } else if b[2] == 83 && b.len() > 33 {
        if b[33] == 65 {
            Some(IrisMessage::SetCipherType { cipher_type: CipherType::Aes256Gcm })
        } else if b[33] == 88 {
            Some(IrisMessage::SetCipherType { cipher_type: CipherType::XChaCha20Poly1305 })
        } else {
            None
        }
    } else if b[2] == 84 && b.len() >= 35 {
        match parse_decimal_at(b, 35) {
            Some((files, e1)) => if e1 <= b.len() && b.len() - e1 >= 15 && files
                <= usize::MAX as u64 {
                match parse_decimal_at(b, e1 + 15) {
                    Some((bytes, _)) => Some(
                        IrisMessage::TransferMetadata {
                            total_files: files as usize,
                            total_bytes: bytes,
                        },
                    ),
                    None => None,
                }
            } else {
                None
            },
            None => None,
        }
    } else if b[2] == 70 && b.len() >= 31 {
        match parse_decimal_at(b, 31) {
            Some((v, _)) => Some(IrisMessage::FileStartAtPos { start_pos: v }),
            None => None,
        }
    } else if b[2] == 67 && b.len() > 28 {
        if b[28] == 116 {
            Some(IrisMessage::ChunkReceived { is_last: true })
        } else if b[28] == 102 {
            Some(IrisMessage::ChunkReceived { is_last: false })
        } else {
            None
        }
    } else {
        None
    }
}

/// Decodes a message from its compact JSON: the result is `Ok(m)` exactly when `b` is the
/// encoding of `m`.
pub fn decode_message(b: &[u8]) -> (r: Result<IrisMessage, IrisError>)
    ensures
        r matches Ok(m) ==> message_json(m) == b@,
        forall|m: IrisMessage| message_json(m) == b@ ==> r == Ok::<IrisMessage, IrisError>(m),
        r is Err ==> r == Err::<IrisMessage, IrisError>(IrisError::DeserializationError),
{
    match guess_message(b) {
        Some(m) => {
            let encoded = encode_message(m);
            if bytes_equal(encoded.as_slice(), b) {
                Ok(m)
            } else {
                Err(IrisError::DeserializationError)
            }
        },
        None => Err(IrisError::DeserializationError),
    }
}

/// The acknowledgement is the fixed thirteen bytes `"Acknowledge"`.
pub proof fn acknowledge_encoding_length()
    ensures
        message_json(IrisMessage::Acknowledge).len() == 13,
{
}

} // verus!

verus! {

/// The message that `b` encodes, if any.
pub open spec fn parse_message(b: Seq<u8>) -> Option<IrisMessage> {
    if exists|m: IrisMessage| message_json(m) == b {
        Some(choose|m: IrisMessage| message_json(m) == b)
    } else {
        None
    }
}

/// Decodes a message; the result agrees with `parse_message`.
pub fn read_message(b: &[u8]) -> (r: Result<IrisMessage, IrisError>)
    ensures
        match parse_message(b@) {
            Some(m) => r == Ok::<IrisMessage, IrisError>(m),
            None => r == Err::<IrisMessage, IrisError>(IrisError::DeserializationError),
        },
{
    let r = decode_message(b);
    proof {
        if exists|m: IrisMessage| message_json(m) == b@ {
            let m = choose|m: IrisMessage| message_json(m) == b@;
            assert(message_json(m) == b@);
        }
    }
    r
}

} // verus!

verus! {

/// One read or write that a peer performed, as an instrumented connection records it.
#[derive(Clone, Debug, PartialEq, Eq)]
pub enum MessageTracker {
    ReadIrisMessage(IrisMessage),
    WriteIrisMessage(IrisMessage),
    ReadBytes(Vec<u8>),
    WriteBytes(Vec<u8>),
}

impl MessageTracker {
    /// Whether the record is of a write.
    pub fn is_write(&self) -> (r: bool)
        ensures
            r == (self is WriteIrisMessage || self is WriteBytes),
    {
        match self {
            MessageTracker::WriteIrisMessage(_) | MessageTracker::WriteBytes(_) => true,
            _ => false,
        }
    }
}

} // verus!

verus! {

/// Every control message encodes to at most 128 bytes, far below what a cipher can seal.
pub proof fn message_encoding_is_short(m: IrisMessage)
    ensures
        message_json(m).len() <= 128,
{
    crate::json::lemma_pow10_20();
    match m {
        IrisMessage::AssignedRoomIdentifier { room_identifier } => {
            lemma_decimal_len(room_identifier as nat, 20);
        },
        IrisMessage::ReceiverConnecting { room_identifier } => {
            lemma_decimal_len(room_identifier as nat, 20);
        },
        IrisMessage::TransferMetadata { total_files, total_bytes } => {
            lemma_decimal_len(total_files as nat, 20);
            lemma_decimal_len(total_bytes as nat, 20);
        },
        IrisMessage::FileStartAtPos { start_pos } => {
            lemma_decimal_len(start_pos as nat, 20);
        },
        _ => {},
    }
}

} // verus!

verus! {

/// A decimal number at a position is the only one there.
pub proof fn lemma_decimal_at_unique(b: Seq<u8>, start: int, n1: nat, e1: int, n2: nat, e2: int)
    requires
        decimal_at(b, start, n1, e1),
        decimal_at(b, start, n2, e2),
    ensures
        n1 == n2,
        e1 == e2,
{
    lemma_decimal_digits(n1);
    lemma_decimal_digits(n2);
    if e1 < e2 {
        assert(b[e1] == b.subrange(start, e2)[e1 - start]);
    }
    if e2 < e1 {
        assert(b[e2] == b.subrange(start, e1)[e2 - start]);
    }
}

} // verus!

verus! {

/// The message encoding is one to one.
pub proof fn message_encoding_is_injective(m1: IrisMessage, m2: IrisMessage)
    requires
        message_json(m1) == message_json(m2),
    ensures
        m1 == m2,
{
    let j = message_json(m1);
    lemma_message_shape(m1);
    lemma_message_shape(m2);
    match (m1, m2) {
        (
            IrisMessage::AssignedRoomIdentifier { room_identifier: a },
            IrisMessage::AssignedRoomIdentifier { room_identifier: b },
        ) => {
            lemma_decimal_at_unique(j, 45, a as nat, 45 + decimal(a as nat).len() as int, b as nat, 45 + decimal(b as nat).len() as int);
        },
        (
            IrisMessage::ReceiverConnecting { room_identifier: a },
            IrisMessage::ReceiverConnecting { room_identifier: b },
        ) => {
            lemma_decimal_at_unique(j, 41, a as nat, 41 + decimal(a as nat).len() as int, b as nat, 41 + decimal(b as nat).len() as int);
        },
        (
            IrisMessage::FileStartAtPos { start_pos: a },
            IrisMessage::FileStartAtPos { start_pos: b },
        ) => {
            lemma_decimal_at_unique(j, 31, a as nat, 31 + decimal(a as nat).len() as int, b as nat, 31 + decimal(b as nat).len() as int);
        },
        (
            IrisMessage::TransferMetadata { total_files: f1, total_bytes: b1 },
            IrisMessage::TransferMetadata { total_files: f2, total_bytes: b2 },
        ) => {
            let e1: int = 35 + decimal(f1 as nat).len() as int;
            let e2: int = 35 + decimal(f2 as nat).len() as int;
            lemma_decimal_at_unique(j, 35, f1 as nat, e1, f2 as nat, e2);
            lemma_decimal_at_unique(
                j,
                e1 + 15,
                b1 as nat,
                e1 + 15 + decimal(b1 as nat).len() as int,
                b2 as nat,
                e1 + 15 + decimal(b2 as nat).len() as int,
            );
        },
        _ => {},
    }
}

/// What a message encoding decodes to is the message that was encoded.
pub proof fn message_parses_back(m: IrisMessage)
    ensures
        parse_message(message_json(m)) == Some(m),
{
    let x = choose|x: IrisMessage| message_json(x) == message_json(m);
    message_encoding_is_injective(x, m);
}

} // verus!
