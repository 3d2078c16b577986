use vstd::prelude::*;

verus! {

/// The fixed words that appear in the wire encoding: variant tags, field names and
/// keyword values.
#[derive(Clone, Copy, Debug, PartialEq, Eq, Structural)]
pub enum Word {
    /// `Acknowledge`
    Acknowledge,
    /// `SenderConnecting`
    SenderConnecting,
    /// `AssignedRoomIdentifier`
    AssignedRoomIdentifier,
    /// `ReceiverConnecting`
    ReceiverConnecting,
    /// `ReceiverConnected`
    ReceiverConnected,
    /// `SetCipherType`
    SetCipherType,
    /// `ReadyToReceiveMetadata`
    ReadyToReceiveMetadata,
    /// `TransferMetadata`
    TransferMetadata,
    /// `ReadyToReceiveFiles`
    ReadyToReceiveFiles,
    /// `DirectoryCreated`
    DirectoryCreated,
    /// `FileSkipped`
    FileSkipped,
    /// `FileStartAtPos`
    FileStartAtPos,
    /// `ChunkReceived`
    ChunkReceived,
    /// `UnexpectedMessage`
    UnexpectedMessage,
    /// `ServerError`
    ServerError,
    /// `BadRoomIdentifier`
    BadRoomIdentifier,
    /// `room_identifier`
    RoomIdentifierField,
    /// `cipher_type`
    CipherTypeField,
    /// `total_files`
    TotalFilesField,
    /// `total_bytes`
    TotalBytesField,
    /// `start_pos`
    StartPosField,
    /// `is_last`
    IsLastField,
    /// `dest_filename`
    DestFilenameField,
    /// `file_type`
    FileTypeField,
    /// `size`
    SizeField,
    /// `Aes256Gcm`
    Aes256Gcm,
    /// `XChaCha20Poly1305`
    XChaCha20Poly1305,
    /// `true`
    True,
    /// `false`
    False,
    /// `Directory`
    DirectoryKind,
    /// `File`
    FileKind,
}

/// The ASCII bytes of a word.
pub open spec fn word(w: Word) -> Seq<u8> {
    match w {
        Word::Acknowledge => seq![65u8, 99, 107, 110, 111, 119, 108, 101, 100, 103, 101],
        Word::SenderConnecting => seq![83u8, 101, 110, 100, 101, 114, 67, 111, 110, 110, 101, 99, 116, 105, 110, 103],
        Word::AssignedRoomIdentifier => seq![65u8, 115, 115, 105, 103, 110, 101, 100, 82, 111, 111, 109, 73, 100, 101, 110, 116, 105, 102, 105, 101, 114],
        Word::ReceiverConnecting => seq![82u8, 101, 99, 101, 105, 118, 101, 114, 67, 111, 110, 110, 101, 99, 116, 105, 110, 103],
        Word::ReceiverConnected => seq![82u8, 101, 99, 101, 105, 118, 101, 114, 67, 111, 110, 110, 101, 99, 116, 101, 100],
        Word::SetCipherType => seq![83u8, 101, 116, 67, 105, 112, 104, 101, 114, 84, 121, 112, 101],
        Word::ReadyToReceiveMetadata => seq![82u8, 101, 97, 100, 121, 84, 111, 82, 101, 99, 101, 105, 118, 101, 77, 101, 116, 97, 100, 97, 116, 97],
        Word::TransferMetadata => seq![84u8, 114, 97, 110, 115, 102, 101, 114, 77, 101, 116, 97, 100, 97, 116, 97],
        Word::ReadyToReceiveFiles => seq![82u8, 101, 97, 100, 121, 84, 111, 82, 101, 99, 101, 105, 118, 101, 70, 105, 108, 101, 115],
        Word::DirectoryCreated => seq![68u8, 105, 114, 101, 99, 116, 111, 114, 121, 67, 114, 101, 97, 116, 101, 100],
        Word::FileSkipped => seq![70u8, 105, 108, 101, 83, 107, 105, 112, 112, 101, 100],
        Word::FileStartAtPos => seq![70u8, 105, 108, 101, 83, 116, 97, 114, 116, 65, 116, 80, 111, 115],
        Word::ChunkReceived => seq![67u8, 104, 117, 110, 107, 82, 101, 99, 101, 105, 118, 101, 100],
        Word::UnexpectedMessage => seq![85u8, 110, 101, 120, 112, 101, 99, 116, 101, 100, 77, 101, 115, 115, 97, 103, 101],
        Word::ServerError => seq![83u8, 101, 114, 118, 101, 114, 69, 114, 114, 111, 114],
        Word::BadRoomIdentifier => seq![66u8, 97, 100, 82, 111, 111, 109, 73, 100, 101, 110, 116, 105, 102, 105, 101, 114],
        Word::RoomIdentifierField => seq![114u8, 111, 111, 109, 95, 105, 100, 101, 110, 116, 105, 102, 105, 101, 114],
        Word::CipherTypeField => seq![99u8, 105, 112, 104, 101, 114, 95, 116, 121, 112, 101],
        Word::TotalFilesField => seq![116u8, 111, 116, 97, 108, 95, 102, 105, 108, 101, 115],
        Word::TotalBytesField => seq![116u8, 111, 116, 97, 108, 95, 98, 121, 116, 101, 115],
        Word::StartPosField => seq![115u8, 116, 97, 114, 116, 95, 112, 111, 115],
        Word::IsLastField => seq![105u8, 115, 95, 108, 97, 115, 116],
        Word::DestFilenameField => seq![100u8, 101, 115, 116, 95, 102, 105, 108, 101, 110, 97, 109, 101],
        Word::FileTypeField => seq![102u8, 105, 108, 101, 95, 116, 121, 112, 101],
        Word::SizeField => seq![115u8, 105, 122, 101],
        Word::Aes256Gcm => seq![65u8, 101, 115, 50, 53, 54, 71, 99, 109],
        Word::XChaCha20Poly1305 => seq![88u8, 67, 104, 97, 67, 104, 97, 50, 48, 80, 111, 108, 121, 49, 51, 48, 53],
        Word::True => seq![116u8, 114, 117, 101],
        Word::False => seq![102u8, 97, 108, 115, 101],
        Word::DirectoryKind => seq![68u8, 105, 114, 101, 99, 116, 111, 114, 121],
        Word::FileKind => seq![70u8, 105, 108, 101],
    }
}

/// Appends the bytes of a word.
pub fn push_word(out: &mut Vec<u8>, w: Word)
    ensures
        final(out)@ == old(out)@ + word(w),
{
    let bytes: Vec<u8> = match w {
        Word::Acknowledge => vec![65u8, 99, 107, 110, 111, 119, 108, 101, 100, 103, 101],
        Word::SenderConnecting => vec![83u8, 101, 110, 100, 101, 114, 67, 111, 110, 110, 101, 99, 116, 105, 110, 103],
        Word::AssignedRoomIdentifier => vec![65u8, 115, 115, 105, 103, 110, 101, 100, 82, 111, 111, 109, 73, 100, 101, 110, 116, 105, 102, 105, 101, 114],
        Word::ReceiverConnecting => vec![82u8, 101, 99, 101, 105, 118, 101, 114, 67, 111, 110, 110, 101, 99, 116, 105, 110, 103],
        Word::ReceiverConnected => vec![82u8, 101, 99, 101, 105, 118, 101, 114, 67, 111, 110, 110, 101, 99, 116, 101, 100],
        Word::SetCipherType => vec![83u8, 101, 116, 67, 105, 112, 104, 101, 114, 84, 121, 112, 101],
        Word::ReadyToReceiveMetadata => vec![82u8, 101, 97, 100, 121, 84, 111, 82, 101, 99, 101, 105, 118, 101, 77, 101, 116, 97, 100, 97, 116, 97],
        Word::TransferMetadata => vec![84u8, 114, 97, 110, 115, 102, 101, 114, 77, 101, 116, 97, 100, 97, 116, 97],
        Word::ReadyToReceiveFiles => vec![82u8, 101, 97, 100, 121, 84, 111, 82, 101, 99, 101, 105, 118, 101, 70, 105, 108, 101, 115],
        Word::DirectoryCreated => vec![68u8, 105, 114, 101, 99, 116, 111, 114, 121, 67, 114, 101, 97, 116, 101, 100],
        Word::FileSkipped => vec![70u8, 105, 108, 101, 83, 107, 105, 112, 112, 101, 100],
        Word::FileStartAtPos => vec![70u8, 105, 108, 101, 83, 116, 97, 114, 116, 65, 116, 80, 111, 115],
        Word::ChunkReceived => vec![67u8, 104, 117, 110, 107, 82, 101, 99, 101, 105, 118, 101, 100],
        Word::UnexpectedMessage => vec![85u8, 110, 101, 120, 112, 101, 99, 116, 101, 100, 77, 101, 115, 115, 97, 103, 101],
        Word::ServerError => vec![83u8, 101, 114, 118, 101, 114, 69, 114, 114, 111, 114],
        Word::BadRoomIdentifier => vec![66u8, 97, 100, 82, 111, 111, 109, 73, 100, 101, 110, 116, 105, 102, 105, 101, 114],
        Word::RoomIdentifierField => vec![114u8, 111, 111, 109, 95, 105, 100, 101, 110, 116, 105, 102, 105, 101, 114],
        Word::CipherTypeField => vec![99u8, 105, 112, 104, 101, 114, 95, 116, 121, 112, 101],
        Word::TotalFilesField => vec![116u8, 111, 116, 97, 108, 95, 102, 105, 108, 101, 115],
        Word::TotalBytesField => vec![116u8, 111, 116, 97, 108, 95, 98, 121, 116, 101, 115],
        Word::StartPosField => vec![115u8, 116, 97, 114, 116, 95, 112, 111, 115],
        Word::IsLastField => vec![105u8, 115, 95, 108, 97, 115, 116],
        Word::DestFilenameField => vec![100u8, 101, 115, 116, 95, 102, 105, 108, 101, 110, 97, 109, 101],
        Word::FileTypeField => vec![102u8, 105, 108, 101, 95, 116, 121, 112, 101],
        Word::SizeField => vec![115u8, 105, 122, 101],
        Word::Aes256Gcm => vec![65u8, 101, 115, 50, 53, 54, 71, 99, 109],
        Word::XChaCha20Poly1305 => vec![88u8, 67, 104, 97, 67, 104, 97, 50, 48, 80, 111, 108, 121, 49, 51, 48, 53],
        Word::True => vec![116u8, 114, 117, 101],
        Word::False => vec![102u8, 97, 108, 115, 101],
        Word::DirectoryKind => vec![68u8, 105, 114, 101, 99, 116, 111, 114, 121],
        Word::FileKind => vec![70u8, 105, 108, 101],
    };
    let mut i: usize = 0;
    while i < bytes.len()
        invariant
            0 <= i <= bytes@.len(),
            bytes@ == word(w),
            out@ == old(out)@ + bytes@.subrange(0, i as int),
        decreases bytes@.len() - i,
    {
        out.push(bytes[i]);
        i = i + 1;
        assert(out@ =~= old(out)@ + bytes@.subrange(0, i as int));
    }
    assert(bytes@.subrange(0, i as int) =~= bytes@);
}

} // verus!
