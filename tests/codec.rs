use iris::errors::IrisError;
use iris::files::{decode_metadata, encode_metadata, FileMetadata, FileType};
use iris::framing::{decode_frame, encode_frame, frame_length};
use iris::message::{decode_message, encode_message, CipherType, IrisMessage};

fn all_messages() -> Vec<IrisMessage> {
    vec![
        IrisMessage::Acknowledge,
        IrisMessage::SenderConnecting,
        IrisMessage::AssignedRoomIdentifier { room_identifier: 1234 },
        IrisMessage::ReceiverConnecting { room_identifier: 9999 },
        IrisMessage::ReceiverConnected,
        IrisMessage::SetCipherType { cipher_type: CipherType::Aes256Gcm },
        IrisMessage::SetCipherType { cipher_type: CipherType::XChaCha20Poly1305 },
        IrisMessage::ReadyToReceiveMetadata,
        IrisMessage::TransferMetadata { total_files: 3, total_bytes: 300 },
        IrisMessage::TransferMetadata { total_files: 0, total_bytes: u64::MAX },
        IrisMessage::ReadyToReceiveFiles,
        IrisMessage::DirectoryCreated,
        IrisMessage::FileSkipped,
        IrisMessage::FileStartAtPos { start_pos: 0 },
        IrisMessage::FileStartAtPos { start_pos: 200 * 1024 * 1024 },
        IrisMessage::ChunkReceived { is_last: true },
        IrisMessage::ChunkReceived { is_last: false },
        IrisMessage::UnexpectedMessage,
        IrisMessage::ServerError,
        IrisMessage::BadRoomIdentifier,
    ]
}

#[test]
fn acknowledge_is_thirteen_bytes() {
    let encoded = encode_message(IrisMessage::Acknowledge);
    assert_eq!(encoded, b"\"Acknowledge\"".to_vec());
    assert_eq!(encoded.len(), 13);
}

#[test]
fn struct_variants_use_tag_and_content() {
    assert_eq!(
        encode_message(IrisMessage::AssignedRoomIdentifier { room_identifier: 1234 }),
        b"{\"AssignedRoomIdentifier\":{\"room_identifier\":1234}}".to_vec()
    );
    assert_eq!(
        encode_message(IrisMessage::TransferMetadata { total_files: 1, total_bytes: 14 }),
        b"{\"TransferMetadata\":{\"total_files\":1,\"total_bytes\":14}}".to_vec()
    );
    assert_eq!(
        encode_message(IrisMessage::SetCipherType { cipher_type: CipherType::XChaCha20Poly1305 }),
        b"{\"SetCipherType\":{\"cipher_type\":\"XChaCha20Poly1305\"}}".to_vec()
    );
    assert_eq!(
        encode_message(IrisMessage::ChunkReceived { is_last: false }),
        b"{\"ChunkReceived\":{\"is_last\":false}}".to_vec()
    );
}

#[test]
fn every_message_decodes_back() {
    for m in all_messages() {
        assert_eq!(decode_message(&encode_message(m)), Ok(m));
    }
}

#[test]
fn malformed_messages_are_refused() {
    for bad in [
        &b""[..],
        b"\"Acknowledgf\"",
        b"{\"AssignedRoomIdentifier\":{\"room_identifier\":70000}}",
        b"{\"FileStartAtPos\":{\"start_pos\":012}}",
        b"{\"ChunkReceived\":{\"is_last\":maybe}}",
        b"{\"TransferMetadata\":{\"total_files\":1,\"total_bytes\":14}} ",
    ] {
        assert_eq!(decode_message(bad), Err(IrisError::DeserializationError));
    }
}

#[test]
fn metadata_encoding_and_escapes() {
    let m = FileMetadata::new("a".to_string(), FileType::File, 14);
    assert_eq!(
        encode_metadata(&m),
        b"{\"dest_filename\":\"a\",\"file_type\":\"File\",\"size\":14}".to_vec()
    );
    let d = FileMetadata::new("tree/sub\"q\\\n\u{1}".to_string(), FileType::Directory, 0);
    assert_eq!(
        encode_metadata(&d),
        b"{\"dest_filename\":\"tree/sub\\\"q\\\\\\n\\u0001\",\"file_type\":\"Directory\",\"size\":0}"
            .to_vec()
    );
}

#[test]
fn metadata_decodes_back() {
    for (name, t, size) in [
        ("a", FileType::File, 14u64),
        ("emptydir", FileType::Directory, 0),
        ("tree/sub/y", FileType::File, 200),
        ("weird \"name\"\\\t\u{7f}\u{e9}", FileType::File, u64::MAX),
    ] {
        let m = FileMetadata::new(name.to_string(), t, size);
        let back = decode_metadata(&encode_metadata(&m)).unwrap();
        assert_eq!(back.get_filename(), name);
        assert_eq!(back.get_file_type(), t);
        assert_eq!(back.get_size(), size);
    }
    assert!(matches!(
        decode_metadata(b"{\"dest_filename\":\"a\",\"file_type\":\"Socket\",\"size\":1}"),
        Err(IrisError::DeserializationError)
    ));
}

#[test]
fn frames_carry_a_big_endian_length() {
    let f = encode_frame(b"abc").unwrap();
    assert_eq!(f, vec![0, 0, 0, 3, b'a', b'b', b'c']);
    assert_eq!(frame_length(&[0x01, 0x02, 0x03, 0x04]), 0x01020304);
    assert_eq!(decode_frame(&f), Some(b"abc".to_vec()));
    assert_eq!(decode_frame(&[0, 0, 0, 4, 1, 2, 3]), None);
    assert_eq!(decode_frame(&encode_frame(b"").unwrap()), Some(vec![]));
}
