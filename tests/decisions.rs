use iris::constants::CHUNK_SIZE;
use iris::errors::IrisError;
use iris::files::{is_safe_destination, FileType};
use iris::message::{decode_message, IrisMessage, MessageTracker};
use iris::passphrase::{get_passphrase_from_str_wordlist, get_passphrase_from_string_wordlist, parse_passphrase};
use iris::receiver::{
    account_chunk, get_file_and_start_pos, open_mode, process_directory, ConflictingFileMode,
    OpenMode, OpenOutcome,
};
use iris::relay::{read_greeting, session_finished, session_step, Greeting, Relay, SessionStep};
use iris::room_mapping::RoomMapping;
use iris::sender::{canonicalize_path, get_complete_file_list_and_total_size, WalkEntry, WalkKind};

const MIB: u64 = 1024 * 1024;

#[test]
fn chunk_size_is_128_mib() {
    assert_eq!(CHUNK_SIZE, 128 * MIB);
}

#[test]
fn open_modes_follow_the_conflict_mode() {
    assert_eq!(open_mode(ConflictingFileMode::Overwrite), OpenMode::Truncate);
    assert_eq!(open_mode(ConflictingFileMode::Skip), OpenMode::CreateNew);
    assert_eq!(open_mode(ConflictingFileMode::Resume), OpenMode::Append);
    assert_eq!(open_mode(ConflictingFileMode::Error), OpenMode::CreateNew);
    assert_eq!(ConflictingFileMode::default(), ConflictingFileMode::Error);
}

#[test]
fn start_positions_per_mode() {
    let p = "big".to_string();
    let opened = OpenOutcome::Opened { existing_size: 200 * MIB };
    assert_eq!(get_file_and_start_pos(ConflictingFileMode::Resume, opened, &p), Ok(Some(200 * MIB)));
    assert_eq!(get_file_and_start_pos(ConflictingFileMode::Overwrite, opened, &p), Ok(Some(0)));
    assert_eq!(get_file_and_start_pos(ConflictingFileMode::Skip, OpenOutcome::AlreadyExists, &p), Ok(None));
    assert_eq!(
        get_file_and_start_pos(ConflictingFileMode::Error, OpenOutcome::AlreadyExists, &p),
        Err(IrisError::AlreadyExistsUserIOError("big".to_string()))
    );
    assert_eq!(
        get_file_and_start_pos(ConflictingFileMode::Resume, OpenOutcome::Failed, &p),
        Err(IrisError::PermissionsUserIOError("big".to_string()))
    );
}

#[test]
fn resuming_300_mib_from_200_mib_takes_one_chunk() {
    let start = 200 * MIB;
    let size = 300 * MIB;
    assert_eq!(
        get_file_and_start_pos(
            ConflictingFileMode::Resume,
            OpenOutcome::Opened { existing_size: start },
            &"big".to_string()
        ),
        Ok(Some(200 * (1u64 << 20)))
    );
    let (left, reported) = account_chunk(size - start);
    assert_eq!(reported, 100 * MIB);
    assert_eq!(left, 0);
}

#[test]
fn chunk_accounting_counts_every_byte() {
    let mut left = 2 * CHUNK_SIZE + 5;
    let mut total = 0;
    let mut chunks = 0;
    while left > 0 {
        let (next, size) = account_chunk(left);
        total += size;
        chunks += 1;
        left = next;
    }
    assert_eq!(total, 2 * CHUNK_SIZE + 5);
    assert_eq!(chunks, 3);
    assert_eq!(account_chunk(CHUNK_SIZE), (0, CHUNK_SIZE));
}

#[test]
fn directory_replies_per_mode() {
    let p = "d".to_string();
    assert_eq!(process_directory(ConflictingFileMode::Error, true, &p), Ok(IrisMessage::DirectoryCreated));
    assert_eq!(process_directory(ConflictingFileMode::Skip, false, &p), Ok(IrisMessage::FileSkipped));
    assert_eq!(process_directory(ConflictingFileMode::Resume, false, &p), Ok(IrisMessage::FileSkipped));
    assert_eq!(
        process_directory(ConflictingFileMode::Error, false, &p),
        Err(IrisError::AlreadyExistsUserIOError("d".to_string()))
    );
    assert_eq!(
        process_directory(ConflictingFileMode::Overwrite, false, &p),
        Err(IrisError::PermissionsUserIOError("d".to_string()))
    );
}

#[test]
fn passphrase_splits_at_the_first_dash() {
    let (room, secret) = parse_passphrase("1234-agile-butter-cloud").unwrap();
    assert_eq!(room, 1234);
    assert_eq!(secret, "agile-butter-cloud");
    let (room, secret) = parse_passphrase("9999-whatever").unwrap();
    assert_eq!((room, secret.as_str()), (9999, "whatever"));
    assert_eq!(parse_passphrase("agile-butter"), Err(IrisError::InvalidPassphrase));
    assert_eq!(parse_passphrase("1234"), Err(IrisError::InvalidPassphrase));
    assert_eq!(parse_passphrase("70000-x"), Err(IrisError::InvalidPassphrase));
    assert_eq!(parse_passphrase("-x"), Err(IrisError::InvalidPassphrase));
}

#[test]
fn generated_passphrases_use_three_listed_words() {
    let words = ["agile", "butter", "cloud"];
    let p = get_passphrase_from_str_wordlist(&words);
    let parts: Vec<&str> = p.split('-').collect();
    assert_eq!(parts.len(), 3);
    assert!(parts.iter().all(|w| words.contains(w)));
    let owned: Vec<String> = vec!["solo".to_string()];
    assert_eq!(get_passphrase_from_string_wordlist(&owned), "solo-solo-solo");
}

#[test]
fn rooms_are_unique_and_in_range() {
    let mut rooms: RoomMapping<u32> = RoomMapping::new();
    let a = rooms.insert_socket(1).unwrap();
    let b = rooms.insert_socket(2).unwrap();
    assert!((1000..=9999).contains(&a) && (1000..=9999).contains(&b));
    assert_ne!(a, b);
    assert_eq!(rooms.get_and_remove_socket(a), Some(1));
    assert_eq!(rooms.get_and_remove_socket(a), None);
}

#[test]
fn full_room_table_refuses_a_sender() {
    let mut rooms: RoomMapping<u32> = RoomMapping::new();
    for i in 0..9000u32 {
        assert!(rooms.insert_socket(i).is_some());
    }
    assert_eq!(rooms.insert_socket(9000), None);
}

#[test]
fn relay_pairs_a_receiver_with_its_sender() {
    let mut relay: Relay<&str> = Relay::new();
    let greeting = iris::message::encode_message(IrisMessage::SenderConnecting);
    assert_eq!(read_greeting(&greeting), Greeting::Sender);
    assert_eq!(read_greeting(b"\"Acknowledge\""), Greeting::Other);
    let (room, reply) = relay.register("sender");
    let room = room.unwrap();
    assert_eq!(
        decode_message(&reply),
        Ok(IrisMessage::AssignedRoomIdentifier { room_identifier: room })
    );
    assert_eq!(relay.pair(room), Ok("sender"));
    assert!(relay.pair(room).is_err());
    let (room, _) = relay.register("again");
    relay.reply_failed(room);
    assert!(relay.pair(room.unwrap()).is_err());
}

#[test]
fn relay_session_script() {
    match session_step(0) {
        SessionStep::NotifySender(f) => {
            assert_eq!(decode_message(&f), Ok(IrisMessage::ReceiverConnected))
        }
        other => panic!("unexpected step {other:?}"),
    }
    assert!(matches!(session_step(1), SessionStep::SenderToReceiver));
    assert!(matches!(session_step(2), SessionStep::ReceiverToSender));
    assert!(matches!(session_step(7), SessionStep::SenderToReceiver));
    assert!(!session_finished(3));
    assert!(!session_finished(8));
    assert!(session_finished(7));
    assert!(session_finished(9));
}

#[test]
fn walk_becomes_destination_paths_and_total() {
    let walk = vec![
        WalkEntry {
            source: "/abs/tree".to_string(),
            root_name: "tree".to_string(),
            relative: "".to_string(),
            kind: WalkKind::Directory,
        },
        WalkEntry {
            source: "/abs/tree/sub/y".to_string(),
            root_name: "tree".to_string(),
            relative: "sub/y".to_string(),
            kind: WalkKind::File { size: 200 },
        },
        WalkEntry {
            source: "./a".to_string(),
            root_name: "a".to_string(),
            relative: "".to_string(),
            kind: WalkKind::File { size: u64::MAX },
        },
    ];
    let (list, total) = get_complete_file_list_and_total_size(&walk).unwrap();
    assert_eq!(total, u64::MAX);
    assert_eq!(list[0].0, "/abs/tree");
    assert_eq!(list[0].1.get_filename(), "tree");
    assert_eq!(list[0].1.get_file_type(), FileType::Directory);
    assert_eq!(list[1].1.get_filename(), "tree/sub/y");
    assert_eq!(list[1].1.get_size(), 200);
    assert_eq!(list[2].1.get_filename(), "a");
}

#[test]
fn unreadable_place_is_a_permissions_error() {
    let walk = vec![WalkEntry {
        source: "./secret".to_string(),
        root_name: "secret".to_string(),
        relative: "".to_string(),
        kind: WalkKind::Unreadable { path: "./secret".to_string() },
    }];
    assert!(matches!(
        get_complete_file_list_and_total_size(&walk),
        Err(IrisError::PermissionsUserIOError(p)) if p == "./secret"
    ));
}

#[test]
fn canonical_names_are_last_components() {
    let input = "../x/tree".to_string();
    assert_eq!(canonicalize_path(&input, &"/home/u/tree".to_string()), Ok("tree".to_string()));
    assert_eq!(
        canonicalize_path(&input, &"/".to_string()),
        Err(IrisError::PermissionsUserIOError("../x/tree".to_string()))
    );
}

#[test]
fn trackers_know_their_direction() {
    assert!(MessageTracker::WriteBytes(vec![1]).is_write());
    assert!(MessageTracker::WriteIrisMessage(IrisMessage::Acknowledge).is_write());
    assert!(!MessageTracker::ReadBytes(vec![]).is_write());
    assert!(!MessageTracker::ReadIrisMessage(IrisMessage::FileSkipped).is_write());
}

#[test]
fn destinations_must_stay_below_the_working_directory() {
    for ok in ["a", "tree/sub/y", "a..b", "..a", "dir/.../x"] {
        assert!(is_safe_destination(&ok.to_string()), "{ok}");
    }
    for bad in ["", "/etc/passwd", "..", "../x", "a/../b", "a/.."] {
        assert!(!is_safe_destination(&bad.to_string()), "{bad}");
    }
}

#[test]
fn the_first_unreadable_place_is_named() {
    let bad = |p: &str| WalkEntry {
        source: p.to_string(),
        root_name: "x".to_string(),
        relative: "".to_string(),
        kind: WalkKind::Unreadable { path: p.to_string() },
    };
    let walk = vec![bad("./first"), bad("./second")];
    assert!(matches!(
        get_complete_file_list_and_total_size(&walk),
        Err(IrisError::PermissionsUserIOError(p)) if p == "./first"
    ));
}
