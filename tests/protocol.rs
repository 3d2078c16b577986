use std::collections::{HashMap, HashSet, VecDeque};

use iris::errors::IrisError;
use iris::message::{decode_message, CipherType, IrisMessage};
use iris::progress::{ReceiverProgressMessage, SenderProgressMessage};
use iris::receiver::{
    ConflictingFileMode, OpenMode, OpenOutcome, ReceiverAction, ReceiverEvent,
};
use iris::relay::{read_greeting, Greeting, Relay};
use iris::sender::{
    get_complete_file_list_and_total_size, SenderAction, SenderEvent, WalkEntry,
    WalkKind,
};

struct Disk {
    files: HashMap<String, Vec<u8>>,
    dirs: HashSet<String>,
}

struct Outcome {
    sender_result: Result<(), IrisError>,
    receiver_result: Result<(), IrisError>,
    disk: Disk,
    sender_log: Vec<(bool, Vec<u8>)>,
    receiver_log: Vec<(bool, Vec<u8>)>,
    sender_progress: Vec<SenderProgressMessage>,
    receiver_progress: Vec<ReceiverProgressMessage>,
}

fn entry(source: &str, root: &str, relative: &str, kind: WalkKind) -> WalkEntry {
    WalkEntry {
        source: source.to_string(),
        root_name: root.to_string(),
        relative: relative.to_string(),
        kind,
    }
}

fn run(
    walk: Vec<WalkEntry>,
    sources: HashMap<String, Vec<u8>>,
    disk: Disk,
    sender_secret: &str,
    receiver_secret: &str,
    mode: ConflictingFileMode,
) -> Outcome {
    let (entries, total) = get_complete_file_list_and_total_size(&walk).unwrap();
    let (mut sender, first) = iris::sender::send(
        2000,
        sender_secret.to_string(),
        CipherType::XChaCha20Poly1305,
        entries,
        total,
    );
    let (mut receiver, rfirst) = iris::receiver::receive(2000, receiver_secret, mode);
    let mut s_action = first.action;
    let mut r_action = rfirst.action;
    let mut sender_progress = first.progress;
    let mut receiver_progress = Vec::new();
    let mut to_receiver: VecDeque<Vec<u8>> = VecDeque::new();
    let mut to_sender: VecDeque<Vec<u8>> = VecDeque::new();
    let mut sender_log = Vec::new();
    let mut receiver_log = Vec::new();
    let mut disk = disk;
    let mut source: Option<(Vec<u8>, usize)> = None;
    let mut target: Option<String> = None;
    let mut sender_result = None;
    let mut receiver_result = None;
    loop {
        let mut moved = false;
        if sender_result.is_none() {
            let event = match &s_action {
                SenderAction::WriteFrame(f) => {
                    sender_log.push((true, f.clone()));
                    to_receiver.push_back(f.clone());
                    Some(SenderEvent::Written)
                }
                SenderAction::ReadFrame => match to_sender.pop_front() {
                    Some(f) => {
                        sender_log.push((false, f.clone()));
                        Some(SenderEvent::Frame(f))
                    }
                    None if receiver_result.is_some() => Some(SenderEvent::Closed),
                    None => None,
                },
                SenderAction::OpenSource { path, start } => match sources.get(path) {
                    Some(data) => {
                        source = Some((data.clone(), *start as usize));
                        Some(SenderEvent::SourceOpened(true))
                    }
                    None => Some(SenderEvent::SourceOpened(false)),
                },
                SenderAction::ReadChunk { max_len } => {
                    let (data, pos) = source.as_mut().unwrap();
                    let end = (*pos + *max_len as usize).min(data.len());
                    let chunk = data[(*pos).min(end)..end].to_vec();
                    *pos = end;
                    Some(SenderEvent::Chunk(chunk))
                }
                SenderAction::Done => {
                    sender_result = Some(Ok(()));
                    moved = true;
                    None
                }
                SenderAction::Fail(e) => {
                    sender_result = Some(Err(e.clone()));
                    moved = true;
                    None
                }
            };
            if let Some(event) = event {
                let step = sender.step(event);
                s_action = step.action;
                sender_progress.extend(step.progress);
                moved = true;
            }
        }
        if receiver_result.is_none() {
            let event = match &r_action {
                ReceiverAction::WriteFrame(f) => {
                    receiver_log.push((true, f.clone()));
                    to_sender.push_back(f.clone());
                    Some(ReceiverEvent::Written)
                }
                ReceiverAction::ReadFrame => match to_receiver.pop_front() {
                    Some(f) => {
                        receiver_log.push((false, f.clone()));
                        Some(ReceiverEvent::Frame(f))
                    }
                    None if sender_result.is_some() => Some(ReceiverEvent::Closed),
                    None => None,
                },
                ReceiverAction::CreateDirectory { path, remove_existing } => {
                    if *remove_existing {
                        disk.dirs.remove(path);
                    }
                    Some(ReceiverEvent::DirectoryResult(disk.dirs.insert(path.clone())))
                }
                ReceiverAction::OpenFile { path, mode } => {
                    target = Some(path.clone());
                    let outcome = match mode {
                        OpenMode::CreateNew if disk.files.contains_key(path) => {
                            OpenOutcome::AlreadyExists
                        }
                        OpenMode::Truncate => {
                            disk.files.insert(path.clone(), vec![]);
                            OpenOutcome::Opened { existing_size: 0 }
                        }
                        _ => {
                            let f = disk.files.entry(path.clone()).or_default();
                            OpenOutcome::Opened { existing_size: f.len() as u64 }
                        }
                    };
                    Some(ReceiverEvent::FileOpened(outcome))
                }
                ReceiverAction::AppendToFile(d) => {
                    disk.files.get_mut(target.as_ref().unwrap()).unwrap().extend_from_slice(d);
                    Some(ReceiverEvent::Appended(true))
                }
                ReceiverAction::Done => {
                    receiver_result = Some(Ok(()));
                    moved = true;
                    None
                }
                ReceiverAction::Fail(e) => {
                    receiver_result = Some(Err(e.clone()));
                    moved = true;
                    None
                }
            };
            if let Some(event) = event {
                let step = receiver.step(event);
                r_action = step.action;
                receiver_progress.extend(step.progress);
                moved = true;
            }
        }
        if !moved {
            break;
        }
    }
    Outcome {
        sender_result: sender_result.unwrap(),
        receiver_result: receiver_result.unwrap(),
        disk,
        sender_log,
        receiver_log,
        sender_progress,
        receiver_progress,
    }
}

fn empty_disk() -> Disk {
    Disk { files: HashMap::new(), dirs: HashSet::new() }
}

fn assert_alternates(log: &[(bool, Vec<u8>)]) {
    for pair in log.windows(2) {
        assert_ne!(pair[0].0, pair[1].0, "two reads or two writes in a row");
    }
}

fn writes(log: &[(bool, Vec<u8>)]) -> Vec<Vec<u8>> {
    log.iter().filter(|(w, _)| *w).map(|(_, f)| f.clone()).collect()
}

fn reads(log: &[(bool, Vec<u8>)]) -> Vec<Vec<u8>> {
    log.iter().filter(|(w, _)| !*w).map(|(_, f)| f.clone()).collect()
}

fn tree_walk() -> (Vec<WalkEntry>, HashMap<String, Vec<u8>>) {
    let walk = vec![
        entry("./tree", "tree", "", WalkKind::Directory),
        entry("./tree/sub", "tree", "sub", WalkKind::Directory),
        entry("./tree/sub/y", "tree", "sub/y", WalkKind::File { size: 200 }),
        entry("./tree/x", "tree", "x", WalkKind::File { size: 100 }),
    ];
    let mut sources = HashMap::new();
    sources.insert("./tree/x".to_string(), vec![b'x'; 100]);
    sources.insert("./tree/sub/y".to_string(), vec![b'y'; 200]);
    (walk, sources)
}

#[test]
fn single_small_file_arrives_intact() {
    let walk = vec![entry("./a", "a", "", WalkKind::File { size: 14 })];
    let mut sources = HashMap::new();
    sources.insert("./a".to_string(), b"Hello, world!\n".to_vec());
    let out = run(walk, sources, empty_disk(), "secret", "secret", ConflictingFileMode::Error);
    assert_eq!(out.sender_result, Ok(()));
    assert_eq!(out.receiver_result, Ok(()));
    assert_eq!(out.disk.files.get("a").unwrap(), b"Hello, world!\n");
    assert!(out.receiver_progress.iter().any(|p| matches!(
        p,
        ReceiverProgressMessage::TransferMetadata { total_files: 1, total_bytes: 14 }
    )));
    assert!(out.sender_progress.iter().any(|p| matches!(p, SenderProgressMessage::FileDone)));
}

#[test]
fn empty_directory_is_created_without_chunks() {
    let walk = vec![entry("./emptydir/", "emptydir", "", WalkKind::Directory)];
    let out = run(walk, HashMap::new(), empty_disk(), "s", "s", ConflictingFileMode::Error);
    assert_eq!(out.receiver_result, Ok(()));
    assert!(out.disk.dirs.contains("emptydir"));
    assert!(out.disk.files.is_empty());
    assert!(out.sender_progress.iter().any(|p| matches!(p, SenderProgressMessage::DirectoryCreated)));
    assert!(!out.sender_progress.iter().any(|p| matches!(p, SenderProgressMessage::ChunkSent { .. })));
}

#[test]
fn nested_tree_keeps_its_layout() {
    let (walk, sources) = tree_walk();
    let out = run(walk, sources, empty_disk(), "s", "s", ConflictingFileMode::Error);
    assert_eq!(out.sender_result, Ok(()));
    assert_eq!(out.receiver_result, Ok(()));
    assert!(out.disk.dirs.contains("tree") && out.disk.dirs.contains("tree/sub"));
    assert_eq!(out.disk.files.get("tree/x").unwrap(), &vec![b'x'; 100]);
    assert_eq!(out.disk.files.get("tree/sub/y").unwrap(), &vec![b'y'; 200]);
    let names: Vec<String> = out
        .receiver_progress
        .iter()
        .filter_map(|p| match p {
            ReceiverProgressMessage::FileMetadata { filename, .. } => Some(filename.clone()),
            _ => None,
        })
        .collect();
    assert_eq!(names, vec!["tree", "tree/sub", "tree/sub/y", "tree/x"]);
    assert!(out.receiver_progress.iter().any(|p| matches!(
        p,
        ReceiverProgressMessage::TransferMetadata { total_files: 4, total_bytes: 300 }
    )));
}

#[test]
fn every_read_matches_a_write_of_the_peer() {
    let (walk, sources) = tree_walk();
    let out = run(walk, sources, empty_disk(), "s", "s", ConflictingFileMode::Error);
    assert_eq!(writes(&out.sender_log), reads(&out.receiver_log));
    assert_eq!(writes(&out.receiver_log), reads(&out.sender_log));
}

#[test]
fn reads_and_writes_alternate() {
    let (walk, sources) = tree_walk();
    let out = run(walk, sources, empty_disk(), "s", "s", ConflictingFileMode::Error);
    assert_alternates(&out.sender_log);
    assert_alternates(&out.receiver_log);
    assert!(out.sender_log[0].0);
    assert!(!out.receiver_log[0].0);
}

#[test]
fn resume_sends_only_the_missing_bytes() {
    let walk = vec![entry("./big", "big", "", WalkKind::File { size: 14 })];
    let mut sources = HashMap::new();
    sources.insert("./big".to_string(), b"Hello, world!\n".to_vec());
    let mut disk = empty_disk();
    disk.files.insert("big".to_string(), b"Hello".to_vec());
    let out = run(walk, sources, disk, "s", "s", ConflictingFileMode::Resume);
    assert_eq!(out.receiver_result, Ok(()));
    assert_eq!(out.disk.files.get("big").unwrap(), b"Hello, world!\n");
    let sent: u64 = out
        .sender_progress
        .iter()
        .filter_map(|p| match p {
            SenderProgressMessage::ChunkSent { size } => Some(*size),
            _ => None,
        })
        .sum();
    assert_eq!(sent, 9);
}

#[test]
fn resume_skips_a_complete_file() {
    let walk = vec![entry("./big", "big", "", WalkKind::File { size: 5 })];
    let mut sources = HashMap::new();
    sources.insert("./big".to_string(), b"Hello".to_vec());
    let mut disk = empty_disk();
    disk.files.insert("big".to_string(), b"Hello".to_vec());
    let out = run(walk, sources, disk, "s", "s", ConflictingFileMode::Resume);
    assert_eq!(out.receiver_result, Ok(()));
    assert!(out.sender_progress.iter().any(|p| matches!(p, SenderProgressMessage::FileSkipped)));
}

#[test]
fn skip_mode_leaves_existing_files_alone() {
    let walk = vec![entry("./a", "a", "", WalkKind::File { size: 3 })];
    let mut sources = HashMap::new();
    sources.insert("./a".to_string(), b"new".to_vec());
    let mut disk = empty_disk();
    disk.files.insert("a".to_string(), b"old content".to_vec());
    let out = run(walk, sources, disk, "s", "s", ConflictingFileMode::Skip);
    assert_eq!(out.receiver_result, Ok(()));
    assert_eq!(out.disk.files.get("a").unwrap(), b"old content");
}

#[test]
fn error_mode_refuses_an_existing_file() {
    let walk = vec![entry("./a", "a", "", WalkKind::File { size: 3 })];
    let mut sources = HashMap::new();
    sources.insert("./a".to_string(), b"new".to_vec());
    let mut disk = empty_disk();
    disk.files.insert("a".to_string(), b"old".to_vec());
    let out = run(walk, sources, disk, "s", "s", ConflictingFileMode::Error);
    assert_eq!(out.receiver_result, Err(IrisError::AlreadyExistsUserIOError("a".to_string())));
    assert_eq!(out.disk.files.get("a").unwrap(), b"old");
}

#[test]
fn overwrite_mode_replaces_an_existing_file() {
    let walk = vec![entry("./a", "a", "", WalkKind::File { size: 3 })];
    let mut sources = HashMap::new();
    sources.insert("./a".to_string(), b"new".to_vec());
    let mut disk = empty_disk();
    disk.files.insert("a".to_string(), b"old content".to_vec());
    let out = run(walk, sources, disk, "s", "s", ConflictingFileMode::Overwrite);
    assert_eq!(out.receiver_result, Ok(()));
    assert_eq!(out.disk.files.get("a").unwrap(), b"new");
}

#[test]
fn wrong_secret_fails_before_any_file() {
    let walk = vec![entry("./a", "a", "", WalkKind::File { size: 14 })];
    let mut sources = HashMap::new();
    sources.insert("./a".to_string(), b"Hello, world!\n".to_vec());
    let out = run(walk, sources, empty_disk(), "right", "wrong", ConflictingFileMode::Error);
    assert!(matches!(
        out.sender_result,
        Err(IrisError::CryptoDecryptionError) | Err(IrisError::SpakeError(_))
    ));
    assert!(out.receiver_result.is_err());
    assert!(out.disk.files.is_empty());
}

#[test]
fn unknown_room_is_an_invalid_passphrase() {
    let mut relay: Relay<u32> = Relay::new();
    let greeting = iris::message::encode_message(IrisMessage::ReceiverConnecting {
        room_identifier: 9999,
    });
    let room = match read_greeting(&greeting) {
        Greeting::Receiver { room_identifier } => room_identifier,
        other => panic!("unexpected greeting {other:?}"),
    };
    let reply = relay.pair(room).unwrap_err();
    assert_eq!(decode_message(&reply), Ok(IrisMessage::BadRoomIdentifier));
    let (mut receiver, _) = iris::receiver::receive(9999, "whatever", ConflictingFileMode::Error);
    let step = receiver.step(ReceiverEvent::Frame(reply));
    assert!(matches!(step.action, ReceiverAction::Fail(IrisError::InvalidPassphrase)));
}

#[test]
fn receiver_refuses_paths_that_leave_its_directory() {
    let walk = vec![entry("./evil", "..", "evil", WalkKind::File { size: 1 })];
    let mut sources = HashMap::new();
    sources.insert("./evil".to_string(), b"!".to_vec());
    let out = run(walk, sources, empty_disk(), "s", "s", ConflictingFileMode::Overwrite);
    assert_eq!(out.receiver_result, Err(IrisError::PermissionsUserIOError("../evil".to_string())));
    assert!(out.disk.files.is_empty());
}

#[test]
fn a_message_out_of_turn_is_unexpected() {
    let (mut receiver, _) = iris::receiver::receive(2000, "s", ConflictingFileMode::Error);
    let frame = iris::message::encode_message(IrisMessage::ReadyToReceiveFiles);
    let step = receiver.step(ReceiverEvent::Frame(frame));
    assert!(matches!(step.action, ReceiverAction::Fail(IrisError::UnexpectedMessage)));
    let (mut receiver, _) = iris::receiver::receive(2000, "s", ConflictingFileMode::Error);
    let step = receiver.step(ReceiverEvent::Frame(b"not json".to_vec()));
    assert!(matches!(step.action, ReceiverAction::Fail(IrisError::DeserializationError)));
}

#[test]
fn a_connection_lost_mid_handshake_is_a_read_error() {
    let (mut receiver, _) = iris::receiver::receive(2000, "s", ConflictingFileMode::Error);
    let step = receiver.step(ReceiverEvent::Closed);
    assert!(matches!(step.action, ReceiverAction::Fail(IrisError::UserConnectionReadError)));
}

#[test]
fn the_sender_greets_the_relay_first() {
    let (mut sender, first) =
        iris::sender::simple_send(CipherType::Aes256Gcm, "secret".to_string(), vec![], 0);
    match first.action {
        SenderAction::WriteFrame(f) => {
            assert_eq!(decode_message(&f), Ok(IrisMessage::SenderConnecting))
        }
        other => panic!("unexpected action {other:?}"),
    }
    assert!(matches!(sender.step(SenderEvent::Written).action, SenderAction::ReadFrame));
    let room = iris::message::encode_message(IrisMessage::AssignedRoomIdentifier {
        room_identifier: 4321,
    });
    let step = sender.step(SenderEvent::Frame(room));
    assert!(matches!(step.action, SenderAction::ReadFrame));
    assert!(step.progress.iter().any(|p| matches!(
        p,
        SenderProgressMessage::AssignedRoomIdentifier { room_identifier: 4321 }
    )));
    let connected = iris::message::encode_message(IrisMessage::ReceiverConnected);
    match sender.step(SenderEvent::Frame(connected)).action {
        SenderAction::WriteFrame(f) => assert_eq!(
            decode_message(&f),
            Ok(IrisMessage::SetCipherType { cipher_type: CipherType::Aes256Gcm })
        ),
        other => panic!("unexpected action {other:?}"),
    }
}

#[test]
fn receiver_reports_file_done_after_the_last_chunk() {
    let walk = vec![entry("./a", "a", "", WalkKind::File { size: 14 })];
    let mut sources = HashMap::new();
    sources.insert("./a".to_string(), b"Hello, world!\n".to_vec());
    let out = run(walk, sources, empty_disk(), "s", "s", ConflictingFileMode::Error);
    let totals = out
        .receiver_progress
        .iter()
        .position(|p| matches!(p, ReceiverProgressMessage::TransferMetadata { total_files: 1, total_bytes: 14 }))
        .unwrap();
    let done = out
        .receiver_progress
        .iter()
        .position(|p| matches!(p, ReceiverProgressMessage::FileDone))
        .unwrap();
    assert!(totals < done);
}

#[test]
fn sender_moves_on_after_a_skipped_entry() {
    let walk = vec![
        entry("./a", "a", "", WalkKind::File { size: 3 }),
        entry("./b", "b", "", WalkKind::File { size: 3 }),
    ];
    let mut sources = HashMap::new();
    sources.insert("./a".to_string(), b"new".to_vec());
    sources.insert("./b".to_string(), b"bbb".to_vec());
    let mut disk = empty_disk();
    disk.files.insert("a".to_string(), b"old".to_vec());
    let out = run(walk, sources, disk, "s", "s", ConflictingFileMode::Skip);
    assert_eq!(out.receiver_result, Ok(()));
    assert_eq!(out.disk.files.get("a").unwrap(), b"old");
    assert_eq!(out.disk.files.get("b").unwrap(), b"bbb");
}
