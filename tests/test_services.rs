use libairx::lib_util::file_coming_frame;
use libairx::lib_util::respond_to_file_frame;
use libairx::lib_util::shared_airx_version_code;
use libairx::lib_util::text_frame;
use libairx::packet::data_packet::DataPacket;
use libairx::packet::file_part_packet::FilePartPacket;
use libairx::packet::file_receive_response_packet::FileReceiveResponsePacket;
use libairx::packet::file_sending_packet::FileSendingPacket;
use libairx::packet::file_sending_packet::FileSendingStatus;
use libairx::packet::file_sending_packet::FileSendingStatusError;
use libairx::packet::magic_numbers::MagicNumbers;
use libairx::packet::text_packet::TextPacket;
use libairx::packet::text_packet::TextPacketError;
use libairx::service::airx_service::AirXService;
use libairx::service::airx_service::AirXServiceConfig;
use libairx::service::data_service::ConnectionControl;
use libairx::service::data_service::DataService;
use libairx::service::data_service::Incoming;
use libairx::service::file_transfer::file_part_frame;
use libairx::service::file_transfer::FileSendSession;
use libairx::service::file_transfer::DATA_SESSION_RECONNECT_TRIES;
use libairx::service::file_transfer::SendAction;
use libairx::service::file_transfer::SendEvent;
use libairx::service::transport::frame;
use libairx::service::transport::frame_length;
use libairx::service::transport::FrameError;
use libairx::service::transport::Transfer;
use libairx::service::transport::TransferStep;

fn unframe(bytes: &Vec<u8>) -> DataPacket {
    let n = frame_length(&bytes[..4].to_vec(), u32::MAX).unwrap() as usize;
    assert_eq!(n + 4, bytes.len());
    DataPacket::deserialize(&bytes[4..].to_vec()).unwrap()
}

#[test]
fn magic_numbers_values() {
    assert_eq!(MagicNumbers::Text.value(), 0x3940);
    assert_eq!(MagicNumbers::from(0x3942), Some(MagicNumbers::FilePart));
    assert_eq!(MagicNumbers::from(1145), None);
}

#[test]
fn file_sending_status_codes() {
    assert_eq!(FileSendingStatus::Completed.to_u8(), 7);
    assert_eq!(FileSendingStatus::from_u8(2).unwrap(), FileSendingStatus::Rejected);
    assert_eq!(FileSendingStatus::from_u8(9).err(), Some(FileSendingStatusError::InvalidStatus));
    let mut p = FileSendingPacket::new(1, 2, 3, FileSendingStatus::Requested);
    p.set_status(FileSendingStatus::Accepted);
    assert_eq!(*p.status(), FileSendingStatus::Accepted);
    assert_eq!((p.file_id(), p.progress(), p.total()), (1, 2, 3));
}

#[test]
fn framing() {
    assert_eq!(frame(&vec![5, 6]), vec![2, 0, 0, 0, 5, 6]);
    assert_eq!(frame_length(&vec![0, 0, 0, 0], 10).err(), Some(FrameError::Empty));
    assert_eq!(frame_length(&vec![11, 0, 0, 0], 10).err(), Some(FrameError::TooLarge));
    assert_eq!(frame_length(&vec![10, 0, 0, 0], 10).unwrap(), 10);
}

#[test]
fn transfer_retries() {
    let mut t = Transfer::new(10);
    assert_eq!(t.on_moved(4), TransferStep::Continue { done: 4 });
    for _ in 0..5 {
        assert_eq!(t.on_would_block(), TransferStep::Retry);
    }
    assert_eq!(t.on_would_block(), TransferStep::Fail);
    assert_eq!(t.on_closed(), TransferStep::Fail);
    assert_eq!(t.on_moved(6), TransferStep::Complete);
    assert_eq!(t.on_error(), TransferStep::Fail);
}

#[test]
fn outgoing_text_and_dispatch() {
    let bytes = text_frame("hi".to_string()).unwrap();
    let packet = unframe(&bytes);
    assert_eq!(packet.magic_number(), MagicNumbers::Text.value());
    match DataService::decode(&packet) {
        Incoming::Text(t) => assert_eq!(t.text(), "hi"),
        _ => panic!("not a text packet"),
    }
    assert_eq!(text_frame("a".repeat(70000)).err(), Some(TextPacketError::StringTooLong));
}

#[test]
fn dispatch_controls() {
    let bad_text = DataPacket::new(MagicNumbers::Text.value(), &vec![1]);
    let incoming = DataService::decode(&bad_text);
    assert!(matches!(incoming, Incoming::Malformed(MagicNumbers::Text)));
    assert_eq!(DataService::connection_control(&incoming, false), ConnectionControl::CloseConnection);

    let part = FilePartPacket::new(1, 0, 1, vec![1]).serialize();
    let incoming = DataService::decode(&DataPacket::new(MagicNumbers::FilePart.value(), &part));
    assert_eq!(DataService::connection_control(&incoming, false), ConnectionControl::Default);
    assert_eq!(DataService::connection_control(&incoming, true), ConnectionControl::CloseConnection);

    let bad_part = DataService::decode(&DataPacket::new(MagicNumbers::FilePart.value(), &vec![1]));
    assert_eq!(DataService::connection_control(&bad_part, false), ConnectionControl::Default);

    let unknown = DataService::decode(&DataPacket::new(1145, &vec![]));
    assert!(matches!(unknown, Incoming::Unknown(1145)));
    assert_eq!(DataService::connection_control(&unknown, false), ConnectionControl::CloseConnection);
}

#[test]
fn file_offer_then_reject() {
    let offer = unframe(&file_coming_frame(1024, "test.bin".to_string()).unwrap());
    match DataService::decode(&offer) {
        Incoming::FileComing(p) => {
            assert_eq!(p.file_size(), 1024);
            assert_eq!(p.file_name(), "test.bin");
        }
        _ => panic!("not an offer"),
    }
    let answer = unframe(&respond_to_file_frame(4, 1024, "test.bin".to_string(), false).unwrap());
    let response = match DataService::decode(&answer) {
        Incoming::FileReceiveResponse(r) => r,
        _ => panic!("not an answer"),
    };
    let (session, notes, action) = FileSendSession::start(&response, true, DATA_SESSION_RECONNECT_TRIES);
    assert_eq!(action, SendAction::Finish);
    assert_eq!(notes[0].status, FileSendingStatus::Requested);
    assert_eq!(notes[1].status, FileSendingStatus::Rejected);
    assert_eq!(session.status, FileSendingStatus::Rejected);
}

#[test]
fn answer_over_ipv6_is_an_error() {
    let response = FileReceiveResponsePacket::new(1, 10, "f".to_string(), true);
    let (session, notes, action) = FileSendSession::start(&response, false, DATA_SESSION_RECONNECT_TRIES);
    assert_eq!(action, SendAction::Finish);
    assert_eq!(notes[1].status, FileSendingStatus::Error);
    assert_eq!(session.status, FileSendingStatus::Error);
}

const MIB: u64 = 1024 * 1024;

#[test]
fn resumable_file_send() {
    let total = 16 * MIB;
    let chunk = MIB;
    let response = FileReceiveResponsePacket::new(1, total, "big.bin".to_string(), true);
    let (mut s, _, action) = FileSendSession::start(&response, true, DATA_SESSION_RECONNECT_TRIES);
    assert_eq!(action, SendAction::Connect);
    let mut written: Vec<u64> = Vec::new();
    let mut position = 0u64;
    let mut dropped = false;
    let mut action = s.step(SendEvent::SessionOpened).0;
    let mut last = None;
    loop {
        match action {
            SendAction::Seek(offset) => {
                position = offset;
                action = s.step(SendEvent::ChunkRead(chunk.min(total - position))).0;
            }
            SendAction::SendChunk(offset) => {
                if offset == 4 * MIB && !dropped {
                    dropped = true;
                    action = s.step(SendEvent::TransportFailed).0;
                    continue;
                }
                written.push(offset);
                position = offset + chunk;
                action = s.step(SendEvent::ChunkSent).0;
            }
            SendAction::ReadChunk => {
                action = s.step(SendEvent::ChunkRead(chunk.min(total - position))).0;
            }
            SendAction::Connect => {
                action = s.step(SendEvent::SessionOpened).0;
            }
            SendAction::Finish => break,
        }
        last = Some(s.status);
    }
    assert!(dropped);
    assert_eq!(last, Some(FileSendingStatus::Completed));
    assert_eq!(s.sent, total);
    let expected: Vec<u64> = (0..16).map(|i| i * MIB).collect();
    assert_eq!(written, expected);
}

#[test]
fn cancellation_by_receiver() {
    let response = FileReceiveResponsePacket::new(1, 16 * MIB, "big.bin".to_string(), true);
    let (mut s, _, _) = FileSendSession::start(&response, true, DATA_SESSION_RECONNECT_TRIES);
    s.step(SendEvent::SessionOpened);
    s.step(SendEvent::ChunkRead(MIB));
    s.step(SendEvent::ChunkSent);
    s.step(SendEvent::ChunkRead(MIB));
    s.step(SendEvent::ChunkSent);
    // The receiver closes the connection after 2 MiB, and again on every
    // reconnect.
    let mut note = None;
    for _ in 0..3 {
        let (action, n) = s.step(SendEvent::TransportFailed);
        note = n;
        if action == SendAction::Finish {
            break;
        }
        assert_eq!(action, SendAction::Connect);
        assert_eq!(s.step(SendEvent::SessionOpened).0, SendAction::Seek(2 * MIB));
    }
    assert_eq!(s.status, FileSendingStatus::CancelledByReceiver);
    let note = note.unwrap();
    assert_eq!(note.progress, 2 * MIB);
    assert_eq!(s.step(SendEvent::ChunkSent), (SendAction::Finish, None));
}

#[test]
fn progress_reported_every_hundred_chunks() {
    let response = FileReceiveResponsePacket::new(1, 1000, "f".to_string(), true);
    let (mut s, _, _) = FileSendSession::start(&response, true, DATA_SESSION_RECONNECT_TRIES);
    s.step(SendEvent::SessionOpened);
    let mut reports = 0;
    for _ in 0..250 {
        s.step(SendEvent::ChunkRead(1));
        if let (_, Some(n)) = s.step(SendEvent::ChunkSent) {
            assert_eq!(n.status, FileSendingStatus::InProgress);
            reports += 1;
        }
    }
    assert_eq!(reports, 2);
    let (action, n) = s.step(SendEvent::ChunkRead(0));
    assert_eq!(action, SendAction::Finish);
    assert_eq!(n.unwrap().status, FileSendingStatus::Completed);
}

#[test]
fn file_part_frames() {
    let bytes = file_part_frame(3, 100, &vec![1, 2, 3]);
    let packet = unframe(&bytes);
    assert_eq!(packet.magic_number(), MagicNumbers::FilePart.value());
    let part = FilePartPacket::deserialize(packet.data()).unwrap();
    assert_eq!((part.file_id(), part.offset(), part.length()), (3, 100, 3));
    assert_eq!(part.data(), &vec![1, 2, 3]);
}

#[test]
fn node_config_and_version() {
    let config = AirXServiceConfig {
        discovery_service_server_port: 9818,
        discovery_service_client_port: 0,
        text_service_listen_addr: "0.0.0.0".to_string(),
        data_service_listen_port: 9819,
        group_identifier: 0,
    };
    let node = AirXService::new(&config);
    assert_eq!(node.config().data_service_listen_port, 9819);
    assert_eq!(node.config().text_service_listen_addr, "0.0.0.0");
    assert!(node.discovery_service().peers().is_empty());
    assert_eq!(shared_airx_version_code(), "\\^O^/");
    let packet = TextPacket::new("x".to_string()).unwrap();
    assert_eq!(packet.text_length, 1);
}

#[test]
fn zero_reconnect_tries_opens_no_session() {
    let response = FileReceiveResponsePacket::new(1, 10, "f".to_string(), true);
    let (session, notes, action) = FileSendSession::start(&response, true, 0);
    assert_eq!(action, SendAction::Finish);
    assert_eq!(notes[1].status, FileSendingStatus::Error);
    assert_eq!(session.status, FileSendingStatus::Error);
}

#[test]
fn reconnect_count_is_respected() {
    let response = FileReceiveResponsePacket::new(1, 10, "f".to_string(), true);
    let (mut s, _, action) = FileSendSession::start(&response, true, 5);
    assert_eq!(action, SendAction::Connect);
    let mut sessions = 0;
    loop {
        assert_eq!(s.step(SendEvent::SessionOpened).0, SendAction::Seek(0));
        sessions += 1;
        let (action, _) = s.step(SendEvent::TransportFailed);
        if action == SendAction::Finish {
            break;
        }
        assert_eq!(action, SendAction::Connect);
    }
    assert_eq!(sessions, 5);
    assert_eq!(s.status, FileSendingStatus::CancelledByReceiver);
}
