use libairx::packet::file_part_response_packet::FilePartResponsePacket;
use libairx::packet::file_part_response_packet::FilePartResponsePacketError;
use libairx::packet::file_part_response_packet::ResponseKind;
use libairx::packet::file_receive_response_packet::FileReceiveResponsePacket;
use libairx::packet::file_receive_response_packet::FileReceiveResponsePacketError;

#[test]
fn test_test_file_receive_response_packet() {
    let packet = FileReceiveResponsePacket::new(
        11,
        1024,
        String::from("test中文测试 \\^O^/ 😃 RTL test سلام عليكم 🇯🇵こんにちは؟ *&%^.txt"),
        true,
    );
    let bytes = packet.serialize();
    let packet2 = FileReceiveResponsePacket::deserialize(&bytes).unwrap();
    assert!(packet.eq(&packet2));
}

#[test]
fn file_receive_response_layout_and_errors() {
    let bytes = FileReceiveResponsePacket::new(2, 5, "a".to_string(), false).serialize();
    assert_eq!(bytes, vec![2, 5, 0, 0, 0, 0, 0, 0, 0, 1, 0, 0, 0, b'a', 0]);
    let p = FileReceiveResponsePacket::deserialize(&bytes).unwrap();
    assert!(!p.accepted());
    assert_eq!(p.file_id(), 2);
    assert_eq!(p.file_size(), 5);
    assert_eq!(p.file_name(), "a");
    assert_eq!(
        FileReceiveResponsePacket::deserialize(&bytes[..14].to_vec()).err(),
        Some(FileReceiveResponsePacketError::CorruptedData)
    );
}

#[test]
fn file_part_response_round_trip_and_errors() {
    for kind in [ResponseKind::StopSending, ResponseKind::StopReceiving] {
        let p = FilePartResponsePacket::new(9, kind);
        let back = FilePartResponsePacket::deserialize(&p.serialize()).unwrap();
        assert_eq!(back, p);
        assert_eq!(back.response_kind(), kind);
    }
    assert_eq!(FilePartResponsePacket::new(9, ResponseKind::StopReceiving).serialize(), vec![9, 2]);
    assert_eq!(
        FilePartResponsePacket::deserialize(&vec![9, 3]).err(),
        Some(FilePartResponsePacketError::CorruptedData)
    );
    assert_eq!(
        FilePartResponsePacket::deserialize(&vec![9]).err(),
        Some(FilePartResponsePacketError::CorruptedData)
    );
}
