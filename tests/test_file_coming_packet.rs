use libairx::packet::file_coming_packet::FileComingPacket;
use libairx::packet::file_coming_packet::FileComingPacketError;

#[test]
fn test_file_coming_packet_serializable() {
    let packet = FileComingPacket::new(
        1024,
        String::from("testä¸­æ–‡æµ‹è¯• \\^O^/ ğŸ˜ƒ RTL test Ø³Ù„Ø§Ù… Ø¹Ù„ÙŠÙƒÙ… ğŸ‡¯ğŸ‡µã“ã‚“ã«ã¡ã¯ØŸ *&%^.txt"),
    );

    let bytes = packet.serialize();
    let packet2 = FileComingPacket::deserialize(&bytes).unwrap();

    assert_eq!(packet, packet2);
}

#[test]
fn file_coming_exact_layout_and_tag() {
    let bytes = FileComingPacket::new(1024, "test.bin".to_string()).serialize();
    let mut expected = vec![0, 4, 0, 0, 0, 0, 0, 0, 8, 0, 0, 0];
    expected.extend_from_slice(b"test.bin");
    // (1024 + 8) as 16 bits.
    expected.extend_from_slice(&[0x08, 0x04]);
    assert_eq!(bytes, expected);
    let back = FileComingPacket::deserialize(&bytes).unwrap();
    assert_eq!(back.file_size(), 1024);
    assert_eq!(back.file_name(), "test.bin");
}

#[test]
fn file_coming_errors() {
    assert_eq!(
        FileComingPacket::deserialize(&vec![0; 5]).err(),
        Some(FileComingPacketError::CorruptedPacket)
    );
    let mut bytes = FileComingPacket::new(1, "x".to_string()).serialize();
    let n = bytes.len();
    bytes[n - 2] ^= 1;
    assert_eq!(FileComingPacket::deserialize(&bytes).err(), Some(FileComingPacketError::InvalidHash));
}

#[test]
fn file_coming_lossy_name() {
    // Name bytes that are not UTF-8 are replaced rather than refused.
    let mut bytes = vec![1, 0, 0, 0, 0, 0, 0, 0, 1, 0, 0, 0, 0xff];
    bytes.extend_from_slice(&[2, 0]);
    let p = FileComingPacket::deserialize(&bytes).unwrap();
    assert_eq!(p.file_name(), "\u{fffd}");
}
