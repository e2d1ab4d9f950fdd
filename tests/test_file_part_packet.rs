use libairx::packet::file_part_packet::FilePartPacket;
use libairx::packet::file_part_packet::FilePartPacketError;

#[test]
fn test_test_file_part_packet() {
    let data = vec![1, 2, 3, 4, 5, 6, 7, 8, 9];
    let packet = FilePartPacket::new(11, 45, data.len() as u64, data);
    let bytes = packet.serialize();
    let packet2 = FilePartPacket::deserialize(&bytes).unwrap();
    assert!(packet.eq(&packet2));
}

#[test]
fn file_part_length_mismatch_fails() {
    let packet = FilePartPacket::new(1, 0, 5, vec![1, 2, 3]);
    assert_eq!(
        FilePartPacket::deserialize(&packet.serialize()).err(),
        Some(FilePartPacketError::CorruptedData)
    );
    assert_eq!(FilePartPacket::deserialize(&vec![0; 16]).err(), Some(FilePartPacketError::CorruptedData));
}

#[test]
fn file_part_exact_layout() {
    let bytes = FilePartPacket::new(3, 0x0102, 2, vec![7, 8]).serialize();
    assert_eq!(bytes, vec![3, 2, 1, 0, 0, 0, 0, 0, 0, 2, 0, 0, 0, 0, 0, 0, 0, 7, 8]);
    let p = FilePartPacket::deserialize(&bytes).unwrap();
    assert_eq!((p.file_id(), p.offset(), p.length()), (3, 0x0102, 2));
    assert_eq!(p.data(), &vec![7, 8]);
}
