use libairx::packet::data_packet::DataPacket;
use libairx::packet::data_packet::DataPacketError;
use libairx::packet::text_packet::TextPacket;

#[test]
fn test_data_packet_test_text_packet_serializable() {
    // Text including emojis, non-ASCII characters, RTL characters, and code.
    let test_string =
        "😃 سلام عليكم 🇯🇵こんにちは؟ *&%^".to_string() +
            "🉐🉐🉐" +
            "public static void main(String[] args) {" +
            "    System.out.println(\"Hello, world!\");" +
            "}" +
            "console.log(() => \"Hello, world!\"))XXXXXXX;" +
            "SYNC.SYNC:XXXXXXXXXXXXXXXXYXXXXXXXXXXXXXXXXX" +
            "3000";
    let packet = TextPacket::new(test_string.clone()).unwrap();
    let data_packet = DataPacket::new(0x3940u16, &packet.serialize());
    let bytes = data_packet.serialize();
    let data_packet2 = DataPacket::deserialize(&bytes).unwrap();
    let packet2 = TextPacket::deserialize(&data_packet2.data()).unwrap();

    assert_eq!(packet2.text, test_string);
}

#[test]
fn data_packet_exact_layout() {
    let p = DataPacket::new(0x3940, &vec![1, 2, 3, 4, 5]);
    let bytes = p.serialize();
    assert_eq!(bytes, vec![0x40, 0x39, 5, 0, 0, 0, 1, 2, 3, 4, 5, 2, 0]);
    let back = DataPacket::deserialize(&bytes).unwrap();
    assert_eq!(back.magic_number(), 0x3940);
    assert_eq!(back.data(), &vec![1, 2, 3, 4, 5]);
}

#[test]
fn data_packet_round_trip_empty_payload() {
    let p = DataPacket::new(0x3943, &Vec::new());
    let back = DataPacket::deserialize(&p.serialize()).unwrap();
    assert_eq!(back.magic_number(), 0x3943);
    assert!(back.data().is_empty());
}

#[test]
fn data_packet_too_short_is_corrupted() {
    assert_eq!(DataPacket::deserialize(&vec![1, 2, 3]).err(), Some(DataPacketError::CorruptedData));
}

#[test]
fn data_packet_length_mismatch_is_corrupted() {
    let mut bytes = DataPacket::new(0x3939, &vec![9, 9, 9, 9]).serialize();
    bytes[2] = 3;
    assert_eq!(DataPacket::deserialize(&bytes).err(), Some(DataPacketError::CorruptedData));
}

#[test]
fn data_packet_tag_corruption_fails() {
    let bytes = DataPacket::new(0x3939, &vec![9, 9, 9, 9]).serialize();
    let n = bytes.len();
    for i in [n - 2, n - 1] {
        let mut bad = bytes.clone();
        bad[i] ^= 0x01;
        assert_eq!(DataPacket::deserialize(&bad).err(), Some(DataPacketError::InvalidHash));
    }
}

#[test]
fn data_packet_unknown_magic_fails() {
    for magic in [0u16, 0x1234, 1145, 0x3938, 0x3944] {
        let bytes = DataPacket::new(magic, &vec![1, 2]).serialize();
        assert_eq!(DataPacket::deserialize(&bytes).err(), Some(DataPacketError::InvalidMagicNumber));
    }
}
