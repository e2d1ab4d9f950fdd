use libairx::packet::text_packet::text_hash;
use libairx::packet::text_packet::TextPacket;
use libairx::packet::text_packet::TextPacketError;

#[test]
fn text_packet_round_trip_sizes() {
    for len in [0usize, 1, 1000, 65535] {
        let text = "a".repeat(len);
        let packet = TextPacket::new(text.clone()).unwrap();
        let back = TextPacket::deserialize(&packet.serialize()).unwrap();
        assert_eq!(back.text, text);
        assert_eq!(back.text_length as usize, len);
    }
}

#[test]
fn text_packet_too_long() {
    let text = "a".repeat(65536);
    assert_eq!(TextPacket::new(text).err(), Some(TextPacketError::StringTooLong));
}

#[test]
fn text_hash_exact_values() {
    // The seed, then position times code point: 0 * 'a' + 1 * 'b'.
    assert_eq!(text_hash(&String::new()), 0xfff6);
    assert_eq!(text_hash(&"ab".to_string()), 0xfff6u16.wrapping_add(98));
}

#[test]
fn text_packet_exact_layout() {
    let bytes = TextPacket::new("ab".to_string()).unwrap().serialize();
    let tag = 0xfff6u16.wrapping_add(98);
    assert_eq!(bytes, vec![2, 0, 0, 0, b'a', b'b', tag as u8, (tag >> 8) as u8]);
}

#[test]
fn text_packet_errors() {
    assert_eq!(TextPacket::deserialize(&vec![1, 0, 0]).err(), Some(TextPacketError::InvalidData));
    // Declared length beyond the data.
    assert_eq!(
        TextPacket::deserialize(&vec![9, 0, 0, 0, b'a', 0, 0]).err(),
        Some(TextPacketError::InvalidData)
    );
    // Not UTF-8.
    assert_eq!(
        TextPacket::deserialize(&vec![1, 0, 0, 0, 0xff, 0, 0]).err(),
        Some(TextPacketError::InvalidData)
    );
    let mut bytes = TextPacket::new("hello".to_string()).unwrap().serialize();
    let n = bytes.len();
    bytes[n - 1] ^= 0x80;
    assert_eq!(TextPacket::deserialize(&bytes).err(), Some(TextPacketError::InvalidHash));
}

#[test]
fn text_packet_scenario_text_exchange() {
    let text = "😃 سلام こんにちは".to_string();
    let packet = TextPacket::new(text.clone()).unwrap();
    let back = TextPacket::deserialize(&packet.serialize()).unwrap();
    assert_eq!(back.text().as_bytes(), text.as_bytes());
}

#[test]
fn test_text_packet_test_text_packet_serializable() {
    // Text including emojis, non-ASCII characters, RTL characters, and code.
    let test_string =
        "ðŸ˜ƒ Ø³Ù„Ø§Ù… Ø¹Ù„ÙŠÙƒÙ… ðŸ‡¯ðŸ‡µã“ã‚“ã«ã¡ã¯ØŸ *&%^".to_string() +
            "ðŸ‰ðŸ‰ðŸ‰" +
            "public static void main(String[] args) {" +
            "    System.out.println(\"Hello, world!\");" +
            "}" +
            "console.log(() => \"Hello, world!\"))XXXXXXX;" +
            "SYNC.SYNC:XXXXXXXXXXXXXXXXYXXXXXXXXXXXXXXXXX" +
            "3000";
    let packet = TextPacket::new(test_string.clone()).unwrap();
    let bytes = packet.serialize();
    let packet2 = TextPacket::deserialize(&bytes).unwrap();

    assert_eq!(packet2.text, test_string);
}
