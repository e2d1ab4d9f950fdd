use libairx::network::ip::Ipv4;
use libairx::packet::discovery_packet::DiscoveryPacket;
use libairx::packet::discovery_packet::DiscoveryPacketError;
use libairx::service::discovery_service::DiscoveryRejection;
use libairx::service::discovery_service::DiscoveryService;
use libairx::service::discovery_service::InterfaceAddr;
use libairx::service::discovery_service::broadcast_addresses;
use libairx::service::discovery_service::local_addresses;

#[test]
fn test_discovery_packet_serializable() {
    let packet = DiscoveryPacket::new(
        &Ipv4::new(114, 51, 41, 91),
        9818,
        0,
        true,
        &String::from("嘟嘟嘟"),
    );

    let bytes = packet.serialize();
    let packet2 = DiscoveryPacket::deserialize(&bytes).unwrap();

    assert_eq!(packet2.server_port(), 9818);
    assert_eq!(packet2.group_identity(), 0);
    assert_eq!(packet2.sender_address().to_u32(), Ipv4::new(114, 51, 41, 91).to_u32());
    assert_eq!(packet2.need_response(), true);
    assert_eq!(packet2.host_name(), "嘟嘟嘟");
}

#[test]
fn discovery_tag_formula() {
    let packet = DiscoveryPacket::new(&Ipv4::new(1, 2, 3, 4), 10, 5, false, &"h".to_string());
    // (1 + 2 + 3 + 4 + 10 + 5) / 3 = 8
    assert!(packet.is_hash_valid(8));
    let bytes = packet.serialize();
    let n = bytes.len();
    assert_eq!(&bytes[n - 2..], &[8, 0]);
    assert_eq!(&bytes[..2], &[0x64, 0x89]);
}

#[test]
fn discovery_errors() {
    let bytes = DiscoveryPacket::new(&Ipv4::new(1, 2, 3, 4), 10, 5, false, &"h".to_string()).serialize();
    let mut bad = bytes.clone();
    bad[0] = 0;
    assert_eq!(DiscoveryPacket::deserialize(&bad).err(), Some(DiscoveryPacketError::InvalidMagicNumber));
    let mut bad = bytes.clone();
    let n = bad.len();
    bad[n - 1] ^= 4;
    assert_eq!(DiscoveryPacket::deserialize(&bad).err(), Some(DiscoveryPacketError::InvalidHash));
    assert_eq!(
        DiscoveryPacket::deserialize(&bytes[..10].to_vec()).err(),
        Some(DiscoveryPacketError::CorruptedData)
    );
}

fn packet_from(ip: Ipv4, group: u32, need_response: bool) -> DiscoveryPacket {
    DiscoveryPacket::new(&ip, 9819, group, need_response, &"other".to_string())
}

#[test]
fn discovery_two_nodes_same_group() {
    let mut service = DiscoveryService::new();
    let locals = vec![Ipv4::new(192, 168, 1, 2)];
    let replies = service
        .handle_new_peer(&locals, &packet_from(Ipv4::new(192, 168, 1, 3), 0, true), 0, 9819, &"me".to_string())
        .unwrap();
    assert_eq!(replies.len(), 1);
    assert_eq!(replies[0].sender_address(), Ipv4::new(192, 168, 1, 2));
    assert!(!replies[0].need_response());
    assert_eq!(replies[0].host_name(), "me");
    let peers = service.peers();
    assert_eq!(peers.len(), 1);
    assert_eq!(peers[0].host(), "192.168.1.3");
    assert_eq!(peers[0].port(), 9819);
    assert!(service.peer_lookup(&Ipv4::new(192, 168, 1, 3)).is_some());
}

#[test]
fn discovery_group_isolation_and_self() {
    let mut service = DiscoveryService::new();
    let locals = vec![Ipv4::new(192, 168, 1, 2)];
    for _ in 0..3 {
        let r = service.handle_new_peer(&locals, &packet_from(Ipv4::new(192, 168, 1, 3), 1, true), 0, 9819, &"me".to_string());
        assert_eq!(r.err(), Some(DiscoveryRejection::OtherGroup));
    }
    let r = service.handle_new_peer(&locals, &packet_from(Ipv4::new(192, 168, 1, 2), 0, true), 0, 9819, &"me".to_string());
    assert_eq!(r.err(), Some(DiscoveryRejection::FromSelf));
    assert!(service.peers().is_empty());
    let replies = service
        .handle_new_peer(&locals, &packet_from(Ipv4::new(192, 168, 1, 4), 0, false), 0, 9819, &"me".to_string())
        .unwrap();
    assert!(replies.is_empty());
    assert_eq!(service.peers().len(), 1);
}

#[test]
fn discovery_requests_per_local_address() {
    let locals = vec![Ipv4::new(10, 0, 0, 1), Ipv4::new(192, 168, 0, 1)];
    let requests = DiscoveryService::broadcast_discovery_request(&locals, 9818, 7, &"me".to_string());
    assert_eq!(requests.len(), 2);
    let p = DiscoveryPacket::deserialize(&requests[1]).unwrap();
    assert_eq!(p.sender_address(), Ipv4::new(192, 168, 0, 1));
    assert!(p.need_response());
    assert_eq!(p.group_identity(), 7);
}

#[test]
fn interface_address_selection() {
    let addrs = vec![
        InterfaceAddr::V4 { ip: Ipv4::new(192, 168, 1, 2).to_u32(), netmask: Some(0xffff_ff00), broadcast: None },
        InterfaceAddr::V4 { ip: Ipv4::new(10, 1, 2, 3).to_u32(), netmask: None, broadcast: Some(Ipv4::new(10, 255, 255, 255).to_u32()) },
        InterfaceAddr::V4 { ip: Ipv4::new(127, 0, 0, 1).to_u32(), netmask: Some(0xff00_0000), broadcast: None },
        InterfaceAddr::V4 { ip: Ipv4::new(8, 8, 8, 8).to_u32(), netmask: Some(0xffff_ff00), broadcast: None },
        InterfaceAddr::V6,
        InterfaceAddr::V6,
    ];
    let b = broadcast_addresses(&addrs);
    assert_eq!(
        b,
        vec![
            Ipv4::new(192, 168, 1, 255),
            Ipv4::new(10, 255, 255, 255),
            Ipv4::new(8, 8, 8, 255),
            Ipv4::new(255, 255, 255, 255),
        ]
    );
    let l = local_addresses(&addrs);
    assert_eq!(l, vec![Ipv4::new(192, 168, 1, 2), Ipv4::new(10, 1, 2, 3)]);
}

#[test]
fn sender_of_known_and_unknown_peer() {
    let mut service = DiscoveryService::new();
    let locals = vec![Ipv4::new(192, 168, 1, 2)];
    service
        .handle_new_peer(&locals, &packet_from(Ipv4::new(192, 168, 1, 3), 0, false), 0, 9819, &"me".to_string())
        .unwrap();
    let known = service.sender_of(&Ipv4::new(192, 168, 1, 3), 5000);
    assert_eq!(known.host_name(), "other");
    assert_eq!(known.port(), 9819);
    let unknown = service.sender_of(&Ipv4::new(192, 168, 1, 9), 5000);
    assert_eq!(unknown.host(), "192.168.1.9");
    assert_eq!(unknown.port(), 5000);
    assert_eq!(unknown.host_name(), "<empty>");
}
