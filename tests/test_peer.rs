use libairx::network::ip::Ipv4;
use libairx::network::peer::Peer;
use libairx::network::peer_table::PeerTable;
use libairx::service::airx_service::peer_hosts_text;

/// Equation of two peers is determined only by their hosts.
#[test]
fn host() {
    let peer1 = Peer::new(&String::from("114.51.41.91"), 9818, Some(&String::from("B612")));
    let peer2 = Peer::new(&String::from("114.51.41.91"), 9819, Some(&String::from("M78")));
    let peer3 = Peer::new(&String::from("111.111.11.1"), 9819, Some(&String::from("Jarilo-VI")));

    assert!(peer1 == peer2);
    assert!(peer1 != peer3);
    assert_eq!(peer2.to_string(), String::from("M78@114.51.41.91:9819"));
}

#[test]
fn test_socket_addr_to_string() {
    let addr = Ipv4::new(10, 10, 10, 9);
    assert_eq!(addr.to_string(), "10.10.10.9");
}

#[test]
fn peer_defaults() {
    let p = Peer::new(&"1.2.3.4".to_string(), 80, None);
    assert_eq!(p.host_name(), "<empty>");
    assert_eq!(Peer::default().to_string(), "<empty>@0.0.0.0:0");
    let q = Peer::from(&Ipv4::new(192, 168, 0, 255), 9818, Some(&"n".to_string()));
    assert_eq!(q.host(), "192.168.0.255");
    assert_eq!(q.port(), 9818);
}

#[test]
fn ipv4_u32_conversions() {
    let ip = Ipv4::new(114, 51, 41, 91);
    assert_eq!(ip.to_u32(), 0x7233295b);
    assert_eq!(Ipv4::from_u32(0x7233295b), ip);
    assert_eq!(ip.octets(), [114, 51, 41, 91]);
    assert!(Ipv4::new(10, 0, 0, 1).is_private());
    assert!(Ipv4::new(172, 31, 0, 1).is_private());
    assert!(!Ipv4::new(172, 32, 0, 1).is_private());
    assert!(Ipv4::new(192, 168, 1, 1).is_private());
    assert!(!Ipv4::new(8, 8, 8, 8).is_private());
    assert!(Ipv4::new(127, 0, 0, 1).is_loopback());
}

#[test]
fn peer_table_one_entry_per_host() {
    let mut table = PeerTable::new();
    table.insert(Peer::new(&"10.0.0.1".to_string(), 1, Some(&"a".to_string())));
    table.insert(Peer::new(&"10.0.0.2".to_string(), 2, Some(&"b".to_string())));
    table.insert(Peer::new(&"10.0.0.1".to_string(), 3, Some(&"c".to_string())));
    assert_eq!(table.len(), 2);
    let snapshot = table.snapshot();
    assert_eq!(snapshot.len(), 2);
    assert_eq!(snapshot[0].host(), "10.0.0.1");
    assert_eq!(snapshot[0].host_name(), "c");
    assert_eq!(snapshot[0].port(), 3);
    assert_eq!(snapshot[1].host(), "10.0.0.2");
}

#[test]
fn peer_table_lookup() {
    let mut table = PeerTable::new();
    table.insert(Peer::new(&"10.0.0.7".to_string(), 1, Some(&"seven".to_string())));
    let found = table.lookup_by_address(&Ipv4::new(10, 0, 0, 7)).unwrap();
    assert_eq!(found.host_name(), "seven");
    assert!(table.lookup_by_address(&Ipv4::new(10, 0, 0, 8)).is_none());
    assert!(table.lookup(&"10.0.0.7".to_string()).is_some());
}

#[test]
fn peer_hosts_joined() {
    let peers = vec![
        Peer::new(&"10.0.0.1".to_string(), 1, None),
        Peer::new(&"10.0.0.2".to_string(), 2, None),
    ];
    assert_eq!(peer_hosts_text(&peers), "10.0.0.1,10.0.0.2");
    assert_eq!(peer_hosts_text(&Vec::new()), "");
}
