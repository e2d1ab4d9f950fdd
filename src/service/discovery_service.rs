//! Discovery: advertising this node, answering probes, and keeping the peer
//! table current.
use crate::network::ip::broadcast_of;
use crate::network::ip::ipv4_of;
use crate::network::ip::ipv4_u32;
use crate::network::ip::is_loopback_spec;
use crate::network::ip::is_private_spec;
use crate::network::ip::to_broadcast_addr;
use crate::network::ip::dotted;
use crate::network::ip::Ipv4;
use crate::network::peer::name_or_default;
use crate::network::peer::Peer;
use crate::network::peer::PeerModel;
use crate::network::peer_table::hosts_distinct;
use crate::network::peer_table::inserted;
use crate::network::peer_table::PeerTable;
use crate::packet::discovery_packet::discovery_bytes;
use crate::packet::discovery_packet::DiscoveryModel;
use crate::packet::discovery_packet::DiscoveryPacket;
use vstd::prelude::*;
use vstd::utf8::encode_utf8;

verus! {

/// The address used where an interface gives no broadcast address to use.
pub const FALLBACK_BROADCAST: u32 = 0xffff_ffff;

/// One address of a local network interface, as far as discovery reads it.
#[derive(Clone, Copy, Debug, PartialEq, Eq, Structural)]
pub enum InterfaceAddr {
    V4 { ip: u32, netmask: Option<u32>, broadcast: Option<u32> },
    V6,
}

/// Where discovery requests for an interface address go: its broadcast
/// address, else the one its netmask gives, else the fallback.
pub open spec fn broadcast_target(a: InterfaceAddr) -> u32 {
    match a {
        InterfaceAddr::V4 { ip, netmask, broadcast } => match broadcast {
            Some(b) => b,
            None => match netmask {
                Some(m) => broadcast_of(ip, m),
                None => ip,
            },
        },
        InterfaceAddr::V6 => FALLBACK_BROADCAST,
    }
}

/// The interface address is a private IPv4 address.
pub open spec fn is_private_v4(a: InterfaceAddr) -> bool {
    match a {
        InterfaceAddr::V4 { ip, .. } => is_private_spec(ipv4_of(ip)),
        InterfaceAddr::V6 => false,
    }
}

pub open spec fn v4_ip(a: InterfaceAddr) -> u32 {
    match a {
        InterfaceAddr::V4 { ip, .. } => ip,
        InterfaceAddr::V6 => 0,
    }
}

/// No address occurs twice in `s`.
pub open spec fn no_duplicates(s: Seq<Ipv4>) -> bool {
    forall|i: int, j: int| 0 <= i < j < s.len() ==> s[i] != s[j]
}

/// The broadcast address of one interface address.
pub fn broadcast_target_of(a: &InterfaceAddr) -> (r: u32)
    ensures
        r == broadcast_target(*a),
{
    match a {
        InterfaceAddr::V4 { ip, netmask, broadcast } => match broadcast {
            Some(b) => *b,
            None => match netmask {
                Some(m) => to_broadcast_addr(*ip, *m),
                None => *ip,
            },
        },
        InterfaceAddr::V6 => FALLBACK_BROADCAST,
    }
}

fn contains_ip(s: &Vec<Ipv4>, ip: &Ipv4) -> (r: bool)
    ensures
        r == s@.contains(*ip),
{
    let mut i: usize = 0;
    while i < s.len()
        invariant
            i <= s@.len(),
            forall|k: int| 0 <= k < i ==> s@[k] != *ip,
        decreases s@.len() - i,
    {
        if s[i] == *ip {
            assert(s@[i as int] == *ip);
            return true;
        }
        i = i + 1;
    }
    false
}

/// The broadcast addresses of the interfaces, loopback ones left out, each
/// once.
pub fn broadcast_addresses(addrs: &Vec<InterfaceAddr>) -> (r: Vec<Ipv4>)
    ensures
        no_duplicates(r@),
        forall|x: Ipv4|
            r@.contains(x) <==> exists|i: int|
                0 <= i < addrs@.len() && ipv4_of(broadcast_target(addrs@[i])) == x
                    && !is_loopback_spec(x),
{
    let mut r: Vec<Ipv4> = Vec::new();
    let mut i: usize = 0;
    while i < addrs.len()
        invariant
            i <= addrs@.len(),
            no_duplicates(r@),
            forall|x: Ipv4|
                r@.contains(x) <==> exists|k: int|
                    0 <= k < i && ipv4_of(broadcast_target(addrs@[k])) == x
                        && !is_loopback_spec(x),
        decreases addrs@.len() - i,
    {
        let ip = Ipv4::from_u32(broadcast_target_of(&addrs[i]));
        let ghost before = r@;
        if !ip.is_loopback() && !contains_ip(&r, &ip) {
            r.push(ip);
            assert(r@ == before.push(ip));
        } else {
            assert(r@ == before);
        }
        assert forall|x: Ipv4|
            r@.contains(x) <==> exists|k: int|
                0 <= k < i + 1 && ipv4_of(broadcast_target(addrs@[k])) == x
                    && !is_loopback_spec(x) by {
            if r@.contains(x) {
                if before.contains(x) {
                    let k = choose|k: int|
                        0 <= k < i && ipv4_of(broadcast_target(addrs@[k])) == x
                            && !is_loopback_spec(x);
                    assert(0 <= k < i + 1);
                } else {
                    let j = choose|j: int| 0 <= j < r@.len() && r@[j] == x;
                    assert(j == before.len());
                    assert(ipv4_of(broadcast_target(addrs@[i as int])) == x);
                }
            }
            if exists|k: int|
                0 <= k < i + 1 && ipv4_of(broadcast_target(addrs@[k])) == x
                    && !is_loopback_spec(x) {
                let k = choose|k: int|
                    0 <= k < i + 1 && ipv4_of(broadcast_target(addrs@[k])) == x
                        && !is_loopback_spec(x);
                if k < i {
                    assert(before.contains(x));
                    let j = choose|j: int| 0 <= j < before.len() && before[j] == x;
                    assert(r@[j] == x);
                } else if !before.contains(x) {
                    assert(r@[before.len() as int] == x);
                } else {
                    let j = choose|j: int| 0 <= j < before.len() && before[j] == x;
                    assert(r@[j] == x);
                }
            }
        }
        i = i + 1;
    }
    r
}

/// The private IPv4 addresses of the interfaces, each once.
pub fn local_addresses(addrs: &Vec<InterfaceAddr>) -> (r: Vec<Ipv4>)
    ensures
        no_duplicates(r@),
        forall|x: Ipv4|
            r@.contains(x) <==> exists|i: int|
                0 <= i < addrs@.len() && is_private_v4(addrs@[i]) && ipv4_of(v4_ip(addrs@[i]))
                    == x,
{
    let mut r: Vec<Ipv4> = Vec::new();
    let mut i: usize = 0;
    while i < addrs.len()
        invariant
            i <= addrs@.len(),
            no_duplicates(r@),
            forall|x: Ipv4|
                r@.contains(x) <==> exists|k: int|
                    0 <= k < i && is_private_v4(addrs@[k]) && ipv4_of(v4_ip(addrs@[k])) == x,
        decreases addrs@.len() - i,
    {
        let ghost before = r@;
        match &addrs[i] {
            InterfaceAddr::V4 { ip, .. } => {
                let a = Ipv4::from_u32(*ip);
                if a.is_private() && !contains_ip(&r, &a) {
                    r.push(a);
                    assert(r@ == before.push(a));
                } else {
                    assert(r@ == before);
                }
            },
            InterfaceAddr::V6 => {
                assert(r@ == before);
            },
        }
        assert forall|x: Ipv4|
            r@.contains(x) <==> exists|k: int|
                0 <= k < i + 1 && is_private_v4(addrs@[k]) && ipv4_of(v4_ip(addrs@[k])) == x by {
            if r@.contains(x) {
                if before.contains(x) {
                    let k = choose|k: int|
                        0 <= k < i && is_private_v4(addrs@[k]) && ipv4_of(v4_ip(addrs@[k])) == x;
                    assert(0 <= k < i + 1);
                } else {
                    let j = choose|j: int| 0 <= j < r@.len() && r@[j] == x;
                    assert(j == before.len());
                    assert(is_private_v4(addrs@[i as int]) && ipv4_of(v4_ip(addrs@[i as int])) == x);
                }
            }
            if exists|k: int|
                0 <= k < i + 1 && is_private_v4(addrs@[k]) && ipv4_of(v4_ip(addrs@[k])) == x {
                let k = choose|k: int|
                    0 <= k < i + 1 && is_private_v4(addrs@[k]) && ipv4_of(v4_ip(addrs@[k])) == x;
                if k < i {
                    assert(before.contains(x));
                    let j = choose|j: int| 0 <= j < before.len() && before[j] == x;
                    assert(r@[j] == x);
                } else if !before.contains(x) {
                    assert(r@[before.len() as int] == x);
                } else {
                    let j = choose|j: int| 0 <= j < before.len() && before[j] == x;
                    assert(r@[j] == x);
                }
            }
        }
        i = i + 1;
    }
    r
}

/// Why a discovery packet was not taken.
#[derive(Clone, Copy, Debug, PartialEq, Eq, Structural)]
pub enum DiscoveryRejection {
    FromSelf,
    OtherGroup,
}

/// The peer that a discovery packet announces.
pub open spec fn announced_peer(p: DiscoveryModel) -> PeerModel {
    PeerModel {
        host: dotted(ipv4_of(p.sender)),
        port: p.server_port,
        host_name: name_or_default(Some(p.host_name)),
    }
}

/// The packet by which this node, at `local`, advertises itself.
pub open spec fn advert(
    local: Ipv4,
    server_port: u16,
    group_identifier: u32,
    need_response: bool,
    host_name: Seq<char>,
) -> DiscoveryModel {
    DiscoveryModel {
        sender: ipv4_u32(local),
        server_port,
        group_identity: group_identifier,
        need_response,
        host_name,
    }
}

/// The discovery side of a node: the table of known peers.
pub struct DiscoveryService {
    peers: PeerTable,
}

impl DiscoveryService {
    pub closed spec fn table(&self) -> Seq<PeerModel> {
        self.peers@
    }

    pub closed spec fn wf(&self) -> bool {
        self.peers.wf()
    }

    pub fn new() -> (r: DiscoveryService)
        ensures
            r.wf(),
            r.table() == Seq::<PeerModel>::empty(),
    {
        DiscoveryService { peers: PeerTable::new() }
    }

    /// A copy of every known peer, one per host.
    pub fn peers(&self) -> (r: Vec<Peer>)
        requires
            self.wf(),
        ensures
            r@.map_values(|p: Peer| p@) == self.table(),
            hosts_distinct(self.table()),
    {
        self.peers.snapshot()
    }

    /// The peer that sent from `address`: its entry in the table, or, for an
    /// unknown sender, a peer at that address with no name.
    pub fn sender_of(&self, address: &Ipv4, port: u16) -> (r: Peer)
        requires
            self.wf(),
        ensures
            r@.host == dotted(*address),
            crate::network::peer_table::has_host(self.table(), dotted(*address)) ==> self.table().contains(r@),
            !crate::network::peer_table::has_host(self.table(), dotted(*address)) ==> r@ == (PeerModel {
                host: dotted(*address),
                port,
                host_name: name_or_default(None),
            }),
    {
        match self.peers.lookup_by_address(address) {
            Some(p) => p,
            None => Peer::from(address, port, None),
        }
    }

    /// The known peer at an address, if any.
    pub fn peer_lookup(&self, address: &Ipv4) -> (r: Option<Peer>)
        requires
            self.wf(),
        ensures
            r is Some <==> crate::network::peer_table::has_host(self.table(), dotted(*address)),
            r matches Some(p) ==> p@.host == dotted(*address) && self.table().contains(p@),
    {
        self.peers.lookup_by_address(address)
    }

    /// Takes in a discovery packet received from the network.
    ///
    /// A packet whose sender is one of this node's own addresses, or whose
    /// group differs from `group_identifier`, changes nothing. Any other packet
    /// puts its sender into the table and, where it asks for a response,
    /// yields one reply per local address advertising this node (at
    /// `server_port`, named `self_host_name`), to be sent back to the sender.
    pub fn handle_new_peer(
        &mut self,
        local_addresses: &Vec<Ipv4>,
        packet: &DiscoveryPacket,
        group_identifier: u32,
        server_port: u16,
        self_host_name: &String,
    ) -> (r: Result<Vec<DiscoveryPacket>, DiscoveryRejection>)
        requires
            old(self).wf(),
        ensures
            final(self).wf(),
            local_addresses@.contains(ipv4_of(packet@.sender)) ==> r == Err::<
                Vec<DiscoveryPacket>,
                _,
            >(DiscoveryRejection::FromSelf),
            !local_addresses@.contains(ipv4_of(packet@.sender)) && packet@.group_identity
                != group_identifier ==> r == Err::<Vec<DiscoveryPacket>, _>(
                DiscoveryRejection::OtherGroup,
            ),
            r is Err ==> final(self).table() == old(self).table(),
            r is Ok <==> !local_addresses@.contains(ipv4_of(packet@.sender))
                && packet@.group_identity == group_identifier,
            r matches Ok(replies) ==> {
                &&& final(self).table() == inserted(old(self).table(), announced_peer(packet@))
                &&& replies@.len() == if packet@.need_response {
                    local_addresses@.len()
                } else {
                    0
                }
                &&& forall|i: int|
                    0 <= i < replies@.len() ==> #[trigger] replies@[i]@ == advert(
                        local_addresses@[i],
                        server_port,
                        group_identifier,
                        false,
                        self_host_name@,
                    )
            },
    {
        let sender = packet.sender_address();
        if contains_ip(local_addresses, &sender) {
            return Err(DiscoveryRejection::FromSelf);
        }
        if packet.group_identity() != group_identifier {
            return Err(DiscoveryRejection::OtherGroup);
        }
        let mut replies: Vec<DiscoveryPacket> = Vec::new();
        if packet.need_response() {
            let mut i: usize = 0;
            while i < local_addresses.len()
                invariant
                    i <= local_addresses@.len(),
                    replies@.len() == i,
                    forall|k: int|
                        0 <= k < i ==> #[trigger] replies@[k]@ == advert(
                            local_addresses@[k],
                            server_port,
                            group_identifier,
                            false,
                            self_host_name@,
                        ),
                decreases local_addresses@.len() - i,
            {
                let reply = DiscoveryPacket::new(
                    &local_addresses[i],
                    server_port,
                    group_identifier,
                    false,
                    self_host_name,
                );
                replies.push(reply);
                i = i + 1;
            }
        }
        let peer = Peer::from(&sender, packet.server_port(), Some(packet.host_name()));
        self.peers.insert(peer);
        Ok(replies)
    }

    /// The discovery requests that advertise this node: one for each local
    /// address, asking for a response; each is sent to every broadcast
    /// address.
    pub fn broadcast_discovery_request(
        local_addresses: &Vec<Ipv4>,
        server_port: u16,
        group_identifier: u32,
        self_host_name: &String,
    ) -> (r: Vec<Vec<u8>>)
        requires
            encode_utf8(self_host_name@).len() <= u32::MAX,
        ensures
            r@.len() == local_addresses@.len(),
            forall|i: int|
                0 <= i < r@.len() ==> #[trigger] r@[i]@ == discovery_bytes(
                    advert(local_addresses@[i], server_port, group_identifier, true, self_host_name@),
                ),
    {
        let mut r: Vec<Vec<u8>> = Vec::new();
        let mut i: usize = 0;
        while i < local_addresses.len()
            invariant
                i <= local_addresses@.len(),
                r@.len() == i,
                encode_utf8(self_host_name@).len() <= u32::MAX,
                forall|k: int|
                    0 <= k < i ==> #[trigger] r@[k]@ == discovery_bytes(
                        advert(local_addresses@[k], server_port, group_identifier, true, self_host_name@),
                    ),
            decreases local_addresses@.len() - i,
        {
            let request = DiscoveryPacket::new(
                &local_addresses[i],
                server_port,
                group_identifier,
                true,
                self_host_name,
            );
            r.push(request.serialize());
            i = i + 1;
        }
        r
    }
}

} // verus!
