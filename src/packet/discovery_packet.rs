//! The datagram by which a node makes itself known:
//! `magic:u16 | sender:u32 | server_port:u16 | group:u32 | need_response:u8 |
//! name_length:u32 | utf8_name | tag:u16`.
use crate::endian::le_u16;
use crate::endian::le_u32;
use crate::endian::lemma_le_round_trip;
use crate::endian::lemma_le_u16_injective;
use crate::endian::push_u16;
use crate::endian::push_u32;
use crate::endian::read_u16;
use crate::endian::read_u32;
use crate::endian::u16_le;
use crate::endian::u32_le;
use crate::network::ip::ipv4_of;
use crate::network::ip::ipv4_u32;
use crate::network::ip::Ipv4;
use crate::packet::file_coming_packet::name_length;
use crate::strings::text_of_lossy;
use vstd::prelude::*;
use vstd::utf8::encode_utf8;

verus! {

/// The bytes of a discovery packet besides the host name.
pub const PACKET_SIZE: usize = 19;

/// The first two bytes of every discovery packet.
pub const MAGIC_NUMBER: u16 = 0x8964;

#[derive(Clone, Copy, Debug, PartialEq, Eq, Structural)]
pub enum DiscoveryPacketError {
    InvalidMagicNumber,
    InvalidHash,
    CorruptedData,
}

/// A node at `sender_address`, whose data service listens on `server_port`,
/// in group `group_identity`, named `host_name`; `need_response` asks the
/// receiver to answer.
#[derive(Debug)]
pub struct DiscoveryPacket {
    sender_address: u32,
    server_port: u16,
    group_identity: u32,
    need_response: bool,
    host_name: String,
}

/// What a discovery packet holds; the sender is the 32-bit form of its
/// address.
pub struct DiscoveryModel {
    pub sender: u32,
    pub server_port: u16,
    pub group_identity: u32,
    pub need_response: bool,
    pub host_name: Seq<char>,
}

impl View for DiscoveryPacket {
    type V = DiscoveryModel;

    closed spec fn view(&self) -> DiscoveryModel {
        DiscoveryModel {
            sender: self.sender_address,
            server_port: self.server_port,
            group_identity: self.group_identity,
            need_response: self.need_response,
            host_name: self.host_name@,
        }
    }
}

/// The integrity tag: the sum of the sender's octets, the port and the
/// group, divided by three, as 16 bits.
pub open spec fn discovery_tag(sender: u32, server_port: u16, group_identity: u32) -> u16 {
    let ip = ipv4_of(sender);
    ((ip.a + ip.b + ip.c + ip.d + server_port + group_identity) / 3) as u16
}

/// The wire form of a discovery packet.
pub open spec fn discovery_bytes(p: DiscoveryModel) -> Seq<u8> {
    u16_le(MAGIC_NUMBER) + u32_le(p.sender) + u16_le(p.server_port) + u32_le(p.group_identity)
        + seq![if p.need_response { 1u8 } else { 0u8 }] + u32_le(name_length(p.host_name))
        + encode_utf8(p.host_name) + u16_le(
        discovery_tag(p.sender, p.server_port, p.group_identity),
    )
}

/// What a byte string holds when read as a discovery packet.
pub open spec fn discovery_parse(b: Seq<u8>) -> Result<DiscoveryModel, DiscoveryPacketError> {
    if b.len() < 19 {
        Err(DiscoveryPacketError::CorruptedData)
    } else if le_u16(b) != MAGIC_NUMBER {
        Err(DiscoveryPacketError::InvalidMagicNumber)
    } else {
        let sender = le_u32(b.subrange(2, 6));
        let port = le_u16(b.subrange(6, 8));
        let group = le_u32(b.subrange(8, 12));
        let n = le_u32(b.subrange(13, 17));
        if b.len() < 19 + n {
            Err(DiscoveryPacketError::CorruptedData)
        } else if le_u16(b.subrange(17 + n, 19 + n)) != discovery_tag(sender, port, group) {
            Err(DiscoveryPacketError::InvalidHash)
        } else {
            Ok(
                DiscoveryModel {
                    sender,
                    server_port: port,
                    group_identity: group,
                    need_response: b[12] == 1,
                    host_name: text_of_lossy(b.subrange(17, 17 + n)),
                },
            )
        }
    }
}

fn tag_of(sender: u32, server_port: u16, group_identity: u32) -> (r: u16)
    ensures
        r == discovery_tag(sender, server_port, group_identity),
{
    let ip = Ipv4::from_u32(sender);
    let sum = ip.a as u64 + ip.b as u64 + ip.c as u64 + ip.d as u64 + server_port as u64
        + group_identity as u64;
    #[verifier::truncate] ((sum / 3) as u16)
}

impl DiscoveryPacket {
    /// The name's length fits its 32-bit field.
    pub closed spec fn wf(&self) -> bool {
        encode_utf8(self.host_name@).len() <= u32::MAX
    }

    pub fn new(
        sender_address: &Ipv4,
        server_port: u16,
        group_identity: u32,
        need_response: bool,
        host_name: &String,
    ) -> (r: DiscoveryPacket)
        ensures
            r@ == (DiscoveryModel {
                sender: ipv4_u32(*sender_address),
                server_port,
                group_identity,
                need_response,
                host_name: host_name@,
            }),
    {
        DiscoveryPacket {
            sender_address: sender_address.to_u32(),
            server_port,
            group_identity,
            need_response,
            host_name: host_name.clone(),
        }
    }

    pub fn sender_address(&self) -> (r: Ipv4)
        ensures
            r == ipv4_of(self@.sender),
    {
        Ipv4::from_u32(self.sender_address)
    }

    pub fn server_port(&self) -> (r: u16)
        ensures
            r == self@.server_port,
    {
        self.server_port
    }

    pub fn group_identity(&self) -> (r: u32)
        ensures
            r == self@.group_identity,
    {
        self.group_identity
    }

    pub fn need_response(&self) -> (r: bool)
        ensures
            r == self@.need_response,
    {
        self.need_response
    }

    pub fn host_name(&self) -> (r: &String)
        ensures
            r@ == self@.host_name,
    {
        &self.host_name
    }

    /// Whether `hash` is the tag of this packet.
    pub fn is_hash_valid(&self, hash: u16) -> (r: bool)
        ensures
            r == (hash == discovery_tag(self@.sender, self@.server_port, self@.group_identity)),
    {
        tag_of(self.sender_address, self.server_port, self.group_identity) == hash
    }

    pub fn serialize(&self) -> (r: Vec<u8>)
        requires
            encode_utf8(self@.host_name).len() <= u32::MAX,
        ensures
            r@ == discovery_bytes(self@),
    {
        let mut r: Vec<u8> = Vec::new();
        push_u16(&mut r, MAGIC_NUMBER);
        push_u32(&mut r, self.sender_address);
        push_u16(&mut r, self.server_port);
        push_u32(&mut r, self.group_identity);
        r.push(
            if self.need_response {
                1u8
            } else {
                0u8
            },
        );
        let mut name = crate::strings::utf8_bytes(&self.host_name);
        push_u32(&mut r, name.len() as u32);
        r.append(&mut name);
        push_u16(&mut r, tag_of(self.sender_address, self.server_port, self.group_identity));
        proof {
            assert(r@ =~= discovery_bytes(self@));
        }
        r
    }

    pub fn deserialize(data: &Vec<u8>) -> (r: Result<DiscoveryPacket, DiscoveryPacketError>)
        ensures
            r matches Ok(p) ==> discovery_parse(data@) == Ok::<_, DiscoveryPacketError>(p@),
            r matches Err(e) ==> discovery_parse(data@) == Err::<DiscoveryModel, _>(e),
    {
        let len = data.len();
        if len < PACKET_SIZE {
            return Err(DiscoveryPacketError::CorruptedData);
        }
        let magic = read_u16(data, 0);
        assert(le_u16(data@.subrange(0, 2)) == le_u16(data@));
        if magic != MAGIC_NUMBER {
            return Err(DiscoveryPacketError::InvalidMagicNumber);
        }
        let sender_address = read_u32(data, 2);
        let server_port = read_u16(data, 6);
        let group_identity = read_u32(data, 8);
        let need_response = data[12] == 1;
        let n = read_u32(data, 13);
        if ((len - PACKET_SIZE) as u64) < (n as u64) {
            return Err(DiscoveryPacketError::CorruptedData);
        }
        let n = n as usize;
        let hash = read_u16(data, 17 + n);
        if hash != tag_of(sender_address, server_port, group_identity) {
            return Err(DiscoveryPacketError::InvalidHash);
        }
        let host_name = crate::strings::decode_lossy(data, 17, 17 + n);
        Ok(DiscoveryPacket { sender_address, server_port, group_identity, need_response, host_name })
    }
}

/// A discovery packet read back from its own wire form is the same packet.
pub proof fn lemma_discovery_round_trip(p: DiscoveryModel)
    requires
        encode_utf8(p.host_name).len() <= u32::MAX,
    ensures
        discovery_parse(discovery_bytes(p)) == Ok::<_, DiscoveryPacketError>(p),
{
    let b = discovery_bytes(p);
    let n = encode_utf8(p.host_name).len() as int;
    lemma_le_round_trip();
    crate::strings::lemma_utf8_round_trip(p.host_name);
    assert(b.subrange(0, 2) =~= u16_le(MAGIC_NUMBER));
    assert(le_u16(b) == le_u16(b.subrange(0, 2)));
    assert(b.subrange(2, 6) =~= u32_le(p.sender));
    assert(b.subrange(6, 8) =~= u16_le(p.server_port));
    assert(b.subrange(8, 12) =~= u32_le(p.group_identity));
    assert(b.subrange(13, 17) =~= u32_le(n as u32));
    assert(b.subrange(17, 17 + n) =~= encode_utf8(p.host_name));
    assert(b.subrange(17 + n, 19 + n) =~= u16_le(
        discovery_tag(p.sender, p.server_port, p.group_identity),
    ));
}

/// Changing any byte of a discovery packet's tag makes it unreadable.
pub proof fn lemma_discovery_tag_corruption(p: DiscoveryModel, i: int, x: u8)
    requires
        encode_utf8(p.host_name).len() <= u32::MAX,
        discovery_bytes(p).len() - 2 <= i < discovery_bytes(p).len(),
        x != discovery_bytes(p)[i],
    ensures
        discovery_parse(discovery_bytes(p).update(i, x)) is Err,
{
    let b = discovery_bytes(p);
    let c = b.update(i, x);
    let n = encode_utf8(p.host_name).len() as int;
    lemma_discovery_round_trip(p);
    lemma_le_round_trip();
    assert(b.subrange(0, 2) =~= u16_le(MAGIC_NUMBER));
    assert(le_u16(b) == le_u16(b.subrange(0, 2)));
    assert(c.subrange(0, 2) =~= b.subrange(0, 2));
    assert(le_u16(c) == le_u16(c.subrange(0, 2)));
    assert(c.subrange(2, 6) =~= b.subrange(2, 6));
    assert(c.subrange(6, 8) =~= b.subrange(6, 8));
    assert(c.subrange(8, 12) =~= b.subrange(8, 12));
    assert(c.subrange(13, 17) =~= b.subrange(13, 17));
    assert(b.subrange(13, 17) =~= u32_le(n as u32));
    let tc = c.subrange(17 + n, 19 + n);
    let tb = b.subrange(17 + n, 19 + n);
    assert(tc[i - 17 - n] != tb[i - 17 - n]);
    if le_u16(tc) == le_u16(tb) {
        lemma_le_u16_injective(tc, tb);
    }
}

} // verus!
