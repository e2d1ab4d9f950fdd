//! The outer envelope of every message on a data connection:
//! `magic:u16 | length:u32 | payload | tag:u16`.
use crate::endian::le_u16;
use crate::endian::le_u32;
use crate::endian::lemma_le_round_trip;
use crate::endian::lemma_le_u16_injective;
use crate::endian::push_u16;
use crate::endian::push_u32;
use crate::endian::read_u16;
use crate::endian::read_u32;
use crate::endian::u16_le;
use crate::endian::u32_le;
use crate::packet::magic_numbers::magic_of;
use crate::packet::magic_numbers::MagicNumbers;
use vstd::prelude::*;
use vstd::slice::slice_subrange;
use vstd::slice::slice_to_vec;

verus! {

/// The bytes that a data packet adds around its payload.
pub const BASE_PACKET_SIZE: usize = 8;

#[derive(Clone, Copy, Debug, PartialEq, Eq, Structural)]
pub enum DataPacketError {
    InvalidMagicNumber,
    InvalidHash,
    CorruptedData,
}

/// A payload with the magic number that says how to read it.
pub struct DataPacket {
    magic_number: u16,
    data: Vec<u8>,
}

/// The integrity tag of a payload of `len` bytes: half its length, as 16 bits.
pub open spec fn data_tag(len: nat) -> u16 {
    (len / 2) as u16
}

/// A data packet's layout with each field given: the length field and the
/// tag need not agree with the payload.
pub open spec fn data_packet_frame(magic: u16, length: u32, payload: Seq<u8>, tag: u16) -> Seq<u8> {
    u16_le(magic) + u32_le(length) + payload + u16_le(tag)
}

/// The wire form of a data packet.
pub open spec fn data_packet_bytes(magic: u16, payload: Seq<u8>) -> Seq<u8> {
    data_packet_frame(magic, payload.len() as u32, payload, data_tag(payload.len()))
}

/// What a byte string holds when read as a data packet: its magic number and
/// payload, or the reason it is refused. Only the known kinds are accepted.
pub open spec fn data_packet_parse(b: Seq<u8>) -> Result<(u16, Seq<u8>), DataPacketError> {
    if b.len() < 8 {
        Err(DataPacketError::CorruptedData)
    } else {
        let n = le_u32(b.subrange(2, 6)) as int;
        if b.len() != 8 + n {
            Err(DataPacketError::CorruptedData)
        } else if le_u16(b.subrange(6 + n, 8 + n)) != data_tag(n as nat) {
            Err(DataPacketError::InvalidHash)
        } else if magic_of(le_u16(b)) is None {
            Err(DataPacketError::InvalidMagicNumber)
        } else {
            Ok((le_u16(b), b.subrange(6, 6 + n)))
        }
    }
}

/// The integrity tag of a packet's payload.
pub fn packet_hash(packet: &DataPacket) -> (r: u16)
    ensures
        r == data_tag(packet.data_spec().len()),
{
    (packet.data.len() / 2) as u16
}

impl DataPacket {
    pub closed spec fn magic_spec(&self) -> u16 {
        self.magic_number
    }

    pub closed spec fn data_spec(&self) -> Seq<u8> {
        self.data@
    }

    pub fn new(magic_number: u16, data: &Vec<u8>) -> (r: DataPacket)
        ensures
            r.magic_spec() == magic_number,
            r.data_spec() == data@,
    {
        DataPacket { magic_number, data: slice_to_vec(data.as_slice()) }
    }

    pub fn magic_number(&self) -> (r: u16)
        ensures
            r == self.magic_spec(),
    {
        self.magic_number
    }

    pub fn data(&self) -> (r: &Vec<u8>)
        ensures
            r@ == self.data_spec(),
    {
        &self.data
    }

    pub fn serialize(&self) -> (r: Vec<u8>)
        requires
            self.data_spec().len() <= u32::MAX,
        ensures
            r@ == data_packet_bytes(self.magic_spec(), self.data_spec()),
    {
        let mut r: Vec<u8> = Vec::new();
        push_u16(&mut r, self.magic_number);
        push_u32(&mut r, self.data.len() as u32);
        let mut payload = slice_to_vec(self.data.as_slice());
        r.append(&mut payload);
        push_u16(&mut r, packet_hash(self));
        r
    }

    pub fn deserialize(data: &Vec<u8>) -> (r: Result<DataPacket, DataPacketError>)
        ensures
            r matches Ok(p) ==> data_packet_parse(data@) == Ok::<_, DataPacketError>(
                (p.magic_spec(), p.data_spec()),
            ),
            r matches Err(e) ==> data_packet_parse(data@) == Err::<(u16, Seq<u8>), _>(e),
    {
        let len = data.len();
        if len < BASE_PACKET_SIZE {
            return Err(DataPacketError::CorruptedData);
        }
        let magic_number = read_u16(data, 0);
        assert(le_u16(data@.subrange(0, 2)) == le_u16(data@));
        let n = read_u32(data, 2) as usize;
        if len - BASE_PACKET_SIZE != n {
            return Err(DataPacketError::CorruptedData);
        }
        let payload = slice_to_vec(slice_subrange(data.as_slice(), 6, 6 + n));
        let hash = read_u16(data, 6 + n);
        let packet = DataPacket { magic_number, data: payload };
        if hash != packet_hash(&packet) {
            return Err(DataPacketError::InvalidHash);
        }
        if MagicNumbers::from(magic_number).is_none() {
            return Err(DataPacketError::InvalidMagicNumber);
        }
        Ok(packet)
    }
}

/// The length and tag fields of a data packet's wire form read back as
/// written.
proof fn lemma_data_packet_fields(magic: u16, payload: Seq<u8>)
    requires
        payload.len() <= u32::MAX,
    ensures
        ({
            let b = data_packet_bytes(magic, payload);
            let n = payload.len() as int;
            &&& b.len() == 8 + n
            &&& le_u32(b.subrange(2, 6)) == n
            &&& le_u16(b) == magic
            &&& le_u16(b.subrange(6 + n, 8 + n)) == data_tag(n as nat)
        }),
{
    let n = payload.len() as int;
    let b = data_packet_bytes(magic, payload);
    lemma_le_round_trip();
    assert(b.subrange(2, 6) =~= u32_le(n as u32));
    assert(b.subrange(0, 2) =~= u16_le(magic));
    assert(le_u16(b) == le_u16(b.subrange(0, 2)));
    assert(b.subrange(6 + n, 8 + n) =~= u16_le(data_tag(n as nat)));
}

/// Wrapping a payload in a data packet of a known kind and reading it back
/// gives the same magic number and payload.
pub proof fn lemma_data_packet_round_trip(magic: u16, payload: Seq<u8>)
    requires
        payload.len() <= u32::MAX,
        magic_of(magic) is Some,
    ensures
        data_packet_parse(data_packet_bytes(magic, payload)) == Ok::<_, DataPacketError>(
            (magic, payload),
        ),
{
    lemma_data_packet_fields(magic, payload);
    let b = data_packet_bytes(magic, payload);
    assert(b.subrange(6, 6 + payload.len() as int) =~= payload);
}

/// A well-formed data packet whose magic number is none of the known kinds is
/// refused.
pub proof fn lemma_data_packet_unknown_magic(magic: u16, payload: Seq<u8>)
    requires
        payload.len() <= u32::MAX,
        magic_of(magic) is None,
    ensures
        data_packet_parse(data_packet_bytes(magic, payload)) == Err::<(u16, Seq<u8>), _>(
            DataPacketError::InvalidMagicNumber,
        ),
{
    lemma_data_packet_fields(magic, payload);
}

/// Changing any byte of a data packet's tag makes it unreadable.
pub proof fn lemma_data_packet_tag_corruption(magic: u16, payload: Seq<u8>, i: int, x: u8)
    requires
        payload.len() <= u32::MAX,
        data_packet_bytes(magic, payload).len() - 2 <= i < data_packet_bytes(magic, payload).len(),
        x != data_packet_bytes(magic, payload)[i],
    ensures
        data_packet_parse(data_packet_bytes(magic, payload).update(i, x)) == Err::<
            (u16, Seq<u8>),
            _,
        >(DataPacketError::InvalidHash),
{
    let n = payload.len() as int;
    let b = data_packet_bytes(magic, payload);
    let c = b.update(i, x);
    lemma_data_packet_fields(magic, payload);
    let tc = c.subrange(6 + n, 8 + n);
    let tb = b.subrange(6 + n, 8 + n);
    assert(c.len() == b.len());
    assert(c.subrange(2, 6) =~= b.subrange(2, 6));
    assert(tc[i - 6 - n] == x);
    assert(tb[i - 6 - n] == b[i]);
    assert(tc != tb);
    if le_u16(tc) == le_u16(tb) {
        lemma_le_u16_injective(tc, tb);
    }
    assert(le_u16(tc) != data_tag(n as nat));
}

/// A data packet whose length field disagrees with the size of its payload is
/// refused, whatever its tag.
pub proof fn lemma_data_packet_length_mismatch(magic: u16, length: u32, payload: Seq<u8>, tag: u16)
    requires
        length != payload.len(),
    ensures
        data_packet_parse(data_packet_frame(magic, length, payload, tag)) == Err::<
            (u16, Seq<u8>),
            _,
        >(DataPacketError::CorruptedData),
{
    let b = data_packet_frame(magic, length, payload, tag);
    lemma_le_round_trip();
    assert(b.subrange(2, 6) =~= u32_le(length));
}

} // verus!
