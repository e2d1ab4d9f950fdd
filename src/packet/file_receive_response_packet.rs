//! A recipient's answer to a file offer:
//! `file_id:u8 | file_size:u64 | name_length:u32 | utf8_name | accepted:u8`.
use crate::endian::le_u32;
use crate::endian::le_u64;
use crate::endian::lemma_le_round_trip;
use crate::endian::push_u32;
use crate::endian::push_u64;
use crate::endian::read_u32;
use crate::endian::read_u64;
use crate::endian::u32_le;
use crate::endian::u64_le;
use crate::packet::file_coming_packet::name_length;
use crate::strings::text_of_lossy;
use vstd::prelude::*;
use vstd::utf8::encode_utf8;

verus! {

/// The bytes of an answer besides the file name.
pub const BASE_PACKET_SIZE: usize = 14;

#[derive(Clone, Copy, Debug, PartialEq, Eq, Structural)]
pub enum FileReceiveResponsePacketError {
    CorruptedData,
}

/// Whether the recipient takes file `file_id`, offered as `file_name` of
/// `file_size` bytes.
#[derive(Debug)]
pub struct FileReceiveResponsePacket {
    file_id: u8,
    file_size: u64,
    file_name_length: u32,
    file_name: String,
    accepted: bool,
}

/// What an answer to a file offer holds.
pub struct FileReceiveResponseModel {
    pub file_id: u8,
    pub file_size: u64,
    pub file_name: Seq<char>,
    pub accepted: bool,
}

impl View for FileReceiveResponsePacket {
    type V = FileReceiveResponseModel;

    closed spec fn view(&self) -> FileReceiveResponseModel {
        FileReceiveResponseModel {
            file_id: self.file_id,
            file_size: self.file_size,
            file_name: self.file_name@,
            accepted: self.accepted,
        }
    }
}

/// The wire form of an answer.
pub open spec fn file_receive_response_bytes(p: FileReceiveResponseModel) -> Seq<u8> {
    seq![p.file_id] + u64_le(p.file_size) + u32_le(name_length(p.file_name)) + encode_utf8(
        p.file_name,
    ) + seq![if p.accepted { 1u8 } else { 0u8 }]
}

/// What a byte string holds when read as an answer: any nonzero last byte
/// means the file is accepted.
pub open spec fn file_receive_response_parse(b: Seq<u8>) -> Result<
    FileReceiveResponseModel,
    FileReceiveResponsePacketError,
> {
    if b.len() < 14 {
        Err(FileReceiveResponsePacketError::CorruptedData)
    } else {
        let n = le_u32(b.subrange(9, 13));
        if b.len() < 14 + n {
            Err(FileReceiveResponsePacketError::CorruptedData)
        } else {
            Ok(
                FileReceiveResponseModel {
                    file_id: b[0],
                    file_size: le_u64(b.subrange(1, 9)),
                    file_name: text_of_lossy(b.subrange(13, 13 + n)),
                    accepted: b[13 + n] != 0,
                },
            )
        }
    }
}

impl PartialEq for FileReceiveResponsePacket {
    fn eq(&self, other: &FileReceiveResponsePacket) -> (r: bool)
        ensures
            r == (self@ == other@),
    {
        self.file_id == other.file_id && self.file_size == other.file_size && self.file_name
            == other.file_name && self.accepted == other.accepted
    }
}

impl vstd::std_specs::cmp::PartialEqSpecImpl for FileReceiveResponsePacket {
    open spec fn obeys_eq_spec() -> bool {
        true
    }

    open spec fn eq_spec(&self, other: &FileReceiveResponsePacket) -> bool {
        self@ == other@
    }
}

impl FileReceiveResponsePacket {
    /// The name's length field is kept in step with the name.
    pub closed spec fn wf(&self) -> bool {
        self.file_name_length == name_length(self.file_name@)
    }

    pub fn new(file_id: u8, file_size: u64, file_name: String, accepted: bool) -> (r:
        FileReceiveResponsePacket)
        ensures
            r@ == (FileReceiveResponseModel {
                file_id,
                file_size,
                file_name: file_name@,
                accepted,
            }),
            r.wf(),
    {
        let n = crate::strings::utf8_len(&file_name);
        FileReceiveResponsePacket {
            file_id,
            file_size,
            file_name_length: n as u32,
            file_name,
            accepted,
        }
    }

    pub fn file_id(&self) -> (r: u8)
        ensures
            r == self@.file_id,
    {
        self.file_id
    }

    pub fn file_size(&self) -> (r: u64)
        ensures
            r == self@.file_size,
    {
        self.file_size
    }

    pub fn file_name(&self) -> (r: &String)
        ensures
            r@ == self@.file_name,
    {
        &self.file_name
    }

    pub fn accepted(&self) -> (r: bool)
        ensures
            r == self@.accepted,
    {
        self.accepted
    }

    pub fn serialize(&self) -> (r: Vec<u8>)
        requires
            self.wf(),
        ensures
            r@ == file_receive_response_bytes(self@),
    {
        let mut r: Vec<u8> = Vec::new();
        r.push(self.file_id);
        push_u64(&mut r, self.file_size);
        push_u32(&mut r, self.file_name_length);
        let mut name = crate::strings::utf8_bytes(&self.file_name);
        r.append(&mut name);
        r.push(
            if self.accepted {
                1u8
            } else {
                0u8
            },
        );
        proof {
            assert(r@ =~= file_receive_response_bytes(self@));
        }
        r
    }

    pub fn deserialize(data: &Vec<u8>) -> (r: Result<
        FileReceiveResponsePacket,
        FileReceiveResponsePacketError,
    >)
        ensures
            r matches Ok(p) ==> p.wf() && file_receive_response_parse(data@) == Ok::<
                _,
                FileReceiveResponsePacketError,
            >(p@),
            r matches Err(e) ==> file_receive_response_parse(data@) == Err::<
                FileReceiveResponseModel,
                _,
            >(e),
    {
        let len = data.len();
        if len < BASE_PACKET_SIZE {
            return Err(FileReceiveResponsePacketError::CorruptedData);
        }
        let file_id = data[0];
        let file_size = read_u64(data, 1);
        let n = read_u32(data, 9);
        if ((len - BASE_PACKET_SIZE) as u64) < (n as u64) {
            return Err(FileReceiveResponsePacketError::CorruptedData);
        }
        let n = n as usize;
        let file_name = crate::strings::decode_lossy(data, 13, 13 + n);
        let accepted = data[13 + n] != 0;
        Ok(FileReceiveResponsePacket::new(file_id, file_size, file_name, accepted))
    }
}

/// An answer read back from its own wire form is the same answer.
pub proof fn lemma_file_receive_response_round_trip(p: FileReceiveResponseModel)
    requires
        encode_utf8(p.file_name).len() <= u32::MAX,
    ensures
        file_receive_response_parse(file_receive_response_bytes(p)) == Ok::<
            _,
            FileReceiveResponsePacketError,
        >(p),
{
    let b = file_receive_response_bytes(p);
    let n = encode_utf8(p.file_name).len() as int;
    lemma_le_round_trip();
    crate::strings::lemma_utf8_round_trip(p.file_name);
    assert(b.subrange(1, 9) =~= u64_le(p.file_size));
    assert(b.subrange(9, 13) =~= u32_le(n as u32));
    assert(b.subrange(13, 13 + n) =~= encode_utf8(p.file_name));
}

} // verus!
