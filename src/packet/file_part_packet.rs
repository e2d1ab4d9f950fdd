//! One chunk of a file in flight: `file_id:u8 | offset:u64 | length:u64 | data`.
use crate::endian::le_u64;
use crate::endian::lemma_le_round_trip;
use crate::endian::push_u64;
use crate::endian::read_u64;
use crate::endian::u64_le;
use vstd::prelude::*;
use vstd::slice::slice_subrange;
use vstd::slice::slice_to_vec;

verus! {

/// The bytes of a file part before its data.
pub const BASE_PACKET_SIZE: usize = 17;

#[derive(Clone, Copy, Debug, PartialEq, Eq, Structural)]
pub enum FilePartPacketError {
    CorruptedData,
}

/// A chunk of file `file_id` that starts at byte `offset` of the file.
#[derive(Debug)]
pub struct FilePartPacket {
    file_id: u8,
    offset: u64,
    length: u64,
    data: Vec<u8>,
}

/// What a file part holds.
pub struct FilePartModel {
    pub file_id: u8,
    pub offset: u64,
    pub length: u64,
    pub data: Seq<u8>,
}

impl View for FilePartPacket {
    type V = FilePartModel;

    closed spec fn view(&self) -> FilePartModel {
        FilePartModel {
            file_id: self.file_id,
            offset: self.offset,
            length: self.length,
            data: self.data@,
        }
    }
}

/// The wire form of a file part.
pub open spec fn file_part_bytes(p: FilePartModel) -> Seq<u8> {
    seq![p.file_id] + u64_le(p.offset) + u64_le(p.length) + p.data
}

/// What a byte string holds when read as a file part.
pub open spec fn file_part_parse(b: Seq<u8>) -> Result<FilePartModel, FilePartPacketError> {
    if b.len() < 17 {
        Err(FilePartPacketError::CorruptedData)
    } else {
        let n = le_u64(b.subrange(9, 17));
        if b.len() != 17 + n {
            Err(FilePartPacketError::CorruptedData)
        } else {
            Ok(
                FilePartModel {
                    file_id: b[0],
                    offset: le_u64(b.subrange(1, 9)),
                    length: n,
                    data: b.subrange(17, b.len() as int),
                },
            )
        }
    }
}

impl PartialEq for FilePartPacket {
    fn eq(&self, other: &FilePartPacket) -> (r: bool)
        ensures
            r == (self@ == other@),
    {
        let mut same = self.file_id == other.file_id && self.offset == other.offset
            && self.length == other.length && self.data.len() == other.data.len();
        let mut i: usize = 0;
        while same && i < self.data.len()
            invariant
                same ==> self.data@.len() == other.data@.len(),
                same ==> self.file_id == other.file_id && self.offset == other.offset
                    && self.length == other.length,
                same ==> self.data@.subrange(0, i as int) =~= other.data@.subrange(0, i as int),
                !same ==> self@ != other@,
                i <= self.data@.len(),
            decreases self.data@.len() - i + if same { 1int } else { 0int },
        {
            if self.data[i] != other.data[i] {
                same = false;
                assert(self@.data[i as int] != other@.data[i as int]);
            } else {
                assert(self.data@.subrange(0, i + 1) =~= other.data@.subrange(0, i + 1)) by {
                    assert(self.data@.subrange(0, i + 1) =~= self.data@.subrange(0, i as int).push(
                        self.data@[i as int],
                    ));
                    assert(other.data@.subrange(0, i + 1) =~= other.data@.subrange(
                        0,
                        i as int,
                    ).push(other.data@[i as int]));
                }
                i = i + 1;
            }
        }
        proof {
            if same {
                assert(self.data@ =~= self.data@.subrange(0, i as int));
                assert(other.data@ =~= other.data@.subrange(0, i as int));
            }
        }
        same
    }
}

impl vstd::std_specs::cmp::PartialEqSpecImpl for FilePartPacket {
    open spec fn obeys_eq_spec() -> bool {
        true
    }

    open spec fn eq_spec(&self, other: &FilePartPacket) -> bool {
        self@ == other@
    }
}

impl FilePartPacket {
    /// A part whose `length` disagrees with `data` can be made, and is
    /// refused when read back.
    pub fn new(file_id: u8, offset: u64, length: u64, data: Vec<u8>) -> (r: FilePartPacket)
        ensures
            r@ == (FilePartModel { file_id, offset, length, data: data@ }),
    {
        FilePartPacket { file_id, offset, length, data }
    }

    pub fn file_id(&self) -> (r: u8)
        ensures
            r == self@.file_id,
    {
        self.file_id
    }

    pub fn offset(&self) -> (r: u64)
        ensures
            r == self@.offset,
    {
        self.offset
    }

    pub fn length(&self) -> (r: u64)
        ensures
            r == self@.length,
    {
        self.length
    }

    pub fn data(&self) -> (r: &Vec<u8>)
        ensures
            r@ == self@.data,
    {
        &self.data
    }

    pub fn serialize(&self) -> (r: Vec<u8>)
        ensures
            r@ == file_part_bytes(self@),
    {
        let mut r: Vec<u8> = Vec::new();
        r.push(self.file_id);
        push_u64(&mut r, self.offset);
        push_u64(&mut r, self.length);
        let mut body = slice_to_vec(self.data.as_slice());
        r.append(&mut body);
        proof {
            assert(r@ =~= file_part_bytes(self@));
        }
        r
    }

    pub fn deserialize(serialized: &Vec<u8>) -> (r: Result<FilePartPacket, FilePartPacketError>)
        ensures
            r matches Ok(p) ==> file_part_parse(serialized@) == Ok::<_, FilePartPacketError>(p@),
            r matches Err(e) ==> file_part_parse(serialized@) == Err::<FilePartModel, _>(e),
    {
        let len = serialized.len();
        if len < BASE_PACKET_SIZE {
            return Err(FilePartPacketError::CorruptedData);
        }
        let file_id = serialized[0];
        let offset = read_u64(serialized, 1);
        let length = read_u64(serialized, 9);
        if (len - BASE_PACKET_SIZE) as u64 != length {
            return Err(FilePartPacketError::CorruptedData);
        }
        let data = slice_to_vec(slice_subrange(serialized.as_slice(), BASE_PACKET_SIZE, len));
        Ok(FilePartPacket { file_id, offset, length, data })
    }
}

/// A file part whose length field matches its data reads back as itself.
pub proof fn lemma_file_part_round_trip(p: FilePartModel)
    requires
        p.length == p.data.len(),
    ensures
        file_part_parse(file_part_bytes(p)) == Ok::<_, FilePartPacketError>(p),
{
    let b = file_part_bytes(p);
    lemma_le_round_trip();
    assert(b.subrange(1, 9) =~= u64_le(p.offset));
    assert(b.subrange(9, 17) =~= u64_le(p.length));
    assert(b.subrange(17, b.len() as int) =~= p.data);
}

/// A file part whose length field disagrees with its data is refused.
pub proof fn lemma_file_part_length_mismatch(p: FilePartModel)
    requires
        p.length != p.data.len(),
    ensures
        file_part_parse(file_part_bytes(p)) == Err::<FilePartModel, _>(
            FilePartPacketError::CorruptedData,
        ),
{
    let b = file_part_bytes(p);
    lemma_le_round_trip();
    assert(b.subrange(9, 17) =~= u64_le(p.length));
}

} // verus!
