//! An offer of a file: `file_size:u64 | name_length:u32 | utf8_name | tag:u16`.
use crate::endian::le_u16;
use crate::endian::le_u32;
use crate::endian::le_u64;
use crate::endian::lemma_le_round_trip;
use crate::endian::lemma_le_u16_injective;
use crate::endian::push_u16;
use crate::endian::push_u32;
use crate::endian::push_u64;
use crate::endian::read_u16;
use crate::endian::read_u32;
use crate::endian::read_u64;
use crate::endian::u16_le;
use crate::endian::u32_le;
use crate::endian::u64_le;
use crate::strings::text_of_lossy;
use vstd::prelude::*;
use vstd::utf8::decode_utf8;
use vstd::utf8::encode_utf8;

verus! {

/// The bytes of a file offer besides its name.
pub const BASE_PACKET_SIZE: usize = 14;

#[derive(Clone, Copy, Debug, PartialEq, Eq, Structural)]
pub enum FileComingPacketError {
    InvalidHash,
    CorruptedPacket,
    FileNameTooLong,
    FileTooLarge,
}

/// An offer of a file of `file_size` bytes named `file_name`.
#[derive(Debug)]
pub struct FileComingPacket {
    file_size: u64,
    file_name_length: u32,
    file_name: String,
}

/// What a file offer holds.
pub struct FileComingModel {
    pub file_size: u64,
    pub file_name: Seq<char>,
}

impl View for FileComingPacket {
    type V = FileComingModel;

    closed spec fn view(&self) -> FileComingModel {
        FileComingModel { file_size: self.file_size, file_name: self.file_name@ }
    }
}

/// The integrity tag of a file offer: the low 16 bits of the size plus the
/// name's length.
pub open spec fn file_coming_tag(file_size: u64, name_length: u32) -> u16 {
    ((file_size as u32) + name_length) as u16
}

/// The name length field of a file offer.
pub open spec fn name_length(name: Seq<char>) -> u32 {
    encode_utf8(name).len() as u32
}

/// The wire form of a file offer.
pub open spec fn file_coming_bytes(p: FileComingModel) -> Seq<u8> {
    u64_le(p.file_size) + u32_le(name_length(p.file_name)) + encode_utf8(p.file_name) + u16_le(
        file_coming_tag(p.file_size, name_length(p.file_name)),
    )
}

/// What a byte string holds when read as a file offer.
pub open spec fn file_coming_parse(b: Seq<u8>) -> Result<FileComingModel, FileComingPacketError> {
    if b.len() < 14 {
        Err(FileComingPacketError::CorruptedPacket)
    } else {
        let size = le_u64(b);
        let n = le_u32(b.subrange(8, 12));
        if b.len() < 14 + n {
            Err(FileComingPacketError::CorruptedPacket)
        } else if le_u16(b.subrange(12 + n, 14 + n)) != file_coming_tag(size, n) {
            Err(FileComingPacketError::InvalidHash)
        } else {
            Ok(
                FileComingModel {
                    file_size: size,
                    file_name: text_of_lossy(b.subrange(12, 12 + n)),
                },
            )
        }
    }
}

impl PartialEq for FileComingPacket {
    fn eq(&self, other: &FileComingPacket) -> (r: bool)
        ensures
            r == (self@ == other@),
    {
        self.file_size == other.file_size && self.file_name == other.file_name
    }
}

impl vstd::std_specs::cmp::PartialEqSpecImpl for FileComingPacket {
    open spec fn obeys_eq_spec() -> bool {
        true
    }

    open spec fn eq_spec(&self, other: &FileComingPacket) -> bool {
        self@ == other@
    }
}

impl FileComingPacket {
    /// The name's length field is kept in step with the name.
    pub closed spec fn wf(&self) -> bool {
        self.file_name_length == name_length(self.file_name@)
    }

    pub fn new(file_size: u64, file_name: String) -> (r: FileComingPacket)
        ensures
            r@ == (FileComingModel { file_size, file_name: file_name@ }),
            r.wf(),
    {
        let n = crate::strings::utf8_len(&file_name);
        FileComingPacket { file_size, file_name_length: n as u32, file_name }
    }

    pub fn file_size(&self) -> (r: u64)
        ensures
            r == self@.file_size,
    {
        self.file_size
    }

    pub fn file_name(&self) -> (r: &String)
        ensures
            r@ == self@.file_name,
    {
        &self.file_name
    }

    /// Whether `hash` is the tag of this offer.
    pub fn is_hash_valid(&self, hash: u16) -> (r: bool)
        requires
            self.wf(),
        ensures
            r == (hash == file_coming_tag(self@.file_size, name_length(self@.file_name))),
    {
        let tag = #[verifier::truncate] (((self.file_size as u32) as u64
            + self.file_name_length as u64) as u16);
        tag == hash
    }

    pub fn serialize(&self) -> (r: Vec<u8>)
        requires
            self.wf(),
        ensures
            r@ == file_coming_bytes(self@),
    {
        let mut r: Vec<u8> = Vec::new();
        push_u64(&mut r, self.file_size);
        push_u32(&mut r, self.file_name_length);
        let mut name = crate::strings::utf8_bytes(&self.file_name);
        r.append(&mut name);
        let tag = #[verifier::truncate] (((self.file_size as u32) as u64
            + self.file_name_length as u64) as u16);
        push_u16(&mut r, tag);
        r
    }

    pub fn deserialize(data: &Vec<u8>) -> (r: Result<FileComingPacket, FileComingPacketError>)
        ensures
            r matches Ok(p) ==> p.wf() && file_coming_parse(data@) == Ok::<
                _,
                FileComingPacketError,
            >(p@),
            r matches Err(e) ==> file_coming_parse(data@) == Err::<FileComingModel, _>(e),
    {
        let len = data.len();
        if len < BASE_PACKET_SIZE {
            return Err(FileComingPacketError::CorruptedPacket);
        }
        let file_size = read_u64(data, 0);
        assert(le_u64(data@.subrange(0, 8)) == le_u64(data@));
        let n = read_u32(data, 8);
        if ((len - BASE_PACKET_SIZE) as u64) < (n as u64) {
            return Err(FileComingPacketError::CorruptedPacket);
        }
        let n = n as usize;
        let hash = read_u16(data, 12 + n);
        let tag = #[verifier::truncate] (((file_size as u32) as u64 + n as u64) as u16);
        if hash != tag {
            return Err(FileComingPacketError::InvalidHash);
        }
        let file_name = crate::strings::decode_lossy(data, 12, 12 + n);
        Ok(FileComingPacket::new(file_size, file_name))
    }
}

/// A file offer read back from its own wire form is the same offer.
pub proof fn lemma_file_coming_round_trip(p: FileComingModel)
    requires
        encode_utf8(p.file_name).len() <= u32::MAX,
    ensures
        file_coming_parse(file_coming_bytes(p)) == Ok::<_, FileComingPacketError>(p),
{
    let b = file_coming_bytes(p);
    let n = encode_utf8(p.file_name).len() as int;
    lemma_le_round_trip();
    crate::strings::lemma_utf8_round_trip(p.file_name);
    assert(b.subrange(0, 8) =~= u64_le(p.file_size));
    assert(le_u64(b) == le_u64(b.subrange(0, 8)));
    assert(b.subrange(8, 12) =~= u32_le(n as u32));
    assert(b.subrange(12, 12 + n) =~= encode_utf8(p.file_name));
    assert(b.subrange(12 + n, 14 + n) =~= u16_le(file_coming_tag(p.file_size, n as u32)));
}

/// Changing any byte of a file offer's tag makes it unreadable.
pub proof fn lemma_file_coming_tag_corruption(p: FileComingModel, i: int, x: u8)
    requires
        encode_utf8(p.file_name).len() <= u32::MAX,
        file_coming_bytes(p).len() - 2 <= i < file_coming_bytes(p).len(),
        x != file_coming_bytes(p)[i],
    ensures
        file_coming_parse(file_coming_bytes(p).update(i, x)) is Err,
{
    let b = file_coming_bytes(p);
    let c = b.update(i, x);
    let n = encode_utf8(p.file_name).len() as int;
    lemma_file_coming_round_trip(p);
    lemma_le_round_trip();
    assert(b.subrange(0, 8) =~= u64_le(p.file_size));
    assert(le_u64(b) == le_u64(b.subrange(0, 8)));
    assert(c.subrange(0, 8) =~= b.subrange(0, 8));
    assert(le_u64(c) == le_u64(c.subrange(0, 8)));
    assert(c.subrange(8, 12) =~= b.subrange(8, 12));
    assert(b.subrange(8, 12) =~= u32_le(n as u32));
    let tc = c.subrange(12 + n, 14 + n);
    let tb = b.subrange(12 + n, 14 + n);
    assert(tc[i - 12 - n] != tb[i - 12 - n]);
    if le_u16(tc) == le_u16(tb) {
        lemma_le_u16_injective(tc, tb);
    }
}

} // verus!
