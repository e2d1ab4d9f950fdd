//! A receiver's control message on a file stream: `file_id:u8 | kind:u8`.
use vstd::prelude::*;

verus! {

/// The size of a file part response.
pub const BASE_PACKET_SIZE: usize = 2;

#[derive(Clone, Copy, Debug, PartialEq, Eq, Structural)]
pub enum ResponseKind {
    StopSending,
    StopReceiving,
}

/// The wire code of each kind.
pub open spec fn kind_code(k: ResponseKind) -> u8 {
    match k {
        ResponseKind::StopSending => 1,
        ResponseKind::StopReceiving => 2,
    }
}

#[derive(Clone, Copy, Debug, PartialEq, Eq, Structural)]
pub enum FilePartResponsePacketError {
    CorruptedData,
}

#[derive(Clone, Copy, Debug, PartialEq, Eq, Structural)]
pub struct FilePartResponsePacket {
    pub file_id: u8,
    pub response_kind: ResponseKind,
}

/// The wire form of a file part response.
pub open spec fn file_part_response_bytes(p: FilePartResponsePacket) -> Seq<u8> {
    seq![p.file_id, kind_code(p.response_kind)]
}

/// What a byte string holds when read as a file part response: exactly two
/// bytes, the second a known kind.
pub open spec fn file_part_response_parse(b: Seq<u8>) -> Result<
    FilePartResponsePacket,
    FilePartResponsePacketError,
> {
    if b.len() != 2 {
        Err(FilePartResponsePacketError::CorruptedData)
    } else if b[1] == 1 {
        Ok(FilePartResponsePacket { file_id: b[0], response_kind: ResponseKind::StopSending })
    } else if b[1] == 2 {
        Ok(FilePartResponsePacket { file_id: b[0], response_kind: ResponseKind::StopReceiving })
    } else {
        Err(FilePartResponsePacketError::CorruptedData)
    }
}

impl FilePartResponsePacket {
    pub fn new(file_id: u8, response_kind: ResponseKind) -> (r: FilePartResponsePacket)
        ensures
            r.file_id == file_id,
            r.response_kind == response_kind,
    {
        FilePartResponsePacket { file_id, response_kind }
    }

    pub fn file_id(&self) -> (r: u8)
        ensures
            r == self.file_id,
    {
        self.file_id
    }

    pub fn response_kind(&self) -> (r: ResponseKind)
        ensures
            r == self.response_kind,
    {
        self.response_kind
    }

    pub fn serialize(&self) -> (r: Vec<u8>)
        ensures
            r@ == file_part_response_bytes(*self),
    {
        let code: u8 = match self.response_kind {
            ResponseKind::StopSending => 1,
            ResponseKind::StopReceiving => 2,
        };
        let mut r: Vec<u8> = Vec::new();
        r.push(self.file_id);
        r.push(code);
        assert(r@ =~= file_part_response_bytes(*self));
        r
    }

    pub fn deserialize(data: &Vec<u8>) -> (r: Result<
        FilePartResponsePacket,
        FilePartResponsePacketError,
    >)
        ensures
            r == file_part_response_parse(data@),
    {
        if data.len() != BASE_PACKET_SIZE {
            return Err(FilePartResponsePacketError::CorruptedData);
        }
        let response_kind = match data[1] {
            1 => ResponseKind::StopSending,
            2 => ResponseKind::StopReceiving,
            _ => return Err(FilePartResponsePacketError::CorruptedData),
        };
        Ok(FilePartResponsePacket { file_id: data[0], response_kind })
    }
}

/// A file part response read back from its own wire form is the same
/// response.
pub proof fn lemma_file_part_response_round_trip(p: FilePartResponsePacket)
    ensures
        file_part_response_parse(file_part_response_bytes(p)) == Ok::<
            _,
            FilePartResponsePacketError,
        >(p),
{
}

} // verus!
