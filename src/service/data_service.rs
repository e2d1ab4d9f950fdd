//! The data service: what goes out on a connection, and what is done with
//! each packet that comes in.
use crate::packet::data_packet::data_packet_bytes;
use crate::packet::data_packet::DataPacket;
use crate::packet::file_coming_packet::file_coming_parse;
use crate::packet::file_coming_packet::FileComingPacket;
use crate::packet::file_part_packet::file_part_parse;
use crate::packet::file_part_packet::FilePartPacket;
use crate::packet::file_part_response_packet::file_part_response_parse;
use crate::packet::file_part_response_packet::FilePartResponsePacket;
use crate::packet::file_receive_response_packet::file_receive_response_parse;
use crate::packet::file_receive_response_packet::FileReceiveResponsePacket;
use crate::packet::magic_numbers::magic_of;
use crate::packet::magic_numbers::magic_value;
use crate::packet::magic_numbers::MagicNumbers;
use crate::packet::text_packet::text_packet_parse;
use crate::packet::text_packet::TextPacket;
use crate::service::transport::frame;
use crate::service::transport::framed;
use vstd::prelude::*;

verus! {

/// Whether a connection stays open after a packet is handled.
#[derive(Clone, Copy, Debug, PartialEq, Eq, Structural)]
pub enum ConnectionControl {
    Default,
    CloseConnection,
}

/// A packet received on a data connection, read according to its magic
/// number.
pub enum Incoming {
    Text(TextPacket),
    FileComing(FileComingPacket),
    FileReceiveResponse(FileReceiveResponsePacket),
    FilePart(FilePartPacket),
    FilePartResponse(FilePartResponsePacket),
    /// The magic number is known but the payload does not read as that kind.
    Malformed(MagicNumbers),
    /// The magic number is none of the known ones.
    Unknown(u16),
}

/// What a connection does after a packet of the given reading: text, file
/// offers, answers to offers, file part responses and unknown packets close
/// it; a file part keeps it open unless the receiver asked to stop; a
/// malformed file part is dropped and the stream goes on.
pub open spec fn control_spec(incoming: Incoming, stop_requested: bool) -> ConnectionControl {
    match incoming {
        Incoming::FilePart(_) => if stop_requested {
            ConnectionControl::CloseConnection
        } else {
            ConnectionControl::Default
        },
        Incoming::Malformed(MagicNumbers::FilePart) => ConnectionControl::Default,
        _ => ConnectionControl::CloseConnection,
    }
}

/// The data service. Its state lives with the caller; this type groups its
/// rules.
pub struct DataService {}

impl DataService {
    pub fn new() -> (r: DataService) {
        DataService {  }
    }

    /// The bytes that send `payload` as a packet of kind `magic_number`: the
    /// framed data packet.
    pub fn outgoing_frame(magic_number: MagicNumbers, payload: &Vec<u8>) -> (r: Vec<u8>)
        requires
            payload@.len() + 8 <= u32::MAX,
        ensures
            r@ == framed(data_packet_bytes(magic_value(magic_number), payload@)),
    {
        let packet = DataPacket::new(magic_number.value(), payload);
        let bytes = packet.serialize();
        frame(&bytes)
    }

    /// Reads a data packet's payload according to its magic number.
    pub fn decode(packet: &DataPacket) -> (r: Incoming)
        ensures
            packet.magic_spec() == magic_value(MagicNumbers::Text) ==> match r {
                Incoming::Text(t) => text_packet_parse(packet.data_spec()) == Ok::<
                    _,
                    crate::packet::text_packet::TextPacketError,
                >(t.text@) && t.wf(),
                Incoming::Malformed(m) => m == MagicNumbers::Text && text_packet_parse(
                    packet.data_spec(),
                ) is Err,
                _ => false,
            },
            packet.magic_spec() == magic_value(MagicNumbers::FileComing) ==> match r {
                Incoming::FileComing(p) => file_coming_parse(packet.data_spec()) == Ok::<
                    _,
                    crate::packet::file_coming_packet::FileComingPacketError,
                >(p@),
                Incoming::Malformed(m) => m == MagicNumbers::FileComing && file_coming_parse(
                    packet.data_spec(),
                ) is Err,
                _ => false,
            },
            packet.magic_spec() == magic_value(MagicNumbers::FileReceiveResponse) ==> match r {
                Incoming::FileReceiveResponse(p) => file_receive_response_parse(packet.data_spec())
                    == Ok::<_, crate::packet::file_receive_response_packet::FileReceiveResponsePacketError>(p@),
                Incoming::Malformed(m) => m == MagicNumbers::FileReceiveResponse
                    && file_receive_response_parse(packet.data_spec()) is Err,
                _ => false,
            },
            packet.magic_spec() == magic_value(MagicNumbers::FilePart) ==> match r {
                Incoming::FilePart(p) => file_part_parse(packet.data_spec()) == Ok::<
                    _,
                    crate::packet::file_part_packet::FilePartPacketError,
                >(p@),
                Incoming::Malformed(m) => m == MagicNumbers::FilePart && file_part_parse(
                    packet.data_spec(),
                ) is Err,
                _ => false,
            },
            packet.magic_spec() == magic_value(MagicNumbers::FilePartResponse) ==> match r {
                Incoming::FilePartResponse(p) => file_part_response_parse(packet.data_spec())
                    == Ok::<_, crate::packet::file_part_response_packet::FilePartResponsePacketError>(p),
                Incoming::Malformed(m) => m == MagicNumbers::FilePartResponse
                    && file_part_response_parse(packet.data_spec()) is Err,
                _ => false,
            },
            magic_of(packet.magic_spec()) is None ==> r == Incoming::Unknown(packet.magic_spec()),
    {
        let data = packet.data();
        match MagicNumbers::from(packet.magic_number()) {
            Some(MagicNumbers::Text) => match TextPacket::deserialize(data) {
                Ok(p) => Incoming::Text(p),
                Err(_) => Incoming::Malformed(MagicNumbers::Text),
            },
            Some(MagicNumbers::FileComing) => match FileComingPacket::deserialize(data) {
                Ok(p) => Incoming::FileComing(p),
                Err(_) => Incoming::Malformed(MagicNumbers::FileComing),
            },
            Some(MagicNumbers::FileReceiveResponse) => match FileReceiveResponsePacket::deserialize(
                data,
            ) {
                Ok(p) => Incoming::FileReceiveResponse(p),
                Err(_) => Incoming::Malformed(MagicNumbers::FileReceiveResponse),
            },
            Some(MagicNumbers::FilePart) => match FilePartPacket::deserialize(data) {
                Ok(p) => Incoming::FilePart(p),
                Err(_) => Incoming::Malformed(MagicNumbers::FilePart),
            },
            Some(MagicNumbers::FilePartResponse) => match FilePartResponsePacket::deserialize(data) {
                Ok(p) => Incoming::FilePartResponse(p),
                Err(_) => Incoming::Malformed(MagicNumbers::FilePartResponse),
            },
            None => Incoming::Unknown(packet.magic_number()),
        }
    }

    /// Whether the connection stays open after `incoming` was handled;
    /// `stop_requested` is what the host's file part callback answered.
    pub fn connection_control(incoming: &Incoming, stop_requested: bool) -> (r: ConnectionControl)
        ensures
            r == control_spec(*incoming, stop_requested),
    {
        match incoming {
            Incoming::FilePart(_) => if stop_requested {
                ConnectionControl::CloseConnection
            } else {
                ConnectionControl::Default
            },
            Incoming::Malformed(MagicNumbers::FilePart) => ConnectionControl::Default,
            _ => ConnectionControl::CloseConnection,
        }
    }
}

} // verus!
