//! What the foreign entry points share: version numbers, and the framed
//! messages they send.
use crate::packet::data_packet::data_packet_bytes;
use crate::packet::file_coming_packet::file_coming_bytes;
use crate::packet::file_coming_packet::FileComingModel;
use crate::packet::file_coming_packet::FileComingPacket;
use crate::packet::file_receive_response_packet::file_receive_response_bytes;
use crate::packet::file_receive_response_packet::FileReceiveResponseModel;
use crate::packet::file_receive_response_packet::FileReceiveResponsePacket;
use crate::packet::magic_numbers::magic_value;
use crate::packet::magic_numbers::MagicNumbers;
use crate::packet::text_packet::text_packet_bytes;
use crate::packet::text_packet::TextPacket;
use crate::packet::text_packet::TextPacketError;
use crate::packet::text_packet::STRING_LENGTH_MAX;
use crate::service::data_service::DataService;
use crate::service::transport::framed;
use vstd::prelude::*;
use vstd::utf8::encode_utf8;

verus! {

/// How long a connection attempt may take.
pub const CONNECTION_TIMEOUT_MILLIS: u64 = 3000;

/// The build tag.
pub const AIRX_VERSION: i32 = 20230802;

/// The generation of the wire formats; peers of different generations do
/// not understand each other.
pub const AIRX_COMPATIBLE_NUMBER: i32 = 4;

/// The longest file name an offer or an answer carries, in UTF-8 bytes.
pub const FILE_NAME_MAX: usize = 0xffff_0000;

/// The version string.
pub fn shared_airx_version_code() -> (r: String)
    ensures
        r@ == seq!['\\', '^', 'O', '^', '/'],
{
    let mut bytes: Vec<u8> = Vec::new();
    bytes.push(92u8);
    bytes.push(94u8);
    bytes.push(79u8);
    bytes.push(94u8);
    bytes.push(47u8);
    let ghost chars = seq!['\\', '^', 'O', '^', '/'];
    proof {
        vstd::utf8::is_ascii_chars_encode_utf8(chars);
        assert(bytes@ =~= encode_utf8(chars));
    }
    crate::strings::string_from_encoding(bytes, Ghost(chars))
}

/// The framed message that sends `text` to a peer, or why it cannot be sent.
pub fn text_frame(text: String) -> (r: Result<Vec<u8>, TextPacketError>)
    ensures
        r is Err <==> encode_utf8(text@).len() > STRING_LENGTH_MAX,
        r matches Err(e) ==> e == TextPacketError::StringTooLong,
        r matches Ok(b) ==> b@ == framed(
            data_packet_bytes(
                magic_value(MagicNumbers::Text),
                text_packet_bytes(encode_utf8(text@).len() as u32, text@),
            ),
        ),
{
    let packet = match TextPacket::new(text) {
        Ok(p) => p,
        Err(e) => return Err(e),
    };
    let payload = packet.serialize();
    Ok(DataService::outgoing_frame(MagicNumbers::Text, &payload))
}

/// The framed offer of a file of `file_size` bytes at `file_path`; `None`
/// where the path is longer than an offer carries.
pub fn file_coming_frame(file_size: u64, file_path: String) -> (r: Option<Vec<u8>>)
    ensures
        r is None <==> encode_utf8(file_path@).len() > FILE_NAME_MAX,
        r matches Some(b) ==> b@ == framed(
            data_packet_bytes(
                magic_value(MagicNumbers::FileComing),
                file_coming_bytes(FileComingModel { file_size, file_name: file_path@ }),
            ),
        ),
{
    if crate::strings::utf8_len(&file_path) > FILE_NAME_MAX {
        return None;
    }
    let packet = FileComingPacket::new(file_size, file_path);
    let payload = packet.serialize();
    Some(DataService::outgoing_frame(MagicNumbers::FileComing, &payload))
}

/// The framed answer to the offer of file `file_id`; `None` where the path
/// is longer than an answer carries.
pub fn respond_to_file_frame(file_id: u8, file_size: u64, file_path: String, accept: bool) -> (r:
    Option<Vec<u8>>)
    ensures
        r is None <==> encode_utf8(file_path@).len() > FILE_NAME_MAX,
        r matches Some(b) ==> b@ == framed(
            data_packet_bytes(
                magic_value(MagicNumbers::FileReceiveResponse),
                file_receive_response_bytes(
                    FileReceiveResponseModel {
                        file_id,
                        file_size,
                        file_name: file_path@,
                        accepted: accept,
                    },
                ),
            ),
        ),
{
    if crate::strings::utf8_len(&file_path) > FILE_NAME_MAX {
        return None;
    }
    let packet = FileReceiveResponsePacket::new(file_id, file_size, file_path, accept);
    let payload = packet.serialize();
    Some(DataService::outgoing_frame(MagicNumbers::FileReceiveResponse, &payload))
}

} // verus!
