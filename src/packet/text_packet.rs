//! A text message: `text_length:u32 | utf8 | tag:u16`.
use crate::endian::le_u16;
use crate::endian::lemma_le_u16_injective;
use crate::endian::lemma_le_round_trip;
use crate::endian::push_u16;
use crate::endian::push_u32;
use crate::endian::read_u16;
use crate::endian::read_u32;
use crate::endian::le_u32;
use crate::endian::u16_le;
use crate::endian::u32_le;
use vstd::prelude::*;
use vstd::std_specs::iter::IteratorSpec;
use vstd::utf8::decode_utf8;
use vstd::utf8::encode_utf8;
use vstd::utf8::valid_utf8;

verus! {

/// The largest text, in UTF-8 bytes, that a text packet carries.
pub const STRING_LENGTH_MAX: usize = 0xffff;

pub const TEXT_HASH_SEED: u16 = 0xffff ^ 0x12 ^ 0x13 ^ 0x8;

/// The redundancy tag of a text: starting from a fixed seed, each character
/// adds its position times its code point, all modulo 2^16.
pub open spec fn text_tag(t: Seq<char>) -> u16
    decreases t.len(),
{
    if t.len() == 0 {
        TEXT_HASH_SEED
    } else {
        (text_tag(t.drop_last()) + ((t.len() - 1) * (t.last() as u32)) as u16) as u16
    }
}

pub fn text_hash(text: &String) -> (r: u16)
    ensures
        r == text_tag(text@),
{
    broadcast use vstd::string::group_string_axioms;

    let n = crate::strings::utf8_len(text);
    proof {
        crate::strings::lemma_utf8_len_bound(text@);
    }
    let mut h: u16 = TEXT_HASH_SEED;
    let mut i: usize = 0;
    let mut chars = text.as_str().chars();
    loop
        invariant
            i <= text@.len() <= n,
            chars.remaining() == text@.skip(i as int),
            h == text_tag(text@.take(i as int)),
        decreases text@.len() - i,
    {
        match chars.next() {
            Some(c) => {
                assert(c == text@[i as int]);
                assert(text@.take(i + 1).drop_last() =~= text@.take(i as int));
                assert(text@.skip(i + 1) =~= text@.skip(i as int).drop_first());
                let ci = #[verifier::truncate] (c as u32);
                assert((i as u128) * (ci as u128) <= u64::MAX as u128 * u32::MAX as u128)
                    by (nonlinear_arith)
                    requires
                        i <= u64::MAX,
                ;
                let w = (i as u128) * (ci as u128);
                let step = #[verifier::truncate] (w as u16);
                assert(step == (i * (text@[i as int] as u32)) as u16);
                h = #[verifier::truncate] (((h as u32) + (step as u32)) as u16);
                i = i + 1;
            },
            None => {
                assert(text@.take(i as int) =~= text@);
                return h;
            },
        }
    }
}

#[derive(Clone, Copy, Debug, PartialEq, Eq, Structural)]
pub enum TextPacketError {
    InvalidData,
    InvalidHash,
    StringTooLong,
}

/// A text message for a peer.
pub struct TextPacket {
    pub text_length: u32,
    pub text: String,
}

/// The wire form of a text packet with the given length field.
pub open spec fn text_packet_bytes(text_length: u32, text: Seq<char>) -> Seq<u8> {
    u32_le(text_length) + encode_utf8(text) + u16_le(text_tag(text))
}

/// What a byte string holds when read as a text packet: the text, or the
/// reason it is refused.
pub open spec fn text_packet_parse(b: Seq<u8>) -> Result<Seq<char>, TextPacketError> {
    if b.len() < 6 {
        Err(TextPacketError::InvalidData)
    } else {
        let n = le_u32(b) as int;
        let body = b.subrange(4, 4 + n);
        if n > b.len() - 6 {
            Err(TextPacketError::InvalidData)
        } else if !valid_utf8(body) {
            Err(TextPacketError::InvalidData)
        } else if text_tag(decode_utf8(body)) != le_u16(b.subrange(4 + n, 6 + n)) {
            Err(TextPacketError::InvalidHash)
        } else if n > STRING_LENGTH_MAX {
            Err(TextPacketError::InvalidData)
        } else {
            Ok(decode_utf8(body))
        }
    }
}

impl TextPacket {
    /// The length field matches the text, which fits the size limit.
    pub open spec fn wf(&self) -> bool {
        &&& self.text_length as int == encode_utf8(self.text@).len()
        &&& self.text_length <= STRING_LENGTH_MAX
    }

    pub fn new(text: String) -> (r: Result<TextPacket, TextPacketError>)
        ensures
            r is Err <==> encode_utf8(text@).len() > STRING_LENGTH_MAX,
            r matches Err(e) ==> e == TextPacketError::StringTooLong,
            r matches Ok(p) ==> p.wf() && p.text@ == text@,
    {
        let n = crate::strings::utf8_len(&text);
        if n > STRING_LENGTH_MAX {
            return Err(TextPacketError::StringTooLong);
        }
        Ok(TextPacket { text_length: n as u32, text })
    }

    pub fn text(&self) -> (r: &String)
        ensures
            r == &self.text,
    {
        &self.text
    }

    pub fn serialize(&self) -> (r: Vec<u8>)
        ensures
            r@ == text_packet_bytes(self.text_length, self.text@),
    {
        let mut r: Vec<u8> = Vec::new();
        push_u32(&mut r, self.text_length);
        let mut body = crate::strings::utf8_bytes(&self.text);
        r.append(&mut body);
        push_u16(&mut r, text_hash(&self.text));
        r
    }

    pub fn deserialize(data: &Vec<u8>) -> (r: Result<TextPacket, TextPacketError>)
        ensures
            r matches Ok(p) ==> p.wf() && text_packet_parse(data@) == Ok::<
                Seq<char>,
                TextPacketError,
            >(p.text@),
            r matches Err(e) ==> text_packet_parse(data@) == Err::<Seq<char>, _>(e),
    {
        let len = data.len();
        if len < 6 {
            return Err(TextPacketError::InvalidData);
        }
        let n = read_u32(data, 0) as usize;
        assert(n == le_u32(data@)) by {
            assert(data@.subrange(0, 4)[0] == data@[0]);
            assert(data@.subrange(0, 4)[1] == data@[1]);
            assert(data@.subrange(0, 4)[2] == data@[2]);
            assert(data@.subrange(0, 4)[3] == data@[3]);
        }
        let ghost body = data@.subrange(4, 4 + n as int);
        if n > len - 6 {
            assert(text_packet_parse(data@) == Err::<Seq<char>, _>(TextPacketError::InvalidData));
            return Err(TextPacketError::InvalidData);
        }
        let text = match crate::strings::decode_strict(data, 4, 4 + n) {
            Some(t) => t,
            None => {
                assert(text_packet_parse(data@) == Err::<Seq<char>, _>(TextPacketError::InvalidData));
                return Err(TextPacketError::InvalidData);
            },
        };
        assert(text@ == decode_utf8(body));
        let hash = read_u16(data, 4 + n);
        if text_hash(&text) != hash {
            assert(text_packet_parse(data@) == Err::<Seq<char>, _>(TextPacketError::InvalidHash));
            return Err(TextPacketError::InvalidHash);
        }
        proof {
            vstd::utf8::decode_utf8_encode_utf8(body);
            assert(encode_utf8(text@).len() == n);
        }
        match TextPacket::new(text) {
            Ok(p) => Ok(p),
            Err(_) => Err(TextPacketError::InvalidData),
        }
    }
}

/// A text packet read back from its own wire form gives the same text.
pub proof fn lemma_text_packet_round_trip(text: Seq<char>)
    requires
        encode_utf8(text).len() <= STRING_LENGTH_MAX,
    ensures
        text_packet_parse(text_packet_bytes(encode_utf8(text).len() as u32, text)) == Ok::<
            Seq<char>,
            TextPacketError,
        >(text),
{
    let n = encode_utf8(text).len() as int;
    let b = text_packet_bytes(n as u32, text);
    lemma_le_round_trip();
    crate::strings::lemma_utf8_round_trip(text);
    assert(b.subrange(0, 4) =~= u32_le(n as u32));
    assert(le_u32(b) == le_u32(b.subrange(0, 4)));
    assert(b.subrange(4, 4 + n) =~= encode_utf8(text));
    assert(b.subrange(4 + n, 6 + n) =~= u16_le(text_tag(text)));
}

/// Changing any byte of a text packet's tag makes it unreadable.
pub proof fn lemma_text_packet_tag_corruption(text: Seq<char>, i: int, x: u8)
    requires
        encode_utf8(text).len() <= STRING_LENGTH_MAX,
        text_packet_bytes(encode_utf8(text).len() as u32, text).len() - 2 <= i
            < text_packet_bytes(encode_utf8(text).len() as u32, text).len(),
        x != text_packet_bytes(encode_utf8(text).len() as u32, text)[i],
    ensures
        text_packet_parse(text_packet_bytes(encode_utf8(text).len() as u32, text).update(i, x)) is Err,
{
    let n = encode_utf8(text).len() as int;
    let b = text_packet_bytes(n as u32, text);
    let c = b.update(i, x);
    lemma_text_packet_round_trip(text);
    lemma_le_round_trip();
    assert(b.subrange(0, 4) =~= u32_le(n as u32));
    assert(le_u32(b) == le_u32(b.subrange(0, 4)));
    assert(le_u32(c) == le_u32(b));
    assert(c.subrange(4, 4 + n) =~= b.subrange(4, 4 + n));
    let tc = c.subrange(4 + n, 6 + n);
    let tb = b.subrange(4 + n, 6 + n);
    assert(tc[i - 4 - n] != tb[i - 4 - n]);
    if le_u16(tc) == le_u16(tb) {
        lemma_le_u16_injective(tc, tb);
    }
    assert(c.len() == b.len());
    assert(text_tag(decode_utf8(b.subrange(4, 4 + n))) == le_u16(tb));
    assert(text_tag(decode_utf8(c.subrange(4, 4 + n))) != le_u16(tc));
}

} // verus!
