//! Fixed little-endian encoding of the integers that travel on the wire.
use vstd::prelude::*;

verus! {

/// Little-endian bytes of a 16-bit value.
pub open spec fn u16_le(v: u16) -> Seq<u8> {
    seq![v as u8, (v >> 8u16) as u8]
}

/// Little-endian bytes of a 32-bit value.
pub open spec fn u32_le(v: u32) -> Seq<u8> {
    seq![v as u8, (v >> 8u32) as u8, (v >> 16u32) as u8, (v >> 24u32) as u8]
}

/// Little-endian bytes of a 64-bit value.
pub open spec fn u64_le(v: u64) -> Seq<u8> {
    seq![
        v as u8,
        (v >> 8u64) as u8,
        (v >> 16u64) as u8,
        (v >> 24u64) as u8,
        (v >> 32u64) as u8,
        (v >> 40u64) as u8,
        (v >> 48u64) as u8,
        (v >> 56u64) as u8,
    ]
}

pub open spec fn u16_of(b0: u8, b1: u8) -> u16 {
    (b0 as u16) | ((b1 as u16) << 8u16)
}

pub open spec fn u32_of(b0: u8, b1: u8, b2: u8, b3: u8) -> u32 {
    (b0 as u32) | ((b1 as u32) << 8u32) | ((b2 as u32) << 16u32) | ((b3 as u32) << 24u32)
}

pub open spec fn u64_of(b0: u8, b1: u8, b2: u8, b3: u8, b4: u8, b5: u8, b6: u8, b7: u8) -> u64 {
    (b0 as u64) | ((b1 as u64) << 8u64) | ((b2 as u64) << 16u64) | ((b3 as u64) << 24u64) | ((
    b4 as u64) << 32u64) | ((b5 as u64) << 40u64) | ((b6 as u64) << 48u64) | ((b7 as u64)
        << 56u64)
}

/// The 16-bit value whose little-endian bytes start `b`.
pub open spec fn le_u16(b: Seq<u8>) -> u16 {
    u16_of(b[0], b[1])
}

/// The 32-bit value whose little-endian bytes start `b`.
pub open spec fn le_u32(b: Seq<u8>) -> u32 {
    u32_of(b[0], b[1], b[2], b[3])
}

/// The 64-bit value whose little-endian bytes start `b`.
pub open spec fn le_u64(b: Seq<u8>) -> u64 {
    u64_of(b[0], b[1], b[2], b[3], b[4], b[5], b[6], b[7])
}

proof fn bits_u16(v: u16, b0: u8, b1: u8)
    by (bit_vector)
    ensures
        u16_of(v as u8, (v >> 8u16) as u8) == v,
        (u16_of(b0, b1) as u8) == b0,
        ((u16_of(b0, b1) >> 8u16) as u8) == b1,
{
}

/// A 32-bit value and its four bytes, lowest first, determine each other.
pub proof fn bits_u32(v: u32, b0: u8, b1: u8, b2: u8, b3: u8)
    by (bit_vector)
    ensures
        u32_of(v as u8, (v >> 8u32) as u8, (v >> 16u32) as u8, (v >> 24u32) as u8) == v,
        (u32_of(b0, b1, b2, b3) as u8) == b0,
        ((u32_of(b0, b1, b2, b3) >> 8u32) as u8) == b1,
        ((u32_of(b0, b1, b2, b3) >> 16u32) as u8) == b2,
        ((u32_of(b0, b1, b2, b3) >> 24u32) as u8) == b3,
{
}

proof fn bits_u64(v: u64)
    by (bit_vector)
    ensures
        u64_of(
            v as u8,
            (v >> 8u64) as u8,
            (v >> 16u64) as u8,
            (v >> 24u64) as u8,
            (v >> 32u64) as u8,
            (v >> 40u64) as u8,
            (v >> 48u64) as u8,
            (v >> 56u64) as u8,
        ) == v,
{
}

proof fn bytes_u64(b0: u8, b1: u8, b2: u8, b3: u8, b4: u8, b5: u8, b6: u8, b7: u8)
    by (bit_vector)
    ensures
        (u64_of(b0, b1, b2, b3, b4, b5, b6, b7) as u8) == b0,
        ((u64_of(b0, b1, b2, b3, b4, b5, b6, b7) >> 8u64) as u8) == b1,
        ((u64_of(b0, b1, b2, b3, b4, b5, b6, b7) >> 16u64) as u8) == b2,
        ((u64_of(b0, b1, b2, b3, b4, b5, b6, b7) >> 24u64) as u8) == b3,
        ((u64_of(b0, b1, b2, b3, b4, b5, b6, b7) >> 32u64) as u8) == b4,
        ((u64_of(b0, b1, b2, b3, b4, b5, b6, b7) >> 40u64) as u8) == b5,
        ((u64_of(b0, b1, b2, b3, b4, b5, b6, b7) >> 48u64) as u8) == b6,
        ((u64_of(b0, b1, b2, b3, b4, b5, b6, b7) >> 56u64) as u8) == b7,
{
}

/// Decoding the encoding of a value gives the value back.
pub proof fn lemma_le_round_trip()
    ensures
        forall|v: u16| #[trigger] le_u16(u16_le(v)) == v,
        forall|v: u32| #[trigger] le_u32(u32_le(v)) == v,
        forall|v: u64| #[trigger] le_u64(u64_le(v)) == v,
{
    assert forall|v: u16| #[trigger] le_u16(u16_le(v)) == v by {
        bits_u16(v, 0, 0);
    }
    assert forall|v: u32| #[trigger] le_u32(u32_le(v)) == v by {
        bits_u32(v, 0, 0, 0, 0);
    }
    assert forall|v: u64| #[trigger] le_u64(u64_le(v)) == v by {
        bits_u64(v);
    }
}

/// Encoding the value read from a byte string of the right length gives the
/// byte string back: two byte strings that read as one value are equal.
pub proof fn lemma_le_canonical()
    ensures
        forall|b: Seq<u8>| b.len() == 2 ==> #[trigger] u16_le(le_u16(b)) == b,
        forall|b: Seq<u8>| b.len() == 4 ==> #[trigger] u32_le(le_u32(b)) == b,
        forall|b: Seq<u8>| b.len() == 8 ==> #[trigger] u64_le(le_u64(b)) == b,
{
    assert forall|b: Seq<u8>| b.len() == 2 implies #[trigger] u16_le(le_u16(b)) == b by {
        bits_u16(0, b[0], b[1]);
        assert(u16_le(le_u16(b)) =~= b);
    }
    assert forall|b: Seq<u8>| b.len() == 4 implies #[trigger] u32_le(le_u32(b)) == b by {
        bits_u32(0, b[0], b[1], b[2], b[3]);
        assert(u32_le(le_u32(b)) =~= b);
    }
    assert forall|b: Seq<u8>| b.len() == 8 implies #[trigger] u64_le(le_u64(b)) == b by {
        bytes_u64(b[0], b[1], b[2], b[3], b[4], b[5], b[6], b[7]);
        assert(u64_le(le_u64(b)) =~= b);
    }
}

/// Two 2-byte strings that read as one value are equal.
pub proof fn lemma_le_u16_injective(a: Seq<u8>, b: Seq<u8>)
    requires
        a.len() == 2,
        b.len() == 2,
        le_u16(a) == le_u16(b),
    ensures
        a == b,
{
    bits_u16(0, a[0], a[1]);
    bits_u16(0, b[0], b[1]);
    assert(a =~= b);
}

/// Appends the little-endian bytes of `v`.
pub fn push_u16(out: &mut Vec<u8>, v: u16)
    ensures
        final(out)@ == old(out)@ + u16_le(v),
{
    out.push(v as u8);
    out.push((v >> 8u16) as u8);
    assert(final(out)@ =~= old(out)@ + u16_le(v));
}

/// Appends the little-endian bytes of `v`.
pub fn push_u32(out: &mut Vec<u8>, v: u32)
    ensures
        final(out)@ == old(out)@ + u32_le(v),
{
    out.push(v as u8);
    out.push((v >> 8u32) as u8);
    out.push((v >> 16u32) as u8);
    out.push((v >> 24u32) as u8);
    assert(final(out)@ =~= old(out)@ + u32_le(v));
}

/// Appends the little-endian bytes of `v`.
pub fn push_u64(out: &mut Vec<u8>, v: u64)
    ensures
        final(out)@ == old(out)@ + u64_le(v),
{
    out.push(v as u8);
    out.push((v >> 8u64) as u8);
    out.push((v >> 16u64) as u8);
    out.push((v >> 24u64) as u8);
    out.push((v >> 32u64) as u8);
    out.push((v >> 40u64) as u8);
    out.push((v >> 48u64) as u8);
    out.push((v >> 56u64) as u8);
    assert(final(out)@ =~= old(out)@ + u64_le(v));
}

/// Reads the 16-bit little-endian value at `at`.
pub fn read_u16(data: &Vec<u8>, at: usize) -> (r: u16)
    requires
        at + 2 <= data@.len(),
    ensures
        r == le_u16(data@.subrange(at as int, at + 2)),
{
    let _len: usize = data.len();
    (data[at] as u16) | ((data[at + 1] as u16) << 8u16)
}

/// Reads the 32-bit little-endian value at `at`.
pub fn read_u32(data: &Vec<u8>, at: usize) -> (r: u32)
    requires
        at + 4 <= data@.len(),
    ensures
        r == le_u32(data@.subrange(at as int, at + 4)),
{
    let _len: usize = data.len();
    (data[at] as u32) | ((data[at + 1] as u32) << 8u32) | ((data[at + 2] as u32) << 16u32) | ((
    data[at + 3] as u32) << 24u32)
}

/// Reads the 64-bit little-endian value at `at`.
pub fn read_u64(data: &Vec<u8>, at: usize) -> (r: u64)
    requires
        at + 8 <= data@.len(),
    ensures
        r == le_u64(data@.subrange(at as int, at + 8)),
{
    let _len: usize = data.len();
    (data[at] as u64) | ((data[at + 1] as u64) << 8u64) | ((data[at + 2] as u64) << 16u64) | ((
    data[at + 3] as u64) << 24u64) | ((data[at + 4] as u64) << 32u64) | ((data[at + 5] as u64)
        << 40u64) | ((data[at + 6] as u64) << 48u64) | ((data[at + 7] as u64) << 56u64)
}

/// Conversion of an integer to and from its `SIZE` little-endian bytes,
/// whatever the byte order of the machine.
pub trait UnifiedEndian<const SIZE: usize>: Sized {
    /// The little-endian bytes of the value.
    spec fn le_bytes(&self) -> Seq<u8>;

    /// The value whose little-endian bytes are `b`.
    spec fn from_le(b: Seq<u8>) -> Self;

    fn to_bytes(&self) -> (r: [u8; SIZE])
        ensures
            r@ == self.le_bytes(),
    ;

    fn from_bytes(bytes: [u8; SIZE]) -> (r: Self)
        ensures
            r == Self::from_le(bytes@),
    ;
}

impl UnifiedEndian<2> for u16 {
    open spec fn le_bytes(&self) -> Seq<u8> {
        u16_le(*self)
    }

    open spec fn from_le(b: Seq<u8>) -> u16 {
        le_u16(b)
    }

    fn to_bytes(&self) -> (r: [u8; 2]) {
        let r = [*self as u8, (*self >> 8u16) as u8];
        assert(r@ =~= u16_le(*self));
        r
    }

    fn from_bytes(bytes: [u8; 2]) -> (r: u16) {
        (bytes[0] as u16) | ((bytes[1] as u16) << 8u16)
    }
}

impl UnifiedEndian<4> for u32 {
    open spec fn le_bytes(&self) -> Seq<u8> {
        u32_le(*self)
    }

    open spec fn from_le(b: Seq<u8>) -> u32 {
        le_u32(b)
    }

    fn to_bytes(&self) -> (r: [u8; 4]) {
        let v = *self;
        let r = [v as u8, (v >> 8u32) as u8, (v >> 16u32) as u8, (v >> 24u32) as u8];
        assert(r@ =~= u32_le(v));
        r
    }

    fn from_bytes(bytes: [u8; 4]) -> (r: u32) {
        (bytes[0] as u32) | ((bytes[1] as u32) << 8u32) | ((bytes[2] as u32) << 16u32) | ((
        bytes[3] as u32) << 24u32)
    }
}

impl UnifiedEndian<8> for u64 {
    open spec fn le_bytes(&self) -> Seq<u8> {
        u64_le(*self)
    }

    open spec fn from_le(b: Seq<u8>) -> u64 {
        le_u64(b)
    }

    fn to_bytes(&self) -> (r: [u8; 8]) {
        let v = *self;
        let r = [
            v as u8,
            (v >> 8u64) as u8,
            (v >> 16u64) as u8,
            (v >> 24u64) as u8,
            (v >> 32u64) as u8,
            (v >> 40u64) as u8,
            (v >> 48u64) as u8,
            (v >> 56u64) as u8,
        ];
        assert(r@ =~= u64_le(v));
        r
    }

    fn from_bytes(bytes: [u8; 8]) -> (r: u64) {
        (bytes[0] as u64) | ((bytes[1] as u64) << 8u64) | ((bytes[2] as u64) << 16u64) | ((
        bytes[3] as u64) << 24u64) | ((bytes[4] as u64) << 32u64) | ((bytes[5] as u64) << 40u64)
            | ((bytes[6] as u64) << 48u64) | ((bytes[7] as u64) << 56u64)
    }
}

impl UnifiedEndian<2> for i16 {
    open spec fn le_bytes(&self) -> Seq<u8> {
        u16_le(*self as u16)
    }

    open spec fn from_le(b: Seq<u8>) -> i16 {
        le_u16(b) as i16
    }

    fn to_bytes(&self) -> (r: [u8; 2]) {
        (*self as u16).to_bytes()
    }

    fn from_bytes(bytes: [u8; 2]) -> (r: i16) {
        u16::from_bytes(bytes) as i16
    }
}

impl UnifiedEndian<4> for i32 {
    open spec fn le_bytes(&self) -> Seq<u8> {
        u32_le(*self as u32)
    }

    open spec fn from_le(b: Seq<u8>) -> i32 {
        le_u32(b) as i32
    }

    fn to_bytes(&self) -> (r: [u8; 4]) {
        (*self as u32).to_bytes()
    }

    fn from_bytes(bytes: [u8; 4]) -> (r: i32) {
        u32::from_bytes(bytes) as i32
    }
}

impl UnifiedEndian<8> for i64 {
    open spec fn le_bytes(&self) -> Seq<u8> {
        u64_le(*self as u64)
    }

    open spec fn from_le(b: Seq<u8>) -> i64 {
        le_u64(b) as i64
    }

    fn to_bytes(&self) -> (r: [u8; 8]) {
        (*self as u64).to_bytes()
    }

    fn from_bytes(bytes: [u8; 8]) -> (r: i64) {
        u64::from_bytes(bytes) as i64
    }
}

} // verus!
