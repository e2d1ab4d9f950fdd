//! IPv4 addresses as plain values.
use crate::endian::bits_u32;
use crate::endian::u32_of;
use crate::strings::decimal;
use crate::strings::push_decimal;
use vstd::prelude::*;
use vstd::utf8::encode_utf8;

verus! {

/// An IPv4 address, by its four octets in the order they are written.
#[derive(Clone, Copy, Debug, PartialEq, Eq, Structural)]
pub struct Ipv4 {
    pub a: u8,
    pub b: u8,
    pub c: u8,
    pub d: u8,
}

/// The address as a 32-bit number, first octet most significant.
pub open spec fn ipv4_u32(ip: Ipv4) -> u32 {
    u32_of(ip.d, ip.c, ip.b, ip.a)
}

/// The address that a 32-bit number stands for.
pub open spec fn ipv4_of(v: u32) -> Ipv4 {
    Ipv4 { a: (v >> 24u32) as u8, b: (v >> 16u32) as u8, c: (v >> 8u32) as u8, d: v as u8 }
}

/// The usual dotted form, `a.b.c.d`.
pub open spec fn dotted(ip: Ipv4) -> Seq<char> {
    decimal(ip.a as nat) + seq!['.'] + decimal(ip.b as nat) + seq!['.'] + decimal(ip.c as nat)
        + seq!['.'] + decimal(ip.d as nat)
}

/// 10.0.0.0/8, 172.16.0.0/12 and 192.168.0.0/16.
pub open spec fn is_private_spec(ip: Ipv4) -> bool {
    ip.a == 10 || (ip.a == 172 && 16 <= ip.b < 32) || (ip.a == 192 && ip.b == 168)
}

/// 127.0.0.0/8.
pub open spec fn is_loopback_spec(ip: Ipv4) -> bool {
    ip.a == 127
}

/// A number and the address it stands for determine each other.
pub proof fn lemma_ipv4_round_trip(ip: Ipv4, v: u32)
    ensures
        ipv4_of(ipv4_u32(ip)) == ip,
        ipv4_u32(ipv4_of(v)) == v,
{
    bits_u32(v, ip.d, ip.c, ip.b, ip.a);
}

impl Ipv4 {
    pub fn new(a: u8, b: u8, c: u8, d: u8) -> (r: Ipv4)
        ensures
            r == (Ipv4 { a, b, c, d }),
    {
        Ipv4 { a, b, c, d }
    }

    pub fn octets(&self) -> (r: [u8; 4])
        ensures
            r@ == seq![self.a, self.b, self.c, self.d],
    {
        let r = [self.a, self.b, self.c, self.d];
        assert(r@ =~= seq![self.a, self.b, self.c, self.d]);
        r
    }

    pub fn to_u32(&self) -> (r: u32)
        ensures
            r == ipv4_u32(*self),
    {
        (self.d as u32) | ((self.c as u32) << 8u32) | ((self.b as u32) << 16u32) | ((
        self.a as u32) << 24u32)
    }

    pub fn from_u32(value: u32) -> (r: Ipv4)
        ensures
            r == ipv4_of(value),
            ipv4_u32(r) == value,
    {
        proof {
            lemma_ipv4_round_trip(ipv4_of(value), value);
        }
        Ipv4 {
            a: (value >> 24u32) as u8,
            b: (value >> 16u32) as u8,
            c: (value >> 8u32) as u8,
            d: value as u8,
        }
    }

    pub fn is_private(&self) -> (r: bool)
        ensures
            r == is_private_spec(*self),
    {
        self.a == 10 || (self.a == 172 && 16 <= self.b && self.b < 32) || (self.a == 192 && self.b
            == 168)
    }

    pub fn is_loopback(&self) -> (r: bool)
        ensures
            r == is_loopback_spec(*self),
    {
        self.a == 127
    }

    /// The dotted form of the address.
    pub fn to_string(&self) -> (r: String)
        ensures
            r@ == dotted(*self),
    {
        let mut bytes: Vec<u8> = Vec::new();
        push_decimal(&mut bytes, self.a as u64);
        bytes.push(46u8);
        push_decimal(&mut bytes, self.b as u64);
        bytes.push(46u8);
        push_decimal(&mut bytes, self.c as u64);
        bytes.push(46u8);
        push_decimal(&mut bytes, self.d as u64);
        proof {
            let dot = seq!['.'];
            assert(encode_utf8(dot) =~= seq![46u8]) by {
                vstd::utf8::is_ascii_chars_encode_utf8(dot);
            }
            let oa = decimal(self.a as nat);
            let ob = decimal(self.b as nat);
            let oc = decimal(self.c as nat);
            let od = decimal(self.d as nat);
            crate::strings::lemma_utf8_concat(oa, dot);
            crate::strings::lemma_utf8_concat(oa + dot, ob);
            crate::strings::lemma_utf8_concat(oa + dot + ob, dot);
            crate::strings::lemma_utf8_concat(oa + dot + ob + dot, oc);
            crate::strings::lemma_utf8_concat(oa + dot + ob + dot + oc, dot);
            crate::strings::lemma_utf8_concat(oa + dot + ob + dot + oc + dot, od);
            assert(bytes@ =~= encode_utf8(dotted(*self)));
        }
        crate::strings::string_from_encoding(bytes, Ghost(dotted(*self)))
    }
}

/// The broadcast address of a subnet: the host bits of `ip` under `netmask`
/// all set.
pub open spec fn broadcast_of(ip: u32, netmask: u32) -> u32 {
    ip | !netmask
}

pub fn to_broadcast_addr(ip: u32, netmask: u32) -> (r: u32)
    ensures
        r == broadcast_of(ip, netmask),
{
    ip | !netmask
}

} // verus!
