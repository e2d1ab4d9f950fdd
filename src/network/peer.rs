//! A reachable instance of the daemon, and the table of those known.
use crate::network::ip::dotted;
use crate::network::ip::Ipv4;
use crate::strings::decimal;
use crate::strings::push_decimal;
use vstd::prelude::*;
use vstd::utf8::encode_utf8;

verus! {

/// The host name given to a peer that did not tell its own.
pub open spec fn default_host_name() -> Seq<char> {
    seq!['<', 'e', 'm', 'p', 't', 'y', '>']
}

/// What a peer is: its IPv4 host, the port of its data service, and its
/// host name.
pub struct PeerModel {
    pub host: Seq<char>,
    pub port: u16,
    pub host_name: Seq<char>,
}

/// A peer. Two peers are the same peer when their hosts are equal, whatever
/// their ports and names.
#[derive(Debug)]
pub struct Peer {
    host: String,
    port: u16,
    host_name: String,
}

impl View for Peer {
    type V = PeerModel;

    closed spec fn view(&self) -> PeerModel {
        PeerModel { host: self.host@, port: self.port, host_name: self.host_name@ }
    }
}

/// `name@host:port`.
pub open spec fn peer_text(p: PeerModel) -> Seq<char> {
    p.host_name + seq!['@'] + p.host + seq![':'] + decimal(p.port as nat)
}

/// The name a peer gets from an optional one.
pub open spec fn name_or_default(host_name: Option<Seq<char>>) -> Seq<char> {
    match host_name {
        Some(n) => n,
        None => default_host_name(),
    }
}

fn default_name() -> (r: String)
    ensures
        r@ == default_host_name(),
{
    let mut bytes: Vec<u8> = Vec::new();
    bytes.push(60u8);
    bytes.push(101u8);
    bytes.push(109u8);
    bytes.push(112u8);
    bytes.push(116u8);
    bytes.push(121u8);
    bytes.push(62u8);
    proof {
        vstd::utf8::is_ascii_chars_encode_utf8(default_host_name());
        assert(bytes@ =~= encode_utf8(default_host_name()));
    }
    crate::strings::string_from_encoding(bytes, Ghost(default_host_name()))
}

impl Clone for Peer {
    fn clone(&self) -> (r: Peer)
        ensures
            r@ == self@,
    {
        Peer { host: self.host.clone(), port: self.port, host_name: self.host_name.clone() }
    }
}

impl PartialEq for Peer {
    fn eq(&self, other: &Peer) -> (r: bool)
        ensures
            r == (self@.host == other@.host),
    {
        self.host == other.host
    }
}

impl vstd::std_specs::cmp::PartialEqSpecImpl for Peer {
    open spec fn obeys_eq_spec() -> bool {
        true
    }

    open spec fn eq_spec(&self, other: &Peer) -> bool {
        self@.host == other@.host
    }
}

impl Default for Peer {
    fn default() -> (r: Peer)
        ensures
            r@ == (PeerModel {
                host: seq!['0', '.', '0', '.', '0', '.', '0'],
                port: 0,
                host_name: default_host_name(),
            }),
    {
        let host = Ipv4::new(0, 0, 0, 0).to_string();
        proof {
            assert(dotted(Ipv4 { a: 0, b: 0, c: 0, d: 0 }) =~= seq!['0', '.', '0', '.', '0', '.', '0']);
        }
        Peer { host, port: 0, host_name: default_name() }
    }
}

impl Peer {
    pub fn new(host: &String, port: u16, host_name: Option<&String>) -> (r: Peer)
        ensures
            r@ == (PeerModel {
                host: host@,
                port,
                host_name: name_or_default(
                    match host_name {
                        Some(n) => Some(n@),
                        None => None,
                    },
                ),
            }),
    {
        let host_name = match host_name {
            Some(n) => n.clone(),
            None => default_name(),
        };
        Peer { host: host.clone(), port, host_name }
    }

    /// The peer at an IPv4 address, its host written in dotted form.
    pub fn from(address: &Ipv4, port: u16, host_name: Option<&String>) -> (r: Peer)
        ensures
            r@ == (PeerModel {
                host: dotted(*address),
                port,
                host_name: name_or_default(
                    match host_name {
                        Some(n) => Some(n@),
                        None => None,
                    },
                ),
            }),
    {
        Peer::new(&address.to_string(), port, host_name)
    }

    pub fn host(&self) -> (r: &String)
        ensures
            r@ == self@.host,
    {
        &self.host
    }

    pub fn port(&self) -> (r: u16)
        ensures
            r == self@.port,
    {
        self.port
    }

    pub fn host_name(&self) -> (r: &String)
        ensures
            r@ == self@.host_name,
    {
        &self.host_name
    }

    /// `name@host:port`.
    pub fn to_string(&self) -> (r: String)
        ensures
            r@ == peer_text(self@),
    {
        let mut bytes = crate::strings::utf8_bytes(&self.host_name);
        bytes.push(64u8);
        let mut host = crate::strings::utf8_bytes(&self.host);
        bytes.append(&mut host);
        bytes.push(58u8);
        push_decimal(&mut bytes, self.port as u64);
        proof {
            let at = seq!['@'];
            let colon = seq![':'];
            vstd::utf8::is_ascii_chars_encode_utf8(at);
            vstd::utf8::is_ascii_chars_encode_utf8(colon);
            let n = self.host_name@;
            let h = self.host@;
            let d = decimal(self.port as nat);
            crate::strings::lemma_utf8_concat(n, at);
            crate::strings::lemma_utf8_concat(n + at, h);
            crate::strings::lemma_utf8_concat(n + at + h, colon);
            crate::strings::lemma_utf8_concat(n + at + h + colon, d);
            assert(bytes@ =~= encode_utf8(peer_text(self@)));
        }
        crate::strings::string_from_encoding(bytes, Ghost(peer_text(self@)))
    }
}

} // verus!
