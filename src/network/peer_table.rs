//! The set of known peers, keyed by host.
use crate::network::ip::dotted;
use crate::network::ip::Ipv4;
use crate::network::peer::Peer;
use crate::network::peer::PeerModel;
use vstd::prelude::*;

verus! {

/// No two peers of `s` share a host.
pub open spec fn hosts_distinct(s: Seq<PeerModel>) -> bool {
    forall|i: int, j: int| 0 <= i < j < s.len() ==> s[i].host != s[j].host
}

/// Where the peer of host `host` stands in `s`, if anywhere.
pub open spec fn has_host(s: Seq<PeerModel>, host: Seq<char>) -> bool {
    exists|i: int| 0 <= i < s.len() && s[i].host == host
}

/// The peers after `p` is inserted into `s`: the entry of its host is
/// replaced, or `p` is added at the end.
pub open spec fn inserted(s: Seq<PeerModel>, p: PeerModel) -> Seq<PeerModel> {
    if has_host(s, p.host) {
        s.update(choose|i: int| 0 <= i < s.len() && s[i].host == p.host, p)
    } else {
        s.push(p)
    }
}

/// The known peers, in the order they were first seen; one entry per host.
pub struct PeerTable {
    peers: Vec<Peer>,
}

impl View for PeerTable {
    type V = Seq<PeerModel>;

    closed spec fn view(&self) -> Seq<PeerModel> {
        self.peers@.map_values(|p: Peer| p@)
    }
}

impl PeerTable {
    pub open spec fn wf(&self) -> bool {
        hosts_distinct(self@)
    }

    pub fn new() -> (r: PeerTable)
        ensures
            r.wf(),
            r@ == Seq::<PeerModel>::empty(),
    {
        let r = PeerTable { peers: Vec::new() };
        assert(r@ =~= Seq::<PeerModel>::empty());
        r
    }

    pub fn len(&self) -> (r: usize)
        ensures
            r == self@.len(),
    {
        self.peers.len()
    }

    /// Adds `peer`, or replaces the peer of the same host with it.
    pub fn insert(&mut self, peer: Peer)
        requires
            old(self).wf(),
        ensures
            final(self).wf(),
            final(self)@ == inserted(old(self)@, peer@),
    {
        let ghost s = self@;
        let ghost pv = peer@;
        let mut i: usize = 0;
        while i < self.peers.len()
            invariant
                i <= self.peers@.len(),
                self@ == s,
                hosts_distinct(s),
                forall|k: int| 0 <= k < i ==> s[k].host != peer@.host,
                pv == peer@,
                s == old(self)@,
            decreases self.peers@.len() - i,
        {
            assert(s[i as int] == self.peers@[i as int]@);
            if self.peers[i] == peer {
                assert(s[i as int].host == peer@.host);
                assert(has_host(s, peer@.host));
                assert((choose|k: int| 0 <= k < s.len() && s[k].host == peer@.host) == i);
                self.peers.set(i, peer);
                assert(self@ =~= s.update(i as int, pv));
                assert(inserted(s, pv) == s.update(i as int, pv));
                return;
            }
            i = i + 1;
        }
        self.peers.push(peer);
        assert(self@ =~= inserted(s, peer@));
    }

    /// The peer whose host is `host`, if any.
    pub fn lookup(&self, host: &String) -> (r: Option<Peer>)
        requires
            self.wf(),
        ensures
            r is Some <==> has_host(self@, host@),
            r matches Some(p) ==> p@.host == host@ && self@.contains(p@),
    {
        let mut i: usize = 0;
        while i < self.peers.len()
            invariant
                i <= self.peers@.len(),
                forall|k: int| 0 <= k < i ==> self@[k].host != host@,
            decreases self.peers@.len() - i,
        {
            assert(self@[i as int] == self.peers@[i as int]@);
            if *self.peers[i].host() == *host {
                assert(self@[i as int].host == host@);
                let p = self.peers[i].clone();
                assert(self@[i as int] == p@);
                return Some(p);
            }
            i = i + 1;
        }
        None
    }

    /// The peer at an IPv4 address, if any.
    pub fn lookup_by_address(&self, address: &Ipv4) -> (r: Option<Peer>)
        requires
            self.wf(),
        ensures
            r is Some <==> has_host(self@, dotted(*address)),
            r matches Some(p) ==> p@.host == dotted(*address) && self@.contains(p@),
    {
        self.lookup(&address.to_string())
    }

    /// A copy of every known peer: one entry per host.
    pub fn snapshot(&self) -> (r: Vec<Peer>)
        requires
            self.wf(),
        ensures
            r@.map_values(|p: Peer| p@) == self@,
            hosts_distinct(r@.map_values(|p: Peer| p@)),
    {
        let mut r: Vec<Peer> = Vec::new();
        let mut i: usize = 0;
        while i < self.peers.len()
            invariant
                i <= self.peers@.len(),
                r@.map_values(|p: Peer| p@) =~= self@.subrange(0, i as int),
            decreases self.peers@.len() - i,
        {
            assert(self@[i as int] == self.peers@[i as int]@);
            let c = self.peers[i].clone();
            let ghost before = r@;
            r.push(c);
            assert(r@ == before.push(c));
            assert(r@.map_values(|p: Peer| p@) =~= before.map_values(|p: Peer| p@).push(c@));
            assert(r@.map_values(|p: Peer| p@) =~= self@.subrange(0, i + 1));
            i = i + 1;
        }
        assert(self@.subrange(0, i as int) =~= self@);
        r
    }
}

/// Inserting a peer whose host is already known leaves the number of peers
/// as it was, and the entry of that host is the new peer, name and port
/// included.
pub proof fn lemma_insert_known_host(s: Seq<PeerModel>, p: PeerModel)
    requires
        hosts_distinct(s),
        has_host(s, p.host),
    ensures
        inserted(s, p).len() == s.len(),
        hosts_distinct(inserted(s, p)),
        exists|i: int| 0 <= i < s.len() && inserted(s, p)[i] == p,
{
    let i = choose|i: int| 0 <= i < s.len() && s[i].host == p.host;
    assert(inserted(s, p)[i] == p);
}

/// Inserting never makes two entries of one host, and the inserted peer is
/// always found afterwards under its host.
pub proof fn lemma_insert_keeps_hosts_distinct(s: Seq<PeerModel>, p: PeerModel)
    requires
        hosts_distinct(s),
    ensures
        hosts_distinct(inserted(s, p)),
        has_host(inserted(s, p), p.host),
        forall|h: Seq<char>| has_host(s, h) ==> has_host(inserted(s, p), h),
        forall|h: Seq<char>| has_host(inserted(s, p), h) ==> has_host(s, h) || h == p.host,
{
    if has_host(s, p.host) {
        let i = choose|i: int| 0 <= i < s.len() && s[i].host == p.host;
        assert(inserted(s, p)[i] == p);
        assert forall|h: Seq<char>| has_host(s, h) implies has_host(inserted(s, p), h) by {
            let k = choose|k: int| 0 <= k < s.len() && s[k].host == h;
            assert(inserted(s, p)[k].host == h);
        }
        assert forall|h: Seq<char>| has_host(inserted(s, p), h) implies has_host(s, h) || h
            == p.host by {
            let k = choose|k: int| 0 <= k < inserted(s, p).len() && inserted(s, p)[k].host == h;
            if k != i {
                assert(s[k].host == h);
            }
        }
    } else {
        assert(inserted(s, p)[s.len() as int] == p);
        assert forall|h: Seq<char>| has_host(s, h) implies has_host(inserted(s, p), h) by {
            let k = choose|k: int| 0 <= k < s.len() && s[k].host == h;
            assert(inserted(s, p)[k].host == h);
        }
        assert forall|h: Seq<char>| has_host(inserted(s, p), h) implies has_host(s, h) || h
            == p.host by {
            let k = choose|k: int| 0 <= k < inserted(s, p).len() && inserted(s, p)[k].host == h;
            if k < s.len() {
                assert(s[k].host == h);
            }
        }
    }
}

/// The table after inserting each peer of `ps` in turn into `s`.
pub open spec fn inserted_all(s: Seq<PeerModel>, ps: Seq<PeerModel>) -> Seq<PeerModel>
    decreases ps.len(),
{
    if ps.len() == 0 {
        s
    } else {
        inserted(inserted_all(s, ps.drop_last()), ps.last())
    }
}

/// Whatever peers are inserted into an empty table, in whatever order, it
/// ends up with exactly one entry for each distinct host among them.
pub proof fn lemma_one_entry_per_host(ps: Seq<PeerModel>)
    ensures
        hosts_distinct(inserted_all(Seq::empty(), ps)),
        forall|h: Seq<char>|
            has_host(inserted_all(Seq::empty(), ps), h) <==> exists|i: int|
                0 <= i < ps.len() && ps[i].host == h,
    decreases ps.len(),
{
    if ps.len() > 0 {
        let prev = ps.drop_last();
        lemma_one_entry_per_host(prev);
        let t = inserted_all(Seq::empty(), prev);
        lemma_insert_keeps_hosts_distinct(t, ps.last());
        assert(inserted_all(Seq::empty(), ps) == inserted(t, ps.last()));
        assert forall|h: Seq<char>|
            has_host(inserted_all(Seq::empty(), ps), h) <==> exists|i: int|
                0 <= i < ps.len() && ps[i].host == h by {
            if has_host(inserted_all(Seq::empty(), ps), h) {
                if has_host(t, h) {
                    assert(exists|i: int| 0 <= i < prev.len() && prev[i].host == h);
                    let i = choose|i: int| 0 <= i < prev.len() && prev[i].host == h;
                    assert(ps[i].host == h);
                } else {
                    assert(h == ps.last().host);
                    assert(ps[ps.len() - 1].host == h);
                }
            }
            if exists|i: int| 0 <= i < ps.len() && ps[i].host == h {
                let i = choose|i: int| 0 <= i < ps.len() && ps[i].host == h;
                if i < ps.len() - 1 {
                    assert(prev[i].host == h);
                    assert(has_host(t, h));
                } else {
                    assert(h == ps.last().host);
                }
            }
        }
    }
}

} // verus!
