//! Destination multiplexers: policies that map the first bytes of an
//! inbound connection to a backend decision.
//!
//! A policy answers one of three things over the accumulated prefix:
//! it needs more bytes, the prefix is definitely unroutable, or a
//! backend address matched. Two policies are built in: a fixed backend
//! that matches at once (even on the empty prefix), and SNI routing
//! that parses a TLS ClientHello and looks the hostname up in a table.

use vstd::prelude::*;
use vstd::utf8::{decode_utf8, valid_utf8};

use crate::tls::{
    parse_tls_client_hello, spec_header_rejected, spec_parse_hello, HelloParse,
    lemma_header_reject_stable, lemma_sni_stable,
};

verus! {

/// A multiplexer's decision, at the specification level. A matched
/// backend address is carried as its characters.
pub enum Decision {
    /// Cannot decide yet; read more and retry.
    NeedMore,
    /// The prefix is definitely unroutable; abort the flow.
    Mismatch,
    /// Dial this backend address.
    Match(Seq<char>),
}

/// A multiplexer's decision: need more bytes, definitely unroutable,
/// or the backend address to dial.
pub enum MR {
    NeedMore,
    Mismatch,
    Match(String),
}

impl View for MR {
    type V = Decision;

    open spec fn view(&self) -> Decision {
        match self {
            MR::NeedMore => Decision::NeedMore,
            MR::Mismatch => Decision::Mismatch,
            MR::Match(addr) => Decision::Match(addr@),
        }
    }
}

/// The SNI routing table: hostname to backend address, insertion
/// ordered. A later entry for the same hostname shadows an earlier one.
pub struct SniMap {
    entries: Vec<(String, String)>,
}

/// Look a key up among entries, the latest entry first.
pub open spec fn spec_lookup(
    entries: Seq<(Seq<char>, Seq<char>)>,
    key: Seq<char>,
) -> Option<Seq<char>>
    decreases entries.len(),
{
    if entries.len() == 0 {
        None
    } else if entries.last().0 == key {
        Some(entries.last().1)
    } else {
        spec_lookup(entries.drop_last(), key)
    }
}

impl View for SniMap {
    type V = Seq<(Seq<char>, Seq<char>)>;

    closed spec fn view(&self) -> Seq<(Seq<char>, Seq<char>)> {
        self.entries@.map_values(|p: (String, String)| (p.0@, p.1@))
    }
}

impl SniMap {
    /// The empty table.
    pub fn new() -> (r: SniMap)
        ensures
            r@ =~= Seq::<(Seq<char>, Seq<char>)>::empty(),
    {
        SniMap { entries: Vec::new() }
    }

    /// Number of entries.
    pub fn len(&self) -> (r: usize)
        ensures
            r == self@.len(),
    {
        self.entries.len()
    }

    /// The entry at an index, hostname and address.
    pub fn entry_at(&self, i: usize) -> (r: (&String, &String))
        requires
            i < self@.len(),
        ensures
            (r.0@, r.1@) == self@[i as int],
    {
        let e = &self.entries[i];
        (&e.0, &e.1)
    }

    /// Bind a hostname to a backend address. The new entry shadows any
    /// earlier entry for the same hostname; bindings of every other
    /// hostname are untouched.
    pub fn insert(&mut self, host: String, addr: String)
        ensures
            final(self)@ =~= old(self)@.push((host@, addr@)),
            spec_lookup(final(self)@, host@) == Some(addr@),
            forall|k: Seq<char>| k != host@ ==> spec_lookup(final(self)@, k) == spec_lookup(
                old(self)@,
                k,
            ),
    {
        self.entries.push((host, addr));
        proof {
            assert(self@.drop_last() =~= old(self)@);
        }
    }

    /// Look a hostname up; the latest binding wins.
    pub fn get(&self, host: &String) -> (r: Option<&String>)
        ensures
            match r {
                Some(a) => spec_lookup(self@, host@) == Some(a@),
                None => spec_lookup(self@, host@) is None,
            },
    {
        let mut i = self.entries.len();
        proof {
            assert(self@.take(i as int) =~= self@);
        }
        while i > 0
            invariant
                i <= self@.len(),
                spec_lookup(self@, host@) == spec_lookup(self@.take(i as int), host@),
            decreases i,
        {
            i = i - 1;
            proof {
                assert(self@.take(i + 1).drop_last() =~= self@.take(i as int));
                assert(self@.take(i + 1).last() == self@[i as int]);
            }
            if self.entries[i].0 == *host {
                return Some(&self.entries[i].1);
            }
        }
        proof {
            assert(self@.take(0) =~= Seq::<(Seq<char>, Seq<char>)>::empty());
        }
        None
    }

    /// A snapshot of the table, entry for entry.
    pub fn snapshot(&self) -> (r: SniMap)
        ensures
            r@ =~= self@,
    {
        let mut entries: Vec<(String, String)> = Vec::new();
        let mut i: usize = 0;
        while i < self.entries.len()
            invariant
                i <= self.entries@.len(),
                entries@.len() == i,
                forall|j: int| 0 <= j < i ==> (entries@[j].0@, entries@[j].1@) == self@[j],
            decreases self.entries@.len() - i,
        {
            let e = &self.entries[i];
            entries.push((e.0.clone(), e.1.clone()));
            i = i + 1;
        }
        let r = SniMap { entries };
        proof {
            assert forall|j: int| 0 <= j < r@.len() implies r@[j] == self@[j] by {}
        }
        r
    }
}

/// A policy deciding, over the accumulated prefix of an inbound
/// connection, which backend to dial. Safe to call repeatedly on
/// lengthening prefixes.
pub trait Multiplexer: Sized {
    /// The policy's decision over a prefix.
    spec fn decision(&self, prefix: Seq<u8>) -> Decision;

    /// Decide over the accumulated prefix observed so far.
    fn destination(&self, buf: &[u8]) -> (r: MR)
        ensures
            r@ == self.decision(buf@),
    ;
}

/// The policy that forwards every connection to one fixed backend.
pub struct FixedPlexer {
    /// Backend address every connection is forwarded to.
    pub destination_addr: String,
}

impl FixedPlexer {
    /// A fixed policy for the given backend address.
    pub fn new(addr: &str) -> (r: FixedPlexer)
        ensures
            r.destination_addr@ == addr@,
    {
        FixedPlexer { destination_addr: addr.to_owned() }
    }
}

impl Multiplexer for FixedPlexer {
    open spec fn decision(&self, prefix: Seq<u8>) -> Decision {
        Decision::Match(self.destination_addr@)
    }

    fn destination(&self, _buf: &[u8]) -> (r: MR) {
        MR::Match(self.destination_addr.clone())
    }
}

/// The SNI routing policy: parse the prefix as a TLS ClientHello and
/// route by the hostname it names; anything that is not TLS, and any
/// hostname without a table entry, goes to the default backend.
pub struct SniPlexer {
    /// Backend for prefixes that are not TLS and hostnames not in the table.
    pub default_addr: String,
    /// The routing table.
    pub sni_map: SniMap,
}

impl SniPlexer {
    /// An SNI policy over the given default address and table.
    pub fn new(default_addr: &str, sni_map: SniMap) -> (r: SniPlexer)
        ensures
            r.default_addr@ == default_addr@,
            r.sni_map@ == sni_map@,
    {
        SniPlexer { default_addr: default_addr.to_owned(), sni_map }
    }
}

impl Multiplexer for SniPlexer {
    open spec fn decision(&self, prefix: Seq<u8>) -> Decision {
        match spec_parse_hello(prefix) {
            HelloParse::NeedMore => Decision::NeedMore,
            HelloParse::NotTls => Decision::Match(self.default_addr@),
            HelloParse::Sni(name) => if !valid_utf8(name) {
                Decision::NeedMore
            } else {
                match spec_lookup(self.sni_map@, decode_utf8(name)) {
                    Some(a) => Decision::Match(a),
                    None => Decision::Match(self.default_addr@),
                }
            },
        }
    }

    fn destination(&self, buf: &[u8]) -> (r: MR) {
        match parse_tls_client_hello(buf) {
            None => MR::NeedMore,
            Some(None) => MR::Match(self.default_addr.clone()),
            Some(Some(sname)) => match self.sni_map.get(&sname) {
                Some(d) => MR::Match(d.clone()),
                None => MR::Match(self.default_addr.clone()),
            },
        }
    }
}

/// One of the built-in policies, chosen by configuration.
pub enum Plexer {
    Fixed(FixedPlexer),
    Sni(SniPlexer),
}

impl Plexer {
    /// A snapshot of the active SNI routing table: the SNI policy's
    /// table, entry for entry; empty for a fixed policy, which keeps
    /// no table.
    pub fn sni_snapshot(&self) -> (r: SniMap)
        ensures
            match self {
                Plexer::Sni(p) => r@ =~= p.sni_map@,
                Plexer::Fixed(_) => r@ =~= Seq::<(Seq<char>, Seq<char>)>::empty(),
            },
    {
        match self {
            Plexer::Sni(p) => p.sni_map.snapshot(),
            Plexer::Fixed(_) => SniMap::new(),
        }
    }
}

impl Multiplexer for Plexer {
    open spec fn decision(&self, prefix: Seq<u8>) -> Decision {
        match self {
            Plexer::Fixed(p) => p.decision(prefix),
            Plexer::Sni(p) => p.decision(prefix),
        }
    }

    fn destination(&self, buf: &[u8]) -> (r: MR) {
        match self {
            Plexer::Fixed(p) => p.destination(buf),
            Plexer::Sni(p) => p.destination(buf),
        }
    }
}

/// A fixed policy is terminal at once and stable: it matches its
/// configured backend on every prefix, the empty one included.
pub proof fn lemma_fixed_stable(p: &FixedPlexer, prefix: Seq<u8>, ext: Seq<u8>)
    ensures
        p.decision(prefix) == Decision::Match(p.destination_addr@),
        p.decision(prefix + ext) == p.decision(prefix),
{
}

/// On the empty prefix the SNI policy asks for more bytes.
pub proof fn lemma_sni_empty_prefix(p: &SniPlexer)
    ensures
        p.decision(Seq::empty()) == Decision::NeedMore,
{
}

/// Once the SNI policy has answered from a parsed hostname, the answer
/// is a match and stands under every extension of the prefix.
pub proof fn lemma_sni_match_stable(p: &SniPlexer, prefix: Seq<u8>, ext: Seq<u8>, name: Seq<u8>)
    requires
        spec_parse_hello(prefix) == HelloParse::Sni(name),
        valid_utf8(name),
    ensures
        p.decision(prefix) matches Decision::Match(_),
        p.decision(prefix + ext) == p.decision(prefix),
{
    lemma_sni_stable(prefix, ext, name);
}

/// Traffic rejected by the ClientHello header checks routes to the
/// default backend, and keeps routing there under every extension.
pub proof fn lemma_sni_not_tls_stable(p: &SniPlexer, prefix: Seq<u8>, ext: Seq<u8>)
    requires
        spec_header_rejected(prefix),
    ensures
        p.decision(prefix) == Decision::Match(p.default_addr@),
        p.decision(prefix + ext) == p.decision(prefix),
{
    lemma_header_reject_stable(prefix, ext);
}

/// Monotone decisions: once the SNI policy has answered from the
/// header checks or from a fully parsed hostname, the answer is a
/// terminal match and stands under every extension of the prefix — the
/// lengthening prefixes of one stream see NeedMore until that point and
/// the same match after it. A rejection that arises only because the
/// record is shorter than the ClientHello grammar demands is not
/// covered: the parser reads up to the buffer's end, so bytes beyond
/// such a record's claimed length can resume its reading.
pub proof fn lemma_sni_monotone(p: &SniPlexer, prefix: Seq<u8>, ext: Seq<u8>)
    requires
        spec_header_rejected(prefix) || (spec_parse_hello(prefix) matches HelloParse::Sni(n)
            && valid_utf8(n)),
    ensures
        p.decision(prefix) matches Decision::Match(_),
        p.decision(prefix + ext) == p.decision(prefix),
{
    if spec_header_rejected(prefix) {
        lemma_sni_not_tls_stable(p, prefix, ext);
    } else {
        let name = choose|n: Seq<u8>|
            spec_parse_hello(prefix) == HelloParse::Sni(n) && valid_utf8(n);
        lemma_sni_match_stable(p, prefix, ext, name);
    }
}

} // verus!
