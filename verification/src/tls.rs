//! Streaming TLS ClientHello / SNI parser.
//!
//! The parser answers, over a possibly truncated prefix of a TCP stream,
//! one of three decisions: need more bytes, not TLS (or no SNI), or the
//! SNI hostname. It is pure, bounds-safe at every step, and never reads
//! past the supplied slice. The outcome is pinned down by
//! [`spec_parse_hello`], which states the record and handshake grammar
//! directly over the byte sequence.

use vstd::prelude::*;
use vstd::slice::slice_to_vec;
use vstd::utf8::{decode_utf8, valid_utf8};

verus! {

/// TLS record content type of a handshake record.
pub const CONTENTTYPE_HANDSHAKE: u8 = 22;

/// Handshake message type of a ClientHello.
pub const HANDSHAKE_CLIENTHELLO: u8 = 1;

/// Extension type of server_name (SNI).
pub const EXTENSION_SNI: usize = 0;

/// Outcome of parsing a stream prefix, at the specification level.
/// An SNI hostname is carried as its raw bytes; decoding them to a
/// string is a separate concern of the executable parser.
pub enum HelloParse {
    /// The prefix is too short to decide; more bytes may settle it.
    NeedMore,
    /// The prefix is decidedly not a TLS ClientHello carrying an SNI.
    NotTls,
    /// The server_name extension was found; these are the name's bytes.
    Sni(Seq<u8>),
}

/// Length of the whole TLS record: the five header bytes plus the
/// big-endian payload length in bytes 3 and 4.
pub open spec fn spec_record_len(b: Seq<u8>) -> int
    recommends
        b.len() >= 5,
{
    5 + b[3] * 256 + b[4]
}

/// Scan the extensions block from `idx` up to `ext_end`, looking for a
/// server_name extension whose payload lies inside the buffer. Each
/// extension is two bytes of type, two bytes of length, then its data;
/// the hostname starts nine bytes into an SNI extension (after the
/// extension header, the two-byte list length, the one-byte name type
/// and the two-byte name length).
pub open spec fn spec_scan_extensions(b: Seq<u8>, idx: int, ext_end: int) -> HelloParse
    decreases (if ext_end - idx >= 0 { ext_end - idx } else { 0 }),
{
    if idx < ext_end - 4 && idx < b.len() - 4 {
        let extype = b[idx] * 256 + b[idx + 1];
        let extlen = b[idx + 2] * 256 + b[idx + 3];
        let sniend = 4 + idx + extlen;
        if extype == EXTENSION_SNI && sniend <= b.len() {
            if idx + 9 <= sniend {
                HelloParse::Sni(b.subrange(idx + 9, sniend))
            } else {
                // The extension is too short to hold a name entry.
                HelloParse::NotTls
            }
        } else {
            spec_scan_extensions(b, idx + 4 + extlen, ext_end)
        }
    } else {
        HelloParse::NotTls
    }
}

/// The ClientHello body: starting after the fixed header (version and
/// random end at offset 43), skip the session id, the cipher suites and
/// the compression methods, each behind its length prefix, then scan the
/// extensions block. Any offset that reaches past the buffer makes the
/// prefix count as carrying no SNI.
pub open spec fn spec_parse_body(b: Seq<u8>) -> HelloParse
    recommends
        b.len() >= 6,
{
    let i0 = 43int;
    if i0 >= b.len() - 1 {
        HelloParse::NotTls
    } else {
        let i1 = i0 + 1 + b[i0];
        if i1 >= b.len() - 2 {
            HelloParse::NotTls
        } else {
            let i2 = i1 + 2 + b[i1] * 256 + b[i1 + 1];
            if i2 >= b.len() - 1 {
                HelloParse::NotTls
            } else {
                let i3 = i2 + 1 + b[i2];
                if i3 >= b.len() - 2 {
                    HelloParse::NotTls
                } else {
                    let ext_end = 2 + i3 + b[i3] * 256 + b[i3 + 1];
                    spec_scan_extensions(b, i3 + 2, ext_end)
                }
            }
        }
    }
}

/// The parser's full decision over a stream prefix: a handshake record
/// of protocol version at least 3.1, complete in the buffer, whose
/// handshake type is ClientHello, parsed by [`spec_parse_body`].
pub open spec fn spec_parse_hello(b: Seq<u8>) -> HelloParse {
    if b.len() < 1 {
        HelloParse::NeedMore
    } else if b[0] != CONTENTTYPE_HANDSHAKE {
        HelloParse::NotTls
    } else if b.len() < 3 {
        HelloParse::NeedMore
    } else if b[1] < 3 || b[2] < 1 {
        HelloParse::NotTls
    } else if b.len() < 6 {
        HelloParse::NeedMore
    } else if b[5] != HANDSHAKE_CLIENTHELLO {
        HelloParse::NotTls
    } else if b.len() < spec_record_len(b) {
        HelloParse::NeedMore
    } else {
        spec_parse_body(b)
    }
}

/// What the executable parser returns for a prefix: `None` asks for more
/// bytes, `Some(None)` means not TLS or no SNI, `Some(Some(name))` is the
/// decoded hostname. A hostname whose bytes are not valid UTF-8 keeps
/// the answer at `None`, as the grammar alone cannot settle it.
pub open spec fn spec_parse_result(b: Seq<u8>, r: Option<Option<String>>) -> bool {
    match spec_parse_hello(b) {
        HelloParse::NeedMore => r is None,
        HelloParse::NotTls => r == Some(None::<String>),
        HelloParse::Sni(name) => if valid_utf8(name) {
            r matches Some(Some(s)) && s@ == decode_utf8(name)
        } else {
            r is None
        },
    }
}

/// Relies on String::from_utf8: it succeeds exactly on valid UTF-8 input
/// and returns the string holding the decoded characters.
#[verifier::external_body]
fn bytes_to_string(v: Vec<u8>) -> (r: Option<String>)
    ensures
        r is Some <==> valid_utf8(v@),
        r matches Some(s) ==> s@ == decode_utf8(v@),
{
    String::from_utf8(v).ok()
}

/// Extracts the first SNI (Server Name Indication) hostname from a TLS
/// ClientHello. `None` asks the caller to read more bytes and retry;
/// `Some(None)` says the prefix is definitely not a TLS ClientHello with
/// an SNI; `Some(Some(name))` is the hostname.
pub fn parse_tls_client_hello(buf: &[u8]) -> (r: Option<Option<String>>)
    ensures
        spec_parse_result(buf@, r),
{
    let buf_len = buf.len();
    if buf_len < 1 {
        return None;
    }
    if buf[0] != CONTENTTYPE_HANDSHAKE {
        return Some(None);
    }
    if buf_len < 3 {
        return None;
    }
    if buf[1] < 3 || buf[2] < 1 {
        return Some(None);
    }
    if buf_len < 6 {
        return None;
    }
    if buf[5] != HANDSHAKE_CLIENTHELLO {
        return Some(None);
    }
    let msglen = 5 + (buf[3] as usize) * 256 + (buf[4] as usize);
    if buf_len < msglen {
        return None;
    }

    let mut idx = 43usize;
    if idx >= buf_len - 1 {
        return Some(None);
    }
    idx += 1 + buf[idx] as usize;  // skip session id
    if idx >= buf_len - 2 {
        return Some(None);
    }
    idx += 2 + (buf[idx] as usize) * 256 + (buf[idx + 1] as usize);  // skip cipher suites
    if idx >= buf_len - 1 {
        return Some(None);
    }
    idx += 1 + buf[idx] as usize;  // skip compression methods
    if idx >= buf_len - 2 {
        return Some(None);
    }
    let ext_end = 2 + idx + (buf[idx] as usize) * 256 + (buf[idx + 1] as usize);
    idx += 2;

    while idx < ext_end - 4 && idx < buf_len - 4
        invariant
            buf_len == buf@.len(),
            6 <= buf_len,
            4 <= ext_end,
            spec_parse_hello(buf@) == spec_parse_body(buf@),
            spec_scan_extensions(buf@, idx as int, ext_end as int) == spec_parse_body(buf@),
        decreases (if idx <= ext_end { ext_end - idx } else { 0 }),
    {
        let extype = (buf[idx] as usize) * 256 + (buf[idx + 1] as usize);
        let extlen = (buf[idx + 2] as usize) * 256 + (buf[idx + 3] as usize);
        // The end of this extension is also where the next one starts.
        match idx.checked_add(4 + extlen) {
            Some(sniend) => {
                if extype == EXTENSION_SNI && sniend <= buf_len {
                    if sniend - idx >= 9 {
                        proof {
                            assert(spec_scan_extensions(buf@, idx as int, ext_end as int)
                                == HelloParse::Sni(buf@.subrange(idx + 9, sniend as int)));
                        }
                        let name = slice_to_vec(&buf[idx + 9..sniend]);
                        return match bytes_to_string(name) {
                            Some(s) => Some(Some(s)),
                            None => None,
                        };
                    } else {
                        return Some(None);
                    }
                }
                idx = sniend;
            },
            None => {
                // The next offset lies past any buffer a machine can hold.
                proof {
                    let next = idx + 4 + extlen;
                    assert(spec_scan_extensions(buf@, next as int, ext_end as int)
                        == HelloParse::NotTls);
                    assert(spec_scan_extensions(buf@, idx as int, ext_end as int)
                        == HelloParse::NotTls);
                }
                return Some(None);
            },
        }
    }
    Some(None)
}

/// A prefix already rejected by the fixed-position header checks: the
/// first byte is not a handshake record, the protocol version is below
/// 3.1, or the handshake type is not ClientHello.
pub open spec fn spec_header_rejected(b: Seq<u8>) -> bool {
    ||| (b.len() >= 1 && b[0] != CONTENTTYPE_HANDSHAKE)
    ||| (b.len() >= 3 && b[0] == CONTENTTYPE_HANDSHAKE && (b[1] < 3 || b[2] < 1))
    ||| (b.len() >= 6 && b[0] == CONTENTTYPE_HANDSHAKE && b[1] >= 3 && b[2] >= 1 && b[5]
        != HANDSHAKE_CLIENTHELLO)
}

/// A header rejection is final: the parser answers not-TLS, and keeps
/// answering not-TLS however the stream is extended.
pub proof fn lemma_header_reject_stable(b: Seq<u8>, ext: Seq<u8>)
    requires
        spec_header_rejected(b),
    ensures
        spec_parse_hello(b) == HelloParse::NotTls,
        spec_parse_hello(b + ext) == HelloParse::NotTls,
{
    assert(forall|i: int| 0 <= i < b.len() ==> (b + ext)[i] == b[i]);
}

proof fn lemma_scan_stable(b: Seq<u8>, ext: Seq<u8>, idx: int, ext_end: int, name: Seq<u8>)
    requires
        0 <= idx,
        spec_scan_extensions(b, idx, ext_end) == HelloParse::Sni(name),
    ensures
        spec_scan_extensions(b + ext, idx, ext_end) == HelloParse::Sni(name),
    decreases (if idx <= ext_end { ext_end - idx } else { 0 }),
{
    assert(forall|i: int| 0 <= i < b.len() ==> (b + ext)[i] == b[i]);
    let extype = b[idx] * 256 + b[idx + 1];
    let extlen = b[idx + 2] * 256 + b[idx + 3];
    let sniend = 4 + idx + extlen;
    if extype == EXTENSION_SNI && sniend <= b.len() {
        assert(b.subrange(idx + 9, sniend) =~= (b + ext).subrange(idx + 9, sniend));
    } else {
        lemma_scan_stable(b, ext, sniend, ext_end, name);
    }
}

/// An SNI answer is final: once the parser has extracted a hostname
/// from a prefix, every extension of that prefix yields the same
/// hostname.
pub proof fn lemma_sni_stable(b: Seq<u8>, ext: Seq<u8>, name: Seq<u8>)
    requires
        spec_parse_hello(b) == HelloParse::Sni(name),
    ensures
        spec_parse_hello(b + ext) == HelloParse::Sni(name),
{
    assert(forall|i: int| 0 <= i < b.len() ==> (b + ext)[i] == b[i]);
    let i0 = 43int;
    let i1 = i0 + 1 + b[i0];
    let i2 = i1 + 2 + b[i1] * 256 + b[i1 + 1];
    let i3 = i2 + 1 + b[i2];
    let ext_end = 2 + i3 + b[i3] * 256 + b[i3 + 1];
    lemma_scan_stable(b, ext, i3 + 2, ext_end, name);
}

/// The parser is deterministic: any two results allowed for the same
/// input agree, and their hostnames agree character for character.
pub proof fn lemma_parser_deterministic(
    b: Seq<u8>,
    r1: Option<Option<String>>,
    r2: Option<Option<String>>,
)
    requires
        spec_parse_result(b, r1),
        spec_parse_result(b, r2),
    ensures
        r1 is Some <==> r2 is Some,
        r1 matches Some(o1) ==> (o1 is Some <==> r2.unwrap() is Some),
        r1 matches Some(Some(s1)) ==> r2 matches Some(Some(s2)) ==> s1@ == s2@,
{
}

} // verus!
