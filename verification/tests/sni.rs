//! The ClientHello parser and the multiplexer policies, over crafted
//! TLS records and plain traffic.

use tnexus::flow::{ReadEvent, ReadStep, WriteEvent, WriteStep};
use tnexus::multiplex::{FixedPlexer, Multiplexer, Plexer, SniMap, SniPlexer, MR};
use tnexus::nexus::{AcceptStep, Nexus};
use tnexus::tls::parse_tls_client_hello;

/// A complete TLS ClientHello record whose extensions block holds the
/// given extension type with a server-name-shaped payload for `name`.
fn hello_with_extension(ext_type: u16, name: &[u8]) -> Vec<u8> {
    let mut v: Vec<u8> = vec![22, 3, 1, 0, 0]; // record header; length patched below
    v.push(1); // handshake type: ClientHello
    v.extend_from_slice(&[0, 0, 0]); // handshake length (unused by the parser)
    v.extend_from_slice(&[3, 3]); // client version
    v.extend_from_slice(&[0u8; 32]); // random
    v.push(0); // session_id length
    v.extend_from_slice(&[0, 2, 0x13, 0x01]); // cipher suites
    v.extend_from_slice(&[1, 0]); // compression methods
    let mut ext: Vec<u8> = Vec::new();
    ext.extend_from_slice(&ext_type.to_be_bytes());
    let data_len = (2 + 1 + 2 + name.len()) as u16;
    ext.extend_from_slice(&data_len.to_be_bytes());
    ext.extend_from_slice(&((name.len() + 3) as u16).to_be_bytes()); // server name list length
    ext.push(0); // name type: host_name
    ext.extend_from_slice(&(name.len() as u16).to_be_bytes());
    ext.extend_from_slice(name);
    v.extend_from_slice(&(ext.len() as u16).to_be_bytes());
    v.extend_from_slice(&ext);
    let rec_len = v.len() - 5;
    v[3] = (rec_len >> 8) as u8;
    v[4] = (rec_len & 0xff) as u8;
    v
}

fn client_hello(name: &[u8]) -> Vec<u8> {
    hello_with_extension(0, name)
}

fn sni_plexer() -> SniPlexer {
    let mut map = SniMap::new();
    map.insert("redhat.com".to_string(), "10.0.0.1:443".to_string());
    SniPlexer::new("127.0.0.1:443", map)
}

#[test]
fn empty_prefix_needs_more() {
    assert_eq!(parse_tls_client_hello(&[]), None);
}

#[test]
fn truncated_record_needs_more() {
    // A TLS record truncated after 4 bytes cannot be decided yet.
    assert_eq!(parse_tls_client_hello(&[22, 3, 1, 0]), None);
}

#[test]
fn incomplete_record_needs_more() {
    let hello = client_hello(b"redhat.com");
    for l in 0..hello.len() {
        assert_eq!(parse_tls_client_hello(&hello[..l.min(hello.len())]), None, "prefix {}", l);
    }
}

#[test]
fn ssh_banner_is_not_tls() {
    assert_eq!(parse_tls_client_hello(b"SSH-2.0-OpenSSH\r\n"), Some(None));
}

#[test]
fn http_request_is_not_tls() {
    assert_eq!(parse_tls_client_hello(b"GET / HTTP/1.1\r\n"), Some(None));
}

#[test]
fn bad_version_is_not_tls() {
    assert_eq!(parse_tls_client_hello(&[22, 2, 0, 0, 0, 1]), Some(None));
}

#[test]
fn extracts_sni_hostname() {
    let hello = client_hello(b"redhat.com");
    assert_eq!(parse_tls_client_hello(&hello), Some(Some("redhat.com".to_string())));
}

#[test]
fn record_without_sni_extension() {
    // Complete record, extensions present, but none of type server_name.
    let hello = hello_with_extension(0x0010, b"ignored");
    assert_eq!(parse_tls_client_hello(&hello), Some(None));
}

#[test]
fn invalid_utf8_hostname_waits() {
    let hello = client_hello(&[0xff, 0xfe, 0xfd]);
    assert_eq!(parse_tls_client_hello(&hello), None);
}

#[test]
fn parser_is_deterministic() {
    let hello = client_hello(b"a.example");
    let first = parse_tls_client_hello(&hello);
    let second = parse_tls_client_hello(&hello);
    assert_eq!(first, second);
    assert_eq!(first, Some(Some("a.example".to_string())));
}

#[test]
fn fixed_matches_empty_prefix() {
    let p = FixedPlexer::new("127.0.0.1:22");
    match p.destination(&[]) {
        MR::Match(a) => assert_eq!(a, "127.0.0.1:22"),
        _ => panic!("fixed policy must match at once"),
    }
}

#[test]
fn sni_needs_more_on_empty_prefix() {
    let p = sni_plexer();
    assert!(matches!(p.destination(&[]), MR::NeedMore));
}

#[test]
fn sni_routes_known_hostname() {
    let p = sni_plexer();
    let hello = client_hello(b"redhat.com");
    match p.destination(&hello) {
        MR::Match(a) => assert_eq!(a, "10.0.0.1:443"),
        _ => panic!("expected a match"),
    }
}

#[test]
fn sni_miss_routes_to_default() {
    let p = sni_plexer();
    let hello = client_hello(b"unknown.example");
    match p.destination(&hello) {
        MR::Match(a) => assert_eq!(a, "127.0.0.1:443"),
        _ => panic!("expected the default backend"),
    }
}

#[test]
fn non_tls_routes_to_default() {
    let p = sni_plexer();
    match p.destination(b"GET / HTTP/1.1\r\n") {
        MR::Match(a) => assert_eq!(a, "127.0.0.1:443"),
        _ => panic!("expected the default backend"),
    }
}

#[test]
fn decisions_are_monotone_over_prefixes() {
    // Lengthening prefixes of one input: zero or more NeedMore answers,
    // then one terminal answer that is stable under further extension.
    let p = sni_plexer();
    let hello = client_hello(b"redhat.com");
    let mut terminal: Option<String> = None;
    for l in 0..=hello.len() {
        match p.destination(&hello[..l]) {
            MR::NeedMore => {
                assert!(terminal.is_none(), "NeedMore after a terminal answer at {}", l);
            }
            MR::Match(a) => match &terminal {
                None => terminal = Some(a),
                Some(prev) => assert_eq!(&a, prev, "terminal answer changed at {}", l),
            },
            MR::Mismatch => panic!("the SNI policy never answers a mismatch"),
        }
    }
    assert_eq!(terminal.as_deref(), Some("10.0.0.1:443"));
}

#[test]
fn match_is_stable_under_extension() {
    let p = sni_plexer();
    let mut data = client_hello(b"redhat.com");
    let full = match p.destination(&data) {
        MR::Match(a) => a,
        _ => panic!("expected a match"),
    };
    data.extend_from_slice(b"application data that follows the handshake");
    match p.destination(&data) {
        MR::Match(a) => assert_eq!(a, full),
        _ => panic!("a parsed SNI answer must stand under extension"),
    }
}

#[test]
fn sni_flow_dials_and_forwards_prefix() {
    // The whole peeked ClientHello reaches the chosen backend, in order.
    let mut nx = Nexus::new(4096, 4, Plexer::Sni(sni_plexer()));
    let token = match nx.accept() {
        AcceptStep::Admitted { token, dial } => {
            assert!(dial.is_none(), "the SNI policy cannot dial before any byte");
            token
        }
        AcceptStep::Full => panic!("table cannot be full"),
    };
    let hello = client_hello(b"redhat.com");
    match nx.flow_read(token, true, ReadEvent::Data(hello.clone())) {
        Some(ReadStep::Dial(addr)) => assert_eq!(addr, "10.0.0.1:443"),
        _ => panic!("expected a dial"),
    }
    assert!(nx.install_outbound(token));
    match nx.flow_write(token, false, WriteEvent::Ready) {
        Some(WriteStep::Data(chunk)) => assert_eq!(chunk, hello),
        _ => panic!("expected the client hello"),
    }
}

#[test]
fn snimap_later_binding_wins() {
    let mut map = SniMap::new();
    map.insert("a.example".to_string(), "10.0.0.1:1".to_string());
    map.insert("a.example".to_string(), "10.0.0.2:2".to_string());
    assert_eq!(map.get(&"a.example".to_string()), Some(&"10.0.0.2:2".to_string()));
    assert_eq!(map.get(&"b.example".to_string()), None);
}

#[test]
fn snimap_snapshot_copies_entries() {
    let mut map = SniMap::new();
    map.insert("a.example".to_string(), "10.0.0.1:1".to_string());
    map.insert("b.example".to_string(), "10.0.0.2:2".to_string());
    let snap = map.snapshot();
    assert_eq!(snap.len(), 2);
    let (h, a) = snap.entry_at(0);
    assert_eq!((h.as_str(), a.as_str()), ("a.example", "10.0.0.1:1"));
    let (h, a) = snap.entry_at(1);
    assert_eq!((h.as_str(), a.as_str()), ("b.example", "10.0.0.2:2"));
}
