//! The reactor's handle space and flow table: token encoding, slot
//! reuse, the full-table path, and the eager dial of a fixed backend.

use tnexus::flow::{ReadEvent, ReadStep, WriteEvent, WriteStep};
use tnexus::multiplex::{FixedPlexer, Plexer};
use tnexus::nexus::{decode_token, encode_token, AcceptStep, Nexus, ACCEPTOR, FLOW_BASE, OUTMASK};

fn fixed_nexus(capacity: usize) -> Nexus<Plexer> {
    Nexus::new(64, capacity, Plexer::Fixed(FixedPlexer::new("127.0.0.1:22")))
}

#[test]
fn tokens_round_trip() {
    assert_eq!(encode_token(2, false), 2);
    assert_eq!(encode_token(2, true), OUTMASK + 2);
    assert_eq!(decode_token(2), (true, 2));
    assert_eq!(decode_token(OUTMASK + 2), (false, 2));
    assert_eq!(decode_token(OUTMASK - 1), (true, OUTMASK - 1));
    assert_ne!(ACCEPTOR, 0);
    assert_eq!(FLOW_BASE, 2);
}

#[test]
fn accept_dials_fixed_backend_eagerly() {
    let mut nx = fixed_nexus(4);
    match nx.accept() {
        AcceptStep::Admitted { token, dial } => {
            assert_eq!(token, FLOW_BASE);
            assert_eq!(dial.as_deref(), Some("127.0.0.1:22"));
        }
        AcceptStep::Full => panic!("table cannot be full"),
    }
    assert!(nx.install_outbound(FLOW_BASE));
    // The outbound half is never installed twice.
    assert!(!nx.install_outbound(FLOW_BASE));
}

#[test]
fn full_table_turns_sockets_away() {
    let mut nx = fixed_nexus(2);
    assert!(matches!(nx.accept(), AcceptStep::Admitted { .. }));
    assert!(matches!(nx.accept(), AcceptStep::Admitted { .. }));
    // The table is full: the next accept creates nothing.
    assert!(matches!(nx.accept(), AcceptStep::Full));
    assert!(nx.find_connection_by_token(FLOW_BASE).is_some());
}

#[test]
fn slots_are_reused_after_removal() {
    let mut nx = fixed_nexus(2);
    assert!(matches!(nx.accept(), AcceptStep::Admitted { token, .. } if token == FLOW_BASE));
    assert!(matches!(nx.accept(), AcceptStep::Admitted { token, .. } if token == FLOW_BASE + 1));
    nx.stop_flow(FLOW_BASE);
    assert!(nx.find_connection_by_token(FLOW_BASE).is_none());
    assert!(matches!(nx.accept(), AcceptStep::Admitted { token, .. } if token == FLOW_BASE));
}

#[test]
fn opaque_forward_relays_server_banner() {
    // A fixed backend is dialed before the client sends anything; the
    // backend's banner flows back to the client unchanged.
    let mut nx = fixed_nexus(4);
    let token = match nx.accept() {
        AcceptStep::Admitted { token, dial } => {
            assert!(dial.is_some());
            token
        }
        AcceptStep::Full => panic!("table cannot be full"),
    };
    assert!(nx.install_outbound(token));
    let banner = b"SSH-2.0-OpenSSH_9.9\r\n".to_vec();
    let (inbo, t) = decode_token(OUTMASK + token);
    assert!(!inbo);
    assert_eq!(t, token);
    assert!(matches!(
        nx.flow_read(t, inbo, ReadEvent::Data(banner.clone())),
        Some(ReadStep::Forwarded)
    ));
    assert!(matches!(nx.flow_after_read(t, inbo), Some(ReadStep::Continue)));
    // The client side becomes writable and receives the banner.
    match nx.flow_write(token, true, WriteEvent::Ready) {
        Some(WriteStep::Data(chunk)) => assert_eq!(chunk, banner),
        _ => panic!("expected the banner"),
    }
    assert!(matches!(
        nx.flow_write(token, true, WriteEvent::Wrote(banner.len())),
        Some(WriteStep::Continue)
    ));
    assert!(matches!(
        nx.flow_write(token, true, WriteEvent::Flush),
        Some(WriteStep::Idle(false))
    ));
}

#[test]
fn stale_events_are_ignored() {
    let mut nx = fixed_nexus(2);
    assert!(nx.flow_read(FLOW_BASE, true, ReadEvent::Eof).is_none());
    assert!(nx.flow_write(7, true, WriteEvent::Ready).is_none());
    assert!(nx.find_connection_by_token(99).is_none());
    nx.stop_flow(99); // out of range; ignored
}
