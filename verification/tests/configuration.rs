//! Configuration parsing: the TOML schema, the command-line fallback,
//! each rejection, and the control API's message contract.

use tnexus::api::{handle_api_msg, ApiMsg, ExampleResponse};
use tnexus::config::{configure, install_api_host, ConfigError, Endpoint, BUF_SIZE};
use tnexus::multiplex::Plexer;

fn args(v: &[&str]) -> Vec<String> {
    v.iter().map(|s| s.to_string()).collect()
}

fn conf(text: &str) -> Result<Endpoint, ConfigError> {
    configure(Some(&text.to_string()), &args(&["tnexus"]))
}

#[test]
fn fixed_destination_from_file() {
    let ep = conf(
        "[[listen]]\n\
         name = \"ssh\"\n\
         endpoint = \"0.0.0.0:2222\"\n\
         destination = \"127.0.0.1:22\"\n",
    )
    .unwrap();
    assert_eq!(ep.bufsize, BUF_SIZE);
    assert_eq!(ep.listen, "0.0.0.0:2222");
    assert!(ep.api.is_none());
    match &ep.destination {
        Plexer::Fixed(f) => assert_eq!(f.destination_addr, "127.0.0.1:22"),
        _ => panic!("expected a fixed policy"),
    }
}

#[test]
fn sni_multiplexer_from_file() {
    let ep = conf(
        "[global]\n\
         bufsize = 2048\n\
         [[listen]]\n\
         name = \"tls\"\n\
         endpoint = \"0.0.0.0:443\"\n\
         sni_missing = \"127.0.0.1:8443\"\n\
         [listen.multiplex]\n\
         \"redhat.com\" = \"10.0.0.1:443\"\n\
         \"a.example\" = \"10.0.0.2:443\"\n",
    )
    .unwrap();
    assert_eq!(ep.bufsize, 2048);
    assert_eq!(ep.listen, "0.0.0.0:443");
    assert!(ep.api.is_none());
    match &ep.destination {
        Plexer::Sni(p) => {
            assert_eq!(p.default_addr, "127.0.0.1:8443");
            assert_eq!(
                p.sni_map.get(&"redhat.com".to_string()),
                Some(&"10.0.0.1:443".to_string())
            );
            assert_eq!(
                p.sni_map.get(&"a.example".to_string()),
                Some(&"10.0.0.2:443".to_string())
            );
        }
        _ => panic!("expected an SNI policy"),
    }
}

#[test]
fn api_attributes_are_read_and_host_installed() {
    let mut ep = conf(
        "[[listen]]\n\
         name = \"tls\"\n\
         endpoint = \"0.0.0.0:443\"\n\
         sni_missing = \"127.0.0.1:8443\"\n\
         api_key = \"api_key.pem\"\n\
         api_cert = \"api_cert.pem\"\n\
         api_authorized_cert = \"client_cert.pem\"\n\
         [listen.multiplex]\n\
         \"redhat.com\" = \"10.0.0.1:443\"\n",
    )
    .unwrap();
    let api = ep.api.as_ref().expect("the API must be configured");
    assert_eq!(api.key, "api_key.pem");
    assert_eq!(api.cert, "api_cert.pem");
    assert_eq!(api.authorized_cert, "client_cert.pem");
    // Once the API has started, its hostname routes to it.
    install_api_host(&mut ep, "127.0.0.1:9443".to_string());
    match &ep.destination {
        Plexer::Sni(p) => assert_eq!(
            p.sni_map.get(&"tnexus.net".to_string()),
            Some(&"127.0.0.1:9443".to_string())
        ),
        _ => panic!("expected an SNI policy"),
    }
}

#[test]
fn cmdline_fallback_without_file() {
    let ep = configure(None, &args(&["tnexus", "0.0.0.0:443", "10.0.0.9:443"])).unwrap();
    assert_eq!(ep.bufsize, BUF_SIZE);
    assert_eq!(ep.listen, "0.0.0.0:443");
    match &ep.destination {
        Plexer::Fixed(f) => assert_eq!(f.destination_addr, "10.0.0.9:443"),
        _ => panic!("expected a fixed policy"),
    }
}

#[test]
fn cmdline_fallback_on_unparsable_file() {
    let ep = configure(
        Some(&"this is { not toml".to_string()),
        &args(&["tnexus", "0.0.0.0:443", "10.0.0.9:443"]),
    )
    .unwrap();
    assert_eq!(ep.listen, "0.0.0.0:443");
}

#[test]
fn too_few_arguments_are_usage() {
    assert!(matches!(
        configure(None, &args(&["tnexus", "only-one"])),
        Err(ConfigError::Usage)
    ));
}

#[test]
fn bad_bufsize_is_rejected() {
    let r = conf(
        "[global]\n\
         bufsize = 0\n\
         [[listen]]\n\
         name = \"x\"\n\
         endpoint = \"0.0.0.0:1\"\n\
         destination = \"127.0.0.1:2\"\n",
    );
    assert!(matches!(r, Err(ConfigError::BadBufsize)));
}

#[test]
fn missing_listen_section_is_rejected() {
    assert!(matches!(conf("x = 1\n"), Err(ConfigError::NoListenSection)));
}

#[test]
fn empty_listen_section_is_rejected() {
    assert!(matches!(conf("listen = []\n"), Err(ConfigError::EmptyListen)));
}

#[test]
fn non_table_listen_entry_is_rejected() {
    assert!(matches!(conf("listen = [1]\n"), Err(ConfigError::BadListenEntry)));
}

#[test]
fn missing_endpoint_is_rejected() {
    let r = conf(
        "[[listen]]\n\
         name = \"x\"\n\
         destination = \"127.0.0.1:2\"\n",
    );
    match r {
        Err(ConfigError::MissingAttr(a)) => assert_eq!(a, "endpoint"),
        _ => panic!("expected the missing attribute"),
    }
}

#[test]
fn missing_sni_default_is_rejected() {
    let r = conf(
        "[[listen]]\n\
         name = \"x\"\n\
         endpoint = \"0.0.0.0:443\"\n\
         [listen.multiplex]\n\
         \"a.example\" = \"10.0.0.1:443\"\n",
    );
    match r {
        Err(ConfigError::MissingAttr(a)) => assert_eq!(a, "sni_missing"),
        _ => panic!("expected the missing attribute"),
    }
}

#[test]
fn non_string_sni_entry_is_rejected() {
    let r = conf(
        "[[listen]]\n\
         name = \"x\"\n\
         endpoint = \"0.0.0.0:443\"\n\
         sni_missing = \"127.0.0.1:8443\"\n\
         [listen.multiplex]\n\
         \"a.example\" = 7\n",
    );
    assert!(matches!(r, Err(ConfigError::BadSniMap)));
}

#[test]
fn missing_api_cert_is_rejected() {
    let r = conf(
        "[[listen]]\n\
         name = \"x\"\n\
         endpoint = \"0.0.0.0:443\"\n\
         sni_missing = \"127.0.0.1:8443\"\n\
         api_key = \"k.pem\"\n\
         [listen.multiplex]\n\
         \"a.example\" = \"10.0.0.1:443\"\n",
    );
    match r {
        Err(ConfigError::MissingAttr(a)) => assert_eq!(a, "api_cert"),
        _ => panic!("expected the missing attribute"),
    }
}

#[test]
fn missing_name_is_rejected() {
    let r = conf(
        "[[listen]]\n\
         endpoint = \"0.0.0.0:443\"\n\
         destination = \"127.0.0.1:2\"\n",
    );
    match r {
        Err(ConfigError::MissingAttr(a)) => assert_eq!(a, "name"),
        _ => panic!("expected the missing attribute"),
    }
}

#[test]
fn negative_bufsize_is_rejected() {
    let r = conf(
        "[global]\n\
         bufsize = -5\n\
         [[listen]]\n\
         name = \"x\"\n\
         endpoint = \"0.0.0.0:1\"\n\
         destination = \"127.0.0.1:2\"\n",
    );
    assert!(matches!(r, Err(ConfigError::BadBufsize)));
}

#[test]
fn api_host_is_not_installed_on_a_fixed_policy() {
    let mut ep = configure(None, &args(&["tnexus", "0.0.0.0:443", "10.0.0.9:443"])).unwrap();
    install_api_host(&mut ep, "127.0.0.1:9443".to_string());
    match &ep.destination {
        Plexer::Fixed(f) => assert_eq!(f.destination_addr, "10.0.0.9:443"),
        _ => panic!("expected a fixed policy"),
    }
}

#[test]
fn stray_response_message_is_ignored() {
    let table = tnexus::multiplex::SniMap::new();
    let (reply, quit) = handle_api_msg(&ApiMsg::SniResponse(table.snapshot()), &table);
    assert!(reply.is_none());
    assert!(!quit);
}

#[test]
fn snapshot_request_is_answered() {
    let ep = conf(
        "[[listen]]\n\
         name = \"tls\"\n\
         endpoint = \"0.0.0.0:443\"\n\
         sni_missing = \"127.0.0.1:8443\"\n\
         [listen.multiplex]\n\
         \"redhat.com\" = \"10.0.0.1:443\"\n",
    )
    .unwrap();
    let table = match &ep.destination {
        Plexer::Sni(p) => p.sni_map.snapshot(),
        _ => panic!("expected an SNI policy"),
    };
    let (reply, quit) = handle_api_msg(&ApiMsg::SniRequest, &table);
    assert!(!quit);
    match reply {
        Some(ApiMsg::SniResponse(m)) => {
            assert_eq!(m.len(), 1);
            let (h, a) = m.entry_at(0);
            assert_eq!((h.as_str(), a.as_str()), ("redhat.com", "10.0.0.1:443"));
            let body = ExampleResponse::new(m);
            assert_eq!(body.map.len(), 1);
        }
        _ => panic!("expected the snapshot"),
    }
}

#[test]
fn quit_request_stops_the_reactor() {
    let table = tnexus::multiplex::SniMap::new();
    let (reply, quit) = handle_api_msg(&ApiMsg::Quit, &table);
    assert!(reply.is_none());
    assert!(quit);
}
