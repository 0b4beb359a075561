use multistream::address::{ConnectPlan, ListenPlan, ServerKey, StreamAddress};
use multistream::client::connect_plan;
use multistream::error::{ErrorKind, MultiStreamError};
use multistream::server::{accepted_peer, listen_plan, CertAndKeyFilePaths};

fn cred_paths() -> CertAndKeyFilePaths {
    CertAndKeyFilePaths::new(String::from("cert.pem"), String::from("key.pem"))
}

#[test]
fn connect_on_server_rooted_secure_intent_is_illegal_state() {
    let key = ServerKey::new(String::from("cert.pem"), String::from("key.pem"));
    let intent = StreamAddress::tls(String::from("0.0.0.0:443"), Some(key));
    let err = intent.connect().unwrap_err();
    assert_eq!(err.kind, ErrorKind::IllegalState);
}

#[test]
fn listen_on_client_rooted_secure_intent_is_illegal_state() {
    let intent = StreamAddress::tls(String::from("example.com:443"), None);
    let err = intent.listen().unwrap_err();
    assert_eq!(err.kind, ErrorKind::IllegalState);
}

#[test]
fn connect_dispatch_matches_each_variant() {
    let plan = StreamAddress::tcp(String::from("example.com:80")).connect().unwrap();
    assert!(matches!(plan, ConnectPlan::Tcp(e) if e == "example.com:80"));
    let plan = StreamAddress::tls(String::from("example.com:443"), None).connect().unwrap();
    assert!(matches!(plan, ConnectPlan::Tls(h) if h == "example.com:443"));
    let plan = StreamAddress::unix(String::from("/run/app.sock")).connect().unwrap();
    assert!(matches!(plan, ConnectPlan::Unix(p) if p == "/run/app.sock"));
}

#[test]
fn listen_dispatch_matches_each_variant() {
    let plan = StreamAddress::tcp(String::from("0.0.0.0:80")).listen().unwrap();
    assert!(matches!(plan, ListenPlan::Tcp(e) if e == "0.0.0.0:80"));
    let key = ServerKey::new(String::from("cert.pem"), String::from("key.pem"));
    let plan = StreamAddress::tls(String::from("0.0.0.0:443"), Some(key)).listen().unwrap();
    match plan {
        ListenPlan::Tls(host, key) => {
            assert_eq!(host.as_str(), "0.0.0.0:443");
            assert_eq!(key.cert_file().as_str(), "cert.pem");
            assert_eq!(key.key_file().as_str(), "key.pem");
        },
        other => panic!("expected a TLS bind action, got {:?}", other),
    }
    let plan = StreamAddress::unix(String::from("/run/app.sock")).listen().unwrap();
    assert!(matches!(plan, ListenPlan::Unix(p) if p == "/run/app.sock"));
}

#[test]
fn tcp_echo_addresses_plan_as_plaintext() {
    let bind = listen_plan("tcp://127.0.0.1:0", None).unwrap();
    assert!(matches!(bind, ListenPlan::Tcp(e) if e == "127.0.0.1:0"));
    let dial = connect_plan("tcp://127.0.0.1:45007");
    assert!(matches!(dial, ConnectPlan::Tcp(e) if e == "127.0.0.1:45007"));
}

#[test]
fn unix_echo_addresses_plan_as_unix() {
    let bind = listen_plan("unix:///tmp/test.sock", None).unwrap();
    assert!(matches!(bind, ListenPlan::Unix(p) if p == "/tmp/test.sock"));
    let dial = connect_plan("unix:///tmp/test.sock");
    assert!(matches!(dial, ConnectPlan::Unix(p) if p == "/tmp/test.sock"));
}

#[test]
fn unix_peer_identity_is_the_bound_path() {
    let plan = listen_plan("unix:///tmp/test.sock", None).unwrap();
    let peer = accepted_peer(&plan, String::from("unnamed"));
    assert_eq!(peer.as_str(), "/tmp/test.sock");
}

#[test]
fn tcp_peer_identity_is_the_remote_address() {
    let plan = listen_plan("tcp://127.0.0.1:0", None).unwrap();
    let peer = accepted_peer(&plan, String::from("127.0.0.1:51234"));
    assert_eq!(peer.as_str(), "127.0.0.1:51234");
}

#[test]
fn schemeless_client_address_never_plans_plaintext() {
    let plan = connect_plan("nonexistent.invalid:9999");
    assert!(matches!(plan, ConnectPlan::Tls(h) if h == "nonexistent.invalid:9999"));
}

#[test]
fn listen_plan_with_credential_is_tls() {
    let plan = listen_plan("0.0.0.0:443", Some(cred_paths())).unwrap();
    match plan {
        ListenPlan::Tls(host, key) => {
            assert_eq!(host.as_str(), "0.0.0.0:443");
            assert_eq!(key.cert_file().as_str(), "cert.pem");
        },
        other => panic!("expected a TLS bind action, got {:?}", other),
    }
}

#[test]
fn listen_plan_tls_scheme_without_credential_is_illegal_state() {
    let err = listen_plan("tls://0.0.0.0:443", None).unwrap_err();
    assert_eq!(err.kind, ErrorKind::IllegalState);
}

#[test]
fn cert_and_key_file_paths_keep_their_fields() {
    let paths = cred_paths();
    assert_eq!(paths.cert.as_str(), "cert.pem");
    assert_eq!(paths.key.as_str(), "key.pem");
}

#[test]
fn error_constructor_keeps_kind_and_message() {
    let err = MultiStreamError::new(ErrorKind::Handshake, String::from("bad certificate"));
    assert_eq!(err.kind, ErrorKind::Handshake);
    assert_eq!(err.message.as_str(), "bad certificate");
    let err = MultiStreamError::new(ErrorKind::Resolution, String::from("no such host"));
    assert_eq!(err.kind, ErrorKind::Resolution);
    let err = MultiStreamError::new(ErrorKind::Connection, String::from("connection refused"));
    assert_eq!(err.kind, ErrorKind::Connection);
    let err = MultiStreamError::new(ErrorKind::Io, String::from("connection reset"));
    assert_eq!(err.kind, ErrorKind::Io);
}
