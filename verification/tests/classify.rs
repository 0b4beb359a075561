use multistream::address::{classify, Role, ServerKey, StreamAddress, TlsType};
use multistream::error::ErrorKind;

fn cred() -> ServerKey {
    ServerKey::new(String::from("cert.pem"), String::from("key.pem"))
}

#[test]
fn unix_prefix_wins_for_every_role() {
    let expected = StreamAddress::unix(String::from("/tmp/x.sock"));
    let client = classify("unix:///tmp/x.sock", Role::Client, None).unwrap();
    assert_eq!(client, expected);
    let server = classify("unix:///tmp/x.sock", Role::Server, Some(cred())).unwrap();
    assert_eq!(server, expected);
    let bare_server = classify("unix:///tmp/x.sock", Role::Server, None).unwrap();
    assert_eq!(bare_server, expected);
}

#[test]
fn tcp_prefix_wins_for_every_role() {
    let expected = StreamAddress::tcp(String::from("example.com:80"));
    let client = classify("tcp://example.com:80", Role::Client, None).unwrap();
    assert_eq!(client, expected);
    let server = classify("tcp://example.com:80", Role::Server, Some(cred())).unwrap();
    assert_eq!(server, expected);
    let bare_server = classify("tcp://example.com:80", Role::Server, None).unwrap();
    assert_eq!(bare_server, expected);
}

#[test]
fn tls_prefix_for_client_is_client_rooted_secure() {
    let intent = classify("tls://example.com:443", Role::Client, None).unwrap();
    assert_eq!(intent, StreamAddress::tls(String::from("example.com:443"), None));
}

#[test]
fn tls_prefix_for_server_with_credential_is_server_rooted_secure() {
    let intent = classify("tls://0.0.0.0:443", Role::Server, Some(cred())).unwrap();
    assert_eq!(intent, StreamAddress::tls(String::from("0.0.0.0:443"), Some(cred())));
}

#[test]
fn tls_prefix_for_server_without_credential_is_illegal_state() {
    let err = classify("tls://0.0.0.0:443", Role::Server, None).unwrap_err();
    assert_eq!(err.kind, ErrorKind::IllegalState);
}

#[test]
fn default_client_is_secure() {
    let intent = classify("example.com:443", Role::Client, None).unwrap();
    assert_eq!(intent, StreamAddress::tls(String::from("example.com:443"), None));
}

#[test]
fn default_server_with_credential_is_secure() {
    let intent = classify("0.0.0.0:443", Role::Server, Some(cred())).unwrap();
    assert_eq!(intent, StreamAddress::tls(String::from("0.0.0.0:443"), Some(cred())));
}

#[test]
fn default_server_without_credential_is_plain() {
    let intent = classify("0.0.0.0:80", Role::Server, None).unwrap();
    assert_eq!(intent, StreamAddress::tcp(String::from("0.0.0.0:80")));
}

#[test]
fn opaque_scheme_is_stripped_then_defaulted() {
    let client = classify("http://example.com:80", Role::Client, None).unwrap();
    assert_eq!(client, StreamAddress::tls(String::from("example.com:80"), None));
    let server = classify("http://0.0.0.0:80", Role::Server, None).unwrap();
    assert_eq!(server, StreamAddress::tcp(String::from("0.0.0.0:80")));
}

#[test]
fn classify_is_idempotent() {
    let first = classify("tcp://example.com:80", Role::Client, None).unwrap();
    let second = classify("tcp://example.com:80", Role::Client, None).unwrap();
    assert_eq!(first, second);

    let first = classify("example.com:443", Role::Client, None).unwrap();
    let second = classify("example.com:443", Role::Client, None).unwrap();
    assert_eq!(first, second);

    let first = classify("0.0.0.0:443", Role::Server, Some(cred())).unwrap();
    let second = classify("0.0.0.0:443", Role::Server, Some(cred())).unwrap();
    assert_eq!(first, second);

    let first = classify("unix:///run/app.sock", Role::Server, None).unwrap();
    let second = classify("unix:///run/app.sock", Role::Server, None).unwrap();
    assert_eq!(first, second);
}

#[test]
fn intent_equality_tells_variants_apart() {
    let tcp = StreamAddress::tcp(String::from("h:1"));
    let tls = StreamAddress::tls(String::from("h:1"), None);
    let unix = StreamAddress::unix(String::from("h:1"));
    assert_ne!(tcp, tls);
    assert_ne!(tcp, unix);
    assert_ne!(tls, unix);
    assert_ne!(
        StreamAddress::tls(String::from("h:1"), None),
        StreamAddress::tls(String::from("h:1"), Some(cred()))
    );
    assert_eq!(
        StreamAddress::Tls(TlsType::Client(String::from("h:1"))),
        StreamAddress::tls(String::from("h:1"), None)
    );
}

#[test]
fn empty_address_falls_to_the_default_rule() {
    let client = classify("", Role::Client, None).unwrap();
    assert_eq!(client, StreamAddress::tls(String::new(), None));
    let server = classify("", Role::Server, None).unwrap();
    assert_eq!(server, StreamAddress::tcp(String::new()));
}

#[test]
fn bare_separator_is_stripped_like_any_opaque_scheme() {
    let client = classify("://example.com:1", Role::Client, None).unwrap();
    assert_eq!(client, StreamAddress::tls(String::from("example.com:1"), None));
}

#[test]
fn server_key_keeps_its_paths() {
    let key = cred();
    assert_eq!(key.cert_file().as_str(), "cert.pem");
    assert_eq!(key.key_file().as_str(), "key.pem");
}
