use lldb_remote::remote_url::{EncodingError, RemoteUrl, RemoteUrlScheme};

const ALL: [(RemoteUrlScheme, &str); 10] = [
    (RemoteUrlScheme::Listen, "listen"),
    (RemoteUrlScheme::Accept, "accept"),
    (RemoteUrlScheme::UnixAccept, "unix-accept"),
    (RemoteUrlScheme::Connect, "connect"),
    (RemoteUrlScheme::TcpConnect, "tcp-connect"),
    (RemoteUrlScheme::Udp, "udp"),
    (RemoteUrlScheme::UnixConnect, "unix-connect"),
    (RemoteUrlScheme::UnixAbstractConnect, "unix-abstract-connect"),
    (RemoteUrlScheme::Fd, "fd"),
    (RemoteUrlScheme::File, "file"),
];

#[test]
fn scheme_tokens() {
    for (scheme, token) in ALL {
        assert_eq!(scheme.as_str(), token);
    }
}

#[test]
fn bare_target_serializes_to_scheme_and_host() {
    for (scheme, token) in ALL {
        let url = RemoteUrl::new(scheme, "example.org");
        assert_eq!(url.serialize(), Ok(format!("{}://example.org", token)));
    }
}

#[test]
fn tcp_connect_with_port() {
    let mut url = RemoteUrl::new(RemoteUrlScheme::TcpConnect, "192.168.1.5");
    url.port(1234);
    assert_eq!(url.serialize().unwrap(), "tcp-connect://192.168.1.5:1234");
}

#[test]
fn file_with_path() {
    let mut url = RemoteUrl::new(RemoteUrlScheme::File, "localhost");
    url.path("var/log");
    assert_eq!(url.serialize().unwrap(), "file://localhost/var/log");
}

#[test]
fn port_goes_between_host_and_path() {
    let mut url = RemoteUrl::new(RemoteUrlScheme::Connect, "h");
    url.path("p");
    assert_eq!(url.serialize().unwrap(), "connect://h/p");
    url.port(80);
    assert_eq!(url.serialize().unwrap(), "connect://h:80/p");
}

#[test]
fn path_goes_after_port() {
    let mut url = RemoteUrl::new(RemoteUrlScheme::Udp, "h");
    url.port(7);
    assert_eq!(url.serialize().unwrap(), "udp://h:7");
    url.path("a/b");
    assert_eq!(url.serialize().unwrap(), "udp://h:7/a/b");
}

#[test]
fn builder_order_does_not_matter() {
    let mut a = RemoteUrl::new(RemoteUrlScheme::UnixConnect, "sock");
    a.port(4242).path("x");
    let mut b = RemoteUrl::new(RemoteUrlScheme::UnixConnect, "sock");
    b.path("x").port(4242);
    assert_eq!(a.serialize(), b.serialize());
    assert_eq!(a.serialize().unwrap(), "unix-connect://sock:4242/x");
}

#[test]
fn last_write_wins() {
    let mut url = RemoteUrl::new(RemoteUrlScheme::Fd, "3");
    url.port(1).port(2).path("a").path("b");
    assert_eq!(url.serialize().unwrap(), "fd://3:2/b");
}

#[test]
fn extreme_ports() {
    let mut url = RemoteUrl::new(RemoteUrlScheme::Listen, "*");
    url.port(0);
    assert_eq!(url.serialize().unwrap(), "listen://*:0");
    url.port(65535);
    assert_eq!(url.serialize().unwrap(), "listen://*:65535");
    url.port(10);
    assert_eq!(url.serialize().unwrap(), "listen://*:10");
}

#[test]
fn empty_path_still_adds_slash() {
    let mut url = RemoteUrl::new(RemoteUrlScheme::Accept, "h");
    url.path("");
    assert_eq!(url.serialize().unwrap(), "accept://h/");
}

#[test]
fn nul_in_host_is_rejected() {
    let url = RemoteUrl::new(RemoteUrlScheme::TcpConnect, "ab\0cd");
    assert_eq!(url.serialize(), Err(EncodingError { position: 16 }));
}

#[test]
fn nul_in_path_is_rejected() {
    let mut url = RemoteUrl::new(RemoteUrlScheme::File, "h");
    url.port(5).path("a\0b\0");
    assert_eq!(url.serialize(), Err(EncodingError { position: 12 }));
}

#[test]
fn non_ascii_positions_count_characters() {
    let url = RemoteUrl::new(RemoteUrlScheme::Fd, "é\0");
    assert_eq!(url.serialize(), Err(EncodingError { position: 6 }));
    let ok = RemoteUrl::new(RemoteUrlScheme::Fd, "héllo");
    assert_eq!(ok.serialize().unwrap(), "fd://héllo");
}

#[test]
fn clone_serializes_the_same() {
    let mut url = RemoteUrl::new(RemoteUrlScheme::TcpConnect, "h");
    url.port(1).path("p");
    let copy = url.clone();
    url.port(2);
    assert_eq!(copy.serialize().unwrap(), "tcp-connect://h:1/p");
    assert_eq!(url.serialize().unwrap(), "tcp-connect://h:2/p");
}
