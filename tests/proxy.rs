use sailor::address::{IpAddress, SocketAddress};
use sailor::application::Application;
use sailor::configuration::{CoreConfiguration, CurrentConfiguration};
use sailor::proxy::{
    FetchError, LocalPage, LocalResponse, ProxyError, ProxyState, Served, WEB_HOSTNAME,
};

fn table() -> CurrentConfiguration {
    CurrentConfiguration::new(CoreConfiguration { port: 4250 })
        .create(Application {
            hostname: "a.test".to_string(),
            address: SocketAddress { ip: IpAddress::V4(0x7f00_0001), port: 9001 },
        })
        .unwrap()
}

fn local_response(state: ProxyState<&'static str>) -> LocalResponse {
    match state {
        ProxyState::Done { response: Served::Local(r) } => r,
        other => panic!("unexpected state {other:?}"),
    }
}

#[test]
fn unknown_host_gets_unknown_host_page() {
    let s: ProxyState<&'static str> =
        ProxyState::new().route(Some("unknown.example".to_string()), &table());
    match &s {
        ProxyState::ServingLocal { page: LocalPage::UnknownHost { host } } => {
            assert_eq!(host, "unknown.example")
        }
        other => panic!("unexpected state {other:?}"),
    }
    let r = local_response(s.rendered());
    assert_eq!(r.status, 404);
    assert_eq!(r.body, "<h1>[sailor] unknown host unknown.example</h1>\n");
}

#[test]
fn unreachable_backend_gets_connection_error_page() {
    let s: ProxyState<&'static str> = ProxyState::new().route(Some("a.test".to_string()), &table());
    assert!(matches!(s, ProxyState::Forwarding { .. }));
    let s = s.fetched(Err(FetchError::Connection("Connection refused (os error 111)".to_string())));
    assert!(matches!(
        s,
        ProxyState::ServingLocal {
            page: LocalPage::Failed { error: ProxyError::FetchError(FetchError::Connection(_)) }
        }
    ));
    let r = local_response(s.rendered());
    assert_eq!(r.status, 500);
    assert_eq!(
        r.body,
        "<h1>[sailor] failed to connect to target address</h1><pre><code>Connection</code></pre>\n"
    );
}

#[test]
fn failed_handshake_and_send_name_their_step() {
    for (error, kind) in [
        (FetchError::Handshake("h".to_string()), "Handshake"),
        (FetchError::Send("s".to_string()), "Send"),
    ] {
        assert_eq!(error.kind(), kind);
        let s: ProxyState<&'static str> =
            ProxyState::new().route(Some("a.test".to_string()), &table()).fetched(Err(error));
        let r = local_response(s.rendered());
        assert_eq!(r.status, 500);
        assert!(r.body.contains(kind));
    }
}

#[test]
fn registered_host_is_forwarded_and_answered_verbatim() {
    let s: ProxyState<&'static str> = ProxyState::new().route(Some("a.test".to_string()), &table());
    match &s {
        ProxyState::Forwarding { address } => assert_eq!(
            *address,
            SocketAddress { ip: IpAddress::V4(u32::from_be_bytes([127, 0, 0, 1])), port: 9001 }
        ),
        other => panic!("unexpected state {other:?}"),
    }
    match s.fetched(Ok("200 OK hi")) {
        ProxyState::Done { response: Served::Backend(r) } => assert_eq!(r, "200 OK hi"),
        other => panic!("unexpected state {other:?}"),
    }
}

#[test]
fn missing_host_gets_missing_host_page() {
    let s: ProxyState<&'static str> = ProxyState::new().route(None, &table());
    assert!(matches!(s, ProxyState::ServingLocal { page: LocalPage::MissingHost }));
    let r = local_response(s.rendered());
    assert_eq!(r.status, 404);
    assert_eq!(r.body, "<h1>[sailor] no host header?</h1>\n");
}

#[test]
fn web_hostname_gets_web_interface() {
    let s: ProxyState<&'static str> =
        ProxyState::new().route(Some(WEB_HOSTNAME.to_string()), &table());
    assert!(matches!(s, ProxyState::ServingLocal { page: LocalPage::WebInterface }));
    let r = local_response(s.rendered());
    assert_eq!(r.status, 200);
    assert_eq!(r.body, "<h1>Hello, World! Welcome to the interface!</h1>\n");
}

#[test]
fn host_match_is_exact() {
    let s: ProxyState<&'static str> = ProxyState::new().route(Some("a.test:4250".to_string()), &table());
    assert!(matches!(s, ProxyState::ServingLocal { page: LocalPage::UnknownHost { .. } }));
}

#[test]
fn steps_out_of_order_leave_the_state_alone() {
    let s: ProxyState<&'static str> = ProxyState::new().fetched(Ok("x")).rendered();
    assert!(matches!(s, ProxyState::Routing));
    let s: ProxyState<&'static str> = ProxyState::new().route(None, &table());
    let s = s.fetched(Ok("x"));
    assert!(matches!(s, ProxyState::ServingLocal { page: LocalPage::MissingHost }));
    let s = local_response(s.rendered().route(Some("a.test".to_string()), &table()));
    assert_eq!(s.status, 404);
}
