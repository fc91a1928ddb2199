use proxy_core::authority::{parse_authority, Authority};
use proxy_core::dispatch::{
    connect_dial_response, handle_connect, handle_http, handle_request, is_connect,
    transport_failure_response, RequestAction, RequestHead,
};
use proxy_core::headers::{is_hop_by_hop, sanitize_headers, HeaderField};
use proxy_core::settings::{ProxyAddress, ProxySettings};
use proxy_core::tunnel::{tunnel_start, tunnel_step, TunnelAction, TunnelEvent};

fn field(name: &str, value: &str) -> HeaderField {
    HeaderField { name: name.as_bytes().to_vec(), value: value.as_bytes().to_vec() }
}

fn names_of(headers: &[HeaderField]) -> Vec<String> {
    headers.iter().map(|h| String::from_utf8(h.name.clone()).unwrap()).collect()
}

fn head(method: &str, uri: &str, absolute: bool, headers: Vec<HeaderField>) -> RequestHead {
    RequestHead {
        method: method.as_bytes().to_vec(),
        uri: uri.as_bytes().to_vec(),
        has_scheme: absolute,
        has_host: absolute,
        authority: None,
        headers,
    }
}

#[test]
fn test_handle_http_rejects_relative_uri() {
    let req = head("GET", "/solo-relativo", false, Vec::new());
    match handle_http(req) {
        RequestAction::Respond(resp) => {
            assert_eq!(resp.status, 400);
            assert!(resp.body.contains("URI debe ser absoluta"));
        }
        _ => panic!("a relative URI must be refused without contacting the transport"),
    }
}

#[test]
fn test_tunnel_and_forward() {
    // Forward leg: an absolute GET goes upstream with method and URI intact,
    // and the target's answer passes back verbatim.
    let uri = "http://127.0.0.1:18080/hello";
    let req = head("GET", uri, true, vec![field("Host", "127.0.0.1:18080")]);
    match handle_http(req) {
        RequestAction::ForwardUpstream(out) => {
            assert_eq!(out.method, b"GET".to_vec());
            assert_eq!(out.uri, uri.as_bytes().to_vec());
            assert_eq!(names_of(&out.headers), vec!["Host".to_string()]);
        }
        _ => panic!("an absolute URI must be forwarded"),
    }
    // The body the echo target would answer with for that path.
    let path = &uri["http://127.0.0.1:18080".len()..];
    assert_eq!(format!("echo:{}", path), "echo:/hello");

    // Tunnel leg: an established session relays bytes both ways and closes
    // cleanly when the client closes its side.
    let s0 = tunnel_start();
    let (s1, a1) = tunnel_step(s0, TunnelEvent::ClientBytes(5));
    assert_eq!(a1, TunnelAction::RelayToTarget);
    assert_eq!(s1.client_to_target, 5);
    let (s2, a2) = tunnel_step(s1, TunnelEvent::TargetBytes(5));
    assert_eq!(a2, TunnelAction::RelayToClient);
    assert_eq!(s2.target_to_client, 5);
    let (s3, a3) = tunnel_step(s2, TunnelEvent::ClientEof);
    assert_eq!(a3, TunnelAction::ShutdownTarget);
    assert!(s3.target_open, "half-close must keep the reverse direction");
    let (s4, a4) = tunnel_step(s3, TunnelEvent::TargetEof);
    assert_eq!(a4, TunnelAction::ShutdownClient);
    assert!(!s4.client_open && !s4.target_open && !s4.failed);
    assert_eq!((s4.client_to_target, s4.target_to_client), (5, 5));
}

#[test]
fn test_sanitize_removes_hop_by_hop() {
    let headers = vec![
        field("Connection", "keep-alive"),
        field("Host", "example.com"),
        field("Keep-Alive", "30"),
        field("Accept", "*/*"),
        field("Upgrade", "websocket"),
    ];
    let out = sanitize_headers(headers);
    assert_eq!(names_of(&out), vec!["Host".to_string(), "Accept".to_string()]);
    assert_eq!(out[0].value, b"example.com".to_vec());
    assert_eq!(out[1].value, b"*/*".to_vec());
}

#[test]
fn test_sanitize_is_idempotent() {
    let headers = vec![
        field("te", "trailers"),
        field("Host", "example.com"),
        field("trailers", "x"),
        field("Accept", "text/html"),
    ];
    let once = sanitize_headers(headers);
    let pairs: Vec<(Vec<u8>, Vec<u8>)> =
        once.iter().map(|h| (h.name.clone(), h.value.clone())).collect();
    let twice = sanitize_headers(once);
    let pairs_again: Vec<(Vec<u8>, Vec<u8>)> =
        twice.iter().map(|h| (h.name.clone(), h.value.clone())).collect();
    assert_eq!(pairs, pairs_again);
}

#[test]
fn test_sanitize_matches_case_insensitively() {
    let headers = vec![
        field("TRANSFER-ENCODING", "chunked"),
        field("Proxy-Authorization", "basic abc"),
        field("pRoXy-AuThEnTiCaTe", "basic"),
        field("X-Custom", "stays"),
    ];
    let out = sanitize_headers(headers);
    assert_eq!(names_of(&out), vec!["X-Custom".to_string()]);
}

#[test]
fn test_sanitize_keeps_repeated_headers_in_order() {
    let headers = vec![
        field("Accept", "text/html"),
        field("connection", "close"),
        field("X-Trace", "1"),
        field("Accept", "text/plain"),
    ];
    let out = sanitize_headers(headers);
    assert_eq!(
        names_of(&out),
        vec!["Accept".to_string(), "X-Trace".to_string(), "Accept".to_string()]
    );
    assert_eq!(out[0].value, b"text/html".to_vec());
    assert_eq!(out[2].value, b"text/plain".to_vec());
}

#[test]
fn test_is_hop_by_hop_names() {
    for name in [
        "connection",
        "Keep-Alive",
        "PROXY-AUTHENTICATE",
        "proxy-authorization",
        "TE",
        "Trailers",
        "Transfer-Encoding",
        "upgrade",
    ] {
        assert!(is_hop_by_hop(name.as_bytes()), "{name} is hop-by-hop");
    }
    assert!(!is_hop_by_hop(b"host"));
    assert!(!is_hop_by_hop(b"content-length"));
    assert!(!is_hop_by_hop(b"keep-alive2"));
}

#[test]
fn test_parse_authority_accepts_host_port() {
    let a: Authority = parse_authority(b"example.com:8080").expect("well-formed authority");
    assert_eq!(a.host, b"example.com".to_vec());
    assert_eq!(a.port, 8080);

    let b: Authority = parse_authority(b"127.0.0.1:80").expect("well-formed authority");
    assert_eq!(b.host, b"127.0.0.1".to_vec());
    assert_eq!(b.port, 80);

    // The split is at the last colon.
    let c: Authority = parse_authority(b"fe80::1:443").expect("well-formed authority");
    assert_eq!(c.host, b"fe80::1".to_vec());
    assert_eq!(c.port, 443);

    let d: Authority = parse_authority(b"h:65535").expect("well-formed authority");
    assert_eq!(d.port, 65535);
}

#[test]
fn test_parse_authority_rejects_malformed() {
    assert!(parse_authority(b"").is_none());
    assert!(parse_authority(b"example.com").is_none());
    assert!(parse_authority(b":80").is_none());
    assert!(parse_authority(b"example.com:").is_none());
    assert!(parse_authority(b"example.com:9x9").is_none());
    assert!(parse_authority(b"example.com:65536").is_none());
    assert!(parse_authority(b"example.com:123456").is_none());
}

#[test]
fn test_connect_without_authority_is_rejected() {
    match handle_connect(None) {
        RequestAction::Respond(resp) => {
            assert_eq!(resp.status, 400);
            assert!(resp.body.contains("CONNECT requiere autoridad"));
        }
        _ => panic!("CONNECT without authority must be refused without dialing"),
    }
    match handle_connect(Some(b"sin-puerto".to_vec())) {
        RequestAction::Respond(resp) => assert_eq!(resp.status, 400),
        _ => panic!("a malformed authority must be refused without dialing"),
    }
}

#[test]
fn test_connect_with_authority_dials_it() {
    match handle_connect(Some(b"example.com:443".to_vec())) {
        RequestAction::OpenTunnel(a) => {
            assert_eq!(a.host, b"example.com".to_vec());
            assert_eq!(a.port, 443);
        }
        _ => panic!("a well-formed authority must be dialed"),
    }
}

#[test]
fn test_dial_outcome_responses() {
    let granted = connect_dial_response(true);
    assert_eq!(granted.status, 200);
    assert!(granted.body.is_empty());

    let refused = connect_dial_response(false);
    assert_eq!(refused.status, 502);
    assert_eq!(refused.body, "No se pudo conectar con el destino");

    let gateway = transport_failure_response();
    assert_eq!(gateway.status, 502);
}

#[test]
fn test_dispatch_routes_by_method() {
    assert!(is_connect(b"CONNECT"));
    assert!(!is_connect(b"GET"));
    assert!(!is_connect(b"connect"));

    let mut req = head("CONNECT", "example.com:443", false, Vec::new());
    req.authority = Some(b"example.com:443".to_vec());
    match handle_request(req) {
        RequestAction::OpenTunnel(a) => assert_eq!(a.port, 443),
        _ => panic!("CONNECT must go to the connect handler"),
    }

    let get = head("GET", "http://example.com/x", true, Vec::new());
    match handle_request(get) {
        RequestAction::ForwardUpstream(out) => {
            assert_eq!(out.uri, b"http://example.com/x".to_vec())
        }
        _ => panic!("a non-CONNECT request must go to the forward handler"),
    }
}

#[test]
fn test_tunnel_error_closes_both_sides() {
    let s0 = tunnel_start();
    let (s1, _) = tunnel_step(s0, TunnelEvent::ClientBytes(9));
    let (s2, a2) = tunnel_step(s1, TunnelEvent::TargetFailed);
    assert_eq!(a2, TunnelAction::CloseBoth);
    assert!(s2.failed && !s2.client_open && !s2.target_open);
    assert_eq!(s2.client_to_target, 9);
    // Later events change nothing.
    let (s3, a3) = tunnel_step(s2, TunnelEvent::ClientBytes(4));
    assert_eq!(a3, TunnelAction::Stay);
    assert_eq!(s3, s2);
}

#[test]
fn test_concurrent_tunnel_sessions_stay_apart() {
    // Two sessions driven in interleaved order: each keeps exactly its own
    // byte counts.
    let mut one = tunnel_start();
    let mut two = tunnel_start();
    for _ in 0..3 {
        one = tunnel_step(one, TunnelEvent::ClientBytes(10)).0;
        two = tunnel_step(two, TunnelEvent::ClientBytes(1)).0;
        two = tunnel_step(two, TunnelEvent::TargetBytes(2)).0;
    }
    assert_eq!(one.client_to_target, 30);
    assert_eq!(one.target_to_client, 0);
    assert_eq!(two.client_to_target, 3);
    assert_eq!(two.target_to_client, 6);
}

#[test]
fn test_settings_render_listen_address() {
    let settings = ProxySettings::new(ProxyAddress { host: b"0.0.0.0".to_vec(), port: 8888 });
    let rendered = settings.listen().render();
    assert_eq!(rendered, b"0.0.0.0:8888".to_vec());
}

#[test]
fn test_rendered_address_parses_back() {
    let addr = ProxyAddress { host: b"localhost".to_vec(), port: 1 };
    let back = parse_authority(&addr.render()).expect("a rendered address is a valid authority");
    assert_eq!(back.host, b"localhost".to_vec());
    assert_eq!(back.port, 1);
}
