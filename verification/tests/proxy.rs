use rustyproxy::dispatch::{backend_target, plan_session, SessionPlan};
use rustyproxy::http::{
    connect_established_reply, method_is_connect, ok_reply, parse_request_line, plain_target,
    upgrade_reply,
};
use rustyproxy::protocol_detector::{detect_protocol, Protocol};

#[test]
fn ssh_prefix_classifies_ssh() {
    assert_eq!(detect_protocol(b"SSH-2.0-OpenSSH_8.9"), Protocol::SSH);
    assert_eq!(detect_protocol(b"SSH-"), Protocol::SSH);
}

#[test]
fn ssh_prefix_beats_later_rules() {
    // High-bit bytes follow, but the SSH rule is checked first.
    let mut data = b"SSH-".to_vec();
    data.extend_from_slice(&[0xFF; 16]);
    assert_eq!(detect_protocol(&data), Protocol::SSH);
}

#[test]
fn openvpn_high_nibble_two() {
    assert_eq!(detect_protocol(&[0x20, 0x01]), Protocol::OpenVPN);
    assert_eq!(detect_protocol(&[0x2F, 0x00]), Protocol::OpenVPN);
}

#[test]
fn openvpn_high_nibble_three() {
    assert_eq!(detect_protocol(&[0x38, 0xFF]), Protocol::OpenVPN);
    assert_eq!(detect_protocol(&[0x30, 0x00]), Protocol::OpenVPN);
}

#[test]
fn openvpn_tcp_framing() {
    assert_eq!(detect_protocol(&[0x00, 0x05]), Protocol::OpenVPN);
    assert_eq!(detect_protocol(&[0x00, 0x01, 0x02]), Protocol::OpenVPN);
}

#[test]
fn openvpn_beats_v2ray() {
    // Byte 0 has high nibble 0x2, and a high-bit byte sits among the first
    // sixteen: the OpenVPN rule is checked first.
    let mut data = vec![0x20u8, 0x00];
    data.extend_from_slice(&[0x80; 14]);
    assert_eq!(detect_protocol(&data), Protocol::OpenVPN);
}

#[test]
fn v2ray_high_bit_byte() {
    let mut data = vec![0x41u8; 16];
    data[15] = 0x80;
    assert_eq!(detect_protocol(&data), Protocol::V2Ray);
}

#[test]
fn v2ray_opcode_pattern() {
    let mut data = vec![0x00u8; 16];
    data[0] = 0x01;
    assert_eq!(detect_protocol(&data), Protocol::V2Ray);
}

#[test]
fn sixteen_plain_bytes_are_unknown() {
    // No high bit anywhere, byte 0 is neither 0x01 nor an OpenVPN pattern.
    assert_eq!(detect_protocol(&[0x41u8; 16]), Protocol::Unknown);
}

#[test]
fn short_inputs_fall_through_to_unknown() {
    assert_eq!(detect_protocol(b""), Protocol::Unknown);
    assert_eq!(detect_protocol(&[0x41]), Protocol::Unknown);
    assert_eq!(detect_protocol(&[0x00, 0x00]), Protocol::Unknown);
    assert_eq!(detect_protocol(&[0x80; 15]), Protocol::Unknown);
}

#[test]
fn protocol_names() {
    assert_eq!(Protocol::SSH.to_string(), "SSH");
    assert_eq!(Protocol::OpenVPN.to_string(), "OpenVPN");
    assert_eq!(Protocol::V2Ray.to_string(), "V2Ray");
    assert_eq!(Protocol::Unknown.to_string(), "Unknown");
}

#[test]
fn backend_table() {
    assert_eq!(backend_target(Protocol::SSH), b"127.0.0.1:22".to_vec());
    assert_eq!(backend_target(Protocol::OpenVPN), b"127.0.0.1:1194".to_vec());
    assert_eq!(backend_target(Protocol::V2Ray), b"127.0.0.1:8080".to_vec());
    assert_eq!(backend_target(Protocol::Unknown), b"127.0.0.1:22".to_vec());
}

#[test]
fn connect_request_plans_connect_tunnel() {
    let plan = plan_session(b"CONNECT example.com:443 HTTP/1.1\r\n\r\n");
    match &plan {
        SessionPlan::HttpConnect { target } => {
            assert_eq!(target, &b"example.com:443".to_vec());
        }
        _ => panic!("expected a CONNECT plan"),
    }
    assert!(!plan.forwards_initial());
    assert_eq!(
        connect_established_reply(),
        b"HTTP/1.1 200 Connection Established\r\n\r\n".to_vec()
    );
}

#[test]
fn plain_request_resolves_host_default_port() {
    let plan = plan_session(b"GET / HTTP/1.1\r\nHost: foo.bar\r\n\r\n");
    match &plan {
        SessionPlan::HttpPlain { target } => {
            assert_eq!(target, &b"foo.bar:80".to_vec());
        }
        _ => panic!("expected a plain HTTP plan"),
    }
    assert!(plan.forwards_initial());
}

#[test]
fn plain_request_keeps_explicit_port() {
    let plan = plan_session(b"GET / HTTP/1.1\r\nHost: foo.bar:8443\r\n\r\n");
    match &plan {
        SessionPlan::HttpPlain { target } => {
            assert_eq!(target, &b"foo.bar:8443".to_vec());
        }
        _ => panic!("expected a plain HTTP plan"),
    }
}

#[test]
fn plain_request_without_host_uses_loopback() {
    let plan = plan_session(b"POST /submit HTTP/1.1\r\nContent-Length: 0\r\n\r\n");
    match &plan {
        SessionPlan::HttpPlain { target } => {
            assert_eq!(target, &b"127.0.0.1:80".to_vec());
        }
        _ => panic!("expected a plain HTTP plan"),
    }
}

#[test]
fn host_matching_is_case_sensitive() {
    let plan = plan_session(b"GET / HTTP/1.1\r\nhost: foo.bar\r\n\r\n");
    match &plan {
        SessionPlan::HttpPlain { target } => {
            assert_eq!(target, &b"127.0.0.1:80".to_vec());
        }
        _ => panic!("expected a plain HTTP plan"),
    }
}

#[test]
fn host_value_is_trimmed() {
    let plan = plan_session(b"GET / HTTP/1.1\r\nHost:   spaced.example  \r\n\r\n");
    match &plan {
        SessionPlan::HttpPlain { target } => {
            assert_eq!(target, &b"spaced.example:80".to_vec());
        }
        _ => panic!("expected a plain HTTP plan"),
    }
}

#[test]
fn repeated_host_prefixes_are_stripped() {
    let plan = plan_session(b"GET / HTTP/1.1\r\nHost:Host: twice.example\r\n\r\n");
    match &plan {
        SessionPlan::HttpPlain { target } => {
            assert_eq!(target, &b"twice.example:80".to_vec());
        }
        _ => panic!("expected a plain HTTP plan"),
    }
}

#[test]
fn first_host_line_wins() {
    let plan = plan_session(b"GET / HTTP/1.1\r\nHost: first.example\r\nHost: second.example\r\n\r\n");
    match &plan {
        SessionPlan::HttpPlain { target } => {
            assert_eq!(target, &b"first.example:80".to_vec());
        }
        _ => panic!("expected a plain HTTP plan"),
    }
}

#[test]
fn host_must_start_a_line() {
    // "Host:" embedded mid-line is no header.
    let plan = plan_session(b"GET / HTTP/1.1\r\nX-Host: no\r\nHost: yes.example\r\n\r\n");
    match &plan {
        SessionPlan::HttpPlain { target } => {
            assert_eq!(target, &b"yes.example:80".to_vec());
        }
        _ => panic!("expected a plain HTTP plan"),
    }
}

#[test]
fn single_token_line_is_not_http() {
    let plan = plan_session(b"SSH-2.0\r\n");
    match &plan {
        SessionPlan::Tunnel { protocol, target } => {
            assert_eq!(*protocol, Protocol::SSH);
            assert_eq!(target, &b"127.0.0.1:22".to_vec());
        }
        _ => panic!("expected a tunnel plan"),
    }
    assert!(plan.forwards_initial());
}

#[test]
fn unknown_short_input_routes_to_ssh_backend() {
    let plan = plan_session(&[0x41, 0x42]);
    match &plan {
        SessionPlan::Tunnel { protocol, target } => {
            assert_eq!(*protocol, Protocol::Unknown);
            assert_eq!(target, &b"127.0.0.1:22".to_vec());
        }
        _ => panic!("expected a tunnel plan"),
    }
}

#[test]
fn openvpn_bytes_route_to_openvpn_backend() {
    let plan = plan_session(&[0x00, 0x0E, 0x00]);
    match &plan {
        SessionPlan::Tunnel { protocol, target } => {
            assert_eq!(*protocol, Protocol::OpenVPN);
            assert_eq!(target, &b"127.0.0.1:1194".to_vec());
        }
        _ => panic!("expected a tunnel plan"),
    }
}

#[test]
fn v2ray_bytes_route_to_v2ray_backend() {
    let plan = plan_session(&[0x90u8; 16]);
    match &plan {
        SessionPlan::Tunnel { protocol, target } => {
            assert_eq!(*protocol, Protocol::V2Ray);
            assert_eq!(target, &b"127.0.0.1:8080".to_vec());
        }
        _ => panic!("expected a tunnel plan"),
    }
}

#[test]
fn empty_input_routes_to_ssh_backend() {
    let plan = plan_session(b"");
    match &plan {
        SessionPlan::Tunnel { protocol, target } => {
            assert_eq!(*protocol, Protocol::Unknown);
            assert_eq!(target, &b"127.0.0.1:22".to_vec());
        }
        _ => panic!("expected a tunnel plan"),
    }
}

#[test]
fn request_line_tokens() {
    let parsed = parse_request_line(b"GET   /two  HTTP/1.1\r\nHost: a\r\n\r\n");
    let (method, uri) = parsed.expect("two tokens are present");
    assert_eq!(method, b"GET".to_vec());
    assert_eq!(uri, b"/two".to_vec());
}

#[test]
fn request_line_needs_two_tokens() {
    assert!(parse_request_line(b"GET\r\n").is_none());
    assert!(parse_request_line(b"   \r\n").is_none());
    assert!(parse_request_line(b"").is_none());
}

#[test]
fn request_line_stops_at_first_newline() {
    // The second token must come from the first line, not a later one.
    assert!(parse_request_line(b"GET\r\n/uri HTTP/1.1\r\n").is_none());
}

#[test]
fn connect_method_comparison() {
    assert!(method_is_connect(&b"CONNECT".to_vec()));
    assert!(!method_is_connect(&b"CONNEC".to_vec()));
    assert!(!method_is_connect(&b"CONNECTX".to_vec()));
    assert!(!method_is_connect(&b"connect".to_vec()));
    assert!(!method_is_connect(&b"GET".to_vec()));
}

#[test]
fn handshake_reply_bytes() {
    assert_eq!(
        upgrade_reply(b"@RustyManager"),
        b"HTTP/1.1 101 @RustyManager\r\n\r\n".to_vec()
    );
    assert_eq!(
        ok_reply(b"@RustyManager"),
        b"HTTP/1.1 200 @RustyManager\r\n\r\n".to_vec()
    );
    assert_eq!(upgrade_reply(b""), b"HTTP/1.1 101 \r\n\r\n".to_vec());
}

#[test]
fn plain_target_direct() {
    assert_eq!(
        plain_target(b"GET / HTTP/1.1\r\nHost: foo.bar\r\n\r\n"),
        b"foo.bar:80".to_vec()
    );
    assert_eq!(
        plain_target(b"GET / HTTP/1.1\r\nHost: foo.bar:8443\r\n\r\n"),
        b"foo.bar:8443".to_vec()
    );
    assert_eq!(plain_target(b"GET / HTTP/1.1\r\n\r\n"), b"127.0.0.1:80".to_vec());
    // An empty Host value still gets the default port appended.
    assert_eq!(
        plain_target(b"GET / HTTP/1.1\r\nHost:\r\n\r\n"),
        b":80".to_vec()
    );
}
