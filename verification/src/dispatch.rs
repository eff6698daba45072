//! The per-connection dispatch decision: from the bytes peeked off a new
//! client connection, decide how the session proceeds — an HTTP CONNECT
//! tunnel, a plain HTTP request with a synthetic upgrade handshake, or a
//! byte-pattern-classified tunnel protocol — and which backend address the
//! connection is forwarded to.

use vstd::prelude::*;

use crate::http;
use crate::protocol_detector::{classification, detect_protocol, Protocol};

verus! {

/// How a freshly accepted connection is to be handled, decided once from
/// the peeked initial bytes.
///
/// * `HttpConnect` — the bytes parse as an HTTP request with method
///   `CONNECT`: acknowledge with `HTTP/1.1 200 Connection Established` and
///   tunnel to the request URI, which is taken verbatim as `host:port`.
///   The initial bytes are *not* forwarded: the request line was consumed
///   as a control message.
/// * `HttpPlain` — the bytes parse as an HTTP request with another method:
///   perform the two-step synthetic upgrade handshake on the client, then
///   forward the initial bytes to the backend resolved from the `Host:`
///   header before relaying.
/// * `Tunnel` — the bytes do not parse as HTTP: classify them with the
///   byte-pattern sniffer and forward them, followed by the relay, to the
///   protocol's fixed backend address.
pub enum SessionPlan {
    HttpConnect { target: Vec<u8> },
    HttpPlain { target: Vec<u8> },
    Tunnel { protocol: Protocol, target: Vec<u8> },
}

/// The static backend target table of the tunnel protocols: SSH to
/// `127.0.0.1:22`, OpenVPN to `127.0.0.1:1194`, V2Ray to `127.0.0.1:8080`,
/// and Unknown falling open to the SSH backend.
pub open spec fn tunnel_target(p: Protocol) -> Seq<u8> {
    match p {
        Protocol::OpenVPN => seq![
            49u8, 50u8, 55u8, 46u8, 48u8, 46u8, 48u8, 46u8, 49u8,  // "127.0.0.1"
            58u8, 49u8, 49u8, 57u8, 52u8,  // ":1194"
        ],
        Protocol::V2Ray => seq![
            49u8, 50u8, 55u8, 46u8, 48u8, 46u8, 48u8, 46u8, 49u8,  // "127.0.0.1"
            58u8, 56u8, 48u8, 56u8, 48u8,  // ":8080"
        ],
        _ => seq![
            49u8, 50u8, 55u8, 46u8, 48u8, 46u8, 48u8, 46u8, 49u8,  // "127.0.0.1"
            58u8, 50u8, 50u8,  // ":22"
        ],
    }
}

/// What a correct plan for the peeked bytes `s` is: the HTTP interpretation
/// is attempted first, CONNECT and other methods are told apart by the
/// request line, and only bytes that fail to parse as HTTP fall through to
/// the byte-pattern classifier and its static target table.
pub open spec fn plan_matches(p: SessionPlan, s: Seq<u8>) -> bool {
    match p {
        SessionPlan::HttpConnect { target } => http::is_connect(s) && target@ == http::uri_seq(s),
        SessionPlan::HttpPlain { target } => http::http_parses(s) && !http::is_connect(s)
            && target@ == http::plain_target_spec(s),
        SessionPlan::Tunnel { protocol, target } => !http::http_parses(s) && protocol
            == classification(s) && target@ == tunnel_target(classification(s)),
    }
}

/// The backend address a tunnel protocol is forwarded to.
pub fn backend_target(p: Protocol) -> (t: Vec<u8>)
    ensures
        t@ == tunnel_target(p),
{
    let mut out: Vec<u8> = Vec::new();
    out.push(49);
    out.push(50);
    out.push(55);
    out.push(46);
    out.push(48);
    out.push(46);
    out.push(48);
    out.push(46);
    out.push(49);
    out.push(58);
    match p {
        Protocol::OpenVPN => {
            out.push(49);
            out.push(49);
            out.push(57);
            out.push(52);
        },
        Protocol::V2Ray => {
            out.push(56);
            out.push(48);
            out.push(56);
            out.push(48);
        },
        _ => {
            out.push(50);
            out.push(50);
        },
    }
    assert(out@ =~= tunnel_target(p));
    out
}

/// Decide, from the bytes peeked off a new connection, how the session
/// proceeds and where it is forwarded.
pub fn plan_session(initial: &[u8]) -> (p: SessionPlan)
    ensures
        plan_matches(p, initial@),
{
    match http::parse_request_line(initial) {
        Some((method, uri)) => {
            if http::method_is_connect(&method) {
                SessionPlan::HttpConnect { target: uri }
            } else {
                SessionPlan::HttpPlain { target: http::plain_target(initial) }
            }
        },
        None => {
            let protocol = detect_protocol(initial);
            let target = backend_target(protocol);
            SessionPlan::Tunnel { protocol, target }
        },
    }
}

impl SessionPlan {
    /// Whether the initial peeked bytes are re-delivered to the backend
    /// before the relay starts. They are for every plan but a CONNECT
    /// tunnel, whose request line was already consumed as a control
    /// message: forwarding it too would hand the backend bytes the client
    /// never meant it to see.
    pub fn forwards_initial(&self) -> (r: bool)
        ensures
            r == !(self is HttpConnect),
    {
        match self {
            SessionPlan::HttpConnect { .. } => false,
            _ => true,
        }
    }

    /// The backend address of the plan, as `host:port` bytes.
    pub fn target(&self) -> (t: &Vec<u8>)
        ensures
            t == match self {
                SessionPlan::HttpConnect { target } => target,
                SessionPlan::HttpPlain { target } => target,
                SessionPlan::Tunnel { target, .. } => target,
            },
    {
        match self {
            SessionPlan::HttpConnect { target } => target,
            SessionPlan::HttpPlain { target } => target,
            SessionPlan::Tunnel { target, .. } => target,
        }
    }
}

/// Bytes shorter than sixteen that match neither the SSH nor the OpenVPN
/// pattern, and do not parse as HTTP, classify as Unknown — they are too
/// short for the V2Ray rule — and every plan for them is a tunnel to the
/// same backend address as SSH traffic.
pub proof fn lemma_short_unmatched_routes_to_ssh_backend(s: Seq<u8>, p: SessionPlan)
    requires
        s.len() < 16,
        !crate::protocol_detector::is_ssh(s),
        !crate::protocol_detector::is_openvpn(s),
        !http::http_parses(s),
        plan_matches(p, s),
    ensures
        classification(s) == Protocol::Unknown,
        p matches SessionPlan::Tunnel { protocol, target } && protocol == Protocol::Unknown
            && target@ == tunnel_target(Protocol::SSH),
{
}

} // verus!
