//! A transparent TCP front-end library: it classifies the first bytes a
//! client sends into a small set of known protocols (SSH, OpenVPN, V2Ray,
//! with HTTP recognised separately by request-line parsing), resolves the
//! backend address each connection should be forwarded to, and computes the
//! synthetic HTTP replies the proxy writes during its handshakes.
//!
//! The library is pure: it decides, the surrounding program performs the
//! network I/O (peek, dial, relay) and feeds the observed bytes back in.

pub mod dispatch;
pub mod http;
pub mod protocol_detector;
