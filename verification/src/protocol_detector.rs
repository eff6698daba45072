//! Heuristic classification of a connection's first bytes into one of the
//! known tunnel protocols. The rules are deliberately coarse byte-pattern
//! heuristics, evaluated in a fixed priority order (SSH, then OpenVPN, then
//! V2Ray); anything else is `Unknown`.

use vstd::prelude::*;

verus! {

/// The closed set of protocols the sniffer can report. HTTP is not among
/// them: HTTP is recognised separately, by parsing the peeked bytes as an
/// HTTP request line, before this byte-pattern sniffer is consulted.
#[derive(Clone, Copy, Debug, PartialEq, Eq, Structural)]
pub enum Protocol {
    SSH,
    OpenVPN,
    V2Ray,
    Unknown,
}

/// The bytes start with the ASCII prefix `SSH-`.
pub open spec fn is_ssh(s: Seq<u8>) -> bool {
    &&& s.len() >= 4
    &&& s[0] == 83  // 'S'
    &&& s[1] == 83  // 'S'
    &&& s[2] == 72  // 'H'
    &&& s[3] == 45  // '-'
}

/// At least two bytes, and either byte 0 has high nibble `0x2` or `0x3`
/// (OpenVPN UDP opcode patterns) or byte 0 is zero with a nonzero byte 1
/// (OpenVPN TCP framing).
pub open spec fn is_openvpn(s: Seq<u8>) -> bool {
    &&& s.len() >= 2
    &&& {
        ||| (s[0] & 0xF0) == 0x20
        ||| (s[0] & 0xF0) == 0x30
        ||| (s[0] == 0x00 && s[1] > 0x00)
    }
}

/// Some byte among the first sixteen has its high bit set.
pub open spec fn has_high_byte(s: Seq<u8>) -> bool {
    exists|i: int| 0 <= i < 16 && s[i] > 0x7F
}

/// At least sixteen bytes, and either a high-bit byte occurs among the
/// first sixteen or the bytes start `0x01 0x00`. A deliberately permissive
/// heuristic: many binary protocols match it.
pub open spec fn is_v2ray(s: Seq<u8>) -> bool {
    &&& s.len() >= 16
    &&& (has_high_byte(s) || (s[0] == 0x01 && s[1] == 0x00))
}

/// The classification rules in their priority order: the first match wins,
/// and bytes matching none of them are `Unknown`.
pub open spec fn classification(s: Seq<u8>) -> Protocol {
    if is_ssh(s) {
        Protocol::SSH
    } else if is_openvpn(s) {
        Protocol::OpenVPN
    } else if is_v2ray(s) {
        Protocol::V2Ray
    } else {
        Protocol::Unknown
    }
}

impl Protocol {
    /// The protocol's display name.
    pub fn to_string(&self) -> (r: &str)
        ensures
            r@ == name_seq(*self),
    {
        match self {
            Protocol::SSH => "SSH",
            Protocol::OpenVPN => "OpenVPN",
            Protocol::V2Ray => "V2Ray",
            Protocol::Unknown => "Unknown",
        }
    }
}

/// The display name of each protocol.
pub open spec fn name_seq(p: Protocol) -> Seq<char> {
    match p {
        Protocol::SSH => "SSH"@,
        Protocol::OpenVPN => "OpenVPN"@,
        Protocol::V2Ray => "V2Ray"@,
        Protocol::Unknown => "Unknown"@,
    }
}

/// Classify a connection's initial bytes. Total: any byte sequence,
/// including an empty one, yields a classification.
pub fn detect_protocol(data: &[u8]) -> (r: Protocol)
    ensures
        r == classification(data@),
{
    if data.len() >= 4 && data[0] == 83 && data[1] == 83 && data[2] == 72 && data[3] == 45 {
        return Protocol::SSH;
    }

    if data.len() >= 2 {
        let b0 = data[0];
        let b1 = data[1];
        if (b0 & 0xF0) == 0x20 || (b0 & 0xF0) == 0x30 {
            return Protocol::OpenVPN;
        }
        if b0 == 0x00 && b1 > 0x00 {
            return Protocol::OpenVPN;
        }
    }

    if data.len() >= 16 {
        let mut i: usize = 0;
        let mut found = false;
        while i < 16
            invariant
                data@.len() >= 16,
                i <= 16,
                found <==> exists|j: int| 0 <= j < i && data@[j] > 0x7F,
            decreases 16 - i,
        {
            if data[i] > 0x7F {
                found = true;
            }
            i = i + 1;
        }
        if found || (data[0] == 0x01 && data[1] == 0x00) {
            return Protocol::V2Ray;
        }
    }

    Protocol::Unknown
}

/// Every input that starts with the ASCII bytes `SSH-` classifies as SSH.
pub proof fn lemma_ssh_prefix_classifies_ssh(s: Seq<u8>)
    requires
        is_ssh(s),
    ensures
        classification(s) == Protocol::SSH,
{
}

/// Every input of length at least two whose byte 0 has high nibble `0x2` or
/// `0x3`, or whose byte 0 is zero while byte 1 is nonzero, classifies as
/// OpenVPN: no such input can carry the SSH prefix, whose first byte is
/// `0x53`.
pub proof fn lemma_openvpn_pattern_classifies_openvpn(s: Seq<u8>)
    requires
        s.len() >= 2,
        ((s[0] & 0xF0) == 0x20 || (s[0] & 0xF0) == 0x30 || (s[0] == 0x00 && s[1] > 0x00)),
    ensures
        classification(s) == Protocol::OpenVPN,
{
    let b = s[0];
    assert(((b & 0xF0) == 0x20 || (b & 0xF0) == 0x30) ==> b != 83) by (bit_vector);
}

/// Every input of length at least sixteen with a high-bit byte among its
/// first sixteen classifies as V2Ray, provided the SSH and OpenVPN rules —
/// which are checked first and take precedence — do not match it.
pub proof fn lemma_high_byte_classifies_v2ray(s: Seq<u8>)
    requires
        s.len() >= 16,
        has_high_byte(s),
        !is_ssh(s),
        !is_openvpn(s),
    ensures
        classification(s) == Protocol::V2Ray,
{
}

} // verus!
