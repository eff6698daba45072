//! The byte-level grammar of the HTTP handling: splitting the peeked bytes
//! into a first line and header lines, whitespace-token parsing of the
//! request line, Host-header extraction, and the exact bytes of the
//! synthetic replies the proxy writes to a client.
//!
//! Everything here works on raw bytes: the peeked data need not be valid
//! UTF-8, and a byte that matches no rule simply fails to parse as HTTP.

use vstd::prelude::*;
use vstd::slice::slice_subrange;
use vstd::slice::slice_to_vec;

verus! {

/// ASCII whitespace, as the request line is tokenised by it: space, tab,
/// line feed, vertical tab, form feed, carriage return.
pub open spec fn is_ws(b: u8) -> bool {
    b == 32 || b == 9 || b == 10 || b == 11 || b == 12 || b == 13
}

/// The index of the first line feed at or after `i`, or `s.len()` if none
/// follows.
pub open spec fn line_end_from(s: Seq<u8>, i: int) -> int
    decreases s.len() - i,
{
    if i < 0 || i >= s.len() {
        s.len() as int
    } else if s[i] == 10 {
        i
    } else {
        line_end_from(s, i + 1)
    }
}

/// The index of the first non-whitespace byte in `[i, end)`, or `end` if
/// all of them are whitespace.
pub open spec fn skip_ws_from(s: Seq<u8>, i: int, end: int) -> int
    decreases end - i,
{
    if i < 0 || i >= end {
        end
    } else if is_ws(s[i]) {
        skip_ws_from(s, i + 1, end)
    } else {
        i
    }
}

/// The index of the first whitespace byte in `[i, end)`, or `end` if none:
/// the end of a token that starts at `i`.
pub open spec fn token_end_from(s: Seq<u8>, i: int, end: int) -> int
    decreases end - i,
{
    if i < 0 || i >= end {
        end
    } else if !is_ws(s[i]) {
        token_end_from(s, i + 1, end)
    } else {
        i
    }
}

fn find_line_end(data: &[u8], start: usize) -> (e: usize)
    requires
        start <= data@.len(),
    ensures
        e == line_end_from(data@, start as int),
        start <= e <= data@.len(),
{
    let mut i: usize = start;
    while i < data.len()
        invariant
            start <= i <= data@.len(),
            line_end_from(data@, start as int) == line_end_from(data@, i as int),
        decreases data@.len() - i,
    {
        if data[i] == 10 {
            return i;
        }
        i = i + 1;
    }
    i
}

fn find_skip_ws(data: &[u8], start: usize, end: usize) -> (r: usize)
    requires
        start <= end <= data@.len(),
    ensures
        r == skip_ws_from(data@, start as int, end as int),
        start <= r <= end,
{
    let mut i: usize = start;
    while i < end
        invariant
            start <= i <= end <= data@.len(),
            skip_ws_from(data@, start as int, end as int) == skip_ws_from(
                data@,
                i as int,
                end as int,
            ),
        decreases end - i,
    {
        let b = data[i];
        if !(b == 32 || b == 9 || b == 10 || b == 11 || b == 12 || b == 13) {
            return i;
        }
        i = i + 1;
    }
    i
}

fn find_token_end(data: &[u8], start: usize, end: usize) -> (r: usize)
    requires
        start <= end <= data@.len(),
    ensures
        r == token_end_from(data@, start as int, end as int),
        start <= r <= end,
{
    let mut i: usize = start;
    while i < end
        invariant
            start <= i <= end <= data@.len(),
            token_end_from(data@, start as int, end as int) == token_end_from(
                data@,
                i as int,
                end as int,
            ),
        decreases end - i,
    {
        let b = data[i];
        if b == 32 || b == 9 || b == 10 || b == 11 || b == 12 || b == 13 {
            return i;
        }
        i = i + 1;
    }
    i
}

/// The end of the first line's content: the bytes before the first line
/// feed, with one trailing carriage return excluded.
pub open spec fn first_line_end(s: Seq<u8>) -> int {
    let e = line_end_from(s, 0);
    if e > 0 && s[e - 1] == 13 {
        e - 1
    } else {
        e
    }
}

/// Where the first whitespace-separated token of the first line starts.
pub open spec fn method_start(s: Seq<u8>) -> int {
    skip_ws_from(s, 0, first_line_end(s))
}

/// Where the first token of the first line ends.
pub open spec fn method_end(s: Seq<u8>) -> int {
    token_end_from(s, method_start(s), first_line_end(s))
}

/// Where the second whitespace-separated token of the first line starts.
pub open spec fn uri_start(s: Seq<u8>) -> int {
    skip_ws_from(s, method_end(s), first_line_end(s))
}

/// Where the second token of the first line ends.
pub open spec fn uri_end(s: Seq<u8>) -> int {
    token_end_from(s, uri_start(s), first_line_end(s))
}

/// The bytes parse as an HTTP request line: the first line holds at least
/// two whitespace-separated tokens (a method and a URI).
pub open spec fn http_parses(s: Seq<u8>) -> bool {
    uri_start(s) < first_line_end(s)
}

/// The request method: the first token of the first line.
pub open spec fn method_seq(s: Seq<u8>) -> Seq<u8> {
    s.subrange(method_start(s), method_end(s))
}

/// The request URI: the second token of the first line.
pub open spec fn uri_seq(s: Seq<u8>) -> Seq<u8> {
    s.subrange(uri_start(s), uri_end(s))
}

/// The ASCII bytes of the method name `CONNECT`.
pub open spec fn connect_bytes() -> Seq<u8> {
    seq![67u8, 79u8, 78u8, 78u8, 69u8, 67u8, 84u8]
}

/// The bytes parse as an HTTP request whose method is `CONNECT`.
pub open spec fn is_connect(s: Seq<u8>) -> bool {
    http_parses(s) && method_seq(s) == connect_bytes()
}

/// Parse the peeked bytes as an HTTP request line: split the first line
/// into whitespace-separated tokens and return the first two, the method
/// and the URI. Returns `None` — HTTP parsing failed — when fewer than two
/// tokens are present.
pub fn parse_request_line(data: &[u8]) -> (r: Option<(Vec<u8>, Vec<u8>)>)
    ensures
        match r {
            Some(mu) => http_parses(data@) && mu.0@ == method_seq(data@) && mu.1@ == uri_seq(
                data@,
            ),
            None => !http_parses(data@),
        },
{
    let e = find_line_end(data, 0);
    let fe = if e > 0 && data[e - 1] == 13 {
        e - 1
    } else {
        e
    };
    assert(fe == first_line_end(data@));
    let a1 = find_skip_ws(data, 0, fe);
    let b1 = find_token_end(data, a1, fe);
    let a2 = find_skip_ws(data, b1, fe);
    if a2 < fe {
        let b2 = find_token_end(data, a2, fe);
        let method = slice_to_vec(slice_subrange(data, a1, b1));
        let uri = slice_to_vec(slice_subrange(data, a2, b2));
        Some((method, uri))
    } else {
        None
    }
}

/// The ASCII bytes `Host:` stand at index `j`.
pub open spec fn has_host_prefix(s: Seq<u8>, j: int) -> bool {
    &&& j + 5 <= s.len()
    &&& s[j] == 72  // 'H'
    &&& s[j + 1] == 111  // 'o'
    &&& s[j + 2] == 115  // 's'
    &&& s[j + 3] == 116  // 't'
    &&& s[j + 4] == 58  // ':'
}

/// The start of the first line at or after `base` that begins with the
/// bytes `Host:`, scanning from `j`: a position counts as a line start when
/// it is `base` itself or follows a line feed.
pub open spec fn host_line_from(s: Seq<u8>, base: int, j: int) -> Option<int>
    decreases s.len() - j,
{
    if j < base || j >= s.len() {
        None
    } else if (j == base || s[j - 1] == 10) && has_host_prefix(s, j) {
        Some(j)
    } else {
        host_line_from(s, base, j + 1)
    }
}

/// Where the first header line that begins with `Host:` starts, if any:
/// the header lines are the lines after the first one.
pub open spec fn host_line_start(s: Seq<u8>) -> Option<int> {
    host_line_from(s, line_end_from(s, 0) + 1, line_end_from(s, 0) + 1)
}

/// A found `Host:` line with every leading repetition of the bytes `Host:`
/// removed.
pub open spec fn strip_host_prefixes(v: Seq<u8>) -> Seq<u8>
    decreases v.len(),
{
    if has_host_prefix(v, 0) {
        strip_host_prefixes(v.skip(5))
    } else {
        v
    }
}

/// The bytes with leading whitespace removed.
pub open spec fn trim_start_ws(v: Seq<u8>) -> Seq<u8>
    decreases v.len(),
{
    if v.len() > 0 && is_ws(v[0]) {
        trim_start_ws(v.skip(1))
    } else {
        v
    }
}

/// The bytes with trailing whitespace removed.
pub open spec fn trim_end_ws(v: Seq<u8>) -> Seq<u8>
    decreases v.len(),
{
    if v.len() > 0 && is_ws(v[v.len() - 1]) {
        trim_end_ws(v.take(v.len() - 1))
    } else {
        v
    }
}

/// The bytes with whitespace removed at both ends.
pub open spec fn trim_ws(v: Seq<u8>) -> Seq<u8> {
    trim_end_ws(trim_start_ws(v))
}

/// Some byte is an ASCII colon.
pub open spec fn has_colon(v: Seq<u8>) -> bool {
    exists|i: int| 0 <= i < v.len() && v[i] == 58
}

/// The value of the `Host:` line that starts at `j`: the line's content up
/// to the next line feed (a trailing carriage return excluded), with the
/// leading `Host:` repetitions stripped and whitespace trimmed.
pub open spec fn host_value(s: Seq<u8>, j: int) -> Seq<u8> {
    let e = line_end_from(s, j);
    let e2 = if e > j && s[e - 1] == 13 {
        e - 1
    } else {
        e
    };
    trim_ws(strip_host_prefixes(s.subrange(j, e2)))
}

/// The fallback backend address of a plain HTTP request with no `Host:`
/// header: `127.0.0.1:80`.
pub open spec fn default_host_bytes() -> Seq<u8> {
    seq![49u8, 50u8, 55u8, 46u8, 48u8, 46u8, 48u8, 46u8, 49u8, 58u8, 56u8, 48u8]
}

/// The ASCII bytes `:80`.
pub open spec fn port80_bytes() -> Seq<u8> {
    seq![58u8, 56u8, 48u8]
}

/// The backend address of a plain (non-CONNECT) HTTP request: the value of
/// the first `Host:` header line, taken verbatim when it already carries a
/// colon and with `:80` appended when it does not; `127.0.0.1:80` when no
/// `Host:` line exists.
pub open spec fn plain_target_spec(s: Seq<u8>) -> Seq<u8> {
    match host_line_start(s) {
        Option::None => default_host_bytes(),
        Option::Some(j) => {
            let v = host_value(s, j);
            if has_colon(v) {
                v
            } else {
                v + port80_bytes()
            }
        },
    }
}

fn find_host_line(data: &[u8]) -> (r: Option<usize>)
    ensures
        match r {
            Some(j) => host_line_start(data@) == Some(j as int) && j < data@.len(),
            None => host_line_start(data@) is None,
        },
{
    let e0 = find_line_end(data, 0);
    if e0 >= data.len() {
        return None;
    }
    let base = e0 + 1;
    let mut j: usize = base;
    while j < data.len()
        invariant
            base == line_end_from(data@, 0) + 1,
            base <= j <= data@.len(),
            host_line_start(data@) == host_line_from(data@, base as int, j as int),
        decreases data@.len() - j,
    {
        let line_start = j == base || data[j - 1] == 10;
        if line_start && data.len() - j >= 5 && data[j] == 72 && data[j + 1] == 111 && data[j + 2]
            == 115 && data[j + 3] == 116 && data[j + 4] == 58 {
            return Some(j);
        }
        j = j + 1;
    }
    None
}

/// Resolve the backend address of a plain (non-CONNECT) HTTP request from
/// its `Host:` header, defaulting to `127.0.0.1:80` without one and to port
/// 80 when the header value names no port.
#[verifier::rlimit(50)]
pub fn plain_target(data: &[u8]) -> (t: Vec<u8>)
    ensures
        t@ == plain_target_spec(data@),
{
    let ghost s = data@;
    match find_host_line(data) {
        None => {
            let mut out: Vec<u8> = Vec::new();
            out.push(49);
            out.push(50);
            out.push(55);
            out.push(46);
            out.push(48);
            out.push(46);
            out.push(48);
            out.push(46);
            out.push(49);
            out.push(58);
            out.push(56);
            out.push(48);
            assert(out@ =~= default_host_bytes());
            out
        },
        Some(j) => {
            let e = find_line_end(data, j);
            let e2 = if e > j && data[e - 1] == 13 {
                e - 1
            } else {
                e
            };
            let mut st = j;
            while e2 - st >= 5 && data[st] == 72 && data[st + 1] == 111 && data[st + 2] == 115
                && data[st + 3] == 116 && data[st + 4] == 58
                invariant
                    j <= st <= e2 <= s.len(),
                    s == data@,
                    strip_host_prefixes(s.subrange(j as int, e2 as int)) == strip_host_prefixes(
                        s.subrange(st as int, e2 as int),
                    ),
                decreases e2 - st,
            {
                proof {
                    assert(s.subrange(st as int, e2 as int).skip(5) =~= s.subrange(
                        st as int + 5,
                        e2 as int,
                    ));
                }
                st = st + 5;
            }
            proof {
                let v = s.subrange(st as int, e2 as int);
                assert(strip_host_prefixes(v) == v);
            }
            let mut ts = st;
            while ts < e2 && (data[ts] == 32 || data[ts] == 9 || data[ts] == 10 || data[ts] == 11
                || data[ts] == 12 || data[ts] == 13)
                invariant
                    st <= ts <= e2 <= s.len(),
                    s == data@,
                    trim_start_ws(s.subrange(st as int, e2 as int)) == trim_start_ws(
                        s.subrange(ts as int, e2 as int),
                    ),
                decreases e2 - ts,
            {
                proof {
                    assert(s.subrange(ts as int, e2 as int).skip(1) =~= s.subrange(
                        ts as int + 1,
                        e2 as int,
                    ));
                }
                ts = ts + 1;
            }
            proof {
                let v = s.subrange(ts as int, e2 as int);
                assert(trim_start_ws(v) == v);
            }
            let mut te = e2;
            while te > ts && (data[te - 1] == 32 || data[te - 1] == 9 || data[te - 1] == 10
                || data[te - 1] == 11 || data[te - 1] == 12 || data[te - 1] == 13)
                invariant
                    ts <= te <= e2 <= s.len(),
                    s == data@,
                    trim_end_ws(s.subrange(ts as int, e2 as int)) == trim_end_ws(
                        s.subrange(ts as int, te as int),
                    ),
                decreases te,
            {
                proof {
                    assert(s.subrange(ts as int, te as int).take(te - ts - 1) =~= s.subrange(
                        ts as int,
                        te as int - 1,
                    ));
                }
                te = te - 1;
            }
            proof {
                let v = s.subrange(ts as int, te as int);
                assert(trim_end_ws(v) == v);
                assert(host_value(s, j as int) == v);
            }
            let ghost v = s.subrange(ts as int, te as int);
            let mut found = false;
            let mut k = ts;
            while k < te
                invariant
                    ts <= k <= te <= s.len(),
                    s == data@,
                    found <==> exists|i: int| ts <= i < k && s[i] == 58,
                decreases te - k,
            {
                if data[k] == 58 {
                    found = true;
                }
                k = k + 1;
            }
            proof {
                if found {
                    let i = choose|i: int| ts <= i < te && s[i] == 58;
                    assert(v[i - ts] == 58);
                    assert(has_colon(v));
                } else {
                    if has_colon(v) {
                        let i = choose|i: int| 0 <= i < v.len() && v[i] == 58;
                        assert(s[ts + i] == 58);
                    }
                }
            }
            let mut out = slice_to_vec(slice_subrange(data, ts, te));
            if !found {
                out.push(58);
                out.push(56);
                out.push(48);
                assert(out@ =~= v + port80_bytes());
            }
            out
        },
    }
}

/// The ASCII bytes `HTTP/1.1 200 Connection Established` followed by two
/// CRLF pairs: the acknowledgement written to the client of a CONNECT
/// request before the tunnel starts.
pub open spec fn connect_established_seq() -> Seq<u8> {
    seq![
        72u8, 84u8, 84u8, 80u8, 47u8, 49u8, 46u8, 49u8, 32u8,  // "HTTP/1.1 "
        50u8, 48u8, 48u8, 32u8,  // "200 "
        67u8, 111u8, 110u8, 110u8, 101u8, 99u8, 116u8, 105u8, 111u8, 110u8,  // "Connection"
        32u8,  // " "
        69u8, 115u8, 116u8, 97u8, 98u8, 108u8, 105u8, 115u8, 104u8, 101u8, 100u8,  // "Established"
        13u8, 10u8, 13u8, 10u8,
    ]
}

/// The ASCII bytes `HTTP/1.1 101 ` (trailing space included).
pub open spec fn reply_101_prefix() -> Seq<u8> {
    seq![72u8, 84u8, 84u8, 80u8, 47u8, 49u8, 46u8, 49u8, 32u8, 49u8, 48u8, 49u8, 32u8]
}

/// The ASCII bytes `HTTP/1.1 200 ` (trailing space included).
pub open spec fn reply_200_prefix() -> Seq<u8> {
    seq![72u8, 84u8, 84u8, 80u8, 47u8, 49u8, 46u8, 49u8, 32u8, 50u8, 48u8, 48u8, 32u8]
}

/// Two CRLF pairs: the end of a synthesized response head.
pub open spec fn crlf_crlf() -> Seq<u8> {
    seq![13u8, 10u8, 13u8, 10u8]
}

/// The first synthetic handshake reply of the plain-HTTP path:
/// `HTTP/1.1 101 <status>\r\n\r\n`.
pub open spec fn reply_101_seq(status: Seq<u8>) -> Seq<u8> {
    reply_101_prefix() + status + crlf_crlf()
}

/// The second synthetic handshake reply of the plain-HTTP path:
/// `HTTP/1.1 200 <status>\r\n\r\n`.
pub open spec fn reply_200_seq(status: Seq<u8>) -> Seq<u8> {
    reply_200_prefix() + status + crlf_crlf()
}

/// The exact bytes acknowledging a CONNECT request:
/// `HTTP/1.1 200 Connection Established\r\n\r\n`.
pub fn connect_established_reply() -> (r: Vec<u8>)
    ensures
        r@ == connect_established_seq(),
{
    let mut out: Vec<u8> = Vec::new();
    out.push(72);
    out.push(84);
    out.push(84);
    out.push(80);
    out.push(47);
    out.push(49);
    out.push(46);
    out.push(49);
    out.push(32);
    out.push(50);
    out.push(48);
    out.push(48);
    out.push(32);
    out.push(67);
    out.push(111);
    out.push(110);
    out.push(110);
    out.push(101);
    out.push(99);
    out.push(116);
    out.push(105);
    out.push(111);
    out.push(110);
    out.push(32);
    out.push(69);
    out.push(115);
    out.push(116);
    out.push(97);
    out.push(98);
    out.push(108);
    out.push(105);
    out.push(115);
    out.push(104);
    out.push(101);
    out.push(100);
    out.push(13);
    out.push(10);
    out.push(13);
    out.push(10);
    assert(out@ =~= connect_established_seq());
    out
}

fn append_status_and_crlf(out: &mut Vec<u8>, status: &[u8])
    ensures
        final(out)@ == old(out)@ + status@ + crlf_crlf(),
{
    let ghost base = out@;
    let mut k: usize = 0;
    while k < status.len()
        invariant
            k <= status@.len(),
            out@ == base + status@.subrange(0, k as int),
        decreases status@.len() - k,
    {
        out.push(status[k]);
        proof {
            assert(base + status@.subrange(0, k as int) + seq![status@[k as int]] =~= base
                + status@.subrange(0, k as int + 1));
        }
        k = k + 1;
    }
    proof {
        assert(status@.subrange(0, status@.len() as int) =~= status@);
    }
    out.push(13);
    out.push(10);
    out.push(13);
    out.push(10);
    proof {
        assert(out@ =~= base + status@ + crlf_crlf());
    }
}

/// The first plain-HTTP handshake reply for a given status string:
/// `HTTP/1.1 101 <status>\r\n\r\n`.
pub fn upgrade_reply(status: &[u8]) -> (r: Vec<u8>)
    ensures
        r@ == reply_101_seq(status@),
{
    let mut out: Vec<u8> = Vec::new();
    out.push(72);
    out.push(84);
    out.push(84);
    out.push(80);
    out.push(47);
    out.push(49);
    out.push(46);
    out.push(49);
    out.push(32);
    out.push(49);
    out.push(48);
    out.push(49);
    out.push(32);
    assert(out@ =~= reply_101_prefix());
    append_status_and_crlf(&mut out, status);
    out
}

/// The second plain-HTTP handshake reply for a given status string:
/// `HTTP/1.1 200 <status>\r\n\r\n`.
pub fn ok_reply(status: &[u8]) -> (r: Vec<u8>)
    ensures
        r@ == reply_200_seq(status@),
{
    let mut out: Vec<u8> = Vec::new();
    out.push(72);
    out.push(84);
    out.push(84);
    out.push(80);
    out.push(47);
    out.push(49);
    out.push(46);
    out.push(49);
    out.push(32);
    out.push(50);
    out.push(48);
    out.push(48);
    out.push(32);
    assert(out@ =~= reply_200_prefix());
    append_status_and_crlf(&mut out, status);
    out
}

/// Whether a parsed method is exactly `CONNECT`.
pub fn method_is_connect(method: &Vec<u8>) -> (r: bool)
    ensures
        r == (method@ == connect_bytes()),
{
    if method.len() != 7 {
        assert(method@ != connect_bytes());
        return false;
    }
    let r = method[0] == 67 && method[1] == 79 && method[2] == 78 && method[3] == 78 && method[4]
        == 69 && method[5] == 67 && method[6] == 84;
    if r {
        assert(method@ =~= connect_bytes());
    } else {
        assert(method@ != connect_bytes());
    }
    r
}

} // verus!
