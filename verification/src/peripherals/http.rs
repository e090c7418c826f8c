//! Minimal HTTP/1.1 client logic: URL splitting, dotted-quad parsing,
//! request formatting and response parsing. The TCP transfers are made by
//! the caller.

use vstd::prelude::*;
use vstd::utf8::valid_utf8;
use crate::text::str_from_utf8;

verus! {

// ---------------------------------------------------------------------------
// Unsigned decimal parsing, as `str::parse` does it for unsigned integers:
// an optional `+`, then one or more ASCII digits, within range.
// ---------------------------------------------------------------------------

pub open spec fn is_digit(b: u8) -> bool {
    48 <= b <= 57
}

pub open spec fn all_digits(s: Seq<u8>) -> bool {
    forall|i: int| 0 <= i < s.len() ==> #[trigger] is_digit(s[i])
}

/// Value of a string of decimal digits.
pub open spec fn digits_value(s: Seq<u8>) -> int
    decreases s.len(),
{
    if s.len() == 0 {
        0
    } else {
        digits_value(s.drop_last()) * 10 + (s.last() - 48)
    }
}

/// The digits after an optional leading `+`.
pub open spec fn unsigned_body(s: Seq<u8>) -> Seq<u8> {
    if s.len() > 0 && s[0] == 43 {
        s.drop_first()
    } else {
        s
    }
}

/// `s` parsed as an unsigned number no larger than `max`.
pub open spec fn parse_unsigned(s: Seq<u8>, max: int) -> Option<int> {
    let body = unsigned_body(s);
    if body.len() == 0 || !all_digits(body) || digits_value(body) > max {
        None
    } else {
        Some(digits_value(body))
    }
}

proof fn lemma_digits_value_mono(s: Seq<u8>, k: int)
    requires
        0 <= k <= s.len(),
        all_digits(s),
    ensures
        digits_value(s.subrange(0, k)) <= digits_value(s),
        digits_value(s) >= 0,
    decreases s.len(),
{
    if s.len() > 0 {
        assert(all_digits(s.drop_last()));
        assert(is_digit(s[s.len() - 1]));
        if k == s.len() {
            assert(s.subrange(0, k) =~= s);
            lemma_digits_value_mono(s.drop_last(), 0);
        } else {
            lemma_digits_value_mono(s.drop_last(), k);
            assert(s.drop_last().subrange(0, k) =~= s.subrange(0, k));
        }
    }
}

/// Parses `s` as an unsigned decimal number of at most `max` (≤ 65535).
pub fn parse_unsigned_exec(s: &[u8], max: u32) -> (r: Option<u32>)
    requires
        max <= 65535,
    ensures
        r is None <==> parse_unsigned(s@, max as int) is None,
        r matches Some(x) ==> parse_unsigned(s@, max as int) == Some(x as int) && x <= max,
{
    let start: usize = if s.len() > 0 && s[0] == 43 {
        1
    } else {
        0
    };
    let ghost body = unsigned_body(s@);
    assert(body =~= s@.subrange(start as int, s@.len() as int));
    if s.len() == start {
        return None;
    }
    let mut value: u32 = 0;
    let mut i: usize = start;
    while i < s.len()
        invariant
            start <= i <= s@.len(),
            body == unsigned_body(s@),
            body == s@.subrange(start as int, s@.len() as int),
            all_digits(s@.subrange(start as int, i as int)),
            value == digits_value(s@.subrange(start as int, i as int)),
            value <= max,
            max <= 65535,
        decreases s@.len() - i,
    {
        let b = s[i];
        if b < 48 || b > 57 {
            assert(body[i - start] == b);
            assert(!is_digit(body[i - start]));
            return None;
        }
        let ghost prefix = s@.subrange(start as int, i + 1);
        assert(prefix.drop_last() =~= s@.subrange(start as int, i as int));
        assert(prefix.last() == b);
        assert forall|j: int| 0 <= j < prefix.len() implies #[trigger] is_digit(prefix[j]) by {
            if j < prefix.len() - 1 {
                assert(prefix[j] == s@.subrange(start as int, i as int)[j]);
            }
        }
        let next: u32 = value * 10 + (b - 48) as u32;
        assert(next == digits_value(prefix));
        if next > max {
            proof {
                if all_digits(body) {
                    lemma_digits_value_mono(body, (i + 1 - start) as int);
                    assert(body.subrange(0, (i + 1 - start) as int) =~= prefix);
                }
            }
            return None;
        }
        value = next;
        i += 1;
    }
    assert(s@.subrange(start as int, i as int) =~= body);
    Some(value)
}

// ---------------------------------------------------------------------------
// URLs and addresses
// ---------------------------------------------------------------------------

/// `url` without a leading `http://`.
pub open spec fn strip_scheme(url: Seq<u8>) -> Seq<u8> {
    let prefix = seq![104u8, 116, 116, 112, 58, 47, 47];
    if url.len() >= 7 && url.subrange(0, 7) == prefix {
        url.skip(7)
    } else {
        url
    }
}

/// Index of the first `b` in `s`.
#[verifier::opaque]
pub open spec fn first_index(s: Seq<u8>, b: u8) -> Option<int> {
    if exists|i: int| 0 <= i < s.len() && s[i] == b {
        Some(choose|i: int| 0 <= i < s.len() && s[i] == b && forall|j: int| 0 <= j < i ==> s[j] != b)
    } else {
        None
    }
}

/// `u` split at its first `/` into authority and path (`/` when absent).
pub open spec fn split_path(u: Seq<u8>) -> (Seq<u8>, Seq<u8>) {
    match first_index(u, 47) {
        Some(i) => (u.subrange(0, i), u.skip(i)),
        None => (u, seq![47u8]),
    }
}

/// `host[:port]` split into host and port (80 when absent or not a number).
pub open spec fn split_port(host_port: Seq<u8>) -> (Seq<u8>, u16) {
    match first_index(host_port, 58) {
        Some(i) => (
            host_port.subrange(0, i),
            match parse_unsigned(host_port.skip(i + 1), 65535) {
                Some(p) => p as u16,
                None => 80,
            },
        ),
        None => (host_port, 80),
    }
}

/// `http://host[:port][/path]` split into host, port (80 when absent or not
/// a number) and path (`/` when absent).
pub open spec fn spec_parse_url(url: Seq<u8>) -> (Seq<u8>, u16, Seq<u8>) {
    let (host_port, path) = split_path(strip_scheme(url));
    let (host, port) = split_port(host_port);
    (host, port, path)
}

/// Finds the first `b` in `s`.
pub fn find_byte(s: &[u8], b: u8) -> (r: Option<usize>)
    ensures
        r is None <==> first_index(s@, b) is None,
        r matches Some(i) ==> first_index(s@, b) == Some(i as int) && i < s@.len() && s@[i as int] == b,
{
    let mut i: usize = 0;
    while i < s.len()
        invariant
            i <= s@.len(),
            forall|j: int| 0 <= j < i ==> s@[j] != b,
        decreases s@.len() - i,
    {
        if s[i] == b {
            reveal(first_index);
            let ghost w = choose|k: int| 0 <= k < s@.len() && s@[k] == b && forall|j: int| 0 <= j < k ==> s@[j] != b;
            assert(0 <= i < s@.len() && s@[i as int] == b && forall|j: int| 0 <= j < i ==> s@[j] != b);
            assert(w == i) by {
                if w < i {
                    assert(s@[w] != b);
                } else if w > i {
                    assert(s@[i as int] != b);
                }
            }
            return Some(i);
        }
        i += 1;
    }
    reveal(first_index);
    None
}

fn sub_vec(s: &[u8], from: usize, to: usize) -> (r: Vec<u8>)
    requires
        from <= to <= s@.len(),
    ensures
        r@ == s@.subrange(from as int, to as int),
{
    let mut out = Vec::new();
    let mut i = from;
    while i < to
        invariant
            from <= i <= to <= s@.len(),
            out@ == s@.subrange(from as int, i as int),
        decreases to - i,
    {
        out.push(s[i]);
        i += 1;
        assert(out@ =~= s@.subrange(from as int, i as int));
    }
    out
}

fn strip_scheme_exec(url: &[u8]) -> (r: Vec<u8>)
    ensures
        r@ == strip_scheme(url@),
{
    let scheme: [u8; 7] = [104u8, 116, 116, 112, 58, 47, 47];
    let mut has_scheme = url.len() >= 7;
    let mut k: usize = 0;
    while has_scheme && k < 7
        invariant
            k <= 7,
            has_scheme ==> url@.len() >= 7,
            has_scheme ==> forall|j: int| 0 <= j < k ==> url@[j] == scheme@[j],
            !has_scheme ==> !(url@.len() >= 7 && url@.subrange(0, 7) == seq![104u8, 116, 116, 112, 58, 47, 47]),
            scheme@ == seq![104u8, 116, 116, 112, 58, 47, 47],
        decreases 7 - k,
    {
        if url[k] != scheme[k] {
            has_scheme = false;
            assert(url@.subrange(0, 7)[k as int] != seq![104u8, 116, 116, 112, 58, 47, 47][k as int]);
        }
        k += 1;
    }
    if has_scheme {
        assert(url@.subrange(0, 7) =~= seq![104u8, 116, 116, 112, 58, 47, 47]);
    }
    let start: usize = if has_scheme {
        7
    } else {
        0
    };
    sub_vec(url, start, url.len())
}

fn split_path_exec(u: &[u8]) -> (r: (Vec<u8>, Vec<u8>))
    ensures
        (r.0@, r.1@) == split_path(u@),
{
    match find_byte(u, 47) {
        Some(i) => {
            assert(u@.subrange(i as int, u@.len() as int) =~= u@.skip(i as int));
            (sub_vec(u, 0, i), sub_vec(u, i, u.len()))
        },
        None => {
            let mut p = Vec::new();
            p.push(47u8);
            assert(p@ =~= seq![47u8]);
            assert(u@.subrange(0, u@.len() as int) =~= u@);
            (sub_vec(u, 0, u.len()), p)
        },
    }
}

fn split_port_exec(host_port: &[u8]) -> (r: (Vec<u8>, u16))
    ensures
        (r.0@, r.1) == split_port(host_port@),
{
    let n = host_port.len();
    match find_byte(host_port, 58) {
        Some(i) => {
            let host = sub_vec(host_port, 0, i);
            let port_text = sub_vec(host_port, i + 1, n);
            assert(port_text@ =~= host_port@.skip(i + 1));
            let port: u16 = match parse_unsigned_exec(port_text.as_slice(), 65535) {
                Some(p) => p as u16,
                None => 80,
            };
            (host, port)
        },
        None => {
            assert(host_port@.subrange(0, host_port@.len() as int) =~= host_port@);
            (sub_vec(host_port, 0, host_port.len()), 80)
        },
    }
}

/// Splits a URL into host, port and path; it never fails.
pub fn parse_url(url: &[u8]) -> (r: Result<(Vec<u8>, u16, Vec<u8>), ()>)
    ensures
        (r matches Ok((host, port, path)) && (host@, port, path@) == spec_parse_url(url@)),
{
    let u = strip_scheme_exec(url);
    let (host_port, path) = split_path_exec(u.as_slice());
    let (host, port) = split_port_exec(host_port.as_slice());
    Ok((host, port, path))
}

/// The dot-separated segments of the first `n` bytes: the finished
/// segments and the one being read.
pub open spec fn split_state(s: Seq<u8>, n: int) -> (Seq<Seq<u8>>, Seq<u8>)
    decreases n,
{
    if n <= 0 {
        (seq![], seq![])
    } else {
        let (done, cur) = split_state(s, n - 1);
        if s[n - 1] == 46 {
            (done.push(cur), seq![])
        } else {
            (done, cur.push(s[n - 1]))
        }
    }
}

/// `s` split at every `.`.
pub open spec fn split_dots(s: Seq<u8>) -> Seq<Seq<u8>> {
    let (done, cur) = split_state(s, s.len() as int);
    done.push(cur)
}

/// A dotted-quad IPv4 address: exactly four segments, each a number up to 255.
pub open spec fn spec_parse_ip(host: Seq<u8>) -> Option<Seq<u8>> {
    let parts = split_dots(host);
    if parts.len() == 4 && forall|k: int| 0 <= k < 4 ==> (#[trigger] parse_unsigned(parts[k], 255)) is Some {
        Some(Seq::new(4, |k: int| parse_unsigned(parts[k], 255)->0 as u8))
    } else {
        None
    }
}

/// Parses a dotted-quad address into its four octets.
pub fn parse_ip(host: &[u8]) -> (r: Result<[u8; 4], ()>)
    ensures
        match spec_parse_ip(host@) {
            Some(o) => r matches Ok(a) && a@ == o,
            None => r is Err,
        },
{
    let mut done: Vec<Vec<u8>> = Vec::new();
    let mut cur: Vec<u8> = Vec::new();
    let mut i: usize = 0;
    while i < host.len()
        invariant
            i <= host@.len(),
            done@.len() == split_state(host@, i as int).0.len(),
            forall|k: int| 0 <= k < done@.len() ==> #[trigger] done@[k]@ == split_state(host@, i as int).0[k],
            cur@ == split_state(host@, i as int).1,
        decreases host@.len() - i,
    {
        if host[i] == 46 {
            done.push(cur);
            cur = Vec::new();
        } else {
            cur.push(host[i]);
        }
        i += 1;
    }
    done.push(cur);
    let ghost parts = split_dots(host@);
    assert(done@.len() == parts.len());
    assert(forall|k: int| 0 <= k < done@.len() ==> #[trigger] done@[k]@ == parts[k]);
    if done.len() != 4 {
        return Err(());
    }
    let mut octets: [u8; 4] = [0u8; 4];
    let mut k: usize = 0;
    while k < 4
        invariant
            k <= 4,
            done@.len() == 4,
            parts == split_dots(host@),
            parts.len() == 4,
            forall|j: int| 0 <= j < 4 ==> #[trigger] done@[j]@ == parts[j],
            forall|j: int| 0 <= j < k ==> (#[trigger] parse_unsigned(parts[j], 255)) is Some
                && octets@[j] == parse_unsigned(parts[j], 255)->0 as u8,
        decreases 4 - k,
    {
        match parse_unsigned_exec(done[k].as_slice(), 255) {
            Some(v) => {
                octets[k] = v as u8;
            },
            None => {
                return Err(());
            },
        }
        k += 1;
    }
    assert(octets@ =~= Seq::new(4, |j: int| parse_unsigned(parts[j], 255)->0 as u8));
    Ok(octets)
}

// ---------------------------------------------------------------------------
// Requests
// ---------------------------------------------------------------------------

/// Writes `src` into `buf` from `pos`, as far as it fits.
fn emit(buf: &mut [u8], pos: usize, src: &[u8], Ghost(done): Ghost<Seq<u8>>, Ghost(orig): Ghost<Seq<u8>>) -> (p: usize)
    requires
        old(buf)@.len() == orig.len(),
        pos == if done.len() < orig.len() { done.len() as int } else { orig.len() as int },
        old(buf)@.subrange(0, pos as int) == done.subrange(0, pos as int),
        forall|j: int| pos <= j < orig.len() ==> #[trigger] old(buf)@[j] == orig[j],
    ensures
        final(buf)@.len() == orig.len(),
        p == if done.len() + src@.len() < orig.len() { (done.len() + src@.len()) as int } else { orig.len() as int },
        final(buf)@.subrange(0, p as int) == (done + src@).subrange(0, p as int),
        forall|j: int| p <= j < orig.len() ==> #[trigger] final(buf)@[j] == orig[j],
{
    let mut p = pos;
    let mut i: usize = 0;
    while i < src.len() && p < buf.len()
        invariant
            buf@.len() == orig.len(),
            i <= src@.len(),
            pos == if done.len() < orig.len() { done.len() as int } else { orig.len() as int },
            p == pos + i,
            p <= orig.len(),
            i > 0 ==> pos == done.len(),
            buf@.subrange(0, p as int) == (done + src@).subrange(0, p as int),
            forall|j: int| p <= j < orig.len() ==> #[trigger] buf@[j] == orig[j],
        decreases src@.len() - i,
    {
        assert(pos == done.len());
        buf[p] = src[i];
        p += 1;
        i += 1;
        assert(buf@.subrange(0, p as int) =~= (done + src@).subrange(0, p as int));
    }
    p
}

/// ` HTTP/1.1\r\nHost: `.
pub open spec fn request_line_tail() -> Seq<u8> {
    seq![32u8, 72, 84, 84, 80, 47, 49, 46, 49, 13, 10, 72, 111, 115, 116, 58, 32]
}

/// `\r\nConnection: close\r\n\r\n`.
pub open spec fn connection_close() -> Seq<u8> {
    seq![13u8, 10, 67, 111, 110, 110, 101, 99, 116, 105, 111, 110, 58, 32, 99, 108, 111, 115, 101, 13, 10, 13, 10]
}

/// `METHOD PATH HTTP/1.1\r\nHost: HOST\r\nConnection: close\r\n\r\n`.
pub open spec fn spec_request(method: Seq<u8>, host: Seq<u8>, path: Seq<u8>) -> Seq<u8> {
    method + seq![32u8] + path + request_line_tail() + host + connection_close()
}

/// The first `cap` bytes of `s` (all of it when shorter).
pub open spec fn prefix_upto(s: Seq<u8>, cap: int) -> Seq<u8> {
    if s.len() <= cap {
        s
    } else {
        s.subrange(0, cap)
    }
}

/// Writes a request into `buf`, cut to its length; returns the length written.
pub fn format_request(buf: &mut [u8], method: &[u8], host: &[u8], path: &[u8]) -> (n: usize)
    ensures
        final(buf)@.len() == old(buf)@.len(),
        final(buf)@.subrange(0, n as int) == prefix_upto(spec_request(method@, host@, path@), old(buf)@.len() as int),
        forall|j: int| n <= j < old(buf)@.len() ==> #[trigger] final(buf)@[j] == old(buf)@[j],
{
    let ghost orig = buf@;
    let space: [u8; 1] = [32u8];
    let tail: [u8; 17] = [32u8, 72, 84, 84, 80, 47, 49, 46, 49, 13, 10, 72, 111, 115, 116, 58, 32];
    let close: [u8; 23] = [13u8, 10, 67, 111, 110, 110, 101, 99, 116, 105, 111, 110, 58, 32, 99, 108, 111, 115, 101, 13, 10, 13, 10];
    assert(tail@ =~= request_line_tail());
    assert(close@ =~= connection_close());
    assert(space@ =~= seq![32u8]);
    let ghost d0 = Seq::<u8>::empty();
    assert(buf@.subrange(0, 0) =~= d0.subrange(0, 0));
    let p = emit(buf, 0, method, Ghost(d0), Ghost(orig));
    let ghost d1 = d0 + method@;
    let p = emit(buf, p, space.as_slice(), Ghost(d1), Ghost(orig));
    let ghost d2 = d1 + seq![32u8];
    let p = emit(buf, p, path, Ghost(d2), Ghost(orig));
    let ghost d3 = d2 + path@;
    let p = emit(buf, p, tail.as_slice(), Ghost(d3), Ghost(orig));
    let ghost d4 = d3 + request_line_tail();
    let p = emit(buf, p, host, Ghost(d4), Ghost(orig));
    let ghost d5 = d4 + host@;
    let p = emit(buf, p, close.as_slice(), Ghost(d5), Ghost(orig));
    let ghost d6 = d5 + connection_close();
    assert(d0 + method@ =~= method@);
    assert(d6 =~= spec_request(method@, host@, path@));
    p
}

pub open spec fn post_head_tail() -> Seq<u8> {
    seq![13u8, 10, 67, 111, 110, 116, 101, 110, 116, 45, 84, 121, 112, 101, 58, 32, 97, 112, 112, 108, 105, 99, 97, 116, 105, 111, 110, 47, 106, 115, 111, 110, 13, 10, 67, 111, 110, 110, 101, 99, 116, 105, 111, 110, 58, 32, 99, 108, 111, 115, 101, 13, 10, 67, 111, 110, 116, 101, 110, 116, 45, 76, 101, 110, 103, 116, 104, 58, 32]
}

/// Content-Length digits: hundreds (the byte `'0' + (len / 100) mod 256`,
/// only from 100 on), tens (from 10 on) and units.
pub open spec fn length_digits(len: nat) -> Seq<u8> {
    (if len >= 100 { seq![((48 + (len / 100) % 256) % 256) as u8] } else { seq![] })
        + (if len >= 10 { seq![(48 + (len / 10) % 10) as u8] } else { seq![] })
        + seq![(48 + len % 10) as u8]
}

/// The hundreds byte stays within a byte.
pub open spec fn length_digits_fit(len: nat) -> bool {
    len < 100 || (len / 100) % 256 <= 207
}

/// Length of a POST request up to its Content-Length digits.
pub open spec fn post_head_len(host: Seq<u8>, path: Seq<u8>) -> int {
    91 + path.len() as int + host.len() as int
}

/// `POST PATH HTTP/1.1\r\nHost: HOST\r\nContent-Type: application/json\r\n
/// Connection: close\r\nContent-Length: N\r\n\r\nBODY`.
pub open spec fn spec_post_request(host: Seq<u8>, path: Seq<u8>, body: Seq<u8>) -> Seq<u8> {
    seq![80u8, 79, 83, 84, 32] + path + request_line_tail() + host + post_head_tail()
        + length_digits(body.len()) + seq![13u8, 10, 13, 10] + body
}

/// Writes a JSON POST request into `buf`, cut to its length; returns the length written.
pub fn format_post_request(buf: &mut [u8], host: &[u8], path: &[u8], body: &[u8]) -> (n: usize)
    requires
        post_head_len(host@, path@) < old(buf)@.len() ==> length_digits_fit(body@.len()),
    ensures
        final(buf)@.len() == old(buf)@.len(),
        final(buf)@.subrange(0, n as int) == prefix_upto(spec_post_request(host@, path@, body@), old(buf)@.len() as int),
        forall|j: int| n <= j < old(buf)@.len() ==> #[trigger] final(buf)@[j] == old(buf)@[j],
{
    let ghost orig = buf@;
    let post: [u8; 5] = [80u8, 79, 83, 84, 32];
    let tail: [u8; 17] = [32u8, 72, 84, 84, 80, 47, 49, 46, 49, 13, 10, 72, 111, 115, 116, 58, 32];
    let head: [u8; 69] = [13u8, 10, 67, 111, 110, 116, 101, 110, 116, 45, 84, 121, 112, 101, 58, 32, 97, 112, 112, 108, 105, 99, 97, 116, 105, 111, 110, 47, 106, 115, 111, 110, 13, 10, 67, 111, 110, 110, 101, 99, 116, 105, 111, 110, 58, 32, 99, 108, 111, 115, 101, 13, 10, 67, 111, 110, 116, 101, 110, 116, 45, 76, 101, 110, 103, 116, 104, 58, 32];
    let blank: [u8; 4] = [13u8, 10, 13, 10];
    assert(post@ =~= seq![80u8, 79, 83, 84, 32]);
    assert(tail@ =~= request_line_tail());
    assert(head@ =~= post_head_tail());
    assert(blank@ =~= seq![13u8, 10, 13, 10]);
    let len = body.len();
    let mut digits: Vec<u8> = Vec::new();
    if len >= 100 {
        let h: u16 = ((len / 100) % 256) as u16;
        digits.push(((48 + h) % 256) as u8);
    }
    if len >= 10 {
        digits.push(48 + ((len / 10) % 10) as u8);
    }
    digits.push(48 + (len % 10) as u8);
    assert(digits@ =~= length_digits(len as nat));
    let ghost d0 = Seq::<u8>::empty();
    assert(buf@.subrange(0, 0) =~= d0.subrange(0, 0));
    let p = emit(buf, 0, post.as_slice(), Ghost(d0), Ghost(orig));
    let ghost d1 = d0 + post@;
    let p = emit(buf, p, path, Ghost(d1), Ghost(orig));
    let ghost d2 = d1 + path@;
    let p = emit(buf, p, tail.as_slice(), Ghost(d2), Ghost(orig));
    let ghost d3 = d2 + tail@;
    let p = emit(buf, p, host, Ghost(d3), Ghost(orig));
    let ghost d4 = d3 + host@;
    let p = emit(buf, p, head.as_slice(), Ghost(d4), Ghost(orig));
    let ghost d5 = d4 + head@;
    let p = emit(buf, p, digits.as_slice(), Ghost(d5), Ghost(orig));
    let ghost d6 = d5 + digits@;
    let p = emit(buf, p, blank.as_slice(), Ghost(d6), Ghost(orig));
    let ghost d7 = d6 + blank@;
    let p = emit(buf, p, body, Ghost(d7), Ghost(orig));
    let ghost d8 = d7 + body@;
    assert(d8 =~= spec_post_request(host@, path@, body@));
    p
}

// ---------------------------------------------------------------------------
// Responses
// ---------------------------------------------------------------------------

/// Status code and the first 128 bytes of the body.
pub struct HttpResponse {
    pub status: u16,
    pub body: [u8; 128],
    pub body_len: usize,
}

/// An empty line (`\r\n\r\n`) starts at `i`.
pub open spec fn blank_line_at(data: Seq<u8>, i: int) -> bool {
    0 <= i && i + 4 <= data.len() && data.subrange(i, i + 4) == seq![13u8, 10, 13, 10]
}

/// Where the body starts: after the first `\r\n\r\n`, or at the end.
#[verifier::opaque]
pub open spec fn body_start(data: Seq<u8>) -> int {
    if exists|i: int| #[trigger] blank_line_at(data, i) {
        (choose|i: int| #[trigger] blank_line_at(data, i) && forall|j: int| 0 <= j < i ==> !#[trigger] blank_line_at(data, j)) + 4
    } else {
        data.len() as int
    }
}

/// The status code in bytes 9..12 (0 when not a number).
pub open spec fn spec_status(data: Seq<u8>) -> u16 {
    match parse_unsigned(data.subrange(9, 12), 65535) {
        Some(v) => v as u16,
        None => 0,
    }
}

/// Finds where the body starts.
pub fn find_body_start(data: &[u8]) -> (r: usize)
    ensures
        r == body_start(data@),
        r <= data@.len(),
{
    let n = data.len();
    let limit: usize = if n >= 3 {
        n - 3
    } else {
        0
    };
    let mut i: usize = 0;
    while i < limit
        invariant
            i <= limit,
            n == data@.len(),
            limit == if n >= 3 { n - 3 } else { 0 },
            forall|j: int| 0 <= j < i ==> !#[trigger] blank_line_at(data@, j),
        decreases limit - i,
    {
        if data[i] == 13 && data[i + 1] == 10 && data[i + 2] == 13 && data[i + 3] == 10 {
            assert(data@.subrange(i as int, i + 4) =~= seq![13u8, 10, 13, 10]);
            assert(blank_line_at(data@, i as int));
            let ghost w = choose|k: int| #[trigger] blank_line_at(data@, k) && forall|j: int| 0 <= j < k ==> !#[trigger] blank_line_at(data@, j);
            assert(blank_line_at(data@, i as int) && forall|j: int| 0 <= j < i ==> !#[trigger] blank_line_at(data@, j));
            assert(w == i) by {
                if w < i {
                    assert(!blank_line_at(data@, w));
                } else if w > i {
                    assert(!blank_line_at(data@, i as int));
                }
            }
            reveal(body_start);
            return i + 4;
        }
        assert(data@.subrange(i as int, i + 4)[0] == data@[i as int]);
        assert(data@.subrange(i as int, i + 4)[1] == data@[i + 1]);
        assert(data@.subrange(i as int, i + 4)[2] == data@[i + 2]);
        assert(data@.subrange(i as int, i + 4)[3] == data@[i + 3]);
        i += 1;
    }
    assert forall|k: int| !#[trigger] blank_line_at(data@, k) by {
        if 0 <= k && k + 4 <= data@.len() {
            assert(k < i);
        }
    }
    reveal(body_start);
    n
}

/// Parses a response: at least 12 bytes with a UTF-8 status field are needed.
pub fn parse_response(data: &[u8]) -> (r: Result<HttpResponse, ()>)
    ensures
        data@.len() < 12 || !valid_utf8(data@.subrange(9, 12)) ==> r is Err,
        data@.len() >= 12 && valid_utf8(data@.subrange(9, 12)) ==> (r matches Ok(resp) && {
            let b = data@.skip(body_start(data@));
            &&& resp.status == spec_status(data@)
            &&& resp.body_len == if b.len() < 128 { b.len() as int } else { 128 }
            &&& resp.body@.subrange(0, resp.body_len as int) == b.subrange(0, resp.body_len as int)
            &&& forall|j: int| resp.body_len <= j < 128 ==> resp.body@[j] == 0
        }),
{
    if data.len() < 12 {
        return Err(());
    }
    let status_bytes = vstd::slice::slice_subrange(data, 9, 12);
    if str_from_utf8(status_bytes).is_none() {
        return Err(());
    }
    let status: u16 = match parse_unsigned_exec(status_bytes, 65535) {
        Some(v) => v as u16,
        None => 0,
    };
    let start = find_body_start(data);
    let mut resp = HttpResponse { status, body: [0u8; 128], body_len: 0 };
    let n = data.len();
    let rest = n - start;
    let copy_len = if rest < 128 {
        rest
    } else {
        128
    };
    let mut k: usize = 0;
    while k < copy_len
        invariant
            k <= copy_len <= 128,
            start <= data@.len(),
            n == data@.len(),
            rest == data@.len() - start,
            copy_len <= rest,
            forall|j: int| 0 <= j < k ==> #[trigger] resp.body@[j] == data@[start + j],
            forall|j: int| k <= j < 128 ==> #[trigger] resp.body@[j] == 0,
            resp.status == status,
        decreases copy_len - k,
    {
        resp.body[k] = data[start + k];
        k += 1;
    }
    resp.body_len = copy_len;
    assert(resp.body@.subrange(0, copy_len as int) =~= data@.skip(start as int).subrange(0, copy_len as int));
    Ok(resp)
}

} // verus!
