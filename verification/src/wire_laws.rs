//! Laws of the wire formats: what a parse gives back of an encoding, what an
//! encoding gives back of a parse, and how a parse behaves on a stream that
//! delivers its bytes a part at a time.
use vstd::prelude::*;
use vstd::utf8::{
    decode_utf8, decode_utf8_encode_utf8, encode_utf8, encode_utf8_decode_utf8, encode_utf8_valid_utf8,
};
use crate::message::{
    Parse, port_bytes, port_of, spec_encode_address, spec_encode_auth_request,
    spec_encode_auth_response, spec_encode_reply, spec_encode_request,
    spec_encode_userpass_request, spec_encode_userpass_response, spec_parse_address,
    spec_parse_auth_request, spec_parse_auth_response, spec_parse_reply, spec_parse_request,
    spec_parse_userpass_request, spec_parse_userpass_response,
};
use crate::protocol::{
    addr_serialized_len, addr_type_of, byte_of_command, byte_of_method, byte_of_reply, lemma_method_byte_roundtrip, lemma_method_value_roundtrip,
    method_of_byte, method_well_formed, AddrView, AuthMethod, AuthStatus, Command, ReplyCode,
    TargetView,
};

verus! {

broadcast use {encode_utf8_valid_utf8, encode_utf8_decode_utf8, decode_utf8_encode_utf8};

/// A parse that has come to an end: a value or an error, not a request for
/// more bytes.
pub open spec fn settled<V>(p: Parse<V>) -> bool {
    !(p is NeedMore)
}

/// A parse that takes no more bytes than the buffer holds, and asks only for
/// more bytes than it holds.
pub open spec fn within<V>(p: Parse<V>, s: Seq<u8>) -> bool {
    match p {
        Parse::Complete(_, n) => n <= s.len(),
        Parse::NeedMore(k) => k > s.len(),
        Parse::Failed(_) => true,
    }
}

/// An address that the wire format can carry: four or sixteen octets, or a
/// name of at most 255 bytes.
pub open spec fn target_fits_wire(t: TargetView) -> bool {
    match t.addr {
        AddrView::V4(o) => o.len() == 4,
        AddrView::V6(o) => o.len() == 16,
        AddrView::Domain(d) => encode_utf8(d).len() <= 255,
    }
}

proof fn lemma_port(p: u16, hi: u8, lo: u8)
    ensures
        port_of(port_bytes(p)[0], port_bytes(p)[1]) == p,
        port_bytes(port_of(hi, lo)) == seq![hi, lo],
{
    assert(port_bytes(port_of(hi, lo)) =~= seq![hi, lo]);
}

proof fn lemma_extend_index(s: Seq<u8>, t: Seq<u8>, a: int, b: int)
    requires
        0 <= a <= b <= s.len(),
    ensures
        (s + t).subrange(a, b) == s.subrange(a, b),
{
    assert((s + t).subrange(a, b) =~= s.subrange(a, b));
}

// ---------------------------------------------------------------------
// Encoding, then parsing, gives the value back
// ---------------------------------------------------------------------

/// A method selection request of one to 255 well-formed methods parses
/// back to those methods, taking all its bytes.
pub proof fn lemma_auth_request_roundtrip(methods: Seq<AuthMethod>)
    requires
        0 < methods.len() <= 255,
        forall|i: int| 0 <= i < methods.len() ==> method_well_formed(#[trigger] methods[i]),
    ensures
        spec_parse_auth_request(spec_encode_auth_request(methods)) == Parse::Complete(
            methods,
            spec_encode_auth_request(methods).len(),
        ),
{
    let e = spec_encode_auth_request(methods);
    let n = methods.len() as int;
    assert(e[1] == n);
    let body = e.subrange(2, 2 + n);
    assert forall|i: int| 0 <= i < n implies body.map_values(|b: u8| method_of_byte(b))[i]
        == #[trigger] methods[i] by {
        lemma_method_value_roundtrip(methods[i]);
    }
    assert(body.map_values(|b: u8| method_of_byte(b)) =~= methods);
}

/// A method selection response with a well-formed method parses back to it.
pub proof fn lemma_auth_response_roundtrip(m: AuthMethod)
    requires
        method_well_formed(m),
    ensures
        spec_parse_auth_response(spec_encode_auth_response(m)) == Parse::Complete(m, 2),
{
    lemma_method_value_roundtrip(m);
}

/// A username/password request whose two fields fit their one-byte lengths
/// parses back to the same username and password.
pub proof fn lemma_userpass_request_roundtrip(username: Seq<char>, password: Seq<char>)
    requires
        encode_utf8(username).len() <= 255,
        encode_utf8(password).len() <= 255,
    ensures
        spec_parse_userpass_request(spec_encode_userpass_request(username, password))
            == Parse::Complete(
            (username, password),
            spec_encode_userpass_request(username, password).len(),
        ),
{
    let e = spec_encode_userpass_request(username, password);
    let ub = encode_utf8(username);
    let pb = encode_utf8(password);
    let ul = ub.len() as int;
    let pl = pb.len() as int;
    assert(e[1] == ul);
    assert(e.subrange(2, 2 + ul) =~= ub);
    assert(e[2 + ul] == pl);
    assert(e.subrange(3 + ul, 3 + ul + pl) =~= pb);
}

/// A username/password response parses back to its status.
pub proof fn lemma_userpass_response_roundtrip(status: AuthStatus)
    ensures
        spec_parse_userpass_response(spec_encode_userpass_response(status)) == Parse::Complete(
            status,
            2,
        ),
{
}

/// An address that fits the wire parses back to itself, taking all its bytes.
pub proof fn lemma_address_roundtrip(t: TargetView)
    requires
        target_fits_wire(t),
    ensures
        spec_parse_address(spec_encode_address(t)) == Parse::Complete(
            t,
            spec_encode_address(t).len(),
        ),
{
    let e = spec_encode_address(t);
    lemma_port(t.port, 0, 0);
    match t.addr {
        AddrView::V4(o) => {
            assert(e.subrange(1, 5) =~= o);
            assert(e[5] == port_bytes(t.port)[0] && e[6] == port_bytes(t.port)[1]);
        },
        AddrView::V6(o) => {
            assert(e.subrange(1, 17) =~= o);
            assert(e[17] == port_bytes(t.port)[0] && e[18] == port_bytes(t.port)[1]);
        },
        AddrView::Domain(d) => {
            let b = encode_utf8(d);
            let n = b.len() as int;
            assert(e[1] == n);
            assert(e.subrange(2, 2 + n) =~= b);
            assert(e[2 + n] == port_bytes(t.port)[0] && e[3 + n] == port_bytes(t.port)[1]);
        },
    }
}

/// A request whose address fits the wire parses back to its command and
/// address.
pub proof fn lemma_request_roundtrip(c: Command, t: TargetView)
    requires
        target_fits_wire(t),
    ensures
        spec_parse_request(spec_encode_request(c, t)) == Parse::Complete(
            (c, t),
            spec_encode_request(c, t).len(),
        ),
{
    let e = spec_encode_request(c, t);
    lemma_address_roundtrip(t);
    assert(e.skip(3) =~= spec_encode_address(t));
}

/// A reply whose address fits the wire parses back to its code and address.
pub proof fn lemma_reply_roundtrip(r: ReplyCode, t: TargetView)
    requires
        target_fits_wire(t),
    ensures
        spec_parse_reply(spec_encode_reply(r, t)) == Parse::Complete(
            (r, t),
            spec_encode_reply(r, t).len(),
        ),
{
    let e = spec_encode_reply(r, t);
    lemma_address_roundtrip(t);
    assert(e.skip(3) =~= spec_encode_address(t));
}

/// An address that fits the wire takes its ATYP byte, the bytes that
/// `serialized_len` counts, and two port bytes.
pub proof fn lemma_address_encoded_len(t: TargetView)
    requires
        target_fits_wire(t),
    ensures
        spec_encode_address(t).len() == 1 + addr_serialized_len(t.addr) + 2,
{
}

// ---------------------------------------------------------------------
// Parsing, then encoding, gives the bytes back
// ---------------------------------------------------------------------

/// The methods that a request parses to encode to the bytes it took.
pub proof fn lemma_auth_request_canonical(s: Seq<u8>)
    ensures
        spec_parse_auth_request(s) matches Parse::Complete(ms, n) ==> spec_encode_auth_request(ms)
            == s.take(n as int),
{
    if let Parse::Complete(ms, n) = spec_parse_auth_request(s) {
        let k = s[1] as int;
        let body = s.subrange(2, 2 + k);
        assert forall|i: int| 0 <= i < k implies ms.map_values(|m: AuthMethod| byte_of_method(m))[i]
            == #[trigger] body[i] by {
            lemma_method_byte_roundtrip(body[i]);
        }
        assert(spec_encode_auth_request(ms) =~= s.take(n as int));
    }
}

/// The method that a response parses to encodes to the bytes it took.
pub proof fn lemma_auth_response_canonical(s: Seq<u8>)
    ensures
        spec_parse_auth_response(s) matches Parse::Complete(m, n) ==> spec_encode_auth_response(m)
            == s.take(n as int),
{
    if let Parse::Complete(m, n) = spec_parse_auth_response(s) {
        lemma_method_byte_roundtrip(s[1]);
        assert(spec_encode_auth_response(m) =~= s.take(n as int));
    }
}

/// The credentials that a request parses to encode to the bytes it took.
pub proof fn lemma_userpass_request_canonical(s: Seq<u8>)
    ensures
        spec_parse_userpass_request(s) matches Parse::Complete((u, p), n)
            ==> spec_encode_userpass_request(u, p) == s.take(n as int),
{
    if let Parse::Complete((u, p), n) = spec_parse_userpass_request(s) {
        let ul = s[1] as int;
        let pl = s[2 + ul] as int;
        assert(encode_utf8(u) == s.subrange(2, 2 + ul));
        assert(encode_utf8(p) == s.subrange(3 + ul, 3 + ul + pl));
        assert(spec_encode_userpass_request(u, p) =~= s.take(n as int));
    }
}

/// A status response encodes back to its bytes exactly when its status
/// byte is one of the two that the encoder writes.
pub proof fn lemma_userpass_response_canonical(s: Seq<u8>)
    ensures
        spec_parse_userpass_response(s) matches Parse::Complete(st, n) ==> (
        spec_encode_userpass_response(st) == s.take(n as int) <==> (s[1] == 0x00 || s[1] == 0xFF)),
{
    if let Parse::Complete(st, n) = spec_parse_userpass_response(s) {
        if s[1] == 0x00 || s[1] == 0xFF {
            assert(spec_encode_userpass_response(st) =~= s.take(n as int));
        } else {
            assert(spec_encode_userpass_response(st)[1] != s.take(n as int)[1]);
        }
    }
}

/// The address that bytes parse to encodes to the bytes it took, and fits
/// the wire.
pub proof fn lemma_address_canonical(s: Seq<u8>)
    ensures
        spec_parse_address(s) matches Parse::Complete(t, n) ==> spec_encode_address(t) == s.take(
            n as int,
        ) && target_fits_wire(t),
{
    if let Parse::Complete(t, n) = spec_parse_address(s) {
        if s[0] == 0x01 {
            lemma_port(0, s[5], s[6]);
            assert(spec_encode_address(t) =~= s.take(n as int));
        } else if s[0] == 0x03 {
            let k = s[1] as int;
            lemma_port(0, s[2 + k], s[3 + k]);
            assert(encode_utf8(decode_utf8(s.subrange(2, 2 + k))) == s.subrange(2, 2 + k));
            assert(spec_encode_address(t) =~= s.take(n as int));
        } else {
            lemma_port(0, s[17], s[18]);
            assert(spec_encode_address(t) =~= s.take(n as int));
        }
    }
}

/// A request whose reserved byte is zero encodes back to the bytes it took.
pub proof fn lemma_request_canonical(s: Seq<u8>)
    requires
        s.len() >= 3 ==> s[2] == 0,
    ensures
        spec_parse_request(s) matches Parse::Complete((c, t), n) ==> spec_encode_request(c, t)
            == s.take(n as int),
{
    if let Parse::Complete((c, t), n) = spec_parse_request(s) {
        lemma_address_canonical(s.skip(3));
        assert(spec_encode_request(c, t) =~= s.take(n as int));
    }
}

/// A reply whose reserved byte is zero encodes back to the bytes it took.
pub proof fn lemma_reply_canonical(s: Seq<u8>)
    requires
        s.len() >= 3 ==> s[2] == 0,
    ensures
        spec_parse_reply(s) matches Parse::Complete((r, t), n) ==> spec_encode_reply(r, t)
            == s.take(n as int),
{
    if let Parse::Complete((r, t), n) = spec_parse_reply(s) {
        lemma_address_canonical(s.skip(3));
        assert(spec_encode_reply(r, t) =~= s.take(n as int));
    }
}

// ---------------------------------------------------------------------
// Streams: a settled parse does not change as more bytes arrive
// ---------------------------------------------------------------------

/// A method selection request takes no more than the buffer and asks only
/// for bytes it lacks; once settled it stays so whatever bytes follow, and
/// while it waits for `k` bytes, any bytes short of `k` leave it waiting.
pub proof fn lemma_auth_request_stream(s: Seq<u8>, t: Seq<u8>)
    ensures
        within(spec_parse_auth_request(s), s),
        settled(spec_parse_auth_request(s)) ==> spec_parse_auth_request(s + t)
            == spec_parse_auth_request(s),
        spec_parse_auth_request(s) matches Parse::NeedMore(k) && s.len() + t.len() < k
            ==> spec_parse_auth_request(s + t) == spec_parse_auth_request(s),
{
    if settled(spec_parse_auth_request(s)) && s.len() >= 2 && s[0] == 5 && s[1] != 0 {
        lemma_extend_index(s, t, 2, 2 + s[1] as int);
    }
}

/// The same for a method selection response.
pub proof fn lemma_auth_response_stream(s: Seq<u8>, t: Seq<u8>)
    ensures
        within(spec_parse_auth_response(s), s),
        settled(spec_parse_auth_response(s)) ==> spec_parse_auth_response(s + t)
            == spec_parse_auth_response(s),
        spec_parse_auth_response(s) matches Parse::NeedMore(k) && s.len() + t.len() < k
            ==> spec_parse_auth_response(s + t) == spec_parse_auth_response(s),
{
}

/// The same for a username/password request.
pub proof fn lemma_userpass_request_stream(s: Seq<u8>, t: Seq<u8>)
    ensures
        within(spec_parse_userpass_request(s), s),
        settled(spec_parse_userpass_request(s)) ==> spec_parse_userpass_request(s + t)
            == spec_parse_userpass_request(s),
        spec_parse_userpass_request(s) matches Parse::NeedMore(k) && s.len() + t.len() < k
            ==> spec_parse_userpass_request(s + t) == spec_parse_userpass_request(s),
{
    if s.len() >= 2 && s[0] == 1 {
        let ul = s[1] as int;
        if s.len() >= 2 + ul {
            lemma_extend_index(s, t, 2, 2 + ul);
            if s.len() >= 3 + ul {
                let pl = s[2 + ul] as int;
                if s.len() >= 3 + ul + pl {
                    lemma_extend_index(s, t, 3 + ul, 3 + ul + pl);
                }
            }
        }
    }
}

/// The same for a username/password response.
pub proof fn lemma_userpass_response_stream(s: Seq<u8>, t: Seq<u8>)
    ensures
        within(spec_parse_userpass_response(s), s),
        settled(spec_parse_userpass_response(s)) ==> spec_parse_userpass_response(s + t)
            == spec_parse_userpass_response(s),
        spec_parse_userpass_response(s) matches Parse::NeedMore(k) && s.len() + t.len() < k
            ==> spec_parse_userpass_response(s + t) == spec_parse_userpass_response(s),
{
}

/// The same for an address.
pub proof fn lemma_address_stream(s: Seq<u8>, t: Seq<u8>)
    ensures
        within(spec_parse_address(s), s),
        settled(spec_parse_address(s)) ==> spec_parse_address(s + t) == spec_parse_address(s),
        spec_parse_address(s) matches Parse::NeedMore(k) && s.len() + t.len() < k
            ==> spec_parse_address(s + t) == spec_parse_address(s),
{
    if s.len() >= 1 {
        if s[0] == 0x01 && s.len() >= 7 {
            lemma_extend_index(s, t, 1, 5);
        } else if s[0] == 0x04 && s.len() >= 19 {
            lemma_extend_index(s, t, 1, 17);
        } else if s[0] == 0x03 && s.len() >= 2 {
            let k = s[1] as int;
            if s.len() >= 2 + k {
                lemma_extend_index(s, t, 2, 2 + k);
            }
        }
    }
}

/// The same for a request.
pub proof fn lemma_request_stream(s: Seq<u8>, t: Seq<u8>)
    ensures
        within(spec_parse_request(s), s),
        settled(spec_parse_request(s)) ==> spec_parse_request(s + t) == spec_parse_request(s),
        spec_parse_request(s) matches Parse::NeedMore(k) && s.len() + t.len() < k
            ==> spec_parse_request(s + t) == spec_parse_request(s),
{
    if s.len() >= 3 {
        lemma_address_stream(s.skip(3), t);
        assert((s + t).skip(3) =~= s.skip(3) + t);
    }
}

/// The same for a reply.
pub proof fn lemma_reply_stream(s: Seq<u8>, t: Seq<u8>)
    ensures
        within(spec_parse_reply(s), s),
        settled(spec_parse_reply(s)) ==> spec_parse_reply(s + t) == spec_parse_reply(s),
        spec_parse_reply(s) matches Parse::NeedMore(k) && s.len() + t.len() < k
            ==> spec_parse_reply(s + t) == spec_parse_reply(s),
{
    if s.len() >= 3 {
        lemma_address_stream(s.skip(3), t);
        assert((s + t).skip(3) =~= s.skip(3) + t);
    }
}

// ---------------------------------------------------------------------
// The byte layouts, stated position by position
// ---------------------------------------------------------------------

/// An address read from the wire takes its octets in the order they arrive,
/// and its port in network order (high byte first): for ATYP 0x01 the four
/// bytes after the ATYP, for ATYP 0x04 the sixteen bytes after it, for ATYP
/// 0x03 the name whose UTF-8 bytes follow the length byte.
pub proof fn lemma_address_parse_layout(s: Seq<u8>)
    ensures
        s.len() >= 7 && s[0] == 0x01 ==> (spec_parse_address(s) matches Parse::Complete(t, n) && n
            == 7 && (t.addr matches AddrView::V4(o) && o.len() == 4 && forall|i: int|
            0 <= i < 4 ==> #[trigger] o[i] == s[1 + i]) && t.port == s[5] * 256 + s[6]),
        s.len() >= 19 && s[0] == 0x04 ==> (spec_parse_address(s) matches Parse::Complete(t, n) && n
            == 19 && (t.addr matches AddrView::V6(o) && o.len() == 16 && forall|i: int|
            0 <= i < 16 ==> #[trigger] o[i] == s[1 + i]) && t.port == s[17] * 256 + s[18]),
        s.len() >= 2 && s[0] == 0x03 && s.len() >= 4 + s[1] && vstd::utf8::valid_utf8(
            s.subrange(2, 2 + s[1]),
        ) ==> (spec_parse_address(s) matches Parse::Complete(t, n) && n == 4 + s[1] && (
        t.addr matches AddrView::Domain(d) && encode_utf8(d) == s.subrange(2, 2 + s[1])) && t.port
            == s[2 + s[1]] * 256 + s[3 + s[1]]),
{
}

/// An address is written as its ATYP byte, its octets in order (or a name's
/// length byte and UTF-8 bytes), then its port high byte first.
pub proof fn lemma_address_encode_layout(t: TargetView)
    ensures
        match t.addr {
            AddrView::V4(o) => o.len() == 4 ==> {
                let e = spec_encode_address(t);
                &&& e.len() == 7
                &&& e[0] == 0x01
                &&& forall|i: int| 0 <= i < 4 ==> #[trigger] e[1 + i] == o[i]
                &&& e[5] * 256 + e[6] == t.port
            },
            AddrView::V6(o) => o.len() == 16 ==> {
                let e = spec_encode_address(t);
                &&& e.len() == 19
                &&& e[0] == 0x04
                &&& forall|i: int| 0 <= i < 16 ==> #[trigger] e[1 + i] == o[i]
                &&& e[17] * 256 + e[18] == t.port
            },
            AddrView::Domain(d) => encode_utf8(d).len() <= 255 ==> {
                let e = spec_encode_address(t);
                let b = encode_utf8(d);
                &&& e.len() == 4 + b.len()
                &&& e[0] == 0x03
                &&& e[1] == b.len()
                &&& forall|i: int| 0 <= i < b.len() ==> #[trigger] e[2 + i] == b[i]
                &&& e[2 + b.len() as int] * 256 + e[3 + b.len() as int] == t.port
            },
        },
{
    let e = spec_encode_address(t);
    lemma_port(t.port, 0, 0);
    match t.addr {
        AddrView::V4(o) => {
            if o.len() == 4 {
                assert(e[5] == port_bytes(t.port)[0] && e[6] == port_bytes(t.port)[1]);
            }
        },
        AddrView::V6(o) => {
            if o.len() == 16 {
                assert(e[17] == port_bytes(t.port)[0] && e[18] == port_bytes(t.port)[1]);
            }
        },
        AddrView::Domain(d) => {
            let b = encode_utf8(d);
            let n = b.len() as int;
            if n <= 255 {
                assert(e[2 + n] == port_bytes(t.port)[0] && e[3 + n] == port_bytes(t.port)[1]);
            }
        },
    }
}

/// The first byte of an encoded address is its ATYP: 0x01 for IPv4, 0x03
/// for a domain name, 0x04 for IPv6, as `addr_type` reports it.
pub proof fn lemma_address_type_byte(t: TargetView)
    ensures
        spec_encode_address(t)[0] == addr_type_of(t.addr),
        t.addr is V4 ==> addr_type_of(t.addr) == 0x01,
        t.addr is Domain ==> addr_type_of(t.addr) == 0x03,
        t.addr is V6 ==> addr_type_of(t.addr) == 0x04,
{
}

/// A request and a reply are written as version 5, the command's or reply
/// code's byte, the reserved zero byte, then the address.
pub proof fn lemma_request_reply_layout(c: Command, r: ReplyCode, t: TargetView)
    ensures
        spec_encode_request(c, t)[0] == 0x05,
        spec_encode_request(c, t)[1] == byte_of_command(c),
        spec_encode_request(c, t)[2] == 0x00,
        spec_encode_request(c, t).skip(3) == spec_encode_address(t),
        spec_encode_reply(r, t)[0] == 0x05,
        spec_encode_reply(r, t)[1] == byte_of_reply(r),
        spec_encode_reply(r, t)[2] == 0x00,
        spec_encode_reply(r, t).skip(3) == spec_encode_address(t),
{
    assert(spec_encode_request(c, t).skip(3) =~= spec_encode_address(t));
    assert(spec_encode_reply(r, t).skip(3) =~= spec_encode_address(t));
}

/// A username/password request is written as version 1, the username's byte
/// length, its UTF-8 bytes, the password's byte length, its UTF-8 bytes.
pub proof fn lemma_userpass_request_layout(username: Seq<char>, password: Seq<char>)
    requires
        encode_utf8(username).len() <= 255,
        encode_utf8(password).len() <= 255,
    ensures
        ({
            let e = spec_encode_userpass_request(username, password);
            let u = encode_utf8(username);
            let p = encode_utf8(password);
            &&& e.len() == 3 + u.len() + p.len()
            &&& e[0] == 0x01
            &&& e[1] == u.len()
            &&& forall|i: int| 0 <= i < u.len() ==> #[trigger] e[2 + i] == u[i]
            &&& e[2 + u.len() as int] == p.len()
            &&& forall|i: int| 0 <= i < p.len() ==> #[trigger] e[3 + u.len() + i] == p[i]
        }),
{
}

/// A method selection request is written as version 5, the number of
/// methods, then each method's byte in the order given.
pub proof fn lemma_auth_request_layout(methods: Seq<AuthMethod>)
    requires
        methods.len() <= 255,
    ensures
        ({
            let e = spec_encode_auth_request(methods);
            &&& e.len() == 2 + methods.len()
            &&& e[0] == 0x05
            &&& e[1] == methods.len()
            &&& forall|i: int| 0 <= i < methods.len() ==> #[trigger] e[2 + i] == byte_of_method(
                methods[i],
            )
        }),
{
}

} // verus!
