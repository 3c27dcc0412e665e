//! The SOCKS5 wire formats, as functions on bytes.
//!
//! Each `parse_*` function reads a message from the front of a buffer. It
//! answers `NeedMore(k)` while the buffer is shorter than the `k` bytes that
//! it must look at before its next decision, so that a caller reading from a
//! stream asks for exactly the bytes that the message still needs. Each
//! `encode_*` function gives the bytes of a message.
use vstd::prelude::*;
use vstd::utf8::{decode_utf8, encode_utf8, valid_utf8};
use crate::error::{ErrorView, SocksError};
use crate::protocol::{
    byte_of_command, byte_of_method, byte_of_reply, byte_of_status, command_of_byte, method_of_byte,
    reply_of_byte, status_of_byte, AddrView, AuthMethod, AuthStatus, Command, ReplyCode, SocksAddr,
    TargetAddr, TargetView, RESERVED, SOCKS_VERSION, USERPASS_VERSION,
};

verus! {

/// How far a parse got: a value and the number of bytes it took, or the
/// total number of bytes that the buffer must hold for the parse to go on.
#[derive(Debug)]
pub enum Decoded<T> {
    Complete(T, usize),
    NeedMore(usize),
}

/// The outcome of a parse, as a value.
pub enum Parse<V> {
    Complete(V, nat),
    NeedMore(nat),
    Failed(ErrorView),
}

/// The outcome that an executable parse result stands for.
pub open spec fn outcome<T: View>(r: Result<Decoded<T>, SocksError>) -> Parse<T::V> {
    match r {
        Ok(Decoded::Complete(v, n)) => Parse::Complete(v@, n as nat),
        Ok(Decoded::NeedMore(n)) => Parse::NeedMore(n as nat),
        Err(e) => Parse::Failed(e@),
    }
}

/// The port that two bytes give in network order.
pub open spec fn port_of(hi: u8, lo: u8) -> u16 {
    (hi * 256 + lo) as u16
}

/// The two bytes of a port in network order.
pub open spec fn port_bytes(p: u16) -> Seq<u8> {
    seq![(p / 256) as u8, (p % 256) as u8]
}

// ---------------------------------------------------------------------
// Specifications of the formats
// ---------------------------------------------------------------------

/// Method selection request: [VER] [NMETHODS] [METHODS...]
pub open spec fn spec_parse_auth_request(s: Seq<u8>) -> Parse<Seq<AuthMethod>> {
    if s.len() < 1 {
        Parse::NeedMore(1)
    } else if s[0] != SOCKS_VERSION {
        Parse::Failed(ErrorView::InvalidVersion(s[0]))
    } else if s.len() < 2 {
        Parse::NeedMore(2)
    } else if s[1] == 0 {
        Parse::Failed(ErrorView::InvalidData("No auth methods provided"@))
    } else if s.len() < 2 + s[1] {
        Parse::NeedMore(2 + s[1] as nat)
    } else {
        Parse::Complete(
            s.subrange(2, 2 + s[1] as int).map_values(|b: u8| method_of_byte(b)),
            2 + s[1] as nat,
        )
    }
}

pub open spec fn spec_encode_auth_request(methods: Seq<AuthMethod>) -> Seq<u8> {
    seq![SOCKS_VERSION, methods.len() as u8] + methods.map_values(|m: AuthMethod| byte_of_method(m))
}

/// Method selection response: [VER] [METHOD]
pub open spec fn spec_parse_auth_response(s: Seq<u8>) -> Parse<AuthMethod> {
    if s.len() < 1 {
        Parse::NeedMore(1)
    } else if s[0] != SOCKS_VERSION {
        Parse::Failed(ErrorView::InvalidVersion(s[0]))
    } else if s.len() < 2 {
        Parse::NeedMore(2)
    } else {
        Parse::Complete(method_of_byte(s[1]), 2)
    }
}

pub open spec fn spec_encode_auth_response(m: AuthMethod) -> Seq<u8> {
    seq![SOCKS_VERSION, byte_of_method(m)]
}

/// Username/password request: [VER] [ULEN] [UNAME] [PLEN] [PASSWD]
pub open spec fn spec_parse_userpass_request(s: Seq<u8>) -> Parse<(Seq<char>, Seq<char>)> {
    if s.len() < 1 {
        Parse::NeedMore(1)
    } else if s[0] != USERPASS_VERSION {
        Parse::Failed(ErrorView::InvalidVersion(s[0]))
    } else if s.len() < 2 {
        Parse::NeedMore(2)
    } else {
        let ulen = s[1] as int;
        if s.len() < 2 + ulen {
            Parse::NeedMore((2 + ulen) as nat)
        } else if !valid_utf8(s.subrange(2, 2 + ulen)) {
            Parse::Failed(ErrorView::Utf8Error)
        } else if s.len() < 3 + ulen {
            Parse::NeedMore((3 + ulen) as nat)
        } else {
            let plen = s[2 + ulen] as int;
            if s.len() < 3 + ulen + plen {
                Parse::NeedMore((3 + ulen + plen) as nat)
            } else if !valid_utf8(s.subrange(3 + ulen, 3 + ulen + plen)) {
                Parse::Failed(ErrorView::Utf8Error)
            } else {
                Parse::Complete(
                    (
                        decode_utf8(s.subrange(2, 2 + ulen)),
                        decode_utf8(s.subrange(3 + ulen, 3 + ulen + plen)),
                    ),
                    (3 + ulen + plen) as nat,
                )
            }
        }
    }
}

pub open spec fn spec_encode_userpass_request(username: Seq<char>, password: Seq<char>) -> Seq<u8> {
    seq![USERPASS_VERSION, encode_utf8(username).len() as u8] + encode_utf8(username) + seq![
        encode_utf8(password).len() as u8,
    ] + encode_utf8(password)
}

/// Username/password response: [VER] [STATUS]
pub open spec fn spec_parse_userpass_response(s: Seq<u8>) -> Parse<AuthStatus> {
    if s.len() < 1 {
        Parse::NeedMore(1)
    } else if s[0] != USERPASS_VERSION {
        Parse::Failed(ErrorView::InvalidVersion(s[0]))
    } else if s.len() < 2 {
        Parse::NeedMore(2)
    } else {
        Parse::Complete(status_of_byte(s[1]), 2)
    }
}

pub open spec fn spec_encode_userpass_response(status: AuthStatus) -> Seq<u8> {
    seq![USERPASS_VERSION, byte_of_status(status)]
}

/// Address: [ATYP] [ADDR] [PORT]
pub open spec fn spec_parse_address(s: Seq<u8>) -> Parse<TargetView> {
    if s.len() < 1 {
        Parse::NeedMore(1)
    } else if s[0] == 0x01 {
        if s.len() < 5 {
            Parse::NeedMore(5)
        } else if s.len() < 7 {
            Parse::NeedMore(7)
        } else {
            Parse::Complete(
                TargetView { addr: AddrView::V4(s.subrange(1, 5)), port: port_of(s[5], s[6]) },
                7,
            )
        }
    } else if s[0] == 0x03 {
        if s.len() < 2 {
            Parse::NeedMore(2)
        } else {
            let n = s[1] as int;
            if s.len() < 2 + n {
                Parse::NeedMore((2 + n) as nat)
            } else if !valid_utf8(s.subrange(2, 2 + n)) {
                Parse::Failed(ErrorView::Utf8Error)
            } else if s.len() < 4 + n {
                Parse::NeedMore((4 + n) as nat)
            } else {
                Parse::Complete(
                    TargetView {
                        addr: AddrView::Domain(decode_utf8(s.subrange(2, 2 + n))),
                        port: port_of(s[2 + n], s[3 + n]),
                    },
                    (4 + n) as nat,
                )
            }
        }
    } else if s[0] == 0x04 {
        if s.len() < 17 {
            Parse::NeedMore(17)
        } else if s.len() < 19 {
            Parse::NeedMore(19)
        } else {
            Parse::Complete(
                TargetView { addr: AddrView::V6(s.subrange(1, 17)), port: port_of(s[17], s[18]) },
                19,
            )
        }
    } else {
        Parse::Failed(ErrorView::InvalidAddressType(s[0]))
    }
}

pub open spec fn spec_encode_address(t: TargetView) -> Seq<u8> {
    match t.addr {
        AddrView::V4(o) => seq![0x01u8] + o + port_bytes(t.port),
        AddrView::V6(o) => seq![0x04u8] + o + port_bytes(t.port),
        AddrView::Domain(d) => seq![0x03u8, (encode_utf8(d).len() % 256) as u8] + encode_utf8(d)
            + port_bytes(t.port),
    }
}

/// A parse of a header of `k` bytes followed by an address.
pub open spec fn after_header<V>(k: nat, value: V, p: Parse<TargetView>) -> Parse<(V, TargetView)> {
    match p {
        Parse::Complete(t, n) => Parse::Complete((value, t), n + k),
        Parse::NeedMore(n) => Parse::NeedMore(n + k),
        Parse::Failed(e) => Parse::Failed(e),
    }
}

/// Request: [VER] [CMD] [RSV] [ATYP] [DST.ADDR] [DST.PORT]
pub open spec fn spec_parse_request(s: Seq<u8>) -> Parse<(Command, TargetView)> {
    if s.len() < 1 {
        Parse::NeedMore(1)
    } else if s[0] != SOCKS_VERSION {
        Parse::Failed(ErrorView::InvalidVersion(s[0]))
    } else if s.len() < 2 {
        Parse::NeedMore(2)
    } else {
        match command_of_byte(s[1]) {
            None => Parse::Failed(ErrorView::InvalidCommand(s[1])),
            Some(c) => if s.len() < 3 {
                Parse::NeedMore(3)
            } else {
                after_header(3, c, spec_parse_address(s.skip(3)))
            },
        }
    }
}

pub open spec fn spec_encode_request(c: Command, t: TargetView) -> Seq<u8> {
    seq![SOCKS_VERSION, byte_of_command(c), RESERVED] + spec_encode_address(t)
}

/// Reply: [VER] [REP] [RSV] [ATYP] [BND.ADDR] [BND.PORT]
pub open spec fn spec_parse_reply(s: Seq<u8>) -> Parse<(ReplyCode, TargetView)> {
    if s.len() < 1 {
        Parse::NeedMore(1)
    } else if s[0] != SOCKS_VERSION {
        Parse::Failed(ErrorView::InvalidVersion(s[0]))
    } else if s.len() < 2 {
        Parse::NeedMore(2)
    } else {
        match reply_of_byte(s[1]) {
            None => Parse::Failed(ErrorView::InvalidReplyCode(s[1])),
            Some(r) => if s.len() < 3 {
                Parse::NeedMore(3)
            } else {
                after_header(3, r, spec_parse_address(s.skip(3)))
            },
        }
    }
}

pub open spec fn spec_encode_reply(r: ReplyCode, t: TargetView) -> Seq<u8> {
    seq![SOCKS_VERSION, byte_of_reply(r), RESERVED] + spec_encode_address(t)
}

// ---------------------------------------------------------------------
// Byte helpers
// ---------------------------------------------------------------------

/// Calls `String::from_utf8`. std documents that it returns the string made
/// of `bytes` when they are valid UTF-8, and an error otherwise; the error
/// value itself is not described here.
#[verifier::external_body]
fn string_from_utf8(bytes: Vec<u8>) -> (res: Result<String, std::string::FromUtf8Error>)
    ensures
        res is Ok <==> valid_utf8(bytes@),
        res matches Ok(s) ==> s@ == decode_utf8(bytes@),
{
    String::from_utf8(bytes)
}

fn append_bytes(out: &mut Vec<u8>, src: &[u8])
    ensures
        final(out)@ == old(out)@ + src@,
{
    let mut i: usize = 0;
    while i < src.len()
        invariant
            i <= src@.len(),
            out@ == old(out)@ + src@.take(i as int),
        decreases src@.len() - i,
    {
        out.push(src[i]);
        i = i + 1;
        assert(src@.take(i as int) == src@.take((i - 1) as int).push(src@[i - 1]));
    }
    assert(src@.take(i as int) == src@);
}

fn copy_range(src: &[u8], start: usize, end: usize) -> (out: Vec<u8>)
    requires
        start <= end <= src@.len(),
    ensures
        out@ == src@.subrange(start as int, end as int),
{
    let mut out: Vec<u8> = Vec::new();
    append_bytes(&mut out, &src[start..end]);
    out
}

fn read_port(hi: u8, lo: u8) -> (p: u16)
    ensures
        p == port_of(hi, lo),
{
    (hi as u16) * 256 + (lo as u16)
}

fn push_port(out: &mut Vec<u8>, port: u16)
    ensures
        final(out)@ == old(out)@ + port_bytes(port),
{
    out.push((port / 256) as u8);
    out.push((port % 256) as u8);
}

// ---------------------------------------------------------------------
// Encoders
// ---------------------------------------------------------------------

/// Write authentication method selection request (client-side).
pub fn encode_auth_request(methods: &[AuthMethod]) -> (res: Result<Vec<u8>, SocksError>)
    ensures
        methods@.len() == 0 || methods@.len() > 255 ==> (res matches Err(e) && e@
            == ErrorView::InvalidData("Invalid number of auth methods"@)),
        0 < methods@.len() <= 255 ==> (res matches Ok(v) && v@ == spec_encode_auth_request(
            methods@,
        )),
{
    if methods.len() == 0 || methods.len() > 255 {
        return Err(SocksError::InvalidData("Invalid number of auth methods".to_owned()));
    }
    let mut out: Vec<u8> = Vec::new();
    out.push(SOCKS_VERSION);
    out.push(methods.len() as u8);
    let mut i: usize = 0;
    while i < methods.len()
        invariant
            i <= methods@.len() <= 255,
            out@ == seq![SOCKS_VERSION, methods@.len() as u8] + methods@.take(i as int).map_values(
                |m: AuthMethod| byte_of_method(m),
            ),
        decreases methods@.len() - i,
    {
        let b = methods[i].to_u8();
        out.push(b);
        i = i + 1;
        assert(methods@.take(i as int).map_values(|m: AuthMethod| byte_of_method(m))
            == methods@.take((i - 1) as int).map_values(|m: AuthMethod| byte_of_method(m)).push(b));
    }
    assert(methods@.take(i as int) == methods@);
    Ok(out)
}

/// Write authentication method selection response.
pub fn encode_auth_response(method: AuthMethod) -> (out: Vec<u8>)
    ensures
        out@ == spec_encode_auth_response(method),
{
    let mut out: Vec<u8> = Vec::new();
    out.push(SOCKS_VERSION);
    out.push(method.to_u8());
    out
}

/// Write username/password authentication request (client-side).
pub fn encode_userpass_request(username: &str, password: &str) -> (res: Result<Vec<u8>, SocksError>)
    ensures
        encode_utf8(username@).len() > 255 || encode_utf8(password@).len() > 255 ==> (res matches Err(
            e,
        ) && e@ == ErrorView::InvalidData("Username or password too long"@)),
        encode_utf8(username@).len() <= 255 && encode_utf8(password@).len() <= 255 ==> (res matches Ok(
            v,
        ) && v@ == spec_encode_userpass_request(username@, password@)),
{
    if username.as_bytes().len() > 255 || password.as_bytes().len() > 255 {
        return Err(SocksError::InvalidData("Username or password too long".to_owned()));
    }
    let ub = username.as_bytes();
    let pb = password.as_bytes();
    let mut out: Vec<u8> = Vec::new();
    out.push(USERPASS_VERSION);
    out.push(ub.len() as u8);
    append_bytes(&mut out, ub);
    out.push(pb.len() as u8);
    append_bytes(&mut out, pb);
    Ok(out)
}

/// Write username/password authentication response.
pub fn encode_userpass_response(status: AuthStatus) -> (out: Vec<u8>)
    ensures
        out@ == spec_encode_userpass_response(status),
{
    let mut out: Vec<u8> = Vec::new();
    out.push(USERPASS_VERSION);
    out.push(status.to_u8());
    out
}

fn push_address(out: &mut Vec<u8>, target: &TargetAddr)
    ensures
        final(out)@ == old(out)@ + spec_encode_address(target@),
{
    out.push(target.addr.addr_type());
    match &target.addr {
        SocksAddr::V4(ip) => {
            append_bytes(out, ip.as_slice());
        },
        SocksAddr::V6(ip) => {
            append_bytes(out, ip.as_slice());
        },
        SocksAddr::Domain(domain) => {
            let bytes = domain.as_str().as_bytes();
            out.push((bytes.len() % 256) as u8);
            append_bytes(out, bytes);
        },
    }
    push_port(out, target.port);
}

/// Write SOCKS5 address: [ATYP] [ADDR] [PORT]. A name longer than 255 bytes
/// has its length byte taken modulo 256, as a one-byte length field holds it.
pub fn encode_address(target: &TargetAddr) -> (out: Vec<u8>)
    ensures
        out@ == spec_encode_address(target@),
{
    let mut out: Vec<u8> = Vec::new();
    push_address(&mut out, target);
    out
}

/// Write SOCKS5 request to server (client-side).
pub fn encode_request(cmd: Command, target: &TargetAddr) -> (out: Vec<u8>)
    ensures
        out@ == spec_encode_request(cmd, target@),
{
    let mut out: Vec<u8> = Vec::new();
    out.push(SOCKS_VERSION);
    out.push(cmd.to_u8());
    out.push(RESERVED);
    push_address(&mut out, target);
    out
}

/// Write SOCKS5 reply to client.
pub fn encode_reply(reply: ReplyCode, bind_addr: &TargetAddr) -> (out: Vec<u8>)
    ensures
        out@ == spec_encode_reply(reply, bind_addr@),
{
    let mut out: Vec<u8> = Vec::new();
    out.push(SOCKS_VERSION);
    out.push(reply.to_u8());
    out.push(RESERVED);
    push_address(&mut out, bind_addr);
    out
}

// ---------------------------------------------------------------------
// Parsers
// ---------------------------------------------------------------------

/// Read authentication method selection message from client.
pub fn parse_auth_request(buf: &[u8]) -> (res: Result<Decoded<Vec<AuthMethod>>, SocksError>)
    ensures
        outcome(res) == spec_parse_auth_request(buf@),
{
    if buf.len() < 1 {
        return Ok(Decoded::NeedMore(1));
    }
    if buf[0] != SOCKS_VERSION {
        return Err(SocksError::InvalidVersion(buf[0]));
    }
    if buf.len() < 2 {
        return Ok(Decoded::NeedMore(2));
    }
    let n = buf[1] as usize;
    if n == 0 {
        return Err(SocksError::InvalidData("No auth methods provided".to_owned()));
    }
    if buf.len() < 2 + n {
        return Ok(Decoded::NeedMore(2 + n));
    }
    let ghost body = buf@.subrange(2, 2 + n as int);
    let mut methods: Vec<AuthMethod> = Vec::new();
    let mut i: usize = 0;
    while i < n
        invariant
            i <= n <= 255,
            2 + n <= buf@.len(),
            body == buf@.subrange(2, 2 + n as int),
            methods@ == body.take(i as int).map_values(|b: u8| method_of_byte(b)),
        decreases n - i,
    {
        let m = AuthMethod::from_u8(buf[2 + i]);
        methods.push(m);
        i = i + 1;
        assert(body.take(i as int).map_values(|b: u8| method_of_byte(b)) == body.take(
            (i - 1) as int,
        ).map_values(|b: u8| method_of_byte(b)).push(m));
    }
    assert(body.take(n as int) == body);
    Ok(Decoded::Complete(methods, 2 + n))
}

/// Read authentication method selection response (client-side).
pub fn parse_auth_response(buf: &[u8]) -> (res: Result<Decoded<AuthMethod>, SocksError>)
    ensures
        outcome(res) == spec_parse_auth_response(buf@),
{
    if buf.len() < 1 {
        return Ok(Decoded::NeedMore(1));
    }
    if buf[0] != SOCKS_VERSION {
        return Err(SocksError::InvalidVersion(buf[0]));
    }
    if buf.len() < 2 {
        return Ok(Decoded::NeedMore(2));
    }
    Ok(Decoded::Complete(AuthMethod::from_u8(buf[1]), 2))
}

/// Read username/password authentication request.
pub fn parse_userpass_request(buf: &[u8]) -> (res: Result<Decoded<(String, String)>, SocksError>)
    ensures
        outcome(res) == spec_parse_userpass_request(buf@),
{
    if buf.len() < 1 {
        return Ok(Decoded::NeedMore(1));
    }
    if buf[0] != USERPASS_VERSION {
        return Err(SocksError::InvalidVersion(buf[0]));
    }
    if buf.len() < 2 {
        return Ok(Decoded::NeedMore(2));
    }
    let ulen = buf[1] as usize;
    if buf.len() < 2 + ulen {
        return Ok(Decoded::NeedMore(2 + ulen));
    }
    let username = match string_from_utf8(copy_range(buf, 2, 2 + ulen)) {
        Ok(s) => s,
        Err(e) => {
            return Err(SocksError::Utf8Error(e));
        },
    };
    if buf.len() < 3 + ulen {
        return Ok(Decoded::NeedMore(3 + ulen));
    }
    let plen = buf[2 + ulen] as usize;
    if buf.len() < 3 + ulen + plen {
        return Ok(Decoded::NeedMore(3 + ulen + plen));
    }
    let password = match string_from_utf8(copy_range(buf, 3 + ulen, 3 + ulen + plen)) {
        Ok(s) => s,
        Err(e) => {
            return Err(SocksError::Utf8Error(e));
        },
    };
    Ok(Decoded::Complete((username, password), 3 + ulen + plen))
}

/// Read username/password authentication response (client-side).
pub fn parse_userpass_response(buf: &[u8]) -> (res: Result<Decoded<AuthStatus>, SocksError>)
    ensures
        outcome(res) == spec_parse_userpass_response(buf@),
{
    if buf.len() < 1 {
        return Ok(Decoded::NeedMore(1));
    }
    if buf[0] != USERPASS_VERSION {
        return Err(SocksError::InvalidVersion(buf[0]));
    }
    if buf.len() < 2 {
        return Ok(Decoded::NeedMore(2));
    }
    Ok(Decoded::Complete(AuthStatus::from_u8(buf[1]), 2))
}

/// Read SOCKS5 address: [ATYP] [ADDR] [PORT].
pub fn parse_address(buf: &[u8]) -> (res: Result<Decoded<TargetAddr>, SocksError>)
    ensures
        outcome(res) == spec_parse_address(buf@),
{
    if buf.len() < 1 {
        return Ok(Decoded::NeedMore(1));
    }
    let atyp = buf[0];
    if atyp == 0x01 {
        if buf.len() < 5 {
            return Ok(Decoded::NeedMore(5));
        }
        if buf.len() < 7 {
            return Ok(Decoded::NeedMore(7));
        }
        let octets: [u8; 4] = [buf[1], buf[2], buf[3], buf[4]];
        assert(octets@ =~= buf@.subrange(1, 5));
        let port = read_port(buf[5], buf[6]);
        Ok(Decoded::Complete(TargetAddr { addr: SocksAddr::V4(octets), port }, 7))
    } else if atyp == 0x03 {
        if buf.len() < 2 {
            return Ok(Decoded::NeedMore(2));
        }
        let n = buf[1] as usize;
        if buf.len() < 2 + n {
            return Ok(Decoded::NeedMore(2 + n));
        }
        let domain = match string_from_utf8(copy_range(buf, 2, 2 + n)) {
            Ok(s) => s,
            Err(e) => {
                return Err(SocksError::Utf8Error(e));
            },
        };
        if buf.len() < 4 + n {
            return Ok(Decoded::NeedMore(4 + n));
        }
        let port = read_port(buf[2 + n], buf[3 + n]);
        Ok(Decoded::Complete(TargetAddr { addr: SocksAddr::Domain(domain), port }, 4 + n))
    } else if atyp == 0x04 {
        if buf.len() < 17 {
            return Ok(Decoded::NeedMore(17));
        }
        if buf.len() < 19 {
            return Ok(Decoded::NeedMore(19));
        }
        let octets: [u8; 16] = [
            buf[1],
            buf[2],
            buf[3],
            buf[4],
            buf[5],
            buf[6],
            buf[7],
            buf[8],
            buf[9],
            buf[10],
            buf[11],
            buf[12],
            buf[13],
            buf[14],
            buf[15],
            buf[16],
        ];
        assert(octets@ =~= buf@.subrange(1, 17));
        let port = read_port(buf[17], buf[18]);
        Ok(Decoded::Complete(TargetAddr { addr: SocksAddr::V6(octets), port }, 19))
    } else {
        Err(SocksError::InvalidAddressType(atyp))
    }
}

/// Parse the address that follows a three-byte header.
fn parse_address_after_header(buf: &[u8]) -> (res: Result<Decoded<TargetAddr>, SocksError>)
    requires
        buf@.len() >= 3,
    ensures
        outcome(res) == spec_parse_address(buf@.skip(3)),
        res matches Ok(Decoded::Complete(_, n)) ==> n + 3 <= buf@.len(),
        res matches Ok(Decoded::NeedMore(n)) ==> n + 3 <= usize::MAX,
{
    let rest = &buf[3..buf.len()];
    assert(rest@ =~= buf@.skip(3));
    let res = parse_address(rest);
    proof {
        if let Ok(Decoded::Complete(_, n)) = res {
            assert(n <= rest@.len());
        }
        if let Ok(Decoded::NeedMore(n)) = res {
            assert(n <= 2 + 255 + 2);
        }
    }
    res
}

/// Read SOCKS5 request from client.
pub fn parse_request(buf: &[u8]) -> (res: Result<Decoded<(Command, TargetAddr)>, SocksError>)
    ensures
        outcome(res) == spec_parse_request(buf@),
{
    if buf.len() < 1 {
        return Ok(Decoded::NeedMore(1));
    }
    if buf[0] != SOCKS_VERSION {
        return Err(SocksError::InvalidVersion(buf[0]));
    }
    if buf.len() < 2 {
        return Ok(Decoded::NeedMore(2));
    }
    let cmd = match Command::from_u8(buf[1]) {
        Ok(c) => c,
        Err(e) => {
            return Err(e);
        },
    };
    if buf.len() < 3 {
        return Ok(Decoded::NeedMore(3));
    }
    match parse_address_after_header(buf) {
        Ok(Decoded::Complete(target, n)) => Ok(Decoded::Complete((cmd, target), n + 3)),
        Ok(Decoded::NeedMore(n)) => Ok(Decoded::NeedMore(n + 3)),
        Err(e) => Err(e),
    }
}

/// Read SOCKS5 reply from server (client-side).
pub fn parse_reply(buf: &[u8]) -> (res: Result<Decoded<(ReplyCode, TargetAddr)>, SocksError>)
    ensures
        outcome(res) == spec_parse_reply(buf@),
{
    if buf.len() < 1 {
        return Ok(Decoded::NeedMore(1));
    }
    if buf[0] != SOCKS_VERSION {
        return Err(SocksError::InvalidVersion(buf[0]));
    }
    if buf.len() < 2 {
        return Ok(Decoded::NeedMore(2));
    }
    let reply = match ReplyCode::from_u8(buf[1]) {
        Ok(r) => r,
        Err(e) => {
            return Err(e);
        },
    };
    if buf.len() < 3 {
        return Ok(Decoded::NeedMore(3));
    }
    match parse_address_after_header(buf) {
        Ok(Decoded::Complete(target, n)) => Ok(Decoded::Complete((reply, target), n + 3)),
        Ok(Decoded::NeedMore(n)) => Ok(Decoded::NeedMore(n + 3)),
        Err(e) => Err(e),
    }
}

} // verus!
