use rust_socks::error::SocksError;
use rust_socks::message::{
    encode_address, encode_auth_request, encode_auth_response, encode_reply, encode_request,
    encode_userpass_request, encode_userpass_response, parse_address, parse_auth_request,
    parse_auth_response, parse_reply, parse_request, parse_userpass_request,
    parse_userpass_response, Decoded,
};
use rust_socks::protocol::{AuthStatus, Command, ReplyCode};
use rust_socks::{AuthMethod, SocksAddr, TargetAddr};

fn need<T: std::fmt::Debug>(r: Result<Decoded<T>, SocksError>) -> usize {
    match r {
        Ok(Decoded::NeedMore(n)) => n,
        other => panic!("expected NeedMore, got {:?}", other),
    }
}

#[test]
fn auth_request_bytes_and_parse() {
    let bytes = encode_auth_request(&[AuthMethod::UserPass, AuthMethod::NoAuth]).unwrap();
    assert_eq!(bytes, vec![0x05, 0x02, 0x02, 0x00]);
    match parse_auth_request(&bytes) {
        Ok(Decoded::Complete(methods, n)) => {
            assert_eq!(methods, vec![AuthMethod::UserPass, AuthMethod::NoAuth]);
            assert_eq!(n, 4);
        }
        other => panic!("{:?}", other),
    }
    // The stream is read a step at a time: version, count, then the methods.
    assert_eq!(need(parse_auth_request(&[])), 1);
    assert_eq!(need(parse_auth_request(&[0x05])), 2);
    assert_eq!(need(parse_auth_request(&[0x05, 0x03, 0x00])), 5);
    // Unknown method bytes are kept as IANA or private methods.
    match parse_auth_request(&[0x05, 0x03, 0x10, 0x90, 0xFF, 0xAA]) {
        Ok(Decoded::Complete(methods, 5)) => assert_eq!(
            methods,
            vec![AuthMethod::IanaAssigned(0x10), AuthMethod::Private(0x90), AuthMethod::NoAcceptable]
        ),
        other => panic!("{:?}", other),
    }
}

#[test]
fn auth_request_errors() {
    assert!(matches!(parse_auth_request(&[0x04, 0x01, 0x00]), Err(SocksError::InvalidVersion(4))));
    match parse_auth_request(&[0x05, 0x00]) {
        Err(SocksError::InvalidData(m)) => assert_eq!(m, "No auth methods provided"),
        other => panic!("{:?}", other),
    }
    match encode_auth_request(&[]) {
        Err(SocksError::InvalidData(m)) => assert_eq!(m, "Invalid number of auth methods"),
        other => panic!("{:?}", other),
    }
    let many = vec![AuthMethod::NoAuth; 256];
    assert!(matches!(encode_auth_request(&many), Err(SocksError::InvalidData(_))));
    let most = vec![AuthMethod::NoAuth; 255];
    assert_eq!(encode_auth_request(&most).unwrap().len(), 257);
}

#[test]
fn auth_response_roundtrip() {
    let bytes = encode_auth_response(AuthMethod::NoAcceptable);
    assert_eq!(bytes, vec![0x05, 0xFF]);
    assert!(matches!(parse_auth_response(&bytes), Ok(Decoded::Complete(AuthMethod::NoAcceptable, 2))));
    assert_eq!(need(parse_auth_response(&[0x05])), 2);
    assert!(matches!(parse_auth_response(&[0x01, 0x00]), Err(SocksError::InvalidVersion(1))));
}

#[test]
fn userpass_request_roundtrip() {
    let bytes = encode_userpass_request("alice", "pässwörd").unwrap();
    assert_eq!(bytes[0], 0x01);
    assert_eq!(bytes[1], 5);
    assert_eq!(&bytes[2..7], b"alice");
    assert_eq!(bytes[7] as usize, "pässwörd".len());
    match parse_userpass_request(&bytes) {
        Ok(Decoded::Complete((u, p), n)) => {
            assert_eq!(u, "alice");
            assert_eq!(p, "pässwörd");
            assert_eq!(n, bytes.len());
        }
        other => panic!("{:?}", other),
    }
    assert_eq!(need(parse_userpass_request(&bytes[..1])), 2);
    assert_eq!(need(parse_userpass_request(&bytes[..2])), 7);
    assert_eq!(need(parse_userpass_request(&bytes[..7])), 8);
    assert_eq!(need(parse_userpass_request(&bytes[..8])), bytes.len());
}

#[test]
fn userpass_request_errors() {
    let long = "x".repeat(256);
    match encode_userpass_request(&long, "p") {
        Err(SocksError::InvalidData(m)) => assert_eq!(m, "Username or password too long"),
        other => panic!("{:?}", other),
    }
    assert!(encode_userpass_request("u", &long).is_err());
    assert!(encode_userpass_request(&"x".repeat(255), &"y".repeat(255)).is_ok());
    assert!(matches!(parse_userpass_request(&[0x05, 0x00]), Err(SocksError::InvalidVersion(5))));
    // A username that is not UTF-8 is refused before the password is read.
    assert!(matches!(parse_userpass_request(&[0x01, 0x01, 0xFF]), Err(SocksError::Utf8Error(_))));
    assert!(matches!(
        parse_userpass_request(&[0x01, 0x01, b'a', 0x01, 0xC3]),
        Err(SocksError::Utf8Error(_))
    ));
}

#[test]
fn userpass_response_roundtrip() {
    assert_eq!(encode_userpass_response(AuthStatus::Success), vec![0x01, 0x00]);
    assert_eq!(encode_userpass_response(AuthStatus::Failure), vec![0x01, 0xFF]);
    assert!(matches!(parse_userpass_response(&[0x01, 0x00]), Ok(Decoded::Complete(AuthStatus::Success, 2))));
    assert!(matches!(parse_userpass_response(&[0x01, 0x07]), Ok(Decoded::Complete(AuthStatus::Failure, 2))));
    assert!(matches!(parse_userpass_response(&[0x05, 0x00]), Err(SocksError::InvalidVersion(5))));
}

#[test]
fn address_encodings() {
    let v4 = TargetAddr::new(SocksAddr::V4([127, 0, 0, 1]), 8080);
    assert_eq!(encode_address(&v4), vec![0x01, 127, 0, 0, 1, 0x1F, 0x90]);
    let mut o6 = [0u8; 16];
    o6[15] = 1;
    let v6 = TargetAddr::new(SocksAddr::V6(o6), 443);
    let b6 = encode_address(&v6);
    assert_eq!(b6.len(), 19);
    assert_eq!(b6[0], 0x04);
    assert_eq!(&b6[17..], &[0x01, 0xBB]);
    let dom = TargetAddr::new(SocksAddr::Domain("example.com".to_string()), 80);
    let bd = encode_address(&dom);
    assert_eq!(bd[0], 0x03);
    assert_eq!(bd[1], 11);
    assert_eq!(&bd[2..13], b"example.com");
    assert_eq!(&bd[13..], &[0x00, 0x50]);

    for t in [v4, v6, dom] {
        let b = encode_address(&t);
        match parse_address(&b) {
            Ok(Decoded::Complete(back, n)) => {
                assert_eq!(back, t);
                assert_eq!(n, b.len());
                assert_eq!(b.len(), 1 + t.addr.serialized_len() + 2);
            }
            other => panic!("{:?}", other),
        }
    }
}

#[test]
fn address_parse_steps_and_errors() {
    assert_eq!(need(parse_address(&[])), 1);
    assert_eq!(need(parse_address(&[0x01, 1, 2])), 5);
    assert_eq!(need(parse_address(&[0x01, 1, 2, 3, 4, 0])), 7);
    assert_eq!(need(parse_address(&[0x03])), 2);
    assert_eq!(need(parse_address(&[0x03, 3, b'a'])), 5);
    assert_eq!(need(parse_address(&[0x03, 3, b'a', b'b', b'c'])), 7);
    assert_eq!(need(parse_address(&[0x04, 0])), 17);
    assert_eq!(need(parse_address(&[0x04; 17])), 19);
    assert!(matches!(parse_address(&[0x02, 0, 0]), Err(SocksError::InvalidAddressType(2))));
    assert!(matches!(parse_address(&[0x03, 1, 0x80]), Err(SocksError::Utf8Error(_))));
}

#[test]
fn long_domain_length_byte_wraps() {
    let name = "a".repeat(300);
    let t = TargetAddr::new(SocksAddr::Domain(name), 1);
    let b = encode_address(&t);
    assert_eq!(b[1], (300 % 256) as u8);
    assert_eq!(b.len(), 1 + 1 + 300 + 2);
}

#[test]
fn request_and_reply() {
    let target = TargetAddr::new(SocksAddr::Domain("example.com".to_string()), 443);
    let req = encode_request(Command::Connect, &target);
    assert_eq!(&req[..3], &[0x05, 0x01, 0x00]);
    match parse_request(&req) {
        Ok(Decoded::Complete((cmd, t), n)) => {
            assert_eq!(cmd, Command::Connect);
            assert_eq!(t, target);
            assert_eq!(n, req.len());
        }
        other => panic!("{:?}", other),
    }
    assert_eq!(need(parse_request(&req[..2])), 3);
    assert_eq!(need(parse_request(&req[..3])), 4);
    assert_eq!(need(parse_request(&req[..4])), 5);
    assert!(matches!(parse_request(&[0x05, 0x09]), Err(SocksError::InvalidCommand(9))));
    assert!(matches!(parse_request(&[0x04, 0x01]), Err(SocksError::InvalidVersion(4))));
    // Any reserved byte is accepted.
    let mut odd = req.clone();
    odd[2] = 0x7F;
    assert!(matches!(parse_request(&odd), Ok(Decoded::Complete((Command::Connect, _), _))));

    let bind = TargetAddr::new(SocksAddr::V4([10, 0, 0, 2]), 1080);
    let rep = encode_reply(ReplyCode::HostUnreachable, &bind);
    assert_eq!(rep, vec![0x05, 0x04, 0x00, 0x01, 10, 0, 0, 2, 0x04, 0x38]);
    match parse_reply(&rep) {
        Ok(Decoded::Complete((code, t), 10)) => {
            assert_eq!(code, ReplyCode::HostUnreachable);
            assert_eq!(t, bind);
        }
        other => panic!("{:?}", other),
    }
    assert!(matches!(parse_reply(&[0x05, 0x09, 0x00]), Err(SocksError::InvalidReplyCode(9))));
}

#[test]
fn settled_parse_ignores_following_bytes() {
    let target = TargetAddr::new(SocksAddr::V4([1, 2, 3, 4]), 5);
    let mut req = encode_request(Command::Bind, &target);
    let len = req.len();
    req.extend_from_slice(&[9, 9, 9]);
    match parse_request(&req) {
        Ok(Decoded::Complete((Command::Bind, t), n)) => {
            assert_eq!(t, target);
            assert_eq!(n, len);
        }
        other => panic!("{:?}", other),
    }
}
