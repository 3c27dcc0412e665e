use rust_socks::error::SocksError;
use rust_socks::protocol::{AuthStatus, Command, ReplyCode};
use rust_socks::{AuthMethod, SocksAddr, TargetAddr};

#[test]
fn auth_method_bytes_roundtrip() {
    for b in 0u8..=255 {
        assert_eq!(AuthMethod::from_u8(b).to_u8(), b);
    }
    assert_eq!(AuthMethod::from_u8(0x01), AuthMethod::GssApi);
    assert_eq!(AuthMethod::from_u8(0x7F), AuthMethod::IanaAssigned(0x7F));
    assert_eq!(AuthMethod::from_u8(0x80), AuthMethod::Private(0x80));
    assert_eq!(AuthMethod::from_u8(0xFE), AuthMethod::Private(0xFE));
    assert_eq!(AuthMethod::from_u8(0xFF), AuthMethod::NoAcceptable);
}

#[test]
fn command_bytes() {
    for c in [Command::Connect, Command::Bind, Command::UdpAssociate] {
        assert_eq!(Command::from_u8(c.to_u8()).unwrap(), c);
    }
    assert!(matches!(Command::from_u8(0), Err(SocksError::InvalidCommand(0))));
    assert!(matches!(Command::from_u8(4), Err(SocksError::InvalidCommand(4))));
    assert_eq!(Command::Bind.name(), "Bind");
}

#[test]
fn reply_code_bytes() {
    for b in 0u8..=8 {
        assert_eq!(ReplyCode::from_u8(b).unwrap().to_u8(), b);
    }
    assert_eq!(ReplyCode::from_u8(5).unwrap(), ReplyCode::ConnectionRefused);
    assert!(matches!(ReplyCode::from_u8(9), Err(SocksError::InvalidReplyCode(9))));
}

#[test]
fn auth_status_bytes() {
    assert_eq!(AuthStatus::Success.to_u8(), 0x00);
    assert_eq!(AuthStatus::Failure.to_u8(), 0xFF);
    assert_eq!(AuthStatus::from_u8(0), AuthStatus::Success);
    assert_eq!(AuthStatus::from_u8(1), AuthStatus::Failure);
    assert_eq!(AuthStatus::from_u8(0xFF), AuthStatus::Failure);
}

#[test]
fn address_type_and_length() {
    assert_eq!(SocksAddr::V4([1, 2, 3, 4]).addr_type(), 0x01);
    assert_eq!(SocksAddr::V6([0; 16]).addr_type(), 0x04);
    assert_eq!(SocksAddr::Domain("a.b".into()).addr_type(), 0x03);
    assert_eq!(SocksAddr::V4([1, 2, 3, 4]).serialized_len(), 4);
    assert_eq!(SocksAddr::V6([0; 16]).serialized_len(), 16);
    assert_eq!(SocksAddr::Domain("example.com".into()).serialized_len(), 12);
    assert_eq!(SocksAddr::Domain("é".into()).serialized_len(), 3);
    let t = TargetAddr::new(SocksAddr::Domain("x".into()), 9);
    assert_eq!(t.port, 9);
    assert_eq!(t.addr, SocksAddr::Domain("x".into()));
}
