use rust_socks::protocol::Command;
use rust_socks::{AuthMethod, VERSION};

#[test]
fn test_version() {
    assert!(!VERSION.is_empty());
}

#[test]
fn test_auth_method_conversion() {
    assert_eq!(AuthMethod::NoAuth.to_u8(), 0x00);
    assert_eq!(AuthMethod::UserPass.to_u8(), 0x02);
    assert_eq!(AuthMethod::from_u8(0x00), AuthMethod::NoAuth);
    assert_eq!(AuthMethod::from_u8(0x02), AuthMethod::UserPass);
}

#[test]
fn test_command_conversion() {
    assert_eq!(Command::Connect.to_u8(), 0x01);
    assert_eq!(Command::Bind.to_u8(), 0x02);
    assert_eq!(Command::UdpAssociate.to_u8(), 0x03);
}
