use rust_socks::AuthMethod::{GssApi, NoAcceptable, NoAuth, Private, UserPass};
use rust_socks::client::{client_for, credentials_status_verdict, reply_verdict, ClientAuthStep};
use rust_socks::error::SocksError;
use rust_socks::message::{parse_userpass_request, Decoded};
use rust_socks::protocol::{AuthStatus, Command, ReplyCode};
use rust_socks::server::{
    auth_phase, command_verdict, connect_failure_reply, credentials_verdict, select_auth_method,
    unspecified_target, AuthPhase, ConnectFailure,
};
use rust_socks::{AuthMethod, ClientAuth, ClientBuilder, SocksAddr, SocksClient};

#[test]
fn server_selects_first_offered_supported_method() {
    assert_eq!(select_auth_method(&[UserPass, NoAuth], &[NoAuth]), NoAuth);
    assert_eq!(select_auth_method(&[UserPass, NoAuth], &[NoAuth, UserPass]), UserPass);
    assert_eq!(select_auth_method(&[NoAuth], &[UserPass]), NoAcceptable);
    assert_eq!(select_auth_method(&[], &[NoAuth]), NoAcceptable);
    assert_eq!(select_auth_method(&[GssApi, Private(0x80)], &[Private(0x80)]), Private(0x80));
}

#[test]
fn server_auth_phase() {
    assert!(matches!(auth_phase(AuthMethod::NoAuth), Ok(AuthPhase::Open)));
    assert!(matches!(auth_phase(AuthMethod::UserPass), Ok(AuthPhase::Credentials)));
    assert!(matches!(auth_phase(AuthMethod::NoAcceptable), Err(SocksError::NoAcceptableMethods)));
    assert!(matches!(auth_phase(AuthMethod::GssApi), Err(SocksError::InvalidAuthMethod(1))));
    assert!(matches!(auth_phase(AuthMethod::Private(0x99)), Err(SocksError::InvalidAuthMethod(0x99))));
}

#[test]
fn server_credentials_verdict() {
    let (status, res) = credentials_verdict(true, "alice");
    assert_eq!(status, AuthStatus::Success);
    assert!(res.is_ok());
    let (status, res) = credentials_verdict(false, "alice");
    assert_eq!(status, AuthStatus::Failure);
    match res {
        Err(SocksError::AuthenticationFailed(m)) => assert_eq!(m, "Invalid credentials for user alice"),
        other => panic!("{:?}", other),
    }
}

#[test]
fn server_command_gate() {
    assert_eq!(command_verdict(Command::Connect, true, false, false).unwrap(), Command::Connect);
    match command_verdict(Command::Bind, true, false, true) {
        Err(SocksError::CommandNotSupported(m)) => assert_eq!(m, "Bind"),
        other => panic!("{:?}", other),
    }
    match command_verdict(Command::UdpAssociate, true, true, false) {
        Err(SocksError::CommandNotSupported(m)) => assert_eq!(m, "UdpAssociate"),
        other => panic!("{:?}", other),
    }
    let t = unspecified_target();
    assert_eq!(t.addr, SocksAddr::V4([0, 0, 0, 0]));
    assert_eq!(t.port, 0);
}

#[test]
fn server_connect_failure_codes() {
    assert_eq!(connect_failure_reply(ConnectFailure::Refused), ReplyCode::ConnectionRefused);
    assert_eq!(connect_failure_reply(ConnectFailure::TimedOut), ReplyCode::TtlExpired);
    assert_eq!(connect_failure_reply(ConnectFailure::Other), ReplyCode::HostUnreachable);
}

#[test]
fn client_settings() {
    let mut c = SocksClient::new("127.0.0.1:1080".to_string());
    assert_eq!(c.proxy_addr(), "127.0.0.1:1080");
    assert!(matches!(c.auth(), ClientAuth::NoAuth));
    c.set_auth(ClientAuth::Password { username: "u".into(), password: "p".into() });
    assert_eq!(c.auth().credentials(), Some(("u", "p")));
    let c = SocksClient::with_auth("h:1".to_string(), "a".to_string(), "b".to_string());
    assert_eq!(c.auth().credentials(), Some(("a", "b")));

    let b = ClientBuilder::new("p:2".to_string())
        .with_credentials("alice".to_string(), "password123".to_string())
        .build();
    assert_eq!(b.proxy_addr(), "p:2");
    assert_eq!(b.auth().credentials(), Some(("alice", "password123")));
    let b = ClientBuilder::new("p:2".to_string())
        .with_credentials("x".to_string(), "y".to_string())
        .no_auth()
        .build();
    assert!(matches!(b.auth(), ClientAuth::NoAuth));
    let b = ClientBuilder::new("p:2".to_string()).with_auth(ClientAuth::Password {
        username: "k".into(),
        password: "v".into(),
    }).build();
    assert_eq!(b.auth().credentials(), Some(("k", "v")));

    let c = client_for("p:3".to_string(), Some(("u".to_string(), "w".to_string())));
    assert_eq!(c.auth().credentials(), Some(("u", "w")));
    let c = client_for("p:3".to_string(), None);
    assert!(matches!(c.auth(), ClientAuth::NoAuth));
}

#[test]
fn client_auth_steps() {
    let anon = SocksClient::new("p".to_string());
    assert!(matches!(anon.auth_step(AuthMethod::NoAuth), Ok(ClientAuthStep::Done)));
    assert!(matches!(anon.auth_step(AuthMethod::NoAcceptable), Err(SocksError::NoAcceptableMethods)));
    match anon.auth_step(AuthMethod::UserPass) {
        Err(SocksError::AuthenticationFailed(m)) => {
            assert_eq!(m, "Server requires username/password but none provided")
        }
        other => panic!("{:?}", other),
    }
    assert!(matches!(anon.auth_step(AuthMethod::GssApi), Err(SocksError::InvalidAuthMethod(1))));

    let user = SocksClient::with_auth("p".to_string(), "alice".to_string(), "pw".to_string());
    match user.auth_step(AuthMethod::UserPass) {
        Ok(ClientAuthStep::SendCredentials(bytes)) => {
            assert_eq!(bytes, vec![0x01, 5, b'a', b'l', b'i', b'c', b'e', 2, b'p', b'w']);
            match parse_userpass_request(&bytes) {
                Ok(Decoded::Complete((u, p), _)) => {
                    assert_eq!(u, "alice");
                    assert_eq!(p, "pw");
                }
                other => panic!("{:?}", other),
            }
        }
        other => panic!("{:?}", other),
    }
    let long = SocksClient::with_auth("p".to_string(), "x".repeat(300), "pw".to_string());
    assert!(matches!(long.auth_step(AuthMethod::UserPass), Err(SocksError::InvalidData(_))));
}

#[test]
fn client_verdicts() {
    assert!(credentials_status_verdict(AuthStatus::Success).is_ok());
    match credentials_status_verdict(AuthStatus::Failure) {
        Err(SocksError::AuthenticationFailed(m)) => assert_eq!(m, "Invalid credentials"),
        other => panic!("{:?}", other),
    }
    assert!(reply_verdict(ReplyCode::Succeeded).is_ok());
    assert!(matches!(reply_verdict(ReplyCode::ConnectionRefused), Err(SocksError::ConnectionRefused)));
    assert!(matches!(reply_verdict(ReplyCode::GeneralFailure), Err(SocksError::GeneralFailure)));
    match reply_verdict(ReplyCode::NotAllowed) {
        Err(SocksError::Custom(m)) => assert_eq!(m, "Connection not allowed by ruleset"),
        other => panic!("{:?}", other),
    }
}

#[test]
fn reply_code_error_mapping() {
    for code in [1u8, 3, 4, 5, 6, 7, 8] {
        assert_eq!(SocksError::from_reply_code(code).to_reply_code(), code);
    }
    assert_eq!(SocksError::from_reply_code(2).to_reply_code(), 1);
    assert!(matches!(SocksError::from_reply_code(0x42), SocksError::InvalidReplyCode(0x42)));
    assert_eq!(SocksError::ConnectionRefusedByDestination.to_reply_code(), 5);
    assert_eq!(SocksError::IncompleteData.to_reply_code(), 1);
}

#[test]
fn handshake_methods_agree() {
    let user = ClientAuth::Password { username: "u".into(), password: "p".into() };
    let anon = ClientAuth::NoAuth;
    assert_eq!(select_auth_method(&anon.preferred_methods(), &[NoAuth]), NoAuth);
    assert_eq!(select_auth_method(&user.preferred_methods(), &[NoAuth]), NoAuth);
    assert_eq!(select_auth_method(&anon.preferred_methods(), &[UserPass]), NoAcceptable);
    assert_eq!(select_auth_method(&user.preferred_methods(), &[UserPass]), UserPass);
    assert_eq!(select_auth_method(&user.preferred_methods(), &[NoAuth, UserPass]), UserPass);
    assert_eq!(select_auth_method(&anon.preferred_methods(), &[NoAuth, UserPass]), NoAuth);
}

#[test]
fn http_request_text() {
    assert_eq!(
        rust_socks::client::http_get_request("/index.html", "example.com"),
        "GET /index.html HTTP/1.1\r\nHost: example.com\r\nConnection: close\r\n\r\n"
    );
}
