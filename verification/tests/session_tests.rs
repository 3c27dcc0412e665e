use rust_socks::error::SocksError;
use rust_socks::message::{
    encode_auth_request, encode_auth_response, encode_reply, encode_request,
    encode_userpass_request, encode_userpass_response,
};
use rust_socks::protocol::{AuthStatus, Command, ReplyCode};
use rust_socks::session::{ClientSession, ClientStage, ClientStep, ServerSession, ServerStage, ServerStep};
use rust_socks::AuthMethod::{NoAcceptable, NoAuth, UserPass};
use rust_socks::{SocksAddr, SocksClient, TargetAddr, UserPassAuth};

#[test]
fn server_session_runs_handshake() {

    let store = UserPassAuth::single_user("alice".to_string(), "pw".to_string());
    let supported = store.supported_methods();
    let mut s = ServerSession::new(true, false, true);
    assert_eq!(s.stage(), ServerStage::Greeting);
    let greeting = encode_auth_request(&[UserPass, NoAuth]).unwrap();
    assert!(matches!(s.on_input(&greeting[..1], &supported), ServerStep::Read(2)));
    match s.on_input(&greeting, &supported) {
        ServerStep::Send(b) => assert_eq!(b, vec![0x05, 0x02]),
        other => panic!("{:?}", other),
    }
    assert_eq!(s.stage(), ServerStage::Credentials);
    let creds = encode_userpass_request("alice", "pw").unwrap();
    let (u, p) = match s.on_input(&creds, &supported) {
        ServerStep::Check(u, p) => (u, p),
        other => panic!("{:?}", other),
    };
    let ok = store.authenticate(&u, &p);
    match s.on_checked(ok, &u) {
        ServerStep::Send(b) => assert_eq!(b, vec![0x01, 0x00]),
        other => panic!("{:?}", other),
    }
    assert_eq!(s.stage(), ServerStage::Request);
    let target = TargetAddr::new(SocksAddr::Domain("example.com".to_string()), 80);
    match s.on_input(&encode_request(Command::Connect, &target), &supported) {
        ServerStep::Serve(Command::Connect, t) => assert_eq!(t, target),
        other => panic!("{:?}", other),
    }
    assert_eq!(s.stage(), ServerStage::Finished);
}

#[test]
fn server_session_refusals() {

    // No acceptable method: the answer is sent, then the session fails.
    let mut s = ServerSession::new(true, true, true);
    match s.on_input(&encode_auth_request(&[NoAuth]).unwrap(), &[UserPass]) {
        ServerStep::Fail(b, SocksError::NoAcceptableMethods) => assert_eq!(b, vec![0x05, 0xFF]),
        other => panic!("{:?}", other),
    }
    // Wrong credentials: failure status, then the error.
    let mut s = ServerSession::new(true, true, true);
    assert!(matches!(s.on_input(&encode_auth_request(&[UserPass]).unwrap(), &[UserPass]), ServerStep::Send(_)));
    assert!(matches!(
        s.on_input(&encode_userpass_request("bob", "x").unwrap(), &[UserPass]),
        ServerStep::Check(_, _)
    ));
    match s.on_checked(false, "bob") {
        ServerStep::Fail(b, SocksError::AuthenticationFailed(m)) => {
            assert_eq!(b, vec![0x01, 0xFF]);
            assert_eq!(m, "Invalid credentials for user bob");
        }
        other => panic!("{:?}", other),
    }
    assert_eq!(s.stage(), ServerStage::Finished);
    // A disabled command is answered with "command not supported".
    let mut s = ServerSession::new(true, false, true);
    assert!(matches!(s.on_input(&encode_auth_request(&[NoAuth]).unwrap(), &[NoAuth]), ServerStep::Send(_)));
    let target = TargetAddr::new(SocksAddr::V4([0, 0, 0, 0]), 0);
    match s.on_input(&encode_request(Command::Bind, &target), &[NoAuth]) {
        ServerStep::Fail(b, SocksError::CommandNotSupported(m)) => {
            assert_eq!(b, vec![0x05, 0x07, 0x00, 0x01, 0, 0, 0, 0, 0, 0]);
            assert_eq!(m, "Bind");
        }
        other => panic!("{:?}", other),
    }
}

#[test]
fn client_session_runs_handshake() {

    let client = SocksClient::with_auth("p".to_string(), "alice".to_string(), "pw".to_string());
    let target = TargetAddr::new(SocksAddr::Domain("example.com".to_string()), 80);
    let (mut s, first) = ClientSession::start(&client, Command::Bind, &target);
    match first {
        ClientStep::Send(b) => assert_eq!(b, vec![0x05, 0x02, 0x02, 0x00]),
        other => panic!("{:?}", other),
    }
    assert!(matches!(s.on_input(&client, &[]), ClientStep::Read(1)));
    match s.on_input(&client, &encode_auth_response(UserPass)) {
        ClientStep::Send(b) => assert_eq!(b, vec![0x01, 5, b'a', b'l', b'i', b'c', b'e', 2, b'p', b'w']),
        other => panic!("{:?}", other),
    }
    assert_eq!(s.stage(), ClientStage::AwaitStatus);
    match s.on_input(&client, &encode_userpass_response(AuthStatus::Success)) {
        ClientStep::Send(b) => assert_eq!(&b[..3], &[0x05, 0x02, 0x00]),
        other => panic!("{:?}", other),
    }
    let listen = TargetAddr::new(SocksAddr::V4([10, 0, 0, 1]), 4000);
    match s.on_input(&client, &encode_reply(ReplyCode::Succeeded, &listen)) {
        ClientStep::Listening(a) => assert_eq!(a, listen),
        other => panic!("{:?}", other),
    }
    let peer = TargetAddr::new(SocksAddr::V4([10, 0, 0, 9]), 5000);
    match s.on_input(&client, &encode_reply(ReplyCode::Succeeded, &peer)) {
        ClientStep::Done(a) => assert_eq!(a, peer),
        other => panic!("{:?}", other),
    }
    assert_eq!(s.stage(), ClientStage::Finished);
}

#[test]
fn client_session_failures() {

    let target = TargetAddr::new(SocksAddr::V4([1, 1, 1, 1]), 53);
    let anon = SocksClient::new("p".to_string());
    let (mut s, _) = ClientSession::start(&anon, Command::Connect, &target);
    assert!(matches!(
        s.on_input(&anon, &encode_auth_response(NoAcceptable)),
        ClientStep::Fail(SocksError::NoAcceptableMethods)
    ));

    let (mut s, _) = ClientSession::start(&anon, Command::Connect, &target);
    assert!(matches!(s.on_input(&anon, &encode_auth_response(NoAuth)), ClientStep::Send(_)));
    assert!(matches!(
        s.on_input(&anon, &encode_reply(ReplyCode::ConnectionRefused, &target)),
        ClientStep::Fail(SocksError::ConnectionRefused)
    ));

    let user = SocksClient::with_auth("p".to_string(), "u".to_string(), "w".to_string());
    let (mut s, _) = ClientSession::start(&user, Command::Connect, &target);
    assert!(matches!(s.on_input(&user, &encode_auth_response(UserPass)), ClientStep::Send(_)));
    assert!(matches!(
        s.on_input(&user, &encode_userpass_response(AuthStatus::Failure)),
        ClientStep::Fail(SocksError::AuthenticationFailed(_))
    ));
}
