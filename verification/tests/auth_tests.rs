use rust_socks::auth::{validate_credentials, MethodHandler, MultiDecision};
use rust_socks::error::SocksError;
use rust_socks::{AuthMethod, ClientAuth, MultiAuth, NoAuth, UserPassAuth};

#[test]
fn no_auth_accepts_everyone() {
    let a = NoAuth;
    assert!(a.authenticate("anyone", "anything"));
    assert_eq!(a.supported_methods(), vec![AuthMethod::NoAuth]);
}

#[test]
fn user_pass_store() {
    let auth = UserPassAuth::with_users(vec![
        ("alice".to_string(), "password123".to_string()),
        ("bob".to_string(), "secret456".to_string()),
    ]);
    assert!(auth.authenticate("alice", "password123"));
    assert!(auth.authenticate("bob", "secret456"));
    assert!(!auth.authenticate("alice", "secret456"));
    assert!(!auth.authenticate("carol", "password123"));
    assert!(!auth.authenticate("", ""));
    assert_eq!(auth.supported_methods(), vec![AuthMethod::UserPass]);

    let single = UserPassAuth::single_user("admin".to_string(), "admin123".to_string());
    assert!(single.authenticate("admin", "admin123"));
    assert!(!single.authenticate("admin", "admin1234"));
}

#[test]
fn later_pair_for_a_user_wins() {
    let auth = UserPassAuth::with_users(vec![
        ("alice".to_string(), "old".to_string()),
        ("alice".to_string(), "new".to_string()),
    ]);
    assert!(auth.authenticate("alice", "new"));
    assert!(!auth.authenticate("alice", "old"));
    let same = UserPassAuth::new(vec![("x".to_string(), "1".to_string())]);
    assert!(same.authenticate("x", "1"));
}

#[test]
fn multi_auth_methods_and_lookup() {
    let store = UserPassAuth::single_user("admin".to_string(), "admin123".to_string());
    let multi: MultiAuth<u32> = MultiAuth::new().with_no_auth().with_user_pass(store);
    assert_eq!(multi.supported_methods(), vec![AuthMethod::NoAuth, AuthMethod::UserPass]);
    assert!(matches!(multi.get_authenticator(AuthMethod::NoAuth), Some(MethodHandler::NoAuth(_))));
    assert!(matches!(multi.get_authenticator(AuthMethod::UserPass), Some(MethodHandler::UserPass(_))));
    assert!(multi.get_authenticator(AuthMethod::GssApi).is_none());
    assert!(matches!(multi.authenticate("admin", "admin123"), MultiDecision::Decided(true)));
    assert!(matches!(multi.authenticate("admin", "nope"), MultiDecision::Decided(false)));

    let empty: MultiAuth<u32> = MultiAuth::new();
    assert!(empty.supported_methods().is_empty());
    assert!(matches!(empty.authenticate("a", "b"), MultiDecision::Decided(false)));

    // A custom authenticator for username/password receives the decision;
    // the first one added for a method is the one used.
    let custom: MultiAuth<u32> = MultiAuth::new()
        .add_method(AuthMethod::UserPass, 7)
        .add_method(AuthMethod::UserPass, 8);
    assert!(matches!(custom.authenticate("a", "b"), MultiDecision::Delegate(&7)));
    assert!(matches!(custom.get_authenticator(AuthMethod::UserPass), Some(MethodHandler::Custom(7))));
}

#[test]
fn client_auth_methods_and_credentials() {
    assert_eq!(ClientAuth::NoAuth.preferred_methods(), vec![AuthMethod::NoAuth]);
    let pw = ClientAuth::Password { username: "u".to_string(), password: "p".to_string() };
    assert_eq!(pw.preferred_methods(), vec![AuthMethod::UserPass, AuthMethod::NoAuth]);
    assert_eq!(pw.credentials(), Some(("u", "p")));
    assert_eq!(ClientAuth::NoAuth.credentials(), None);
    assert!(matches!(ClientAuth::default(), ClientAuth::NoAuth));
}

#[test]
fn credential_validation() {
    assert!(validate_credentials("user", "pass").is_ok());
    let msg = |r: Result<(), SocksError>| match r {
        Err(SocksError::AuthenticationFailed(m)) => m,
        other => panic!("{:?}", other),
    };
    assert_eq!(msg(validate_credentials("", "pass")), "Username cannot be empty");
    assert_eq!(msg(validate_credentials("user", "")), "Password cannot be empty");
    assert_eq!(msg(validate_credentials(&"u".repeat(256), "p")), "Username too long");
    assert_eq!(msg(validate_credentials("u", &"p".repeat(256))), "Password too long");
    assert!(validate_credentials(&"u".repeat(255), &"p".repeat(255)).is_ok());
}
