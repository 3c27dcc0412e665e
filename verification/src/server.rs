//! The decisions that a SOCKS5 server takes while it serves one client: which
//! authentication method to answer with, what to do after it, what to reply
//! to a username and password, which commands to serve, and which reply code
//! a failed outbound connection gets.
use vstd::prelude::*;
use crate::auth::{client_methods, ClientAuth};
use crate::error::{ErrorView, SocksError};
use crate::protocol::{
    byte_of_method, command_name, AuthMethod, AuthStatus, Command, ReplyCode, SocksAddr,
    TargetAddr,
};

verus! {

/// The method a server answers with: the first method that the client
/// offered and the server supports, or "no acceptable methods".
pub open spec fn spec_select_method(offered: Seq<AuthMethod>, supported: Seq<AuthMethod>) -> AuthMethod
    decreases offered.len(),
{
    if offered.len() == 0 {
        AuthMethod::NoAcceptable
    } else if supported.contains(offered[0]) {
        offered[0]
    } else {
        spec_select_method(offered.drop_first(), supported)
    }
}

fn contains_method(methods: &[AuthMethod], m: AuthMethod) -> (found: bool)
    ensures
        found == methods@.contains(m),
{
    let mut i: usize = 0;
    while i < methods.len()
        invariant
            i <= methods@.len(),
            forall|j: int| 0 <= j < i ==> methods@[j] != m,
        decreases methods@.len() - i,
    {
        if methods[i] == m {
            assert(methods@[i as int] == m);
            return true;
        }
        i = i + 1;
    }
    false
}

/// Select the authentication method for a client's offer.
pub fn select_auth_method(offered: &[AuthMethod], supported: &[AuthMethod]) -> (m: AuthMethod)
    ensures
        m == spec_select_method(offered@, supported@),
{
    let mut i: usize = 0;
    assert(offered@.skip(0) =~= offered@);
    while i < offered.len()
        invariant
            i <= offered@.len(),
            spec_select_method(offered@, supported@) == spec_select_method(
                offered@.skip(i as int),
                supported@,
            ),
        decreases offered@.len() - i,
    {
        let m = offered[i];
        assert(offered@.skip(i as int)[0] == m);
        if contains_method(supported, m) {
            return m;
        }
        assert(offered@.skip(i as int).drop_first() =~= offered@.skip(i + 1));
        i = i + 1;
    }
    assert(offered@.skip(i as int).len() == 0);
    AuthMethod::NoAcceptable
}

/// The method selected is one the client offered and the server supports,
/// and it is "no acceptable methods" only when no offered method is
/// supported (or the server itself lists that method).
pub proof fn lemma_selected_method(offered: Seq<AuthMethod>, supported: Seq<AuthMethod>)
    ensures
        spec_select_method(offered, supported) != AuthMethod::NoAcceptable ==> offered.contains(
            spec_select_method(offered, supported),
        ) && supported.contains(spec_select_method(offered, supported)),
        (forall|i: int| 0 <= i < offered.len() ==> !supported.contains(#[trigger] offered[i]))
            ==> spec_select_method(offered, supported) == AuthMethod::NoAcceptable,
        (exists|i: int| 0 <= i < offered.len() && supported.contains(#[trigger] offered[i]))
            ==> supported.contains(spec_select_method(offered, supported)),
    decreases offered.len(),
{
    if offered.len() > 0 {
        let rest = offered.drop_first();
        lemma_selected_method(rest, supported);
        let s = spec_select_method(offered, supported);
        if !supported.contains(offered[0]) {
            if s != AuthMethod::NoAcceptable {
                let k = choose|k: int| 0 <= k < rest.len() && rest[k] == s;
                assert(offered[k + 1] == s);
            }
            assert forall|i: int| 0 <= i < rest.len() && supported.contains(#[trigger] rest[i])
                implies exists|j: int| 0 <= j < offered.len() && supported.contains(
                #[trigger] offered[j],
            ) by {
                assert(offered[i + 1] == rest[i]);
            }
            if exists|i: int| 0 <= i < offered.len() && supported.contains(#[trigger] offered[i]) {
                let i = choose|i: int| 0 <= i < offered.len() && supported.contains(#[trigger] offered[i]);
                assert(rest[i - 1] == offered[i]);
            }
        }
    }
}

/// The method selected is the first in the client's order that the server
/// supports: an offered method that the server supports, with no supported
/// method offered before it, is the one chosen.
pub proof fn lemma_selected_method_is_first(
    offered: Seq<AuthMethod>,
    supported: Seq<AuthMethod>,
    i: int,
)
    requires
        0 <= i < offered.len(),
        supported.contains(offered[i]),
        forall|j: int| 0 <= j < i ==> !supported.contains(#[trigger] offered[j]),
    ensures
        spec_select_method(offered, supported) == offered[i],
    decreases i,
{
    if i > 0 {
        let rest = offered.drop_first();
        assert(!supported.contains(offered[0]));
        assert forall|j: int| 0 <= j < i - 1 implies !supported.contains(#[trigger] rest[j]) by {
            assert(rest[j] == offered[j + 1]);
        }
        lemma_selected_method_is_first(rest, supported, i - 1);
    }
}

/// The method a client and a server agree on: a server that serves only
/// "no authentication" answers every client with it; one that serves only
/// username/password picks it for a client with credentials and finds
/// nothing acceptable for one without; one that serves both follows the
/// client's preference.
pub proof fn lemma_handshake_method(auth: ClientAuth)
    ensures
        spec_select_method(client_methods(auth), seq![AuthMethod::NoAuth]) == AuthMethod::NoAuth,
        spec_select_method(client_methods(auth), seq![AuthMethod::UserPass]) == match auth {
            ClientAuth::NoAuth => AuthMethod::NoAcceptable,
            ClientAuth::Password { .. } => AuthMethod::UserPass,
        },
        spec_select_method(client_methods(auth), seq![AuthMethod::NoAuth, AuthMethod::UserPass])
            == match auth {
            ClientAuth::NoAuth => AuthMethod::NoAuth,
            ClientAuth::Password { .. } => AuthMethod::UserPass,
        },
{
    reveal_with_fuel(spec_select_method, 3);
    let m = client_methods(auth);
    assert(seq![AuthMethod::NoAuth].contains(AuthMethod::NoAuth)) by {
        assert(seq![AuthMethod::NoAuth][0] == AuthMethod::NoAuth);
    }
    assert(seq![AuthMethod::UserPass].contains(AuthMethod::UserPass)) by {
        assert(seq![AuthMethod::UserPass][0] == AuthMethod::UserPass);
    }
    assert(!seq![AuthMethod::UserPass].contains(AuthMethod::NoAuth));
    assert(!seq![AuthMethod::NoAuth].contains(AuthMethod::UserPass));
    assert(seq![AuthMethod::NoAuth, AuthMethod::UserPass].contains(AuthMethod::NoAuth)) by {
        assert(seq![AuthMethod::NoAuth, AuthMethod::UserPass][0] == AuthMethod::NoAuth);
    }
    assert(seq![AuthMethod::NoAuth, AuthMethod::UserPass].contains(AuthMethod::UserPass)) by {
        assert(seq![AuthMethod::NoAuth, AuthMethod::UserPass][1] == AuthMethod::UserPass);
    }
    assert(m.drop_first().drop_first().len() == 0 || m.drop_first().len() == 0);
    if m.len() == 2 {
        assert(m.drop_first() =~= seq![AuthMethod::NoAuth]);
        assert(m.drop_first().drop_first() =~= Seq::<AuthMethod>::empty());
    } else {
        assert(m.drop_first() =~= Seq::<AuthMethod>::empty());
    }
}

/// What the server does after it has answered the method selection.
#[derive(Debug, Clone, Copy, PartialEq, Eq, Structural)]
pub enum AuthPhase {
    /// Go on to the request: no authentication.
    Open,
    /// Read a username/password request first.
    Credentials,
}

/// Decide the authentication phase that follows a selected method.
pub fn auth_phase(selected: AuthMethod) -> (res: Result<AuthPhase, SocksError>)
    ensures
        selected == AuthMethod::NoAcceptable ==> (res matches Err(e) && e@
            == ErrorView::NoAcceptableMethods),
        selected == AuthMethod::NoAuth ==> res == Ok::<AuthPhase, SocksError>(AuthPhase::Open),
        selected == AuthMethod::UserPass ==> res == Ok::<AuthPhase, SocksError>(
            AuthPhase::Credentials,
        ),
        selected != AuthMethod::NoAcceptable && selected != AuthMethod::NoAuth && selected
            != AuthMethod::UserPass ==> (res matches Err(e) && e@ == ErrorView::InvalidAuthMethod(
            byte_of_method(selected),
        )),
{
    match selected {
        AuthMethod::NoAcceptable => Err(SocksError::NoAcceptableMethods),
        AuthMethod::NoAuth => Ok(AuthPhase::Open),
        AuthMethod::UserPass => Ok(AuthPhase::Credentials),
        _ => Err(SocksError::InvalidAuthMethod(selected.to_u8())),
    }
}

/// The status to send for a credential check, and whether the client may
/// go on; a refused user's name is carried in the error.
pub fn credentials_verdict(authenticated: bool, username: &str) -> (res: (
    AuthStatus,
    Result<(), SocksError>,
))
    ensures
        authenticated ==> res.0 == AuthStatus::Success && res.1 is Ok,
        !authenticated ==> res.0 == AuthStatus::Failure && (res.1 matches Err(e) && e@
            == ErrorView::AuthenticationFailed("Invalid credentials for user "@ + username@)),
{
    if authenticated {
        (AuthStatus::Success, Ok(()))
    } else {
        let mut msg = "Invalid credentials for user ".to_owned();
        msg.append(username);
        (AuthStatus::Failure, Err(SocksError::AuthenticationFailed(msg)))
    }
}

/// Whether a server with these switches serves a command.
pub open spec fn command_enabled(
    cmd: Command,
    enable_connect: bool,
    enable_bind: bool,
    enable_udp: bool,
) -> bool {
    match cmd {
        Command::Connect => enable_connect,
        Command::Bind => enable_bind,
        Command::UdpAssociate => enable_udp,
    }
}

/// Each command is served exactly when its own switch is on, whatever the
/// other two switches say.
pub proof fn lemma_command_switches(enable_connect: bool, enable_bind: bool, enable_udp: bool)
    ensures
        command_enabled(Command::Connect, enable_connect, enable_bind, enable_udp)
            == enable_connect,
        command_enabled(Command::Bind, enable_connect, enable_bind, enable_udp) == enable_bind,
        command_enabled(Command::UdpAssociate, enable_connect, enable_bind, enable_udp)
            == enable_udp,
{
}

/// Decide whether to serve a request's command. A refused command is
/// answered with a "command not supported" reply bound to the unspecified
/// address, and ends the session with the error.
pub fn command_verdict(cmd: Command, enable_connect: bool, enable_bind: bool, enable_udp: bool) -> (res:
    Result<Command, SocksError>)
    ensures
        command_enabled(cmd, enable_connect, enable_bind, enable_udp) ==> res == Ok::<
            Command,
            SocksError,
        >(cmd),
        !command_enabled(cmd, enable_connect, enable_bind, enable_udp) ==> (res matches Err(e) && e@
            == ErrorView::CommandNotSupported(command_name(cmd))),
{
    let enabled = match cmd {
        Command::Connect => enable_connect,
        Command::Bind => enable_bind,
        Command::UdpAssociate => enable_udp,
    };
    if enabled {
        Ok(cmd)
    } else {
        Err(SocksError::CommandNotSupported(cmd.name()))
    }
}

/// The address a server reports when it has none to report: 0.0.0.0:0.
pub fn unspecified_target() -> (t: TargetAddr)
    ensures
        t@.addr == crate::protocol::AddrView::V4(seq![0u8, 0u8, 0u8, 0u8]),
        t@.port == 0,
{
    let o: [u8; 4] = [0, 0, 0, 0];
    assert(o@ =~= seq![0u8, 0u8, 0u8, 0u8]);
    TargetAddr::new(SocksAddr::V4(o), 0)
}

/// Why an outbound connection failed, as far as the reply tells it.
#[derive(Debug, Clone, Copy, PartialEq, Eq, Structural)]
pub enum ConnectFailure {
    Refused,
    TimedOut,
    Other,
}

/// The reply code for a failed outbound connection.
pub fn connect_failure_reply(failure: ConnectFailure) -> (r: ReplyCode)
    ensures
        r == match failure {
            ConnectFailure::Refused => ReplyCode::ConnectionRefused,
            ConnectFailure::TimedOut => ReplyCode::TtlExpired,
            ConnectFailure::Other => ReplyCode::HostUnreachable,
        },
{
    match failure {
        ConnectFailure::Refused => ReplyCode::ConnectionRefused,
        ConnectFailure::TimedOut => ReplyCode::TtlExpired,
        ConnectFailure::Other => ReplyCode::HostUnreachable,
    }
}

} // verus!
