//! The SOCKS5 handshake of one connection, as a state machine on each side.
//!
//! A session is told what arrived on its connection and answers with the
//! next step: read more bytes, send bytes, check credentials, serve a
//! request, or fail. The caller owns the socket and performs the steps; each
//! message is read into a fresh buffer once the step before it is done.
use vstd::prelude::*;
use vstd::utf8::encode_utf8;
use crate::auth::{client_methods, ClientAuth};
use crate::client::{credentials_status_verdict, reply_verdict, ClientAuthStep, SocksClient};
use crate::error::{error_of_reply_code, ErrorView, SocksError};
use crate::message::{
    encode_auth_request, encode_auth_response, encode_reply, encode_request,
    encode_userpass_response, parse_auth_request, parse_auth_response, parse_reply, parse_request,
    parse_userpass_request, parse_userpass_response, spec_encode_auth_request,
    spec_encode_auth_response, spec_encode_reply, spec_encode_request,
    spec_encode_userpass_request, spec_encode_userpass_response, spec_parse_auth_request,
    spec_parse_auth_response, spec_parse_reply, spec_parse_request, spec_parse_userpass_request,
    spec_parse_userpass_response, Decoded, Parse,
};
use crate::protocol::{
    byte_of_method, byte_of_reply, command_name, AddrView, AuthMethod, AuthStatus, Command,
    ReplyCode, TargetAddr, TargetView,
};
use crate::server::{
    auth_phase, command_enabled, command_verdict, credentials_verdict, select_auth_method,
    spec_select_method, unspecified_target, AuthPhase,
};

verus! {

// ---------------------------------------------------------------------
// Server side
// ---------------------------------------------------------------------

/// Where a server's handshake stands.
#[derive(Debug, Clone, Copy, PartialEq, Eq, Structural)]
pub enum ServerStage {
    /// Waiting for the client's method selection request.
    Greeting,
    /// Waiting for the client's username and password.
    Credentials,
    /// Waiting for the authenticator's answer.
    Checking,
    /// Waiting for the client's request.
    Request,
    /// The handshake is over.
    Finished,
}

/// What a server does next.
#[derive(Debug)]
pub enum ServerStep {
    /// Read until the buffer holds this many bytes, then hand it back.
    Read(usize),
    /// Ask the authenticator about this username and password.
    Check(String, String),
    /// Send these bytes, then read the next message into a fresh buffer.
    Send(Vec<u8>),
    /// Serve this command for this target; the handshake is over.
    Serve(Command, TargetAddr),
    /// Send these bytes (none when empty), then close with this error.
    Fail(Vec<u8>, SocksError),
}

/// A server step as a value.
pub enum ServerStepView {
    Read(nat),
    Check(Seq<char>, Seq<char>),
    Send(Seq<u8>),
    Serve(Command, TargetView),
    Fail(Seq<u8>, ErrorView),
}

impl View for ServerStep {
    type V = ServerStepView;

    open spec fn view(&self) -> ServerStepView {
        match self {
            ServerStep::Read(n) => ServerStepView::Read(*n as nat),
            ServerStep::Check(u, p) => ServerStepView::Check(u@, p@),
            ServerStep::Send(b) => ServerStepView::Send(b@),
            ServerStep::Serve(c, t) => ServerStepView::Serve(*c, t@),
            ServerStep::Fail(b, e) => ServerStepView::Fail(b@, e@),
        }
    }
}

/// The address a server reports when it has none: 0.0.0.0:0.
pub open spec fn unspecified_view() -> TargetView {
    TargetView { addr: AddrView::V4(seq![0u8, 0u8, 0u8, 0u8]), port: 0 }
}

/// The stage and step that follow a message from the client.
pub open spec fn server_input_next(
    stage: ServerStage,
    enable_connect: bool,
    enable_bind: bool,
    enable_udp: bool,
    supported: Seq<AuthMethod>,
    input: Seq<u8>,
) -> (ServerStage, ServerStepView) {
    match stage {
        ServerStage::Greeting => match spec_parse_auth_request(input) {
            Parse::NeedMore(k) => (ServerStage::Greeting, ServerStepView::Read(k)),
            Parse::Failed(e) => (ServerStage::Finished, ServerStepView::Fail(Seq::empty(), e)),
            Parse::Complete(offered, _) => {
                let selected = spec_select_method(offered, supported);
                let answer = spec_encode_auth_response(selected);
                if selected == AuthMethod::NoAcceptable {
                    (
                        ServerStage::Finished,
                        ServerStepView::Fail(answer, ErrorView::NoAcceptableMethods),
                    )
                } else if selected == AuthMethod::NoAuth {
                    (ServerStage::Request, ServerStepView::Send(answer))
                } else if selected == AuthMethod::UserPass {
                    (ServerStage::Credentials, ServerStepView::Send(answer))
                } else {
                    (
                        ServerStage::Finished,
                        ServerStepView::Fail(
                            answer,
                            ErrorView::InvalidAuthMethod(byte_of_method(selected)),
                        ),
                    )
                }
            },
        },
        ServerStage::Credentials => match spec_parse_userpass_request(input) {
            Parse::NeedMore(k) => (ServerStage::Credentials, ServerStepView::Read(k)),
            Parse::Failed(e) => (ServerStage::Finished, ServerStepView::Fail(Seq::empty(), e)),
            Parse::Complete((u, p), _) => (ServerStage::Checking, ServerStepView::Check(u, p)),
        },
        ServerStage::Request => match spec_parse_request(input) {
            Parse::NeedMore(k) => (ServerStage::Request, ServerStepView::Read(k)),
            Parse::Failed(e) => (ServerStage::Finished, ServerStepView::Fail(Seq::empty(), e)),
            Parse::Complete((c, t), _) => if command_enabled(
                c,
                enable_connect,
                enable_bind,
                enable_udp,
            ) {
                (ServerStage::Finished, ServerStepView::Serve(c, t))
            } else {
                (
                    ServerStage::Finished,
                    ServerStepView::Fail(
                        spec_encode_reply(ReplyCode::CommandNotSupported, unspecified_view()),
                        ErrorView::CommandNotSupported(command_name(c)),
                    ),
                )
            },
        },
        _ => (stage, ServerStepView::Read(0)),
    }
}

/// The stage and step that follow the authenticator's answer.
pub open spec fn server_checked_next(authenticated: bool, username: Seq<char>) -> (
    ServerStage,
    ServerStepView,
) {
    if authenticated {
        (
            ServerStage::Request,
            ServerStepView::Send(spec_encode_userpass_response(AuthStatus::Success)),
        )
    } else {
        (
            ServerStage::Finished,
            ServerStepView::Fail(
                spec_encode_userpass_response(AuthStatus::Failure),
                ErrorView::AuthenticationFailed("Invalid credentials for user "@ + username),
            ),
        )
    }
}

/// The handshake of one client connection, on the server.
pub struct ServerSession {
    stage: ServerStage,
    enable_connect: bool,
    enable_bind: bool,
    enable_udp: bool,
}

impl ServerSession {
    pub closed spec fn spec_stage(&self) -> ServerStage {
        self.stage
    }

    pub closed spec fn spec_flags(&self) -> (bool, bool, bool) {
        (self.enable_connect, self.enable_bind, self.enable_udp)
    }

    /// A session that waits for the client's greeting, serving the enabled commands.
    pub fn new(enable_connect: bool, enable_bind: bool, enable_udp: bool) -> (s: ServerSession)
        ensures
            s.spec_stage() == ServerStage::Greeting,
            s.spec_flags() == (enable_connect, enable_bind, enable_udp),
    {
        ServerSession { stage: ServerStage::Greeting, enable_connect, enable_bind, enable_udp }
    }

    /// Where the handshake stands.
    pub fn stage(&self) -> (s: ServerStage)
        ensures
            s == self.spec_stage(),
    {
        self.stage
    }

    /// Take the bytes read so far of the message the stage waits for.
    pub fn on_input(&mut self, input: &[u8], supported: &[AuthMethod]) -> (step: ServerStep)
        requires
            old(self).spec_stage() == ServerStage::Greeting || old(self).spec_stage()
                == ServerStage::Credentials || old(self).spec_stage() == ServerStage::Request,
        ensures
            final(self).spec_flags() == old(self).spec_flags(),
            (final(self).spec_stage(), step@) == server_input_next(
                old(self).spec_stage(),
                old(self).spec_flags().0,
                old(self).spec_flags().1,
                old(self).spec_flags().2,
                supported@,
                input@,
            ),
    {
        match self.stage {
            ServerStage::Greeting => match parse_auth_request(input) {
                Ok(Decoded::NeedMore(k)) => ServerStep::Read(k),
                Err(e) => {
                    self.stage = ServerStage::Finished;
                    ServerStep::Fail(Vec::new(), e)
                },
                Ok(Decoded::Complete(offered, _)) => {
                    let selected = select_auth_method(offered.as_slice(), supported);
                    let answer = encode_auth_response(selected);
                    match auth_phase(selected) {
                        Ok(AuthPhase::Open) => {
                            self.stage = ServerStage::Request;
                            ServerStep::Send(answer)
                        },
                        Ok(AuthPhase::Credentials) => {
                            self.stage = ServerStage::Credentials;
                            ServerStep::Send(answer)
                        },
                        Err(e) => {
                            self.stage = ServerStage::Finished;
                            ServerStep::Fail(answer, e)
                        },
                    }
                },
            },
            ServerStage::Credentials => match parse_userpass_request(input) {
                Ok(Decoded::NeedMore(k)) => ServerStep::Read(k),
                Err(e) => {
                    self.stage = ServerStage::Finished;
                    ServerStep::Fail(Vec::new(), e)
                },
                Ok(Decoded::Complete((u, p), _)) => {
                    self.stage = ServerStage::Checking;
                    ServerStep::Check(u, p)
                },
            },
            _ => match parse_request(input) {
                Ok(Decoded::NeedMore(k)) => ServerStep::Read(k),
                Err(e) => {
                    self.stage = ServerStage::Finished;
                    ServerStep::Fail(Vec::new(), e)
                },
                Ok(Decoded::Complete((c, t), _)) => {
                    self.stage = ServerStage::Finished;
                    match command_verdict(c, self.enable_connect, self.enable_bind, self.enable_udp) {
                        Ok(cmd) => ServerStep::Serve(cmd, t),
                        Err(e) => ServerStep::Fail(
                            encode_reply(ReplyCode::CommandNotSupported, &unspecified_target()),
                            e,
                        ),
                    }
                },
            },
        }
    }

    /// Take the authenticator's answer for the username and password of the
    /// last `Check` step.
    pub fn on_checked(&mut self, authenticated: bool, username: &str) -> (step: ServerStep)
        requires
            old(self).spec_stage() == ServerStage::Checking,
        ensures
            final(self).spec_flags() == old(self).spec_flags(),
            (final(self).spec_stage(), step@) == server_checked_next(authenticated, username@),
    {
        let (status, verdict) = credentials_verdict(authenticated, username);
        let answer = encode_userpass_response(status);
        match verdict {
            Ok(()) => {
                self.stage = ServerStage::Request;
                ServerStep::Send(answer)
            },
            Err(e) => {
                self.stage = ServerStage::Finished;
                ServerStep::Fail(answer, e)
            },
        }
    }
}

/// A server serves a request only from the request stage, and it enters that
/// stage only when "no authentication" was selected in the greeting or the
/// authenticator accepted the credentials; a disabled command is never
/// served, and is answered with a "command not supported" reply.
pub proof fn lemma_server_serves_only_after_authentication(
    stage: ServerStage,
    flags: (bool, bool, bool),
    supported: Seq<AuthMethod>,
    input: Seq<u8>,
    authenticated: bool,
    username: Seq<char>,
)
    ensures
        ({
            let (next, step) = server_input_next(stage, flags.0, flags.1, flags.2, supported, input);
            &&& step is Serve ==> stage == ServerStage::Request
            &&& step matches ServerStepView::Serve(c, _) ==> command_enabled(
                c,
                flags.0,
                flags.1,
                flags.2,
            )
            &&& next == ServerStage::Request && stage != ServerStage::Request ==> stage
                == ServerStage::Greeting && (spec_parse_auth_request(input) matches Parse::Complete(
                offered,
                _,
            ) && spec_select_method(offered, supported) == AuthMethod::NoAuth)
            &&& stage == ServerStage::Request ==> match spec_parse_request(input) {
                Parse::Complete((c, _), _) => !command_enabled(c, flags.0, flags.1, flags.2) ==> step
                    == ServerStepView::Fail(
                    spec_encode_reply(ReplyCode::CommandNotSupported, unspecified_view()),
                    ErrorView::CommandNotSupported(command_name(c)),
                ),
                _ => true,
            }
        }),
        server_checked_next(authenticated, username).0 == ServerStage::Request <==> authenticated,
{
}

/// A server in the request stage serves each parsed command exactly when
/// that command's own switch is on, for the target the request names; a
/// command whose switch is off is refused.
pub proof fn lemma_server_serves_enabled_commands(
    flags: (bool, bool, bool),
    supported: Seq<AuthMethod>,
    input: Seq<u8>,
)
    ensures
        match spec_parse_request(input) {
            Parse::Complete((c, t), _) => {
                let step = server_input_next(
                    ServerStage::Request,
                    flags.0,
                    flags.1,
                    flags.2,
                    supported,
                    input,
                ).1;
                &&& c == Command::Connect ==> (step == ServerStepView::Serve(c, t) <==> flags.0)
                &&& c == Command::Bind ==> (step == ServerStepView::Serve(c, t) <==> flags.1)
                &&& c == Command::UdpAssociate ==> (step == ServerStepView::Serve(c, t)
                    <==> flags.2)
                &&& !(step is Serve) ==> step is Fail
            },
            _ => true,
        },
{
}

// ---------------------------------------------------------------------
// Client side
// ---------------------------------------------------------------------

/// Where a client's handshake stands.
#[derive(Debug, Clone, Copy, PartialEq, Eq, Structural)]
pub enum ClientStage {
    /// Waiting for the proxy's choice of method.
    AwaitMethod,
    /// Waiting for the proxy's answer to the username and password.
    AwaitStatus,
    /// Waiting for the proxy's reply to the request.
    AwaitReply,
    /// Waiting for the second reply of a BIND request.
    AwaitSecondReply,
    /// The handshake is over.
    Finished,
}

/// What a client does next.
#[derive(Debug)]
pub enum ClientStep {
    /// Send these bytes, then read the next message into a fresh buffer.
    Send(Vec<u8>),
    /// Read until the buffer holds this many bytes, then hand it back.
    Read(usize),
    /// A BIND request's proxy listens at this address; read the next reply.
    Listening(TargetAddr),
    /// The handshake succeeded with this address from the last reply.
    Done(TargetAddr),
    /// Close with this error.
    Fail(SocksError),
}

/// A client step as a value.
pub enum ClientStepView {
    Send(Seq<u8>),
    Read(nat),
    Listening(TargetView),
    Done(TargetView),
    Fail(ErrorView),
}

impl View for ClientStep {
    type V = ClientStepView;

    open spec fn view(&self) -> ClientStepView {
        match self {
            ClientStep::Send(b) => ClientStepView::Send(b@),
            ClientStep::Read(n) => ClientStepView::Read(*n as nat),
            ClientStep::Listening(t) => ClientStepView::Listening(t@),
            ClientStep::Done(t) => ClientStepView::Done(t@),
            ClientStep::Fail(e) => ClientStepView::Fail(e@),
        }
    }
}

/// The step and stage after a reply: a failure code ends the handshake with
/// the error it names; success ends it, or, for the first reply to BIND,
/// waits for the second.
pub open spec fn client_reply_next(
    stage: ClientStage,
    cmd: Command,
    reply: ReplyCode,
    addr: TargetView,
) -> (ClientStage, ClientStepView) {
    if reply != ReplyCode::Succeeded {
        (ClientStage::Finished, ClientStepView::Fail(error_of_reply_code(byte_of_reply(reply))))
    } else if stage == ClientStage::AwaitReply && cmd == Command::Bind {
        (ClientStage::AwaitSecondReply, ClientStepView::Listening(addr))
    } else {
        (ClientStage::Finished, ClientStepView::Done(addr))
    }
}

/// The stage and step that follow a message from the proxy.
pub open spec fn client_input_next(
    stage: ClientStage,
    auth: ClientAuth,
    cmd: Command,
    request: Seq<u8>,
    input: Seq<u8>,
) -> (ClientStage, ClientStepView) {
    match stage {
        ClientStage::AwaitMethod => match spec_parse_auth_response(input) {
            Parse::NeedMore(k) => (ClientStage::AwaitMethod, ClientStepView::Read(k)),
            Parse::Failed(e) => (ClientStage::Finished, ClientStepView::Fail(e)),
            Parse::Complete(selected, _) => if selected == AuthMethod::NoAcceptable {
                (ClientStage::Finished, ClientStepView::Fail(ErrorView::NoAcceptableMethods))
            } else if selected == AuthMethod::NoAuth {
                (ClientStage::AwaitReply, ClientStepView::Send(request))
            } else if selected == AuthMethod::UserPass {
                match auth {
                    ClientAuth::NoAuth => (
                        ClientStage::Finished,
                        ClientStepView::Fail(
                            ErrorView::AuthenticationFailed(
                                "Server requires username/password but none provided"@,
                            ),
                        ),
                    ),
                    ClientAuth::Password { username, password } => if encode_utf8(username@).len()
                        <= 255 && encode_utf8(password@).len() <= 255 {
                        (
                            ClientStage::AwaitStatus,
                            ClientStepView::Send(
                                spec_encode_userpass_request(username@, password@),
                            ),
                        )
                    } else {
                        (
                            ClientStage::Finished,
                            ClientStepView::Fail(
                                ErrorView::InvalidData("Username or password too long"@),
                            ),
                        )
                    },
                }
            } else {
                (
                    ClientStage::Finished,
                    ClientStepView::Fail(ErrorView::InvalidAuthMethod(byte_of_method(selected))),
                )
            },
        },
        ClientStage::AwaitStatus => match spec_parse_userpass_response(input) {
            Parse::NeedMore(k) => (ClientStage::AwaitStatus, ClientStepView::Read(k)),
            Parse::Failed(e) => (ClientStage::Finished, ClientStepView::Fail(e)),
            Parse::Complete(status, _) => if status == AuthStatus::Success {
                (ClientStage::AwaitReply, ClientStepView::Send(request))
            } else {
                (
                    ClientStage::Finished,
                    ClientStepView::Fail(ErrorView::AuthenticationFailed("Invalid credentials"@)),
                )
            },
        },
        ClientStage::AwaitReply | ClientStage::AwaitSecondReply => match spec_parse_reply(input) {
            Parse::NeedMore(k) => (stage, ClientStepView::Read(k)),
            Parse::Failed(e) => (ClientStage::Finished, ClientStepView::Fail(e)),
            Parse::Complete((reply, addr), _) => client_reply_next(stage, cmd, reply, addr),
        },
        ClientStage::Finished => (stage, ClientStepView::Read(0)),
    }
}

/// The handshake of one connection to a proxy, on the client.
pub struct ClientSession {
    stage: ClientStage,
    command: Command,
    request: Vec<u8>,
}

impl ClientSession {
    pub closed spec fn spec_stage(&self) -> ClientStage {
        self.stage
    }

    pub closed spec fn spec_command(&self) -> Command {
        self.command
    }

    pub closed spec fn spec_request(&self) -> Seq<u8> {
        self.request@
    }

    /// Start a handshake for a request: the session, and the first step,
    /// which sends the methods that the client's credentials allow.
    pub fn start(client: &SocksClient, command: Command, target: &TargetAddr) -> (res: (
        ClientSession,
        ClientStep,
    ))
        ensures
            res.0.spec_stage() == ClientStage::AwaitMethod,
            res.0.spec_command() == command,
            res.0.spec_request() == spec_encode_request(command, target@),
            res.1@ == ClientStepView::Send(spec_encode_auth_request(client_methods(client.spec_auth()))),
    {
        let methods = client.auth().preferred_methods();
        let session = ClientSession {
            stage: ClientStage::AwaitMethod,
            command,
            request: encode_request(command, target),
        };
        match encode_auth_request(methods.as_slice()) {
            Ok(bytes) => (session, ClientStep::Send(bytes)),
            Err(e) => {
                assert(false);
                (session, ClientStep::Fail(e))
            },
        }
    }

    /// Where the handshake stands.
    pub fn stage(&self) -> (s: ClientStage)
        ensures
            s == self.spec_stage(),
    {
        self.stage
    }

    fn request_bytes(&self) -> (b: Vec<u8>)
        ensures
            b@ == self.request@,
    {
        let mut b: Vec<u8> = Vec::new();
        let mut i: usize = 0;
        while i < self.request.len()
            invariant
                i <= self.request@.len(),
                b@ == self.request@.take(i as int),
            decreases self.request@.len() - i,
        {
            b.push(self.request[i]);
            i = i + 1;
            assert(b@ =~= self.request@.take(i as int));
        }
        assert(self.request@.take(i as int) =~= self.request@);
        b
    }

    fn after_reply(&mut self, reply: ReplyCode, addr: TargetAddr) -> (step: ClientStep)
        ensures
            final(self).spec_command() == old(self).spec_command(),
            final(self).spec_request() == old(self).spec_request(),
            (final(self).spec_stage(), step@) == client_reply_next(
                old(self).spec_stage(),
                old(self).spec_command(),
                reply,
                addr@,
            ),
    {
        match reply_verdict(reply) {
            Err(e) => {
                self.stage = ClientStage::Finished;
                ClientStep::Fail(e)
            },
            Ok(()) => if self.stage == ClientStage::AwaitReply && self.command == Command::Bind {
                self.stage = ClientStage::AwaitSecondReply;
                ClientStep::Listening(addr)
            } else {
                self.stage = ClientStage::Finished;
                ClientStep::Done(addr)
            },
        }
    }

    /// Take the bytes read so far of the message the stage waits for.
    pub fn on_input(&mut self, client: &SocksClient, input: &[u8]) -> (step: ClientStep)
        requires
            old(self).spec_stage() != ClientStage::Finished,
        ensures
            final(self).spec_command() == old(self).spec_command(),
            final(self).spec_request() == old(self).spec_request(),
            (final(self).spec_stage(), step@) == client_input_next(
                old(self).spec_stage(),
                client.spec_auth(),
                old(self).spec_command(),
                old(self).spec_request(),
                input@,
            ),
    {
        match self.stage {
            ClientStage::AwaitMethod => match parse_auth_response(input) {
                Ok(Decoded::NeedMore(k)) => ClientStep::Read(k),
                Err(e) => {
                    self.stage = ClientStage::Finished;
                    ClientStep::Fail(e)
                },
                Ok(Decoded::Complete(selected, _)) => match client.auth_step(selected) {
                    Err(e) => {
                        self.stage = ClientStage::Finished;
                        ClientStep::Fail(e)
                    },
                    Ok(ClientAuthStep::Done) => {
                        self.stage = ClientStage::AwaitReply;
                        ClientStep::Send(self.request_bytes())
                    },
                    Ok(ClientAuthStep::SendCredentials(bytes)) => {
                        self.stage = ClientStage::AwaitStatus;
                        ClientStep::Send(bytes)
                    },
                },
            },
            ClientStage::AwaitStatus => match parse_userpass_response(input) {
                Ok(Decoded::NeedMore(k)) => ClientStep::Read(k),
                Err(e) => {
                    self.stage = ClientStage::Finished;
                    ClientStep::Fail(e)
                },
                Ok(Decoded::Complete(status, _)) => match credentials_status_verdict(status) {
                    Err(e) => {
                        self.stage = ClientStage::Finished;
                        ClientStep::Fail(e)
                    },
                    Ok(()) => {
                        self.stage = ClientStage::AwaitReply;
                        ClientStep::Send(self.request_bytes())
                    },
                },
            },
            _ => match parse_reply(input) {
                Ok(Decoded::NeedMore(k)) => ClientStep::Read(k),
                Err(e) => {
                    self.stage = ClientStage::Finished;
                    ClientStep::Fail(e)
                },
                Ok(Decoded::Complete((reply, addr), _)) => self.after_reply(reply, addr),
            },
        }
    }
}

/// A succeeded reply to CONNECT or UDP ASSOCIATE ends the handshake with
/// the address it carries; only BIND waits for a second reply, after which
/// it too is done. A failure code ends the handshake with an error whatever
/// the command.
pub proof fn lemma_client_reply_outcomes(c: Command, r: ReplyCode, a: TargetView)
    ensures
        c != Command::Bind ==> client_reply_next(
            ClientStage::AwaitReply,
            c,
            ReplyCode::Succeeded,
            a,
        ) == (ClientStage::Finished, ClientStepView::Done(a)),
        client_reply_next(ClientStage::AwaitReply, Command::Bind, ReplyCode::Succeeded, a) == (
            ClientStage::AwaitSecondReply,
            ClientStepView::Listening(a),
        ),
        client_reply_next(ClientStage::AwaitSecondReply, c, ReplyCode::Succeeded, a) == (
            ClientStage::Finished,
            ClientStepView::Done(a),
        ),
        r != ReplyCode::Succeeded ==> client_reply_next(ClientStage::AwaitReply, c, r, a).0
            == ClientStage::Finished && client_reply_next(ClientStage::AwaitReply, c, r, a).1 is Fail,
        r != ReplyCode::Succeeded ==> client_reply_next(ClientStage::AwaitSecondReply, c, r, a).0
            == ClientStage::Finished && client_reply_next(ClientStage::AwaitSecondReply, c, r, a).1 is Fail,
{
}

/// A client whose request is not BIND reads exactly one reply: once a
/// succeeded reply has been read in full, the handshake is finished with the
/// address that the reply carries.
pub proof fn lemma_client_reads_one_reply_unless_bind(
    auth: ClientAuth,
    cmd: Command,
    request: Seq<u8>,
    input: Seq<u8>,
)
    ensures
        match spec_parse_reply(input) {
            Parse::Complete((r, a), _) => r == ReplyCode::Succeeded ==> {
                &&& cmd != Command::Bind ==> client_input_next(
                    ClientStage::AwaitReply,
                    auth,
                    cmd,
                    request,
                    input,
                ) == (ClientStage::Finished, ClientStepView::Done(a))
                &&& cmd == Command::Bind ==> client_input_next(
                    ClientStage::AwaitReply,
                    auth,
                    cmd,
                    request,
                    input,
                ) == (ClientStage::AwaitSecondReply, ClientStepView::Listening(a))
                &&& client_input_next(ClientStage::AwaitSecondReply, auth, cmd, request, input) == (
                    ClientStage::Finished,
                    ClientStepView::Done(a),
                )
            },
            _ => true,
        },
{
}

/// A client sends its request only once authentication is over: when the
/// proxy chose "no authentication", or accepted the credentials. It sends
/// credentials only when the proxy chose username/password and it has them.
pub proof fn lemma_client_requests_only_after_authentication(
    stage: ClientStage,
    auth: ClientAuth,
    cmd: Command,
    request: Seq<u8>,
    input: Seq<u8>,
)
    ensures
        ({
            let (next, step) = client_input_next(stage, auth, cmd, request, input);
            &&& next == ClientStage::AwaitReply && stage != ClientStage::AwaitReply ==> step
                == ClientStepView::Send(request) && (stage == ClientStage::AwaitMethod && (
            spec_parse_auth_response(input) matches Parse::Complete(m, _) && m == AuthMethod::NoAuth)
                || stage == ClientStage::AwaitStatus && (spec_parse_userpass_response(
                input,
            ) matches Parse::Complete(s, _) && s == AuthStatus::Success))
            &&& next == ClientStage::AwaitStatus && stage != ClientStage::AwaitStatus ==> (
            spec_parse_auth_response(input) matches Parse::Complete(m, _) && m
                == AuthMethod::UserPass) && auth is Password
            &&& step is Done ==> stage == ClientStage::AwaitReply || stage
                == ClientStage::AwaitSecondReply
        }),
{
}

} // verus!
