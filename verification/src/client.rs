//! The SOCKS5 client: its settings, and the decisions it takes during the
//! handshake with a proxy.
use vstd::prelude::*;
use vstd::utf8::encode_utf8;
use crate::auth::ClientAuth;
use crate::error::{error_of_reply_code, ErrorView, SocksError};
use crate::message::{encode_userpass_request, spec_encode_userpass_request};
use crate::protocol::{byte_of_method, byte_of_reply, AuthMethod, AuthStatus, ReplyCode};

verus! {

/// SOCKS5 client for making proxied connections
#[derive(Debug, Clone)]
pub struct SocksClient {
    /// SOCKS5 proxy server address
    proxy_addr: String,
    /// Authentication credentials
    auth: ClientAuth,
}

/// What the client does once the proxy has chosen a method.
#[derive(Debug)]
pub enum ClientAuthStep {
    /// Authentication is over: go on to the request.
    Done,
    /// Send these bytes, a username/password request, and read its status.
    SendCredentials(Vec<u8>),
}

impl SocksClient {
    /// The proxy address.
    pub closed spec fn spec_proxy_addr(&self) -> Seq<char> {
        self.proxy_addr@
    }

    /// The credentials.
    pub closed spec fn spec_auth(&self) -> ClientAuth {
        self.auth
    }

    /// Create a new SOCKS5 client
    pub fn new(proxy_addr: String) -> (c: SocksClient)
        ensures
            c.spec_proxy_addr() == proxy_addr@,
            c.spec_auth() is NoAuth,
    {
        SocksClient { proxy_addr, auth: ClientAuth::NoAuth }
    }

    /// Create a client with username/password authentication
    pub fn with_auth(proxy_addr: String, username: String, password: String) -> (c: SocksClient)
        ensures
            c.spec_proxy_addr() == proxy_addr@,
            c.spec_auth() == (ClientAuth::Password { username, password }),
    {
        SocksClient { proxy_addr, auth: ClientAuth::Password { username, password } }
    }

    /// Set authentication credentials
    pub fn set_auth(&mut self, auth: ClientAuth)
        ensures
            final(self).spec_proxy_addr() == old(self).spec_proxy_addr(),
            final(self).spec_auth() == auth,
    {
        self.auth = auth;
    }

    /// The proxy address.
    pub fn proxy_addr(&self) -> (a: &String)
        ensures
            a@ == self.spec_proxy_addr(),
    {
        &self.proxy_addr
    }

    /// The credentials.
    pub fn auth(&self) -> (a: &ClientAuth)
        ensures
            *a == self.spec_auth(),
    {
        &self.auth
    }

    /// Decide what follows the proxy's choice of method: nothing for no
    /// authentication; a username/password request when the client has
    /// credentials; an error otherwise.
    pub fn auth_step(&self, selected: AuthMethod) -> (res: Result<ClientAuthStep, SocksError>)
        ensures
            selected == AuthMethod::NoAcceptable ==> (res matches Err(e) && e@
                == ErrorView::NoAcceptableMethods),
            selected == AuthMethod::NoAuth ==> (res matches Ok(ClientAuthStep::Done)),
            selected == AuthMethod::UserPass ==> match self.spec_auth() {
                ClientAuth::NoAuth => res matches Err(e) && e@ == ErrorView::AuthenticationFailed(
                    "Server requires username/password but none provided"@,
                ),
                ClientAuth::Password { username, password } => if encode_utf8(username@).len()
                    <= 255 && encode_utf8(password@).len() <= 255 {
                    res matches Ok(ClientAuthStep::SendCredentials(bytes)) && bytes@
                        == spec_encode_userpass_request(username@, password@)
                } else {
                    res matches Err(e) && e@ == ErrorView::InvalidData(
                        "Username or password too long"@,
                    )
                },
            },
            selected != AuthMethod::NoAcceptable && selected != AuthMethod::NoAuth && selected
                != AuthMethod::UserPass ==> (res matches Err(e) && e@
                == ErrorView::InvalidAuthMethod(byte_of_method(selected))),
    {
        match selected {
            AuthMethod::NoAcceptable => Err(SocksError::NoAcceptableMethods),
            AuthMethod::NoAuth => Ok(ClientAuthStep::Done),
            AuthMethod::UserPass => match self.auth.credentials() {
                Some((username, password)) => match encode_userpass_request(username, password) {
                    Ok(bytes) => Ok(ClientAuthStep::SendCredentials(bytes)),
                    Err(e) => Err(e),
                },
                None => Err(
                    SocksError::AuthenticationFailed(
                        "Server requires username/password but none provided".to_owned(),
                    ),
                ),
            },
            _ => Err(SocksError::InvalidAuthMethod(selected.to_u8())),
        }
    }
}

/// Decide the outcome of the proxy's answer to a username and password.
pub fn credentials_status_verdict(status: AuthStatus) -> (res: Result<(), SocksError>)
    ensures
        status == AuthStatus::Success ==> res is Ok,
        status == AuthStatus::Failure ==> (res matches Err(e) && e@
            == ErrorView::AuthenticationFailed("Invalid credentials"@)),
{
    match status {
        AuthStatus::Success => Ok(()),
        AuthStatus::Failure => Err(SocksError::AuthenticationFailed("Invalid credentials".to_owned())),
    }
}

/// Decide the outcome of a reply: success goes on, any other code is the
/// error that the code names.
pub fn reply_verdict(reply: ReplyCode) -> (res: Result<(), SocksError>)
    ensures
        reply == ReplyCode::Succeeded ==> res is Ok,
        reply != ReplyCode::Succeeded ==> (res matches Err(e) && e@ == error_of_reply_code(
            byte_of_reply(reply),
        )),
{
    if reply == ReplyCode::Succeeded {
        Ok(())
    } else {
        Err(SocksError::from_reply_code(reply.to_u8()))
    }
}

/// The client that the connection helpers build: with credentials when
/// given, without otherwise.
pub fn client_for(proxy_addr: String, auth: Option<(String, String)>) -> (c: SocksClient)
    ensures
        c.spec_proxy_addr() == proxy_addr@,
        match auth {
            Some((username, password)) => c.spec_auth() == (ClientAuth::Password {
                username,
                password,
            }),
            None => c.spec_auth() is NoAuth,
        },
{
    match auth {
        Some((username, password)) => SocksClient::with_auth(proxy_addr, username, password),
        None => SocksClient::new(proxy_addr),
    }
}

/// The HTTP/1.1 GET request that the command-line client sends through a
/// connection: the path, the host header, and a request to close.
pub fn http_get_request(path: &str, host: &str) -> (req: String)
    ensures
        req@ == "GET "@ + path@ + " HTTP/1.1\r\nHost: "@ + host@ + "\r\nConnection: close\r\n\r\n"@,
{
    let mut req = "GET ".to_owned();
    req.append(path);
    req.append(" HTTP/1.1\r\nHost: ");
    req.append(host);
    req.append("\r\nConnection: close\r\n\r\n");
    req
}

/// Builder for creating a SOCKS5 client
pub struct ClientBuilder {
    proxy_addr: String,
    auth: ClientAuth,
}

impl ClientBuilder {
    /// The proxy address the client will have.
    pub closed spec fn spec_proxy_addr(&self) -> Seq<char> {
        self.proxy_addr@
    }

    /// The credentials the client will have.
    pub closed spec fn spec_auth(&self) -> ClientAuth {
        self.auth
    }

    /// Create a new client builder
    pub fn new(proxy_addr: String) -> (b: ClientBuilder)
        ensures
            b.spec_proxy_addr() == proxy_addr@,
            b.spec_auth() is NoAuth,
    {
        ClientBuilder { proxy_addr, auth: ClientAuth::NoAuth }
    }

    /// Set no authentication
    pub fn no_auth(self) -> (b: ClientBuilder)
        ensures
            b.spec_proxy_addr() == self.spec_proxy_addr(),
            b.spec_auth() is NoAuth,
    {
        let mut s = self;
        s.auth = ClientAuth::NoAuth;
        s
    }

    /// Set username/password authentication
    pub fn with_credentials(self, username: String, password: String) -> (b: ClientBuilder)
        ensures
            b.spec_proxy_addr() == self.spec_proxy_addr(),
            b.spec_auth() == (ClientAuth::Password { username, password }),
    {
        let mut s = self;
        s.auth = ClientAuth::Password { username, password };
        s
    }

    /// Set custom authentication
    pub fn with_auth(self, auth: ClientAuth) -> (b: ClientBuilder)
        ensures
            b.spec_proxy_addr() == self.spec_proxy_addr(),
            b.spec_auth() == auth,
    {
        let mut s = self;
        s.auth = auth;
        s
    }

    /// Build the client
    pub fn build(self) -> (c: SocksClient)
        ensures
            c.spec_proxy_addr() == self.spec_proxy_addr(),
            c.spec_auth() == self.spec_auth(),
    {
        SocksClient { proxy_addr: self.proxy_addr, auth: self.auth }
    }
}

} // verus!
