use vstd::prelude::*;
use vstd::utf8::encode_utf8;
use crate::error::{ErrorView, SocksError};

verus! {

/// SOCKS5 protocol version
pub const SOCKS_VERSION: u8 = 0x05;

/// Reserved byte value
pub const RESERVED: u8 = 0x00;

/// Username/Password authentication version
pub const USERPASS_VERSION: u8 = 0x01;

/// SOCKS5 authentication methods
#[derive(Debug, Clone, Copy, PartialEq, Eq, Structural)]
pub enum AuthMethod {
    /// No authentication required
    NoAuth,
    /// GSSAPI authentication
    GssApi,
    /// Username/Password authentication
    UserPass,
    /// IANA assigned methods (0x03-0x7F)
    IanaAssigned(u8),
    /// Private methods (0x80-0xFE)
    Private(u8),
    /// No acceptable methods
    NoAcceptable,
}

impl View for AuthMethod {
    type V = AuthMethod;

    open spec fn view(&self) -> AuthMethod {
        *self
    }
}

/// The method that a byte on the wire names.
pub open spec fn method_of_byte(value: u8) -> AuthMethod {
    if value == 0x00 {
        AuthMethod::NoAuth
    } else if value == 0x01 {
        AuthMethod::GssApi
    } else if value == 0x02 {
        AuthMethod::UserPass
    } else if value == 0xFF {
        AuthMethod::NoAcceptable
    } else if value <= 0x7F {
        AuthMethod::IanaAssigned(value)
    } else {
        AuthMethod::Private(value)
    }
}

/// The byte that stands for a method on the wire.
pub open spec fn byte_of_method(m: AuthMethod) -> u8 {
    match m {
        AuthMethod::NoAuth => 0x00,
        AuthMethod::GssApi => 0x01,
        AuthMethod::UserPass => 0x02,
        AuthMethod::NoAcceptable => 0xFF,
        AuthMethod::IanaAssigned(v) => v,
        AuthMethod::Private(v) => v,
    }
}

/// A method whose payload lies in the range its variant names, that is, a
/// method that some byte decodes to.
pub open spec fn method_well_formed(m: AuthMethod) -> bool {
    match m {
        AuthMethod::IanaAssigned(v) => 0x03 <= v <= 0x7F,
        AuthMethod::Private(v) => 0x80 <= v <= 0xFE,
        _ => true,
    }
}

impl AuthMethod {
    pub fn from_u8(value: u8) -> (m: AuthMethod)
        ensures
            m == method_of_byte(value),
    {
        match value {
            0x00 => AuthMethod::NoAuth,
            0x01 => AuthMethod::GssApi,
            0x02 => AuthMethod::UserPass,
            0xFF => AuthMethod::NoAcceptable,
            0x03..=0x7F => AuthMethod::IanaAssigned(value),
            0x80..=0xFE => AuthMethod::Private(value),
        }
    }

    pub fn to_u8(self) -> (b: u8)
        ensures
            b == byte_of_method(self),
    {
        match self {
            AuthMethod::NoAuth => 0x00,
            AuthMethod::GssApi => 0x01,
            AuthMethod::UserPass => 0x02,
            AuthMethod::NoAcceptable => 0xFF,
            AuthMethod::IanaAssigned(v) => v,
            AuthMethod::Private(v) => v,
        }
    }
}

/// Every byte decodes to a well-formed method, which encodes back to the same byte.
pub proof fn lemma_method_byte_roundtrip(value: u8)
    ensures
        method_well_formed(method_of_byte(value)),
        byte_of_method(method_of_byte(value)) == value,
{
}

/// Every well-formed method encodes to a byte that decodes back to it.
pub proof fn lemma_method_value_roundtrip(m: AuthMethod)
    requires
        method_well_formed(m),
    ensures
        method_of_byte(byte_of_method(m)) == m,
{
}

/// SOCKS5 commands
#[derive(Debug, Clone, Copy, PartialEq, Eq, Structural)]
pub enum Command {
    /// CONNECT command
    Connect,
    /// BIND command
    Bind,
    /// UDP ASSOCIATE command
    UdpAssociate,
}

impl View for Command {
    type V = Command;

    open spec fn view(&self) -> Command {
        *self
    }
}

/// The byte that stands for a command on the wire.
pub open spec fn byte_of_command(c: Command) -> u8 {
    match c {
        Command::Connect => 0x01,
        Command::Bind => 0x02,
        Command::UdpAssociate => 0x03,
    }
}

/// The command that a byte names, if any.
pub open spec fn command_of_byte(value: u8) -> Option<Command> {
    if value == 0x01 {
        Some(Command::Connect)
    } else if value == 0x02 {
        Some(Command::Bind)
    } else if value == 0x03 {
        Some(Command::UdpAssociate)
    } else {
        None
    }
}

impl Command {
    pub fn from_u8(value: u8) -> (res: Result<Command, SocksError>)
        ensures
            match command_of_byte(value) {
                Some(c) => res matches Ok(r) && r == c,
                None => res matches Err(e) && e@ == ErrorView::InvalidCommand(value),
            },
    {
        match value {
            0x01 => Ok(Command::Connect),
            0x02 => Ok(Command::Bind),
            0x03 => Ok(Command::UdpAssociate),
            _ => Err(SocksError::InvalidCommand(value)),
        }
    }

    pub fn to_u8(self) -> (b: u8)
        ensures
            b == byte_of_command(self),
    {
        match self {
            Command::Connect => 0x01,
            Command::Bind => 0x02,
            Command::UdpAssociate => 0x03,
        }
    }

    /// The name of the command, as its `Debug` form prints it.
    pub fn name(self) -> (s: String)
        ensures
            s@ == command_name(self),
    {
        match self {
            Command::Connect => "Connect".to_owned(),
            Command::Bind => "Bind".to_owned(),
            Command::UdpAssociate => "UdpAssociate".to_owned(),
        }
    }
}

/// The name of a command.
pub open spec fn command_name(c: Command) -> Seq<char> {
    match c {
        Command::Connect => "Connect"@,
        Command::Bind => "Bind"@,
        Command::UdpAssociate => "UdpAssociate"@,
    }
}

/// A command encodes to a byte that decodes back to it, and a byte that
/// decodes to a command is that command's byte.
pub proof fn lemma_command_roundtrip(c: Command, value: u8)
    ensures
        command_of_byte(byte_of_command(c)) == Some(c),
        command_of_byte(value) matches Some(d) ==> byte_of_command(d) == value,
{
}

/// SOCKS5 reply codes
#[derive(Debug, Clone, Copy, PartialEq, Eq, Structural)]
pub enum ReplyCode {
    /// Succeeded
    Succeeded,
    /// General SOCKS server failure
    GeneralFailure,
    /// Connection not allowed by ruleset
    NotAllowed,
    /// Network unreachable
    NetworkUnreachable,
    /// Host unreachable
    HostUnreachable,
    /// Connection refused
    ConnectionRefused,
    /// TTL expired
    TtlExpired,
    /// Command not supported
    CommandNotSupported,
    /// Address type not supported
    AddressTypeNotSupported,
}

impl View for ReplyCode {
    type V = ReplyCode;

    open spec fn view(&self) -> ReplyCode {
        *self
    }
}

/// The byte that stands for a reply code on the wire.
pub open spec fn byte_of_reply(r: ReplyCode) -> u8 {
    match r {
        ReplyCode::Succeeded => 0x00,
        ReplyCode::GeneralFailure => 0x01,
        ReplyCode::NotAllowed => 0x02,
        ReplyCode::NetworkUnreachable => 0x03,
        ReplyCode::HostUnreachable => 0x04,
        ReplyCode::ConnectionRefused => 0x05,
        ReplyCode::TtlExpired => 0x06,
        ReplyCode::CommandNotSupported => 0x07,
        ReplyCode::AddressTypeNotSupported => 0x08,
    }
}

/// The reply code that a byte names, if any.
pub open spec fn reply_of_byte(value: u8) -> Option<ReplyCode> {
    if value == 0x00 {
        Some(ReplyCode::Succeeded)
    } else if value == 0x01 {
        Some(ReplyCode::GeneralFailure)
    } else if value == 0x02 {
        Some(ReplyCode::NotAllowed)
    } else if value == 0x03 {
        Some(ReplyCode::NetworkUnreachable)
    } else if value == 0x04 {
        Some(ReplyCode::HostUnreachable)
    } else if value == 0x05 {
        Some(ReplyCode::ConnectionRefused)
    } else if value == 0x06 {
        Some(ReplyCode::TtlExpired)
    } else if value == 0x07 {
        Some(ReplyCode::CommandNotSupported)
    } else if value == 0x08 {
        Some(ReplyCode::AddressTypeNotSupported)
    } else {
        None
    }
}

impl ReplyCode {
    pub fn from_u8(value: u8) -> (res: Result<ReplyCode, SocksError>)
        ensures
            match reply_of_byte(value) {
                Some(r) => res matches Ok(x) && x == r,
                None => res matches Err(e) && e@ == ErrorView::InvalidReplyCode(value),
            },
    {
        match value {
            0x00 => Ok(ReplyCode::Succeeded),
            0x01 => Ok(ReplyCode::GeneralFailure),
            0x02 => Ok(ReplyCode::NotAllowed),
            0x03 => Ok(ReplyCode::NetworkUnreachable),
            0x04 => Ok(ReplyCode::HostUnreachable),
            0x05 => Ok(ReplyCode::ConnectionRefused),
            0x06 => Ok(ReplyCode::TtlExpired),
            0x07 => Ok(ReplyCode::CommandNotSupported),
            0x08 => Ok(ReplyCode::AddressTypeNotSupported),
            _ => Err(SocksError::InvalidReplyCode(value)),
        }
    }

    pub fn to_u8(self) -> (b: u8)
        ensures
            b == byte_of_reply(self),
    {
        match self {
            ReplyCode::Succeeded => 0x00,
            ReplyCode::GeneralFailure => 0x01,
            ReplyCode::NotAllowed => 0x02,
            ReplyCode::NetworkUnreachable => 0x03,
            ReplyCode::HostUnreachable => 0x04,
            ReplyCode::ConnectionRefused => 0x05,
            ReplyCode::TtlExpired => 0x06,
            ReplyCode::CommandNotSupported => 0x07,
            ReplyCode::AddressTypeNotSupported => 0x08,
        }
    }
}

/// A reply code encodes to a byte that decodes back to it, and a byte that
/// decodes to a reply code is that code's byte.
pub proof fn lemma_reply_roundtrip(r: ReplyCode, value: u8)
    ensures
        reply_of_byte(byte_of_reply(r)) == Some(r),
        reply_of_byte(value) matches Some(d) ==> byte_of_reply(d) == value,
{
}

/// Each reply code has the byte that RFC 1928 gives it, from 0x00 for
/// success to 0x08 for an unsupported address type, in the order of the
/// table; each of those bytes names its code, and no other byte names one.
pub proof fn lemma_reply_code_table(value: u8)
    ensures
        byte_of_reply(ReplyCode::Succeeded) == 0x00,
        byte_of_reply(ReplyCode::GeneralFailure) == 0x01,
        byte_of_reply(ReplyCode::NotAllowed) == 0x02,
        byte_of_reply(ReplyCode::NetworkUnreachable) == 0x03,
        byte_of_reply(ReplyCode::HostUnreachable) == 0x04,
        byte_of_reply(ReplyCode::ConnectionRefused) == 0x05,
        byte_of_reply(ReplyCode::TtlExpired) == 0x06,
        byte_of_reply(ReplyCode::CommandNotSupported) == 0x07,
        byte_of_reply(ReplyCode::AddressTypeNotSupported) == 0x08,
        reply_of_byte(0x00) == Some(ReplyCode::Succeeded),
        reply_of_byte(0x01) == Some(ReplyCode::GeneralFailure),
        reply_of_byte(0x02) == Some(ReplyCode::NotAllowed),
        reply_of_byte(0x03) == Some(ReplyCode::NetworkUnreachable),
        reply_of_byte(0x04) == Some(ReplyCode::HostUnreachable),
        reply_of_byte(0x05) == Some(ReplyCode::ConnectionRefused),
        reply_of_byte(0x06) == Some(ReplyCode::TtlExpired),
        reply_of_byte(0x07) == Some(ReplyCode::CommandNotSupported),
        reply_of_byte(0x08) == Some(ReplyCode::AddressTypeNotSupported),
        value > 0x08 ==> reply_of_byte(value) is None,
{
}

/// Each command has its RFC 1928 byte: CONNECT 0x01, BIND 0x02, UDP
/// ASSOCIATE 0x03; no other byte names a command.
pub proof fn lemma_command_table(value: u8)
    ensures
        byte_of_command(Command::Connect) == 0x01,
        byte_of_command(Command::Bind) == 0x02,
        byte_of_command(Command::UdpAssociate) == 0x03,
        command_of_byte(0x01) == Some(Command::Connect),
        command_of_byte(0x02) == Some(Command::Bind),
        command_of_byte(0x03) == Some(Command::UdpAssociate),
        value == 0x00 || value > 0x03 ==> command_of_byte(value) is None,
{
}

/// Each named method has its RFC 1928 byte: no authentication 0x00, GSSAPI
/// 0x01, username/password 0x02, no acceptable methods 0xFF; the bytes
/// 0x03 to 0x7F are IANA-assigned and 0x80 to 0xFE private, each carrying
/// its own byte.
pub proof fn lemma_method_table(value: u8)
    ensures
        byte_of_method(AuthMethod::NoAuth) == 0x00,
        byte_of_method(AuthMethod::GssApi) == 0x01,
        byte_of_method(AuthMethod::UserPass) == 0x02,
        byte_of_method(AuthMethod::NoAcceptable) == 0xFF,
        method_of_byte(0x00) == AuthMethod::NoAuth,
        method_of_byte(0x01) == AuthMethod::GssApi,
        method_of_byte(0x02) == AuthMethod::UserPass,
        method_of_byte(0xFF) == AuthMethod::NoAcceptable,
        0x03 <= value <= 0x7F ==> method_of_byte(value) == AuthMethod::IanaAssigned(value),
        0x80 <= value <= 0xFE ==> method_of_byte(value) == AuthMethod::Private(value),
{
}

/// Username/Password authentication status
#[derive(Debug, Clone, Copy, PartialEq, Eq, Structural)]
pub enum AuthStatus {
    /// Authentication succeeded
    Success,
    /// Authentication failed
    Failure,
}

impl View for AuthStatus {
    type V = AuthStatus;

    open spec fn view(&self) -> AuthStatus {
        *self
    }
}

/// The status that a byte names: zero is success, anything else failure.
pub open spec fn status_of_byte(value: u8) -> AuthStatus {
    if value == 0x00 {
        AuthStatus::Success
    } else {
        AuthStatus::Failure
    }
}

/// The byte that stands for a status on the wire.
pub open spec fn byte_of_status(s: AuthStatus) -> u8 {
    match s {
        AuthStatus::Success => 0x00,
        AuthStatus::Failure => 0xFF,
    }
}

impl AuthStatus {
    pub fn from_u8(value: u8) -> (s: AuthStatus)
        ensures
            s == status_of_byte(value),
    {
        match value {
            0x00 => AuthStatus::Success,
            _ => AuthStatus::Failure,
        }
    }

    pub fn to_u8(self) -> (b: u8)
        ensures
            b == byte_of_status(self),
    {
        match self {
            AuthStatus::Success => 0x00,
            AuthStatus::Failure => 0xFF,
        }
    }
}

/// A status encodes to a byte that decodes back to it; a byte comes back
/// unchanged exactly when it is one of the two status bytes.
pub proof fn lemma_status_roundtrip(s: AuthStatus, value: u8)
    ensures
        status_of_byte(byte_of_status(s)) == s,
        byte_of_status(status_of_byte(value)) == value <==> (value == 0x00 || value == 0xFF),
{
}


/// Success is the byte 0x00 and failure 0xFF; a received byte means success
/// only when it is 0x00.
pub proof fn lemma_status_table(value: u8)
    ensures
        byte_of_status(AuthStatus::Success) == 0x00,
        byte_of_status(AuthStatus::Failure) == 0xFF,
        status_of_byte(value) == AuthStatus::Success <==> value == 0x00,
{
}

/// SOCKS5 address types
#[derive(Debug, Clone, PartialEq, Eq)]
pub enum SocksAddr {
    /// IPv4 address, as its four octets
    V4([u8; 4]),
    /// IPv6 address, as its sixteen octets
    V6([u8; 16]),
    /// Domain name
    Domain(String),
}

/// An address as a value: octets for the IP forms, characters for a name.
pub enum AddrView {
    V4(Seq<u8>),
    V6(Seq<u8>),
    Domain(Seq<char>),
}

impl View for SocksAddr {
    type V = AddrView;

    open spec fn view(&self) -> AddrView {
        match self {
            SocksAddr::V4(o) => AddrView::V4(o@),
            SocksAddr::V6(o) => AddrView::V6(o@),
            SocksAddr::Domain(d) => AddrView::Domain(d@),
        }
    }
}

/// The ATYP byte of an address.
pub open spec fn addr_type_of(a: AddrView) -> u8 {
    match a {
        AddrView::V4(_) => 0x01,
        AddrView::Domain(_) => 0x03,
        AddrView::V6(_) => 0x04,
    }
}

/// The number of bytes that an address takes on the wire after its ATYP
/// byte: the octets, or a length byte and the name's UTF-8 bytes.
pub open spec fn addr_serialized_len(a: AddrView) -> nat {
    match a {
        AddrView::V4(_) => 4,
        AddrView::V6(_) => 16,
        AddrView::Domain(d) => 1 + encode_utf8(d).len(),
    }
}

impl SocksAddr {
    pub fn addr_type(&self) -> (t: u8)
        ensures
            t == addr_type_of(self@),
    {
        match self {
            SocksAddr::V4(_) => 0x01,
            SocksAddr::Domain(_) => 0x03,
            SocksAddr::V6(_) => 0x04,
        }
    }

    pub fn serialized_len(&self) -> (n: usize)
        requires
            addr_serialized_len(self@) <= usize::MAX,
        ensures
            n == addr_serialized_len(self@),
    {
        match self {
            SocksAddr::V4(_) => 4,
            SocksAddr::V6(_) => 16,
            SocksAddr::Domain(domain) => 1 + domain.as_str().len(),
        }
    }
}

/// Target address with port
#[derive(Debug, Clone, PartialEq, Eq)]
pub struct TargetAddr {
    pub addr: SocksAddr,
    pub port: u16,
}

/// A target as a value.
pub struct TargetView {
    pub addr: AddrView,
    pub port: u16,
}

impl View for TargetAddr {
    type V = TargetView;

    open spec fn view(&self) -> TargetView {
        TargetView { addr: self.addr@, port: self.port }
    }
}

impl TargetAddr {
    pub fn new(addr: SocksAddr, port: u16) -> (t: TargetAddr)
        ensures
            t.addr == addr,
            t.port == port,
    {
        TargetAddr { addr, port }
    }
}

} // verus!
