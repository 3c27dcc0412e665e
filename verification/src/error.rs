use vstd::prelude::*;
use crate::protocol::{byte_of_reply, ReplyCode};

verus! {

/// The I/O error of std, carried through unchanged.
#[verifier::external_type_specification]
#[verifier::external_body]
pub struct ExIoError(std::io::Error);

/// The error that std reports for bytes that are not UTF-8.
#[verifier::external_type_specification]
#[verifier::external_body]
pub struct ExFromUtf8Error(std::string::FromUtf8Error);

/// SOCKS5 error types.
#[derive(Debug)]
pub enum SocksError {
    Io(std::io::Error),
    InvalidVersion(u8),
    InvalidCommand(u8),
    InvalidAddressType(u8),
    InvalidAuthMethod(u8),
    AuthenticationFailed(String),
    NoAcceptableMethods,
    ConnectionRefused,
    NetworkUnreachable,
    HostUnreachable,
    ConnectionRefusedByDestination,
    TtlExpired,
    CommandNotSupported(String),
    AddressTypeNotSupported(String),
    GeneralFailure,
    InvalidReplyCode(u8),
    InvalidData(String),
    IncompleteData,
    Utf8Error(std::string::FromUtf8Error),
    AddrParseError(String),
    Custom(String),
}

/// What an error is, with its text payloads seen as characters.
pub enum ErrorView {
    Io,
    InvalidVersion(u8),
    InvalidCommand(u8),
    InvalidAddressType(u8),
    InvalidAuthMethod(u8),
    AuthenticationFailed(Seq<char>),
    NoAcceptableMethods,
    ConnectionRefused,
    NetworkUnreachable,
    HostUnreachable,
    ConnectionRefusedByDestination,
    TtlExpired,
    CommandNotSupported(Seq<char>),
    AddressTypeNotSupported(Seq<char>),
    GeneralFailure,
    InvalidReplyCode(u8),
    InvalidData(Seq<char>),
    IncompleteData,
    Utf8Error,
    AddrParseError(Seq<char>),
    Custom(Seq<char>),
}

impl View for SocksError {
    type V = ErrorView;

    open spec fn view(&self) -> ErrorView {
        match self {
            SocksError::Io(_) => ErrorView::Io,
            SocksError::InvalidVersion(v) => ErrorView::InvalidVersion(*v),
            SocksError::InvalidCommand(v) => ErrorView::InvalidCommand(*v),
            SocksError::InvalidAddressType(v) => ErrorView::InvalidAddressType(*v),
            SocksError::InvalidAuthMethod(v) => ErrorView::InvalidAuthMethod(*v),
            SocksError::AuthenticationFailed(m) => ErrorView::AuthenticationFailed(m@),
            SocksError::NoAcceptableMethods => ErrorView::NoAcceptableMethods,
            SocksError::ConnectionRefused => ErrorView::ConnectionRefused,
            SocksError::NetworkUnreachable => ErrorView::NetworkUnreachable,
            SocksError::HostUnreachable => ErrorView::HostUnreachable,
            SocksError::ConnectionRefusedByDestination => ErrorView::ConnectionRefusedByDestination,
            SocksError::TtlExpired => ErrorView::TtlExpired,
            SocksError::CommandNotSupported(m) => ErrorView::CommandNotSupported(m@),
            SocksError::AddressTypeNotSupported(m) => ErrorView::AddressTypeNotSupported(m@),
            SocksError::GeneralFailure => ErrorView::GeneralFailure,
            SocksError::InvalidReplyCode(v) => ErrorView::InvalidReplyCode(*v),
            SocksError::InvalidData(m) => ErrorView::InvalidData(m@),
            SocksError::IncompleteData => ErrorView::IncompleteData,
            SocksError::Utf8Error(_) => ErrorView::Utf8Error,
            SocksError::AddrParseError(m) => ErrorView::AddrParseError(m@),
            SocksError::Custom(m) => ErrorView::Custom(m@),
        }
    }
}

impl From<std::io::Error> for SocksError {
    fn from(e: std::io::Error) -> (r: SocksError) {
        SocksError::Io(e)
    }
}

impl vstd::std_specs::convert::FromSpecImpl<std::io::Error> for SocksError {
    open spec fn obeys_from_spec() -> bool {
        true
    }

    open spec fn from_spec(e: std::io::Error) -> SocksError {
        SocksError::Io(e)
    }
}

impl From<std::string::FromUtf8Error> for SocksError {
    fn from(e: std::string::FromUtf8Error) -> (r: SocksError) {
        SocksError::Utf8Error(e)
    }
}

impl vstd::std_specs::convert::FromSpecImpl<std::string::FromUtf8Error> for SocksError {
    open spec fn obeys_from_spec() -> bool {
        true
    }

    open spec fn from_spec(e: std::string::FromUtf8Error) -> SocksError {
        SocksError::Utf8Error(e)
    }
}

/// The reply code that the server sends for an error.
pub open spec fn reply_code_of(e: ErrorView) -> u8 {
    match e {
        ErrorView::ConnectionRefused | ErrorView::ConnectionRefusedByDestination => 0x05,
        ErrorView::NetworkUnreachable => 0x03,
        ErrorView::HostUnreachable => 0x04,
        ErrorView::TtlExpired => 0x06,
        ErrorView::CommandNotSupported(_) => 0x07,
        ErrorView::AddressTypeNotSupported(_) => 0x08,
        _ => 0x01,
    }
}

/// The error that a client reports for a reply code.
pub open spec fn error_of_reply_code(code: u8) -> ErrorView {
    match code {
        0x01 => ErrorView::GeneralFailure,
        0x02 => ErrorView::Custom("Connection not allowed by ruleset"@),
        0x03 => ErrorView::NetworkUnreachable,
        0x04 => ErrorView::HostUnreachable,
        0x05 => ErrorView::ConnectionRefused,
        0x06 => ErrorView::TtlExpired,
        0x07 => ErrorView::CommandNotSupported("Unknown"@),
        0x08 => ErrorView::AddressTypeNotSupported("Unknown"@),
        _ => ErrorView::InvalidReplyCode(code),
    }
}

impl SocksError {
    /// Convert error to SOCKS5 reply code.
    pub fn to_reply_code(&self) -> (code: u8)
        ensures
            code == reply_code_of(self@),
    {
        match self {
            SocksError::ConnectionRefused | SocksError::ConnectionRefusedByDestination => 0x05,
            SocksError::NetworkUnreachable => 0x03,
            SocksError::HostUnreachable => 0x04,
            SocksError::TtlExpired => 0x06,
            SocksError::CommandNotSupported(_) => 0x07,
            SocksError::AddressTypeNotSupported(_) => 0x08,
            _ => 0x01,
        }
    }

    /// Create error from SOCKS5 reply code.
    pub fn from_reply_code(code: u8) -> (e: SocksError)
        ensures
            e@ == error_of_reply_code(code),
    {
        match code {
            0x01 => SocksError::GeneralFailure,
            0x02 => SocksError::Custom("Connection not allowed by ruleset".to_owned()),
            0x03 => SocksError::NetworkUnreachable,
            0x04 => SocksError::HostUnreachable,
            0x05 => SocksError::ConnectionRefused,
            0x06 => SocksError::TtlExpired,
            0x07 => SocksError::CommandNotSupported("Unknown".to_owned()),
            0x08 => SocksError::AddressTypeNotSupported("Unknown".to_owned()),
            _ => SocksError::InvalidReplyCode(code),
        }
    }
}

/// The reply code that a client's error maps back to is the one it came
/// from, for every code that names a failure other than "not allowed".
pub proof fn lemma_reply_code_roundtrip(code: u8)
    requires
        0x01 <= code <= 0x08,
        code != 0x02,
    ensures
        reply_code_of(error_of_reply_code(code)) == code,
{
}

/// A "not allowed" reply, and any code outside the table, come back as a
/// general failure.
pub proof fn lemma_reply_code_general(code: u8)
    requires
        code == 0x02 || code == 0x00 || code > 0x08,
    ensures
        reply_code_of(error_of_reply_code(code)) == 0x01,
{
}

/// The error a client reports for each reply code, by value: each failure
/// code of RFC 1928 gives the error that names that failure, and a byte
/// outside the table is an invalid reply code.
pub proof fn lemma_error_of_reply_code_table(code: u8)
    ensures
        error_of_reply_code(0x01) == ErrorView::GeneralFailure,
        error_of_reply_code(0x02) == ErrorView::Custom("Connection not allowed by ruleset"@),
        error_of_reply_code(0x03) == ErrorView::NetworkUnreachable,
        error_of_reply_code(0x04) == ErrorView::HostUnreachable,
        error_of_reply_code(0x05) == ErrorView::ConnectionRefused,
        error_of_reply_code(0x06) == ErrorView::TtlExpired,
        error_of_reply_code(0x07) == ErrorView::CommandNotSupported("Unknown"@),
        error_of_reply_code(0x08) == ErrorView::AddressTypeNotSupported("Unknown"@),
        code == 0x00 || code > 0x08 ==> error_of_reply_code(code) == ErrorView::InvalidReplyCode(
            code,
        ),
        error_of_reply_code(byte_of_reply(ReplyCode::GeneralFailure)) == ErrorView::GeneralFailure,
        error_of_reply_code(byte_of_reply(ReplyCode::NetworkUnreachable))
            == ErrorView::NetworkUnreachable,
        error_of_reply_code(byte_of_reply(ReplyCode::HostUnreachable))
            == ErrorView::HostUnreachable,
        error_of_reply_code(byte_of_reply(ReplyCode::ConnectionRefused))
            == ErrorView::ConnectionRefused,
        error_of_reply_code(byte_of_reply(ReplyCode::TtlExpired)) == ErrorView::TtlExpired,
        error_of_reply_code(byte_of_reply(ReplyCode::CommandNotSupported)) is CommandNotSupported,
        error_of_reply_code(byte_of_reply(ReplyCode::AddressTypeNotSupported))
            is AddressTypeNotSupported,
{
}

/// The reply code a server sends for each error, by value: a refused
/// connection 0x05, an unreachable network 0x03, an unreachable host 0x04,
/// an expired TTL 0x06, an unsupported command 0x07, an unsupported address
/// type 0x08, and a general failure 0x01 for every other error.
pub proof fn lemma_reply_code_of_table(e: ErrorView)
    ensures
        reply_code_of(ErrorView::ConnectionRefused) == 0x05,
        reply_code_of(ErrorView::ConnectionRefusedByDestination) == 0x05,
        reply_code_of(ErrorView::NetworkUnreachable) == 0x03,
        reply_code_of(ErrorView::HostUnreachable) == 0x04,
        reply_code_of(ErrorView::TtlExpired) == 0x06,
        e is CommandNotSupported ==> reply_code_of(e) == 0x07,
        e is AddressTypeNotSupported ==> reply_code_of(e) == 0x08,
        !(e is ConnectionRefused || e is ConnectionRefusedByDestination || e is NetworkUnreachable
            || e is HostUnreachable || e is TtlExpired || e is CommandNotSupported
            || e is AddressTypeNotSupported) ==> reply_code_of(e) == 0x01,
        reply_code_of(ErrorView::NetworkUnreachable) == byte_of_reply(ReplyCode::NetworkUnreachable),
        reply_code_of(ErrorView::HostUnreachable) == byte_of_reply(ReplyCode::HostUnreachable),
        reply_code_of(ErrorView::ConnectionRefused) == byte_of_reply(ReplyCode::ConnectionRefused),
        reply_code_of(ErrorView::TtlExpired) == byte_of_reply(ReplyCode::TtlExpired),
{
}

} // verus!
