//! A SOCKS5 (RFC 1928) and username/password (RFC 1929) protocol library.
//!
//! The library holds the wire formats of every SOCKS5 message as functions on
//! bytes, the authentication stores, the settings of clients and servers, and
//! the decisions that each takes during the handshake. Sockets are driven by
//! the caller, which hands bytes and outcomes to these functions.

pub mod auth;
pub mod client;
pub mod config;
pub mod error;
pub mod message;
pub mod prelude;
pub mod protocol;
pub mod server;
pub mod session;
pub mod wire_laws;

pub use auth::{ClientAuth, MultiAuth, NoAuth, UserPassAuth};
pub use client::{ClientBuilder, SocksClient};
pub use error::SocksError;
pub use protocol::{AuthMethod, Command, ReplyCode, SocksAddr, TargetAddr, SOCKS_VERSION};

use vstd::prelude::*;

verus! {

/// Library version
pub const VERSION: &'static str = "0.1.0";

} // verus!
