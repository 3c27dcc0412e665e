//! Prelude module for convenient imports

pub use crate::auth::{ClientAuth, MultiAuth, NoAuth, UserPassAuth};
pub use crate::client::{ClientBuilder, SocksClient};
pub use crate::error::SocksError;
pub use crate::protocol::{AuthMethod, Command, ReplyCode, SocksAddr, TargetAddr};
