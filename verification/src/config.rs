//! Server configuration, as a configuration file holds it, and the checks and
//! choices that the server makes from it.
use vstd::prelude::*;
use crate::auth::{credential_map, pair_views, str_eq, UserPassAuth};

verus! {

/// Server configuration loaded from a configuration file
#[derive(Debug, Clone)]
pub struct Config {
    /// Server settings
    pub server: ServerConfig,
    /// Authentication settings
    pub auth: AuthConfig,
    /// Logging settings
    pub logging: LoggingConfig,
}

/// Server configuration section
#[derive(Debug, Clone)]
pub struct ServerConfig {
    /// Address to bind the server to
    pub bind_addr: String,
    /// Enable CONNECT command
    pub enable_connect: bool,
    /// Enable BIND command
    pub enable_bind: bool,
    /// Enable UDP ASSOCIATE command
    pub enable_udp: bool,
    /// Connection timeout in seconds
    pub timeout_secs: u64,
}

/// Authentication configuration section
#[derive(Debug, Clone)]
pub struct AuthConfig {
    /// Authentication mode: "none", "password", or "multi"
    pub mode: String,
    /// Username/password pairs for password authentication
    pub users: Vec<(String, String)>,
}

/// Logging configuration section
#[derive(Debug, Clone)]
pub struct LoggingConfig {
    /// Log level: "trace", "debug", "info", "warn", "error"
    pub level: String,
    /// Enable JSON formatting
    pub json: bool,
}

/// Why a configuration is refused.
#[derive(Debug, Clone, Copy, PartialEq, Eq, Structural)]
pub enum ConfigError {
    /// The bind address is not a socket address.
    InvalidBindAddr,
    /// The authentication mode is none of "none", "password", "multi".
    InvalidAuthMode,
    /// The log level is none of "trace", "debug", "info", "warn", "error".
    InvalidLogLevel,
}

/// The default of a command switch: on.
pub fn default_true() -> (b: bool)
    ensures
        b,
{
    true
}

/// The default connection timeout: 300 seconds.
pub fn default_timeout() -> (t: u64)
    ensures
        t == 300,
{
    300
}

/// The default authentication mode: "none".
pub fn default_auth_mode() -> (m: String)
    ensures
        m@ == "none"@,
{
    "none".to_owned()
}

/// The default log level: "info".
pub fn default_log_level() -> (l: String)
    ensures
        l@ == "info"@,
{
    "info".to_owned()
}

impl Default for ServerConfig {
    fn default() -> (c: ServerConfig)
        ensures
            c.bind_addr@ == "127.0.0.1:1080"@,
            c.enable_connect && c.enable_bind && c.enable_udp,
            c.timeout_secs == 300,
    {
        ServerConfig {
            bind_addr: "127.0.0.1:1080".to_owned(),
            enable_connect: true,
            enable_bind: true,
            enable_udp: true,
            timeout_secs: 300,
        }
    }
}

impl Default for AuthConfig {
    fn default() -> (c: AuthConfig)
        ensures
            c.mode@ == "none"@,
            c.users@.len() == 0,
    {
        AuthConfig { mode: "none".to_owned(), users: Vec::new() }
    }
}

impl Default for LoggingConfig {
    fn default() -> (c: LoggingConfig)
        ensures
            c.level@ == "info"@,
            !c.json,
    {
        LoggingConfig { level: "info".to_owned(), json: false }
    }
}

impl Default for Config {
    fn default() -> (c: Config)
        ensures
            c.server.bind_addr@ == "127.0.0.1:1080"@,
            c.server.enable_connect && c.server.enable_bind && c.server.enable_udp,
            c.server.timeout_secs == 300,
            c.auth.mode@ == "none"@,
            c.auth.users@.len() == 0,
            c.logging.level@ == "info"@,
            !c.logging.json,
    {
        Config {
            server: ServerConfig::default(),
            auth: AuthConfig::default(),
            logging: LoggingConfig::default(),
        }
    }
}

/// The authentication modes a configuration may name.
pub open spec fn valid_auth_mode(mode: Seq<char>) -> bool {
    mode == "none"@ || mode == "password"@ || mode == "multi"@
}

/// The log levels a configuration may name.
pub open spec fn valid_log_level(level: Seq<char>) -> bool {
    level == "trace"@ || level == "debug"@ || level == "info"@ || level == "warn"@ || level
        == "error"@
}

/// How the server authenticates clients, as a configuration chooses it.
#[derive(Debug)]
pub enum AuthSetup {
    /// No authentication.
    NoAuth,
    /// Username and password, from this store.
    Password(UserPassAuth),
    /// No authentication or username and password, from this store.
    Multi(UserPassAuth),
}

proof fn lemma_pair_views_push(s: Seq<(String, String)>, x: (String, String))
    ensures
        pair_views(s.push(x)) == pair_views(s).push((x.0@, x.1@)),
{
    assert(pair_views(s.push(x)) =~= pair_views(s).push((x.0@, x.1@)));
}

impl Config {
    /// Validate configuration. Whether the bind address reads as a socket
    /// address is decided by the caller, which parses it; it is checked
    /// first, then the authentication mode, then the log level.
    pub fn validate(&self, bind_addr_parses: bool) -> (res: Result<(), ConfigError>)
        ensures
            !bind_addr_parses ==> res == Err::<(), ConfigError>(ConfigError::InvalidBindAddr),
            bind_addr_parses && !valid_auth_mode(self.auth.mode@) ==> res == Err::<(), ConfigError>(
                ConfigError::InvalidAuthMode,
            ),
            bind_addr_parses && valid_auth_mode(self.auth.mode@) && !valid_log_level(
                self.logging.level@,
            ) ==> res == Err::<(), ConfigError>(ConfigError::InvalidLogLevel),
            res is Ok <==> (bind_addr_parses && valid_auth_mode(self.auth.mode@) && valid_log_level(
                self.logging.level@,
            )),
    {
        if !bind_addr_parses {
            return Err(ConfigError::InvalidBindAddr);
        }
        let mode = self.auth.mode.as_str();
        if !(str_eq(mode, "none") || str_eq(mode, "password") || str_eq(mode, "multi")) {
            return Err(ConfigError::InvalidAuthMode);
        }
        let level = self.logging.level.as_str();
        if !(str_eq(level, "trace") || str_eq(level, "debug") || str_eq(level, "info") || str_eq(
            level,
            "warn",
        ) || str_eq(level, "error")) {
            return Err(ConfigError::InvalidLogLevel);
        }
        Ok(())
    }

    /// Generate a default configuration, with two example users.
    pub fn generate_default() -> (c: Config)
        ensures
            c.server.bind_addr@ == "127.0.0.1:1080"@,
            c.server.enable_connect && c.server.enable_bind && c.server.enable_udp,
            c.server.timeout_secs == 300,
            c.auth.mode@ == "none"@,
            pair_views(c.auth.users@) == seq![("admin"@, "admin123"@), ("user"@, "password"@)],
            c.logging.level@ == "info"@,
            !c.logging.json,
    {
        let mut config = Config::default();
        config.auth.users.push(("admin".to_owned(), "admin123".to_owned()));
        config.auth.users.push(("user".to_owned(), "password".to_owned()));
        assert(pair_views(config.auth.users@) =~= seq![
            ("admin"@, "admin123"@),
            ("user"@, "password"@),
        ]);
        config
    }

    /// The bind address the server uses: the override when one is given,
    /// the configured one otherwise.
    pub fn effective_bind_addr(&self, bind_override: Option<String>) -> (a: String)
        ensures
            match bind_override {
                Some(o) => a == o,
                None => a@ == self.server.bind_addr@,
            },
    {
        match bind_override {
            Some(addr) => addr,
            None => self.server.bind_addr.clone(),
        }
    }

    /// The authentication the server sets up: none when the command line
    /// says so, else what the mode names, with the configured users.
    pub fn auth_setup(&self, no_auth: bool) -> (res: Result<AuthSetup, ConfigError>)
        ensures
            no_auth ==> res matches Ok(AuthSetup::NoAuth),
            !no_auth && self.auth.mode@ == "none"@ ==> res matches Ok(AuthSetup::NoAuth),
            !no_auth && self.auth.mode@ == "password"@ ==> (res matches Ok(AuthSetup::Password(u))
                && u@ == credential_map(pair_views(self.auth.users@))),
            !no_auth && self.auth.mode@ == "multi"@ ==> (res matches Ok(AuthSetup::Multi(u)) && u@
                == credential_map(pair_views(self.auth.users@))),
            !no_auth && !valid_auth_mode(self.auth.mode@) ==> res == Err::<AuthSetup, ConfigError>(
                ConfigError::InvalidAuthMode,
            ),
    {
        if no_auth {
            return Ok(AuthSetup::NoAuth);
        }
        let mode = self.auth.mode.as_str();
        proof {
            reveal_strlit("none");
            reveal_strlit("password");
            reveal_strlit("multi");
            assert("password"@.len() != "none"@.len());
            assert("multi"@.len() != "none"@.len());
            assert("multi"@.len() != "password"@.len());
        }
        if str_eq(mode, "none") {
            Ok(AuthSetup::NoAuth)
        } else if str_eq(mode, "password") {
            let users = self.users_copy();
            let u = UserPassAuth::with_users(users);
            assert(u@ == credential_map(pair_views(self.auth.users@)));
            Ok(AuthSetup::Password(u))
        } else if str_eq(mode, "multi") {
            Ok(AuthSetup::Multi(UserPassAuth::with_users(self.users_copy())))
        } else {
            Err(ConfigError::InvalidAuthMode)
        }
    }

    fn users_copy(&self) -> (users: Vec<(String, String)>)
        ensures
            pair_views(users@) == pair_views(self.auth.users@),
    {
        let mut users: Vec<(String, String)> = Vec::new();
        let mut i: usize = 0;
        while i < self.auth.users.len()
            invariant
                i <= self.auth.users@.len(),
                pair_views(users@) == pair_views(self.auth.users@.take(i as int)),
            decreases self.auth.users@.len() - i,
        {
            let ghost old_users = users@;
            let entry = &self.auth.users[i];
            let name = entry.0.clone();
            let pass = entry.1.clone();
            assert(name@ == self.auth.users@[i as int].0@);
            assert(pass@ == self.auth.users@[i as int].1@);
            users.push((name, pass));
            i = i + 1;
            proof {
                let t = self.auth.users@.take(i as int);
                assert(t =~= self.auth.users@.take((i - 1) as int).push(self.auth.users@[i - 1]));
                lemma_pair_views_push(old_users, users@.last());
                lemma_pair_views_push(self.auth.users@.take((i - 1) as int), self.auth.users@[i - 1]);
            }
        }
        assert(self.auth.users@.take(i as int) =~= self.auth.users@);
        users
    }
}

} // verus!
