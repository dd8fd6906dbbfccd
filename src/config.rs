//! The persisted record `{enabled, port}` and the rules that govern it.

use vstd::prelude::*;
use vstd::string::*;
use crate::text::{decimal, decimal_string};

verus! {

/// Smallest and largest port that the manager accepts.
pub const MIN_PORT: u32 = 1;
pub const MAX_PORT: u32 = 65535;

/// The persisted configuration.
#[derive(Debug, Clone, Copy, PartialEq, Eq, Structural)]
pub struct Config {
    pub enabled: bool,
    pub port: Option<u16>,
}

/// A port the manager accepts.
pub open spec fn port_in_range(n: int) -> bool {
    MIN_PORT <= n <= MAX_PORT
}

impl Config {
    /// Enabled only with a port, and a stored port is never zero.
    pub open spec fn wf(&self) -> bool {
        &&& self.enabled ==> self.port is Some
        &&& self.port matches Some(p) ==> port_in_range(p as int)
    }

    pub open spec fn spec_default() -> Config {
        Config { enabled: false, port: None }
    }
}

impl Default for Config {
    fn default() -> (r: Config)
        ensures
            r == Config::spec_default(),
    {
        Config { enabled: false, port: None }
    }
}

/// What can go wrong with the stored configuration.
pub enum ConfigError {
    /// Reading or writing the file failed; holds the system's description.
    Io(String),
    /// The file's content is not a valid record; holds the parser's description.
    Json(String),
    /// A port outside `1..=65535`.
    InvalidPort(u32),
}

/// What a `ConfigError` says to the user.
pub open spec fn config_error_text(e: ConfigError) -> Seq<char> {
    match e {
        ConfigError::Io(m) => "IO error: "@ + m@,
        ConfigError::Json(m) => "JSON serialize/deserialize error: "@ + m@,
        ConfigError::InvalidPort(n) => "Invalid port: "@ + decimal(n as nat) + " (must be 1-65535)"@,
    }
}

impl ConfigError {
    /// Describes the error.
    pub fn message(&self) -> (r: String)
        ensures
            r@ == config_error_text(*self),
    {
        match self {
            ConfigError::Io(m) => {
                let mut t = String::from_str("IO error: ");
                t.append(m.as_str());
                t
            },
            ConfigError::Json(m) => {
                let mut t = String::from_str("JSON serialize/deserialize error: ");
                t.append(m.as_str());
                t
            },
            ConfigError::InvalidPort(n) => {
                let digits = decimal_string(*n);
                let mut t = String::from_str("Invalid port: ");
                t.append(digits.as_str());
                t.append(" (must be 1-65535)");
                t
            },
        }
    }
}

/// The configuration that a stored record stands for: a zero port counts as none.
pub open spec fn sanitized(c: Config) -> Config {
    if c.port == Some(0u16) {
        Config { enabled: c.enabled, port: None }
    } else {
        c
    }
}

/// Settles what was read from the configuration file. `loaded` is `None` when
/// there was no file or it could not be read or parsed; the defaults then
/// stand. Returns the configuration and whether it must be written back.
pub fn resolve_loaded(loaded: Option<Config>) -> (r: (Config, bool))
    ensures
        loaded is None ==> r == (Config::spec_default(), true),
        loaded matches Some(c) ==> r == (sanitized(c), c.port == Some(0u16)),
        r.0.port matches Some(p) ==> p >= 1,
{
    match loaded {
        None => (Config::default(), true),
        Some(c) => match c.port {
            Some(p) => {
                if p < 1 {
                    (Config { enabled: c.enabled, port: None }, true)
                } else {
                    (c, false)
                }
            },
            None => (c, false),
        },
    }
}

/// The configuration a run starts from: never enabled, whatever was stored,
/// so that a stale claim is not revived. The caller writes it back at once.
pub fn startup_config(loaded: Config) -> (r: Config)
    ensures
        r == (Config { enabled: false, port: sanitized(loaded).port }),
        r.wf(),
{
    let port = match loaded.port {
        Some(p) => if p < 1 {
            None
        } else {
            Some(p)
        },
        None => None,
    };
    Config { enabled: false, port }
}

impl Config {
    /// Whether the configuration is well formed.
    pub fn is_valid(&self) -> (r: bool)
        ensures
            r == self.wf(),
    {
        let port_ok = match self.port {
            Some(p) => p >= 1,
            None => !self.enabled,
        };
        port_ok
    }
}

/// Accepts `port` when it lies in `1..=65535`.
pub fn validate_port(port: u32) -> (r: Result<u16, ConfigError>)
    ensures
        port_in_range(port as int) <==> r is Ok,
        r matches Ok(p) ==> p as u32 == port,
        r matches Err(e) ==> e == ConfigError::InvalidPort(port),
{
    if port >= MIN_PORT && port <= MAX_PORT {
        Ok(port as u16)
    } else {
        Err(ConfigError::InvalidPort(port))
    }
}

} // verus!
