//! Settings that the server is started with. They are read once and never
//! change afterwards.

use vstd::prelude::*;

verus! {

/// Where the server listens, and how patient it is.
#[derive(Debug, PartialEq, Eq)]
pub struct BindConfig {
    /// The address to bind, as `host:port`.
    pub host: String,
    /// The read and write timeout of every connection, in seconds.
    pub timeout: u64,
}

/// How the server treats its players.
#[derive(Debug, PartialEq, Eq)]
pub struct ServerConfig {
    /// Whether players are authenticated.
    pub online_mode: bool,
    /// The compression threshold announced at login; none leaves every frame
    /// uncompressed.
    pub compression_threshold: Option<usize>,
}

/// All settings.
#[derive(Debug, PartialEq, Eq)]
pub struct Config {
    pub bind: BindConfig,
    pub server: ServerConfig,
}

/// The address that is bound when none is configured.
pub fn default_host() -> (host: String)
    ensures
        host@ == "127.0.0.1:25565"@,
{
    "127.0.0.1:25565".to_owned()
}

/// The timeout, in seconds, when none is configured.
pub fn default_timeout() -> (timeout: u64)
    ensures
        timeout == 5,
{
    5
}

/// The compression threshold when none is configured.
pub fn default_compression() -> (threshold: Option<usize>)
    ensures
        threshold == Some(256usize),
{
    Some(256)
}

impl Default for BindConfig {
    fn default() -> (config: BindConfig)
        ensures
            config.host@ == "127.0.0.1:25565"@,
            config.timeout == 5,
    {
        BindConfig { host: default_host(), timeout: default_timeout() }
    }
}

impl Default for ServerConfig {
    fn default() -> (config: ServerConfig)
        ensures
            config.online_mode == false,
            config.compression_threshold == Some(256usize),
    {
        ServerConfig { online_mode: false, compression_threshold: default_compression() }
    }
}

impl Default for Config {
    fn default() -> (config: Config)
        ensures
            config.bind.host@ == "127.0.0.1:25565"@,
            config.bind.timeout == 5,
            config.server.online_mode == false,
            config.server.compression_threshold == Some(256usize),
    {
        Config { bind: BindConfig::default(), server: ServerConfig::default() }
    }
}

impl Clone for BindConfig {
    fn clone(&self) -> (copy: BindConfig)
        ensures
            copy == *self,
    {
        BindConfig { host: self.host.clone(), timeout: self.timeout }
    }
}

impl Clone for ServerConfig {
    fn clone(&self) -> (copy: ServerConfig)
        ensures
            copy == *self,
    {
        ServerConfig {
            online_mode: self.online_mode,
            compression_threshold: self.compression_threshold,
        }
    }
}

impl Clone for Config {
    fn clone(&self) -> (copy: Config)
        ensures
            copy == *self,
    {
        Config { bind: self.bind.clone(), server: self.server.clone() }
    }
}

} // verus!
