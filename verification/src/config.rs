//! The daemon's configuration: its values, their defaults and their
//! validation.

use crate::networking::{is_ip_address, valid_ip};
use crate::number::{parse_u8, parse_upto};
use crate::text::{chars_of, concat2, split, split_at_char, string_of, views};
use vstd::prelude::*;

verus! {

/// Why a configuration could not be loaded or saved.
#[derive(Debug, PartialEq, Eq)]
pub enum ConfigError {
    Io(String),
    TomlParse(String),
    NotFound,
    InvalidValue(String),
}

impl ConfigError {
    /// The error as one line of text.
    pub fn to_string(&self) -> (r: String)
        ensures
            r@ == match self {
                ConfigError::Io(m) => "IO error: "@ + m@,
                ConfigError::TomlParse(m) => "TOML parsing error: "@ + m@,
                ConfigError::NotFound => "Config file not found"@,
                ConfigError::InvalidValue(m) => "Invalid value: "@ + m@,
            },
    {
        match self {
            ConfigError::Io(m) => concat2("IO error: ", m.as_str()),
            ConfigError::TomlParse(m) => concat2("TOML parsing error: ", m.as_str()),
            ConfigError::NotFound => "Config file not found".to_owned(),
            ConfigError::InvalidValue(m) => concat2("Invalid value: ", m.as_str()),
        }
    }
}

/// The network settings.
#[derive(Debug, PartialEq, Eq)]
pub struct NetworkConfig {
    /// The subnet of container addresses, as address and prefix length.
    pub container_cidr: String,
    pub bridge_name: String,
    pub nat_enabled: bool,
}

/// The storage settings.
#[derive(Debug, PartialEq, Eq)]
pub struct StorageConfig {
    pub database_path: String,
    pub socket_path: String,
    pub cache_path: String,
}

/// The API settings.
#[derive(Debug, PartialEq, Eq)]
pub struct ApiConfig {
    /// Seconds that a request may take, from 1 to 3600.
    pub timeout: u64,
}

/// The configuration of the daemon.
#[derive(Debug, PartialEq, Eq)]
pub struct KawakazeConfig {
    /// The dataset below which everything is kept.
    pub zfs_pool: String,
    pub network: NetworkConfig,
    pub storage: StorageConfig,
    pub api: ApiConfig,
}

/// The default subnet of containers.
pub fn default_container_cidr() -> (r: String)
    ensures
        r@ == "10.11.0.0/16"@,
{
    "10.11.0.0/16".to_owned()
}

/// The default name of the bridge.
pub fn default_bridge_name() -> (r: String)
    ensures
        r@ == "kawakaze-bridge"@,
{
    "kawakaze-bridge".to_owned()
}

/// NAT is on by default.
pub fn default_nat_enabled() -> (r: bool)
    ensures
        r,
{
    true
}

/// The default path of the database.
pub fn default_database_path() -> (r: String)
    ensures
        r@ == "/var/db/kawakaze/kawakaze.db"@,
{
    "/var/db/kawakaze/kawakaze.db".to_owned()
}

/// The default path of the socket.
pub fn default_socket_path() -> (r: String)
    ensures
        r@ == "/var/run/kawakaze.sock"@,
{
    "/var/run/kawakaze.sock".to_owned()
}

/// The default path of the bootstrap cache.
pub fn default_cache_path() -> (r: String)
    ensures
        r@ == "/var/cache/kawakaze"@,
{
    "/var/cache/kawakaze".to_owned()
}

/// The default timeout of a request, in seconds.
pub fn default_timeout() -> (r: u64)
    ensures
        r == 30,
{
    30
}

impl Default for NetworkConfig {
    fn default() -> (r: NetworkConfig)
        ensures
            r.container_cidr@ == "10.11.0.0/16"@,
            r.bridge_name@ == "kawakaze-bridge"@,
            r.nat_enabled,
    {
        NetworkConfig {
            container_cidr: default_container_cidr(),
            bridge_name: default_bridge_name(),
            nat_enabled: default_nat_enabled(),
        }
    }
}

impl Default for StorageConfig {
    fn default() -> (r: StorageConfig)
        ensures
            r.database_path@ == "/var/db/kawakaze/kawakaze.db"@,
            r.socket_path@ == "/var/run/kawakaze.sock"@,
            r.cache_path@ == "/var/cache/kawakaze"@,
    {
        StorageConfig {
            database_path: default_database_path(),
            socket_path: default_socket_path(),
            cache_path: default_cache_path(),
        }
    }
}

impl Default for ApiConfig {
    fn default() -> (r: ApiConfig)
        ensures
            r.timeout == 30,
    {
        ApiConfig { timeout: default_timeout() }
    }
}

impl Default for KawakazeConfig {
    fn default() -> (r: KawakazeConfig)
        ensures
            r.zfs_pool@ == "zroot/kawakaze"@,
            r.network.container_cidr@ == "10.11.0.0/16"@,
            r.network.bridge_name@ == "kawakaze-bridge"@,
            r.network.nat_enabled,
            r.storage.database_path@ == "/var/db/kawakaze/kawakaze.db"@,
            r.storage.socket_path@ == "/var/run/kawakaze.sock"@,
            r.storage.cache_path@ == "/var/cache/kawakaze"@,
            r.api.timeout == 30,
    {
        KawakazeConfig {
            zfs_pool: "zroot/kawakaze".to_owned(),
            network: NetworkConfig::default(),
            storage: StorageConfig::default(),
            api: ApiConfig::default(),
        }
    }
}

/// Whether a text is a subnet: an IP address, dotted IPv4 or IPv6, then
/// a slash, then a prefix length that is a number from 0 to 255.
pub open spec fn valid_cidr(s: Seq<char>) -> bool {
    let p = split(s, '/');
    p.len() == 2 && valid_ip(p[0]) && parse_upto(p[1], 255) is Some
}

/// Checks the form of a subnet.
pub fn is_valid_cidr(cidr: &str) -> (r: bool)
    ensures
        r == valid_cidr(cidr@),
{
    let p = split_at_char(&chars_of(cidr), '/');
    if p.len() != 2 {
        return false;
    }
    assert(views(p@)[0] == p@[0]@);
    assert(views(p@)[1] == p@[1]@);
    let address = string_of(&p[0]);
    is_ip_address(address.as_str()) && parse_u8(&p[1]).is_some()
}

/// What is wrong with a configuration, if anything: the first of an empty
/// pool name, a malformed subnet, an empty path, a timeout of zero, and a
/// timeout above 3600.
pub open spec fn config_problem(c: KawakazeConfig) -> Option<Seq<char>> {
    if c.zfs_pool@.len() == 0 {
        Some("ZFS pool name cannot be empty"@)
    } else if !valid_cidr(c.network.container_cidr@) {
        Some("Invalid CIDR format: "@ + c.network.container_cidr@)
    } else if c.storage.database_path@.len() == 0 {
        Some("Database path cannot be empty"@)
    } else if c.storage.socket_path@.len() == 0 {
        Some("Socket path cannot be empty"@)
    } else if c.storage.cache_path@.len() == 0 {
        Some("Cache path cannot be empty"@)
    } else if c.api.timeout == 0 {
        Some("API timeout cannot be zero"@)
    } else if c.api.timeout > 3600 {
        Some("API timeout cannot exceed 3600 seconds"@)
    } else {
        None
    }
}

impl KawakazeConfig {
    /// Checks the configuration's values.
    pub fn validate(&self) -> (r: Result<(), ConfigError>)
        ensures
            match config_problem(*self) {
                None => r is Ok,
                Some(p) => r matches Err(ConfigError::InvalidValue(m)) && m@ == p,
            },
    {
        if self.zfs_pool.as_str().is_empty() {
            return Err(ConfigError::InvalidValue("ZFS pool name cannot be empty".to_owned()));
        }
        if !is_valid_cidr(self.network.container_cidr.as_str()) {
            return Err(
                ConfigError::InvalidValue(
                    concat2("Invalid CIDR format: ", self.network.container_cidr.as_str()),
                ),
            );
        }
        if self.storage.database_path.as_str().is_empty() {
            return Err(ConfigError::InvalidValue("Database path cannot be empty".to_owned()));
        }
        if self.storage.socket_path.as_str().is_empty() {
            return Err(ConfigError::InvalidValue("Socket path cannot be empty".to_owned()));
        }
        if self.storage.cache_path.as_str().is_empty() {
            return Err(ConfigError::InvalidValue("Cache path cannot be empty".to_owned()));
        }
        if self.api.timeout == 0 {
            return Err(ConfigError::InvalidValue("API timeout cannot be zero".to_owned()));
        }
        if self.api.timeout > 3600 {
            return Err(
                ConfigError::InvalidValue("API timeout cannot exceed 3600 seconds".to_owned()),
            );
        }
        Ok(())
    }

    /// Where configuration files are looked for, in order: the system's
    /// file, then the user's file below `home`, or below `~` if there is no
    /// home directory.
    pub fn search_paths(home: Option<&str>) -> (r: (String, String))
        ensures
            r.0@ == "/etc/kawakaze/config.toml"@,
            r.1@ == crate::path::joined(
                match home {
                    Some(h) => h@,
                    None => "~"@,
                },
                ".config/kawakaze/config.toml"@,
            ),
    {
        let user = match home {
            Some(h) => crate::path::join(h, ".config/kawakaze/config.toml"),
            None => crate::path::join("~", ".config/kawakaze/config.toml"),
        };
        ("/etc/kawakaze/config.toml".to_owned(), user)
    }

    /// What loading from a path amounts to once the file was read and
    /// decoded: a file that is missing, one that cannot be read, one that
    /// cannot be decoded, or a configuration, which is checked.
    pub fn load(read: Result<KawakazeConfig, ConfigError>) -> (r: Result<KawakazeConfig, ConfigError>)
        ensures
            match read {
                Err(e) => r == Err::<KawakazeConfig, ConfigError>(e),
                Ok(c) => match config_problem(c) {
                    None => r == Ok::<KawakazeConfig, ConfigError>(c),
                    Some(p) => r matches Err(ConfigError::InvalidValue(m)) && m@ == p,
                },
            },
    {
        match read {
            Err(e) => Err(e),
            Ok(c) => match c.validate() {
                Ok(()) => Ok(c),
                Err(e) => Err(e),
            },
        }
    }
}

/// A timeout of zero is rejected, and so is one above 3600.
pub proof fn lemma_timeout_bounds(c: KawakazeConfig)
    requires
        c.api.timeout == 0 || c.api.timeout > 3600,
    ensures
        config_problem(c) is Some,
{
}

} // verus!
