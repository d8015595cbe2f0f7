//! Configuration: the port to listen on and the servers to advertise.

use vstd::prelude::*;

use crate::failure::Fatal;

verus! {

/// The schema version written into every configuration this library builds.
pub open spec fn schema_version() -> Seq<char> {
    seq!['1']
}

/// The port a freshly created sample configuration listens on.
pub const SAMPLE_PORT: u16 = 7359;

/// The file name used when no override names the configuration file.
pub open spec fn default_file_name() -> Seq<char> {
    "discover.toml"@
}

/// One advertised upstream server.
pub struct ServerConfig {
    /// The URL a client should connect to.
    pub url: String,
    /// A stable identifier of the server.
    pub id: String,
    /// A human-readable label.
    pub name: String,
}

impl ServerConfig {
    pub fn new(url: &str, id: &str, name: &str) -> (r: ServerConfig)
        ensures
            r.url@ == url@,
            r.id@ == id@,
            r.name@ == name@,
    {
        ServerConfig { url: url.to_string(), id: id.to_string(), name: name.to_string() }
    }
}

/// The whole configuration: schema version, UDP port and the servers, in
/// the order in which their responses are sent.
pub struct Config {
    /// The schema version of the stored format; not interpreted.
    pub version: String,
    pub port: u16,
    pub server: Vec<ServerConfig>,
}

impl Config {
    pub fn new(port: u16, servers: Vec<ServerConfig>) -> (r: Config)
        ensures
            r.version@ == schema_version(),
            r.port == port,
            r.server@ == servers@,
    {
        let version = "1".to_string();
        proof {
            reveal_strlit("1");
            assert(version@ =~= schema_version());
        }
        Config { version, port, server: servers }
    }
}

/// The sample configuration written on first start: the sample port and one
/// placeholder server for an operator to edit.
pub fn sample_config() -> (r: Config)
    ensures
        r.version@ == schema_version(),
        r.port == SAMPLE_PORT,
        r.server@.len() == 1,
        r.server@[0].url@ == "http://jellyfin-test.local"@,
        r.server@[0].id@ == "CHANGEME"@,
        r.server@[0].name@ == "Test Jellyfin Server"@,
{
    let server = ServerConfig::new("http://jellyfin-test.local", "CHANGEME", "Test Jellyfin Server");
    let mut servers: Vec<ServerConfig> = Vec::new();
    servers.push(server);
    Config::new(SAMPLE_PORT, servers)
}

/// The name of the configuration file: the override where one is given,
/// otherwise the default file name.
pub fn config_file_name(override_name: Option<String>) -> (r: String)
    ensures
        r@ == match override_name {
            Some(n) => n@,
            None => default_file_name(),
        },
{
    match override_name {
        Some(n) => n,
        None => "discover.toml".to_string(),
    }
}

/// toml's parse error, carried opaque inside `ConfigError`.
#[verifier::external_type_specification]
#[verifier::external_body]
pub struct ExTomlDeError(toml::de::Error);

/// toml's serialization error, carried opaque inside `ConfigError`.
#[verifier::external_type_specification]
#[verifier::external_body]
pub struct ExTomlSerError(toml::ser::Error);

/// std's I/O error, carried opaque inside `ConfigError`.
#[verifier::external_type_specification]
#[verifier::external_body]
pub struct ExIoError(std::io::Error);

/// Why loading the configuration failed.
pub enum ConfigError {
    /// The file's contents are not a valid configuration.
    Derserialize(toml::de::Error),
    /// The sample configuration could not be written out as text.
    Serialize(toml::ser::Error),
    /// Reading or writing the file failed.
    Io(std::io::Error),
}

impl ConfigError {
    /// The fatal error kind that ends the process on this error.
    pub fn fatal(&self) -> (r: Fatal)
        ensures
            r == match self {
                ConfigError::Derserialize(_) => Fatal::ConfigDeserialize,
                ConfigError::Serialize(_) => Fatal::ConfigSerialize,
                ConfigError::Io(_) => Fatal::ConfigIo,
            },
    {
        match self {
            ConfigError::Derserialize(_) => Fatal::ConfigDeserialize,
            ConfigError::Serialize(_) => Fatal::ConfigSerialize,
            ConfigError::Io(_) => Fatal::ConfigIo,
        }
    }
}

} // verus!
