//! The configuration file's contents, their defaults, and what happens when the
//! file cannot be had.

use vstd::prelude::*;
use vstd::string::*;

verus! {

/// The name a server takes when the configuration does not give one.
pub const DEFAULT_SERVER_NAME: &'static str = "signal_wm";

/// The whole configuration file.
#[derive(Debug)]
pub struct Config {
    pub server: ServerConfig,
}

/// The `[server]` table.
#[derive(Debug)]
pub struct ServerConfig {
    pub name: String,
    pub graphics: GraphicsConfig,
}

/// The `[server.graphics]` table.
#[derive(Debug, Copy, Clone, PartialEq, Eq, Structural)]
pub struct GraphicsConfig {
    pub vfr: bool,
}

/// Why the configuration file could not be turned into a [`Config`].
#[derive(Debug)]
pub enum ConfigError {
    /// The file could not be read.
    Io(std::io::Error),
    /// The file was read but is not a valid configuration.
    Deserialize(toml::de::Error),
}

impl GraphicsConfig {
    /// Whether these are the graphics settings of a configuration that says nothing.
    pub open spec fn is_default(self) -> bool {
        !self.vfr
    }
}

impl ServerConfig {
    /// Whether these are the server settings of a configuration that says nothing.
    pub open spec fn is_default(self) -> bool {
        &&& self.name@ == DEFAULT_SERVER_NAME@
        &&& self.graphics.is_default()
    }
}

impl Config {
    /// Whether this is the configuration of a file that says nothing.
    pub open spec fn is_default(self) -> bool {
        self.server.is_default()
    }
}

impl Default for GraphicsConfig {
    /// Variable refresh rate off.
    fn default() -> (g: GraphicsConfig)
        ensures
            g.is_default(),
    {
        GraphicsConfig { vfr: false }
    }
}

impl Default for ServerConfig {
    /// The server named after the program, with default graphics.
    fn default() -> (s: ServerConfig)
        ensures
            s.is_default(),
    {
        ServerConfig {
            name: String::from_str(DEFAULT_SERVER_NAME),
            graphics: GraphicsConfig::default(),
        }
    }
}

impl Default for Config {
    /// The configuration of a file that says nothing.
    fn default() -> (c: Config)
        ensures
            c.is_default(),
    {
        Config { server: ServerConfig::default() }
    }
}

impl Clone for ServerConfig {
    fn clone(&self) -> (c: ServerConfig)
        ensures
            c.name@ == self.name@,
            c.graphics == self.graphics,
    {
        ServerConfig { name: self.name.clone(), graphics: self.graphics }
    }
}

impl Clone for Config {
    fn clone(&self) -> (c: Config)
        ensures
            c.server.name@ == self.server.name@,
            c.server.graphics == self.server.graphics,
    {
        Config { server: self.server.clone() }
    }
}

/// Settles on the configuration to run with, given what loading the file gave.
///
/// A file that cannot be read is no error: the server runs with the defaults.
/// A file that was read but does not parse is an error, handed back as it came.
pub fn initialize_config(loaded: Result<Config, ConfigError>) -> (r: Result<Config, ConfigError>)
    ensures
        match loaded {
            Ok(c) => r == Ok::<Config, ConfigError>(c),
            Err(ConfigError::Io(_)) => r matches Ok(c) && c.is_default(),
            Err(ConfigError::Deserialize(e)) => r == Err::<Config, ConfigError>(
                ConfigError::Deserialize(e),
            ),
        },
        !(r matches Err(ConfigError::Io(_))),
{
    match loaded {
        Ok(c) => Ok(c),
        Err(ConfigError::Io(_)) => Ok(Config::default()),
        Err(ConfigError::Deserialize(e)) => Err(ConfigError::Deserialize(e)),
    }
}

} // verus!
