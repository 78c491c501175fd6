//! Process-wide configuration, built once at start-up and passed by reference.

use vstd::prelude::*;
use vstd::string::StringExecFns;

verus! {

/// Why no configuration could be chosen for an environment.
#[derive(Debug, Clone, Copy, PartialEq, Eq, Structural)]
pub enum ConfigError {
    /// The production environment has no settings yet.
    NotConfiguredForProduction,
    /// The environment has a name that is not known.
    UnknownEnvironment,
}

/// Default lifetime of an access token: fifteen minutes, in seconds.
pub const DEFAULT_ACCESS_TTL: u64 = 900;

/// Default lifetime of a refresh token: seven days, in seconds.
pub const DEFAULT_REFRESH_TTL: u64 = 604800;

/// Everything the components need from the environment.
#[derive(Debug)]
pub struct Config {
    pub host: String,
    pub port: i32,
    pub app_env: String,
    pub database_url: String,
    /// Server-side secret mixed into every password hash.
    pub hash_secret_key: String,
    /// Symmetric secret that signs access and refresh tokens.
    pub jwt_secret_key: String,
    /// Lifetime of an access token, in seconds.
    pub access_ttl: u64,
    /// Lifetime of a refresh token, in seconds.
    pub refresh_ttl: u64,
}

impl ConfigError {
    /// The text of each failure.
    pub open spec fn message_spec(self) -> Seq<char> {
        match self {
            ConfigError::NotConfiguredForProduction => "App is not configured for production"@,
            ConfigError::UnknownEnvironment => "Could not configure app based on env vars"@,
        }
    }

    /// What to tell the operator.
    pub fn message(self) -> (text: String)
        ensures
            text@ == self.message_spec(),
    {
        match self {
            ConfigError::NotConfiguredForProduction => String::from_str(
                "App is not configured for production",
            ),
            ConfigError::UnknownEnvironment => String::from_str(
                "Could not configure app based on env vars",
            ),
        }
    }
}

/// The settings file of an environment: only `development` has one.
pub open spec fn settings_file_spec(app_env: Seq<char>) -> Result<Seq<char>, ConfigError> {
    if app_env == "development"@ {
        Ok(".env.dev.json"@)
    } else if app_env == "production"@ {
        Err(ConfigError::NotConfiguredForProduction)
    } else {
        Err(ConfigError::UnknownEnvironment)
    }
}

impl Config {
    /// The name of the file that holds the settings of an environment.
    pub fn settings_file(app_env: &str) -> (file: Result<String, ConfigError>)
        ensures
            match file {
                Ok(name) => settings_file_spec(app_env@) == Ok::<Seq<char>, ConfigError>(name@),
                Err(e) => settings_file_spec(app_env@) == Err::<Seq<char>, ConfigError>(e),
            },
    {
        let env = app_env.to_owned();
        if env == String::from_str("development") {
            Ok(String::from_str(".env.dev.json"))
        } else if env == String::from_str("production") {
            Err(ConfigError::NotConfiguredForProduction)
        } else {
            Err(ConfigError::UnknownEnvironment)
        }
    }

    /// The same configuration with other token lifetimes, in seconds.
    pub fn with_lifetimes(self, access_ttl: u64, refresh_ttl: u64) -> (config: Config)
        ensures
            config.host == self.host,
            config.port == self.port,
            config.app_env == self.app_env,
            config.database_url == self.database_url,
            config.hash_secret_key == self.hash_secret_key,
            config.jwt_secret_key == self.jwt_secret_key,
            config.access_ttl == access_ttl,
            config.refresh_ttl == refresh_ttl,
    {
        Config {
            host: self.host,
            port: self.port,
            app_env: self.app_env,
            database_url: self.database_url,
            hash_secret_key: self.hash_secret_key,
            jwt_secret_key: self.jwt_secret_key,
            access_ttl,
            refresh_ttl,
        }
    }

    /// A configuration with the default token lifetimes.
    pub fn new(
        host: String,
        port: i32,
        app_env: String,
        database_url: String,
        hash_secret_key: String,
        jwt_secret_key: String,
    ) -> (config: Config)
        ensures
            config.host == host,
            config.port == port,
            config.app_env == app_env,
            config.database_url == database_url,
            config.hash_secret_key == hash_secret_key,
            config.jwt_secret_key == jwt_secret_key,
            config.access_ttl == DEFAULT_ACCESS_TTL,
            config.refresh_ttl == DEFAULT_REFRESH_TTL,
    {
        Config {
            host,
            port,
            app_env,
            database_url,
            hash_secret_key,
            jwt_secret_key,
            access_ttl: DEFAULT_ACCESS_TTL,
            refresh_ttl: DEFAULT_REFRESH_TTL,
        }
    }
}

} // verus!
