use vstd::prelude::*;

use crate::auth::JwtKeys;

verus! {

/// Process configuration, read once at startup and passed to the components
/// that need it.
#[derive(Debug, Clone)]
pub struct AppConfig {
    pub db_url: String,
    pub jwt_secret: String,
    pub bind_addr: String,
    pub env: String,
}

/// Why a configuration could not be assembled: a required setting was absent.
#[derive(Debug, Clone, Copy, PartialEq, Eq, Structural)]
pub enum ConfigError {
    MissingDatabaseUrl,
    MissingJwtSecret,
}

/// The bind address used when none is configured.
pub open spec fn default_bind_addr() -> Seq<char> {
    "0.0.0.0:8080"@
}

/// The environment name used when none is configured.
pub open spec fn default_env() -> Seq<char> {
    "dev"@
}

impl AppConfig {
    /// Assembles the configuration from the settings that were found: the
    /// store URL and the signing secret are required, the bind address and
    /// the environment name fall back to their defaults.
    pub fn from_values(
        db_url: Option<String>,
        jwt_secret: Option<String>,
        bind_addr: Option<String>,
        env: Option<String>,
    ) -> (r: Result<AppConfig, ConfigError>)
        ensures
            db_url is None ==> r == Err::<AppConfig, ConfigError>(ConfigError::MissingDatabaseUrl),
            db_url is Some && jwt_secret is None ==> r == Err::<AppConfig, ConfigError>(
                ConfigError::MissingJwtSecret,
            ),
            db_url is Some && jwt_secret is Some ==> (r matches Ok(c) && c.db_url@ == db_url->0@
                && c.jwt_secret@ == jwt_secret->0@ && c.bind_addr@ == (match bind_addr {
                Some(b) => b@,
                None => default_bind_addr(),
            }) && c.env@ == (match env {
                Some(e) => e@,
                None => default_env(),
            })),
    {
        let db_url = match db_url {
            Some(u) => u,
            None => return Err(ConfigError::MissingDatabaseUrl),
        };
        let jwt_secret = match jwt_secret {
            Some(s) => s,
            None => return Err(ConfigError::MissingJwtSecret),
        };
        let bind_addr = match bind_addr {
            Some(b) => b,
            None => "0.0.0.0:8080".to_string(),
        };
        let env = match env {
            Some(e) => e,
            None => "dev".to_string(),
        };
        Ok(AppConfig { db_url, jwt_secret, bind_addr, env })
    }
}

/// The token keys for a configuration's signing secret.
pub fn jwt_keys_from_config(cfg: &AppConfig) -> (r: JwtKeys) {
    JwtKeys::from_secret(cfg.jwt_secret.as_str())
}

} // verus!
