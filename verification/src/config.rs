//! Service configuration and its defaults.

use vstd::prelude::*;
use vstd::string::*;

verus! {

/// Settings of the service: logging, listening address, database access and
/// the lifetimes, in seconds, of session and refresh tokens.
#[derive(Debug, Clone)]
pub struct Config {
    pub app_log: String,
    pub server: String,
    pub http_tracing: bool,

    pub db_host: String,
    pub db_port: u16,
    pub db_name: String,
    pub db_user: String,
    pub db_password: String,
    pub db_pool_max_size: usize,

    pub session_lifetime: i64,
    pub refresh_token_lifetime: i64,
}

/// The settings used where nothing overrides them.
pub open spec fn is_default_config(c: &Config) -> bool {
    &&& c.app_log@ == "info"@
    &&& c.server@ == "0.0.0.0:8080"@
    &&& c.http_tracing
    &&& c.db_host@ == "postgres"@
    &&& c.db_port == 5432
    &&& c.db_name@ == "test"@
    &&& c.db_user@ == "test"@
    &&& c.db_password@ == "password"@
    &&& c.db_pool_max_size == 100
    &&& c.session_lifetime == 3600
    &&& c.refresh_token_lifetime == 3600 * 24 * 100
}

impl Default for Config {
    fn default() -> (c: Self)
        ensures
            is_default_config(&c),
    {
        Config {
            app_log: String::from_str("info"),
            server: String::from_str("0.0.0.0:8080"),
            http_tracing: true,

            db_host: String::from_str("postgres"),
            db_port: 5432,
            db_name: String::from_str("test"),
            db_user: String::from_str("test"),
            db_password: String::from_str("password"),
            db_pool_max_size: 100,

            session_lifetime: 3600,
            refresh_token_lifetime: 3600 * 24 * 100,
        }
    }
}

/// The configuration the service runs with.
#[derive(Debug, Clone)]
pub struct AppConfig {
    pub config: Config,
}

impl Default for AppConfig {
    fn default() -> (a: Self)
        ensures
            is_default_config(&a.config),
    {
        AppConfig { config: Config::default() }
    }
}

} // verus!
