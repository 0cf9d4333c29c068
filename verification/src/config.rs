//! Configuration values for the gateway.
//!
//! Only the values live here; reading them from the process environment is
//! left to the surrounding program, which hands the finished structs in.

use vstd::prelude::*;

verus! {

/// Everything the gateway needs to run.
#[derive(Debug, Clone)]
pub struct Config {
    pub server: ServerConfig,
    pub database: DatabaseConfig,
    pub oidc: OidcConfig,
}

/// Where the HTTP server listens.
#[derive(Debug, Clone)]
pub struct ServerConfig {
    pub bind_address: String,
}

/// How to reach the database, and how many sessions may be open at once.
#[derive(Debug, Clone)]
pub struct DatabaseConfig {
    pub host: String,
    pub port: u16,
    pub username: String,
    pub password: String,
    pub database: String,
    pub max_connections: u32,
}

/// The identity-provider settings used for token validation.
///
/// `skip_validation` together with `dev_secret` forms the development-mode
/// bypass: both must be set explicitly before the symmetric-secret path can
/// ever be taken (see [`crate::oidc::ValidationConfig`]).
#[derive(Debug, Clone)]
pub struct OidcConfig {
    pub issuer_url: String,
    pub client_id: String,
    pub audience: Option<String>,
    pub jwks_cache_duration_seconds: u64,
    pub skip_validation: Option<bool>,
    pub dev_secret: Option<String>,
}

impl Default for Config {
    /// The defaults leave the development bypass disabled: `skip_validation`
    /// and `dev_secret` are both absent.
    fn default() -> (r: Self)
        ensures
            r.server.bind_address@ == "0.0.0.0:8080"@,
            r.database.host@ == "localhost"@,
            r.database.port == 5432,
            r.database.username@ == "postgres"@,
            r.database.password@ == "password"@,
            r.database.database@ == "postgres"@,
            r.database.max_connections == 10,
            r.oidc.issuer_url@ == "https://your-oidc-provider.com"@,
            r.oidc.client_id@ == "your-client-id"@,
            r.oidc.audience is None,
            r.oidc.jwks_cache_duration_seconds == 3600,
            r.oidc.skip_validation is None,
            r.oidc.dev_secret is None,
    {
        Config {
            server: ServerConfig { bind_address: "0.0.0.0:8080".to_owned() },
            database: DatabaseConfig {
                host: "localhost".to_owned(),
                port: 5432,
                username: "postgres".to_owned(),
                password: "password".to_owned(),
                database: "postgres".to_owned(),
                max_connections: 10,
            },
            oidc: OidcConfig {
                issuer_url: "https://your-oidc-provider.com".to_owned(),
                client_id: "your-client-id".to_owned(),
                audience: None,
                jwks_cache_duration_seconds: 3600,
                skip_validation: None,
                dev_secret: None,
            },
        }
    }
}

} // verus!
