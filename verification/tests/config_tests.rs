use postgres_oidc_proxy::config::{Config, DatabaseConfig, OidcConfig, ServerConfig};

#[test]
fn test_default_config() {
    let config = Config::default();

    assert_eq!(config.server.bind_address, "0.0.0.0:8080");
    assert_eq!(config.database.host, "localhost");
    assert_eq!(config.database.port, 5432);
    assert_eq!(config.database.username, "postgres");
    assert_eq!(config.database.password, "password");
    assert_eq!(config.database.database, "postgres");
    assert_eq!(config.database.max_connections, 10);
    assert_eq!(config.oidc.issuer_url, "https://your-oidc-provider.com");
    assert_eq!(config.oidc.client_id, "your-client-id");
    assert_eq!(config.oidc.audience, None);
    assert_eq!(config.oidc.jwks_cache_duration_seconds, 3600);
    assert_eq!(config.oidc.skip_validation, None);
    assert_eq!(config.oidc.dev_secret, None);
}

#[test]
fn test_config_structure() {
    let config = Config {
        server: ServerConfig {
            bind_address: "0.0.0.0:8080".to_string(),
        },
        database: DatabaseConfig {
            host: "localhost".to_string(),
            port: 5432,
            username: "postgres".to_string(),
            password: "password".to_string(),
            database: "postgres".to_string(),
            max_connections: 10,
        },
        oidc: OidcConfig {
            issuer_url: "https://test.auth0.com".to_string(),
            client_id: "test-client".to_string(),
            audience: Some("test-audience".to_string()),
            jwks_cache_duration_seconds: 3600,
            skip_validation: Some(true),
            dev_secret: Some("test_dev_secret".to_string()),
        },
    };

    assert_eq!(config.server.bind_address, "0.0.0.0:8080");
    assert_eq!(config.database.host, "localhost");
    assert_eq!(config.database.port, 5432);
    assert_eq!(config.oidc.issuer_url, "https://test.auth0.com");
    assert_eq!(config.oidc.client_id, "test-client");
    assert_eq!(config.oidc.audience, Some("test-audience".to_string()));
    assert_eq!(config.oidc.skip_validation, Some(true));
    assert_eq!(config.oidc.dev_secret, Some("test_dev_secret".to_string()));
}
