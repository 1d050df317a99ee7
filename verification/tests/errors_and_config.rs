use speer_test::config::{AppConfig, Config};
use speer_test::error::Error;

fn internal() -> Error {
    Error::Anyhow(anyhow::Error::msg("connection refused"))
}

#[test]
fn status_codes_follow_the_error_kind() {
    assert_eq!(Error::BadRequest.status_code(), 400);
    assert_eq!(Error::Unauthorized.status_code(), 401);
    assert_eq!(Error::Forbidden.status_code(), 403);
    assert_eq!(Error::PayloadTooLarge.status_code(), 413);
    assert_eq!(Error::Postgres.status_code(), 500);
    assert_eq!(internal().status_code(), 500);
}

#[test]
fn messages_read_as_the_error_display() {
    assert_eq!(Error::BadRequest.message(), "bad request");
    assert_eq!(Error::Unauthorized.message(), "authentication required");
    assert_eq!(Error::Forbidden.message(), "user may not perform that action");
    assert_eq!(Error::PayloadTooLarge.message(), "Content Too Large");
    assert_eq!(Error::Postgres.message(), "an error occurred with the database");
    assert_eq!(internal().message(), "an internal server error occurred");
}

#[test]
fn response_bodies() {
    assert_eq!(Error::Unauthorized.response_parts(), (401, "authentication required".to_string()));
    assert_eq!(Error::PayloadTooLarge.response_parts(), (413, "Payload too large".to_string()));
    assert_eq!(Error::BadRequest.response_parts(), (400, "bad request".to_string()));
    assert_eq!(Error::Forbidden.response_parts(), (403, "user may not perform that action".to_string()));
    assert_eq!(Error::Postgres.response_parts(), (500, "an error occurred with the database".to_string()));
    assert_eq!(internal().response_parts(), (500, "an internal server error occurred".to_string()));
}

#[test]
fn default_config_values() {
    let c = Config::default();
    assert_eq!(c.app_log, "info");
    assert_eq!(c.server, "0.0.0.0:8080");
    assert!(c.http_tracing);
    assert_eq!(c.db_host, "postgres");
    assert_eq!(c.db_port, 5432);
    assert_eq!(c.db_name, "test");
    assert_eq!(c.db_user, "test");
    assert_eq!(c.db_password, "password");
    assert_eq!(c.db_pool_max_size, 100);
    assert_eq!(c.session_lifetime, 3600);
    assert_eq!(c.refresh_token_lifetime, 8_640_000);
}

#[test]
fn default_app_config_wraps_the_default_config() {
    let a = AppConfig::default();
    assert_eq!(a.config.db_port, 5432);
    assert_eq!(a.config.server, "0.0.0.0:8080");
}
