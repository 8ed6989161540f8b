use protin::config::{ConfigError, EnvVars};
use protin::Config;

fn vars() -> EnvVars {
    EnvVars {
        database_url: None,
        postgres_user: None,
        postgres_password: None,
        postgres_db: None,
        postgres_host: None,
        s3_region: Some("eu-west-1".to_string()),
        s3_endpoint: Some("http://localhost:9000".to_string()),
        s3_bucket_name: None,
        s3_bucket_lifecycle_id: None,
        s3_bucket_expiration: None,
        web_port: None,
    }
}

fn with_url(url: &str) -> EnvVars {
    let mut v = vars();
    v.database_url = Some(url.to_string());
    v
}

#[test]
fn defaults_apply_when_optional_variables_are_unset() {
    let config = Config::from_vars(with_url("postgres://a@b/c")).unwrap();
    assert_eq!(config.database_url(), "postgres://a@b/c");
    assert_eq!(config.s3_region(), "eu-west-1");
    assert_eq!(config.s3_endpoint(), "http://localhost:9000");
    assert_eq!(config.s3_bucket_name(), "protin-files");
    assert_eq!(config.s3_bucket_lifcycle_id(), "protin-files-expiration-lifecycle");
    assert_eq!(config.s3_bucket_expiration(), 1);
    assert_eq!(config.web_port(), 8080);
}

#[test]
fn set_optional_variables_are_used() {
    let mut v = with_url("db");
    v.s3_bucket_name = Some("bucket".to_string());
    v.s3_bucket_lifecycle_id = Some("rule".to_string());
    v.s3_bucket_expiration = Some("-7".to_string());
    v.web_port = Some("+443".to_string());
    let config = Config::from_vars(v).unwrap();
    assert_eq!(config.s3_bucket_name(), "bucket");
    assert_eq!(config.s3_bucket_lifcycle_id(), "rule");
    assert_eq!(config.s3_bucket_expiration(), -7);
    assert_eq!(config.web_port(), 443);
}

#[test]
fn database_url_is_composed_from_parts() {
    let mut v = vars();
    v.postgres_user = Some("user".to_string());
    v.postgres_password = Some("secret".to_string());
    v.postgres_db = Some("pastes".to_string());
    let config = Config::from_vars(v.clone()).unwrap();
    assert_eq!(config.database_url(), "postgres://user:secret:localhost/pastes");
    v.postgres_host = Some("db.internal".to_string());
    let config = Config::from_vars(v).unwrap();
    assert_eq!(config.database_url(), "postgres://user:secret:db.internal/pastes");
}

#[test]
fn database_url_overrides_parts() {
    let mut v = with_url("postgres://given");
    v.postgres_user = Some("ignored".to_string());
    let config = Config::from_vars(v).unwrap();
    assert_eq!(config.database_url(), "postgres://given");
    let config = Config::from_vars(with_url("postgres://given")).unwrap();
    assert_eq!(config.database_url(), "postgres://given");
}

#[test]
fn missing_database_parts_are_reported_in_order() {
    let v = vars();
    assert_eq!(Config::from_vars(v.clone()).unwrap_err(), ConfigError::MissingPostgresUser);
    let mut v = v;
    v.postgres_user = Some("u".to_string());
    assert_eq!(Config::from_vars(v.clone()).unwrap_err(), ConfigError::MissingPostgresPassword);
    v.postgres_password = Some("p".to_string());
    assert_eq!(Config::from_vars(v.clone()).unwrap_err(), ConfigError::MissingPostgresDb);
    v.postgres_db = Some("d".to_string());
    assert!(Config::from_vars(v).is_ok());
}

#[test]
fn missing_region_and_endpoint_are_errors() {
    let mut v = with_url("db");
    v.s3_region = None;
    v.s3_endpoint = None;
    let err = Config::from_vars(v.clone()).unwrap_err();
    assert_eq!(err, ConfigError::MissingS3Region);
    assert_eq!(err.message(), "S3_REGION environment variable must be set.");
    v.s3_region = Some("r".to_string());
    let err = Config::from_vars(v).unwrap_err();
    assert_eq!(err, ConfigError::MissingS3Endpoint);
    assert_eq!(err.message(), "S3_ENDPOINT environment variable must be set.");
}

#[test]
fn database_error_comes_before_region_error() {
    let mut v = vars();
    v.s3_region = None;
    assert_eq!(Config::from_vars(v).unwrap_err(), ConfigError::MissingPostgresUser);
}

#[test]
fn invalid_numbers_are_errors() {
    let mut v = with_url("db");
    v.s3_bucket_expiration = Some("one".to_string());
    let err = Config::from_vars(v.clone()).unwrap_err();
    assert_eq!(err, ConfigError::InvalidS3BucketExpiration);
    assert_eq!(err.message(), "S3_BUCKET_EXPIRATION needs to be signed integer value");
    v.s3_bucket_expiration = Some("2147483648".to_string());
    assert_eq!(Config::from_vars(v.clone()).unwrap_err(), ConfigError::InvalidS3BucketExpiration);
    v.s3_bucket_expiration = Some("2".to_string());
    v.web_port = Some("-1".to_string());
    let err = Config::from_vars(v.clone()).unwrap_err();
    assert_eq!(err, ConfigError::InvalidWebPort);
    assert_eq!(err.message(), "WEB_PORT needs to be unsigned integer value");
    v.web_port = Some("65536".to_string());
    assert_eq!(Config::from_vars(v.clone()).unwrap_err(), ConfigError::InvalidWebPort);
    v.web_port = Some("65535".to_string());
    assert_eq!(Config::from_vars(v).unwrap().web_port(), 65535);
}

#[test]
fn expiration_error_comes_before_port_error() {
    let mut v = with_url("db");
    v.s3_bucket_expiration = Some("x".to_string());
    v.web_port = Some("y".to_string());
    assert_eq!(Config::from_vars(v).unwrap_err(), ConfigError::InvalidS3BucketExpiration);
}

#[test]
fn database_error_messages() {
    assert_eq!(
        ConfigError::MissingPostgresUser.message(),
        "POSTGRES_USER environment variable must be set if DATABASE_URL is not set."
    );
    assert_eq!(
        ConfigError::MissingPostgresPassword.message(),
        "POSTGRES_PASSWORD environment variable must be set if DATABASE_URL is not set."
    );
    assert_eq!(
        ConfigError::MissingPostgresDb.message(),
        "POSTGRES_DB environment variable must be set if DATABASE_URL is not set."
    );
}
