//! Service configuration, assembled from the process environment's values.

use vstd::prelude::*;

use crate::decimal::{
    decimal_string, lemma_decimal_round_trip, parse_i32, parse_u16, spec_parse_i32,
    spec_parse_u16,
};

verus! {

/// The bucket used when `S3_BUCKET_NAME` is unset.
pub const DEFAULT_S3_BUCKET_NAME: &'static str = "protin-files";

/// The lifecycle rule id used when `S3_BUCKET_LIFECYCLE_ID` is unset.
pub const DEFAULT_S3_BUCKET_LIFECYCLE_ID: &'static str = "protin-files-expiration-lifecycle";

/// The expiration used when `S3_BUCKET_EXPIRATION` is unset.
pub const DEFAULT_S3_BUCKET_EXPIRATION: u32 = 1;

/// The port used when `WEB_PORT` is unset.
pub const DEFAULT_WEB_PORT: u32 = 8080;

/// The database host used when `POSTGRES_HOST` is unset.
pub const DEFAULT_POSTGRES_HOST: &'static str = "localhost";

/// The values of the environment variables the service reads, `None` where a
/// variable is unset (or does not hold Unicode).
#[derive(Clone, Debug)]
pub struct EnvVars {
    pub database_url: Option<String>,
    pub postgres_user: Option<String>,
    pub postgres_password: Option<String>,
    pub postgres_db: Option<String>,
    pub postgres_host: Option<String>,
    pub s3_region: Option<String>,
    pub s3_endpoint: Option<String>,
    pub s3_bucket_name: Option<String>,
    pub s3_bucket_lifecycle_id: Option<String>,
    pub s3_bucket_expiration: Option<String>,
    pub web_port: Option<String>,
}

/// Why the environment does not make a configuration.
#[derive(Clone, Copy, Debug, PartialEq, Eq, Structural)]
pub enum ConfigError {
    MissingPostgresUser,
    MissingPostgresPassword,
    MissingPostgresDb,
    MissingS3Region,
    MissingS3Endpoint,
    InvalidS3BucketExpiration,
    InvalidWebPort,
}

/// The text each error is reported with.
pub open spec fn config_error_text(e: ConfigError) -> Seq<char> {
    match e {
        ConfigError::MissingPostgresUser => "POSTGRES_USER environment variable must be set if DATABASE_URL is not set."@,
        ConfigError::MissingPostgresPassword => "POSTGRES_PASSWORD environment variable must be set if DATABASE_URL is not set."@,
        ConfigError::MissingPostgresDb => "POSTGRES_DB environment variable must be set if DATABASE_URL is not set."@,
        ConfigError::MissingS3Region => "S3_REGION environment variable must be set."@,
        ConfigError::MissingS3Endpoint => "S3_ENDPOINT environment variable must be set."@,
        ConfigError::InvalidS3BucketExpiration => "S3_BUCKET_EXPIRATION needs to be signed integer value"@,
        ConfigError::InvalidWebPort => "WEB_PORT needs to be unsigned integer value"@,
    }
}

impl ConfigError {
    /// The text the error is reported with.
    pub fn message(&self) -> (res: &'static str)
        ensures
            res@ == config_error_text(*self),
    {
        match self {
            ConfigError::MissingPostgresUser => "POSTGRES_USER environment variable must be set if DATABASE_URL is not set.",
            ConfigError::MissingPostgresPassword => "POSTGRES_PASSWORD environment variable must be set if DATABASE_URL is not set.",
            ConfigError::MissingPostgresDb => "POSTGRES_DB environment variable must be set if DATABASE_URL is not set.",
            ConfigError::MissingS3Region => "S3_REGION environment variable must be set.",
            ConfigError::MissingS3Endpoint => "S3_ENDPOINT environment variable must be set.",
            ConfigError::InvalidS3BucketExpiration => "S3_BUCKET_EXPIRATION needs to be signed integer value",
            ConfigError::InvalidWebPort => "WEB_PORT needs to be unsigned integer value",
        }
    }
}

/// The settings of the service.
#[derive(Clone, Debug)]
pub struct Config {
    database_url: String,
    s3_region: String,
    s3_endpoint: String,
    s3_bucket_name: String,
    s3_bucket_lifcycle_id: String,
    s3_bucket_expiration: i32,
    web_port: u16,
}

/// A configuration's settings as values.
pub struct ConfigView {
    pub database_url: Seq<char>,
    pub s3_region: Seq<char>,
    pub s3_endpoint: Seq<char>,
    pub s3_bucket_name: Seq<char>,
    pub s3_bucket_lifcycle_id: Seq<char>,
    pub s3_bucket_expiration: i32,
    pub web_port: u16,
}

impl View for Config {
    type V = ConfigView;

    closed spec fn view(&self) -> ConfigView {
        ConfigView {
            database_url: self.database_url@,
            s3_region: self.s3_region@,
            s3_endpoint: self.s3_endpoint@,
            s3_bucket_name: self.s3_bucket_name@,
            s3_bucket_lifcycle_id: self.s3_bucket_lifcycle_id@,
            s3_bucket_expiration: self.s3_bucket_expiration,
            web_port: self.web_port,
        }
    }
}

/// A variable's value, or `default` when it is unset.
pub open spec fn value_or(var: Option<String>, default: Seq<char>) -> Seq<char> {
    match var {
        Some(v) => v@,
        None => default,
    }
}

/// The connection URL assembled from its parts.
pub open spec fn composed_database_url(
    user: Seq<char>,
    password: Seq<char>,
    host: Seq<char>,
    db: Seq<char>,
) -> Seq<char> {
    "postgres://"@ + user + ":"@ + password + ":"@ + host + "/"@ + db
}

/// `DATABASE_URL` when set; else the URL made of `POSTGRES_USER`,
/// `POSTGRES_PASSWORD`, `POSTGRES_HOST` (default `localhost`) and
/// `POSTGRES_DB`, the first of those three required ones that is missing
/// being the error.
pub open spec fn spec_database_url(vars: EnvVars) -> Result<Seq<char>, ConfigError> {
    match vars.database_url {
        Some(url) => Ok(url@),
        None => match vars.postgres_user {
            None => Err(ConfigError::MissingPostgresUser),
            Some(user) => match vars.postgres_password {
                None => Err(ConfigError::MissingPostgresPassword),
                Some(password) => match vars.postgres_db {
                    None => Err(ConfigError::MissingPostgresDb),
                    Some(db) => Ok(
                        composed_database_url(
                            user@,
                            password@,
                            value_or(vars.postgres_host, DEFAULT_POSTGRES_HOST@),
                            db@,
                        ),
                    ),
                },
            },
        },
    }
}

/// The expiration setting: the parsed `S3_BUCKET_EXPIRATION`, or the default.
pub open spec fn spec_expiration(vars: EnvVars) -> Option<i32> {
    match vars.s3_bucket_expiration {
        Some(s) => spec_parse_i32(s@),
        None => Some(DEFAULT_S3_BUCKET_EXPIRATION as i32),
    }
}

/// The port setting: the parsed `WEB_PORT`, or the default.
pub open spec fn spec_web_port(vars: EnvVars) -> Option<u16> {
    match vars.web_port {
        Some(s) => spec_parse_u16(s@),
        None => Some(DEFAULT_WEB_PORT as u16),
    }
}

/// The configuration the environment makes, or the first reason it makes
/// none, in this order: database URL, region, endpoint, expiration, port.
pub open spec fn spec_config(vars: EnvVars) -> Result<ConfigView, ConfigError> {
    match spec_database_url(vars) {
        Err(e) => Err(e),
        Ok(database_url) => match vars.s3_region {
            None => Err(ConfigError::MissingS3Region),
            Some(region) => match vars.s3_endpoint {
                None => Err(ConfigError::MissingS3Endpoint),
                Some(endpoint) => match spec_expiration(vars) {
                    None => Err(ConfigError::InvalidS3BucketExpiration),
                    Some(expiration) => match spec_web_port(vars) {
                        None => Err(ConfigError::InvalidWebPort),
                        Some(port) => Ok(
                            ConfigView {
                                database_url,
                                s3_region: region@,
                                s3_endpoint: endpoint@,
                                s3_bucket_name: value_or(
                                    vars.s3_bucket_name,
                                    DEFAULT_S3_BUCKET_NAME@,
                                ),
                                s3_bucket_lifcycle_id: value_or(
                                    vars.s3_bucket_lifecycle_id,
                                    DEFAULT_S3_BUCKET_LIFECYCLE_ID@,
                                ),
                                s3_bucket_expiration: expiration,
                                web_port: port,
                            },
                        ),
                    },
                },
            },
        },
    }
}

/// A set `DATABASE_URL` is the database URL as it stands, and the
/// `POSTGRES_*` variables are then not consulted: environments that differ
/// only in those make the same configuration.
pub proof fn lemma_database_url_overrides_parts(vars: EnvVars, other: EnvVars)
    requires
        vars.database_url is Some,
        other.database_url == vars.database_url,
        other.s3_region == vars.s3_region,
        other.s3_endpoint == vars.s3_endpoint,
        other.s3_bucket_name == vars.s3_bucket_name,
        other.s3_bucket_lifecycle_id == vars.s3_bucket_lifecycle_id,
        other.s3_bucket_expiration == vars.s3_bucket_expiration,
        other.web_port == vars.web_port,
    ensures
        spec_config(vars) == spec_config(other),
        spec_config(vars) matches Ok(view) ==> view.database_url == vars.database_url.unwrap()@,
{
}

/// Each setting comes from its own variable: when the configuration is
/// made, the region and endpoint are those given, the bucket name and
/// lifecycle id are those given or else their defaults, whatever the other
/// variables hold, and the expiration and port are the values of their
/// variables (read as std reads an `i32` and a `u16`) or else their defaults.
/// A configuration is made exactly when the database URL can be had, the
/// region and endpoint are set, and the set numbers read.
pub proof fn lemma_config_settings(vars: EnvVars)
    ensures
        spec_config(vars) is Ok <==> {
            &&& (vars.database_url is Some || (vars.postgres_user is Some
                && vars.postgres_password is Some && vars.postgres_db is Some))
            &&& vars.s3_region is Some
            &&& vars.s3_endpoint is Some
            &&& (vars.s3_bucket_expiration matches Some(s) ==> spec_parse_i32(s@) is Some)
            &&& (vars.web_port matches Some(s) ==> spec_parse_u16(s@) is Some)
        },
        spec_config(vars) matches Ok(view) ==> {
            &&& (vars.database_url matches Some(url) ==> view.database_url == url@)
            &&& (vars.database_url is None ==> view.database_url == "postgres://"@
                + vars.postgres_user.unwrap()@ + ":"@ + vars.postgres_password.unwrap()@ + ":"@
                + (if vars.postgres_host is Some {
                vars.postgres_host.unwrap()@
            } else {
                DEFAULT_POSTGRES_HOST@
            }) + "/"@ + vars.postgres_db.unwrap()@)
            &&& view.s3_region == vars.s3_region.unwrap()@
            &&& view.s3_endpoint == vars.s3_endpoint.unwrap()@
            &&& (vars.s3_bucket_name matches Some(name) ==> view.s3_bucket_name == name@)
            &&& (vars.s3_bucket_name is None ==> view.s3_bucket_name == DEFAULT_S3_BUCKET_NAME@)
            &&& (vars.s3_bucket_lifecycle_id matches Some(id) ==> view.s3_bucket_lifcycle_id == id@)
            &&& (vars.s3_bucket_lifecycle_id is None ==> view.s3_bucket_lifcycle_id
                == DEFAULT_S3_BUCKET_LIFECYCLE_ID@)
            &&& (vars.s3_bucket_expiration matches Some(s) ==> spec_parse_i32(s@) == Some(
                view.s3_bucket_expiration,
            ))
            &&& (vars.s3_bucket_expiration is None ==> view.s3_bucket_expiration == 1)
            &&& (vars.web_port matches Some(s) ==> spec_parse_u16(s@) == Some(view.web_port))
            &&& (vars.web_port is None ==> view.web_port == 8080)
        },
{
}

fn string_or(var: Option<String>, default: &str) -> (res: String)
    ensures
        res@ == value_or(var, default@),
{
    match var {
        Some(v) => v,
        None => String::from_str(default),
    }
}

fn database_url_from(
    database_url: Option<String>,
    postgres_user: Option<String>,
    postgres_password: Option<String>,
    postgres_db: Option<String>,
    postgres_host: Option<String>,
) -> (res: Result<String, ConfigError>)
    ensures
        ({
            let vars = EnvVars {
                database_url,
                postgres_user,
                postgres_password,
                postgres_db,
                postgres_host,
                s3_region: None,
                s3_endpoint: None,
                s3_bucket_name: None,
                s3_bucket_lifecycle_id: None,
                s3_bucket_expiration: None,
                web_port: None,
            };
            match res {
                Ok(url) => spec_database_url(vars) == Ok::<Seq<char>, ConfigError>(url@),
                Err(e) => spec_database_url(vars) == Err::<Seq<char>, ConfigError>(e),
            }
        }),
{
    match database_url {
        Some(url) => Ok(url),
        None => {
            let user = match postgres_user {
                Some(u) => u,
                None => return Err(ConfigError::MissingPostgresUser),
            };
            let password = match postgres_password {
                Some(p) => p,
                None => return Err(ConfigError::MissingPostgresPassword),
            };
            let db = match postgres_db {
                Some(d) => d,
                None => return Err(ConfigError::MissingPostgresDb),
            };
            let host = string_or(postgres_host, DEFAULT_POSTGRES_HOST);
            let mut url = String::from_str("postgres://");
            url.append(user.as_str());
            url.append(":");
            url.append(password.as_str());
            url.append(":");
            url.append(host.as_str());
            url.append("/");
            url.append(db.as_str());
            Ok(url)
        },
    }
}

impl Config {
    /// Assembles the configuration from the environment's values: the
    /// database URL, region and endpoint are required (the URL may be given
    /// whole or in parts), the rest have defaults, and the expiration and
    /// port must parse as a signed 32-bit and an unsigned 16-bit integer.
    pub fn from_vars(vars: EnvVars) -> (res: Result<Config, ConfigError>)
        ensures
            match res {
                Ok(config) => spec_config(vars) == Ok::<ConfigView, ConfigError>(config@),
                Err(e) => spec_config(vars) == Err::<ConfigView, ConfigError>(e),
            },
    {
        let ghost all = vars;
        let EnvVars {
            database_url,
            postgres_user,
            postgres_password,
            postgres_db,
            postgres_host,
            s3_region,
            s3_endpoint,
            s3_bucket_name,
            s3_bucket_lifecycle_id,
            s3_bucket_expiration,
            web_port,
        } = vars;
        let database_url = match database_url_from(
            database_url,
            postgres_user,
            postgres_password,
            postgres_db,
            postgres_host,
        ) {
            Ok(url) => url,
            Err(e) => return Err(e),
        };
        let s3_region = match s3_region {
            Some(r) => r,
            None => return Err(ConfigError::MissingS3Region),
        };
        let s3_endpoint = match s3_endpoint {
            Some(e) => e,
            None => return Err(ConfigError::MissingS3Endpoint),
        };
        let s3_bucket_name = string_or(s3_bucket_name, DEFAULT_S3_BUCKET_NAME);
        let s3_bucket_lifcycle_id = string_or(s3_bucket_lifecycle_id, DEFAULT_S3_BUCKET_LIFECYCLE_ID);

        let expiration_text = match s3_bucket_expiration {
            Some(s) => s,
            None => decimal_string(DEFAULT_S3_BUCKET_EXPIRATION as usize),
        };
        proof {
            lemma_decimal_round_trip(DEFAULT_S3_BUCKET_EXPIRATION as nat);
        }
        let s3_bucket_expiration = match parse_i32(expiration_text.as_str()) {
            Some(v) => v,
            None => return Err(ConfigError::InvalidS3BucketExpiration),
        };

        let port_text = match web_port {
            Some(s) => s,
            None => decimal_string(DEFAULT_WEB_PORT as usize),
        };
        proof {
            lemma_decimal_round_trip(DEFAULT_WEB_PORT as nat);
        }
        let web_port = match parse_u16(port_text.as_str()) {
            Some(v) => v,
            None => return Err(ConfigError::InvalidWebPort),
        };

        Ok(
            Config {
                database_url,
                s3_region,
                s3_endpoint,
                s3_bucket_name,
                s3_bucket_lifcycle_id,
                s3_bucket_expiration,
                web_port,
            },
        )
    }

    pub fn database_url(&self) -> (res: String)
        ensures
            res@ == self@.database_url,
    {
        self.database_url.clone()
    }

    pub fn s3_region(&self) -> (res: String)
        ensures
            res@ == self@.s3_region,
    {
        self.s3_region.clone()
    }

    pub fn s3_endpoint(&self) -> (res: String)
        ensures
            res@ == self@.s3_endpoint,
    {
        self.s3_endpoint.clone()
    }

    pub fn s3_bucket_name(&self) -> (res: String)
        ensures
            res@ == self@.s3_bucket_name,
    {
        self.s3_bucket_name.clone()
    }

    pub fn s3_bucket_lifcycle_id(&self) -> (res: String)
        ensures
            res@ == self@.s3_bucket_lifcycle_id,
    {
        self.s3_bucket_lifcycle_id.clone()
    }

    pub fn s3_bucket_expiration(&self) -> (res: i32)
        ensures
            res == self@.s3_bucket_expiration,
    {
        self.s3_bucket_expiration
    }

    pub fn web_port(&self) -> (res: u16)
        ensures
            res == self@.web_port,
    {
        self.web_port
    }
}

} // verus!
