//! The server's configuration: the database it connects to, the key that
//! signs private cookies, and the settings handed to the web framework.
use vstd::prelude::*;

use crate::database::POOL_NAME;

verus! {

/// The size of the database pool.
pub const POOL_SIZE: u32 = 10;

/// An environment variable that the configuration needs.
#[derive(Clone, Copy, Debug, PartialEq, Eq, Structural)]
pub enum EnvVar {
    SecretKey,
    DatabaseBaseUrl,
    DatabaseName,
}

/// The name of an environment variable.
pub open spec fn env_key(v: EnvVar) -> Seq<char> {
    match v {
        EnvVar::SecretKey => "SECRET_KEY"@,
        EnvVar::DatabaseBaseUrl => "DATABASE_BASE_URL"@,
        EnvVar::DatabaseName => "DATABASE_NAME"@,
    }
}

impl EnvVar {
    /// The variable's name.
    pub fn key(&self) -> (r: &'static str)
        ensures
            r@ == env_key(*self),
    {
        match self {
            EnvVar::SecretKey => "SECRET_KEY",
            EnvVar::DatabaseBaseUrl => "DATABASE_BASE_URL",
            EnvVar::DatabaseName => "DATABASE_NAME",
        }
    }
}

/// A configuration that cannot be built: a variable is not set.
#[derive(Clone, Copy, Debug, PartialEq, Eq, Structural)]
pub struct ConfigError {
    pub missing: EnvVar,
}

impl ConfigError {
    /// The message with which the server stops: "<NAME> must be set".
    pub fn message(&self) -> (r: String)
        ensures
            r@ == env_key(self.missing) + " must be set"@,
    {
        let mut r = String::from_str(self.missing.key());
        r.append(" must be set");
        r
    }
}

/// The settings that the web framework is started with.
#[derive(Debug)]
pub struct RocketSettings {
    /// The name of the database pool.
    pub pool_name: String,
    /// The URL of the database.
    pub database_url: String,
    /// The number of connections in the pool.
    pub pool_size: u32,
    /// The key that signs private cookies.
    pub secret_key: String,
}

/// The database that the server connects to.
#[derive(Debug)]
pub struct DatabaseSettings {
    pub base_url: String,
    pub name: String,
}

/// The server's configuration.
#[derive(Debug)]
pub struct Configuration {
    pub secret_key: String,
    pub database_settings: DatabaseSettings,
}

/// The URL of the database `name` on the server at `base_url`.
pub open spec fn connection_url(base_url: Seq<char>, name: Seq<char>) -> Seq<char> {
    base_url + "/"@ + name
}

/// `s` is the settings that start the server with the database at `url`
/// and the cookie key `secret_key`.
pub open spec fn is_rocket_settings(s: RocketSettings, url: Seq<char>, secret_key: Seq<char>) -> bool {
    &&& s.pool_name@ == POOL_NAME@
    &&& s.database_url@ == url
    &&& s.pool_size == POOL_SIZE
    &&& s.secret_key@ == secret_key
}

/// `c` is a lowercase hexadecimal digit.
pub open spec fn is_lower_hex(c: char) -> bool {
    ('0' <= c && c <= '9') || ('a' <= c && c <= 'f')
}

/// `s` is the hyphenated lowercase text of a version 4 UUID: 32 hex digits
/// in groups of 8, 4, 4, 4 and 12 joined by `-`, the version digit `4`
/// first in the third group, and a variant digit of `8` to `b` first in the
/// fourth.
pub open spec fn is_uuid_v4_text(s: Seq<char>) -> bool {
    &&& s.len() == 36
    &&& forall|i: int|
        0 <= i < 36 ==> if i == 8 || i == 13 || i == 18 || i == 23 {
            #[trigger] s[i] == '-'
        } else {
            is_lower_hex(s[i])
        }
    &&& s[14] == '4'
    &&& (s[19] == '8' || s[19] == '9' || s[19] == 'a' || s[19] == 'b')
}

/// The settings that start the server always name the pool
/// `diesel_postgres_pool`, the pool that the database fairing opens, with
/// 10 connections to `url`, and sign cookies with `secret_key`.
pub proof fn law_rocket_settings_pool(s: RocketSettings, url: Seq<char>, secret_key: Seq<char>)
    requires
        is_rocket_settings(s, url, secret_key),
    ensures
        s.pool_name@ == "diesel_postgres_pool"@,
        s.pool_size == 10,
        s.database_url@ == url,
        s.secret_key@ == secret_key,
{
}

/// Draws a version 4 UUID from the system's random source and writes it
/// in the hyphenated lowercase form that `Display` gives. `new_v4` sets the
/// version nibble to 4 and the variant bits to `10`; the other bits are
/// random, so nothing else is claimed of the text.
#[verifier::external_body]
fn uuid_v4_string() -> (r: String)
    ensures
        is_uuid_v4_text(r@),
{
    uuid::Uuid::new_v4().to_string()
}

impl DatabaseSettings {
    /// The settings read from `DATABASE_BASE_URL` and `DATABASE_NAME`,
    /// given their values (`None` where one is not set).
    pub fn from_env(base_url: Option<String>, name: Option<String>) -> (r: Result<
        Self,
        ConfigError,
    >)
        ensures
            match (base_url, name) {
                (Some(b), Some(n)) => r matches Ok(s) && s.base_url == b && s.name == n,
                (None, _) => r == Err::<Self, ConfigError>(
                    ConfigError { missing: EnvVar::DatabaseBaseUrl },
                ),
                (Some(_), None) => r == Err::<Self, ConfigError>(
                    ConfigError { missing: EnvVar::DatabaseName },
                ),
            },
    {
        let base_url = match base_url {
            Some(b) => b,
            None => return Err(ConfigError { missing: EnvVar::DatabaseBaseUrl }),
        };
        let name = match name {
            Some(n) => n,
            None => return Err(ConfigError { missing: EnvVar::DatabaseName }),
        };
        Ok(Self { base_url, name })
    }

    /// The same server with a fresh database, named by a random UUID.
    pub fn with_test_db(self) -> (r: Self)
        ensures
            r.base_url == self.base_url,
            is_uuid_v4_text(r.name@),
    {
        let mut s = self;
        s.name = uuid_v4_string();
        s
    }

    /// The URL of the database: `<base_url>/<name>`.
    pub fn connection_string(&self) -> (r: String)
        ensures
            r@ == connection_url(self.base_url@, self.name@),
    {
        let mut r = self.base_url.clone();
        r.append("/");
        r.append(self.name.as_str());
        r
    }
}

impl Configuration {
    /// The configuration read from `DATABASE_BASE_URL`, `DATABASE_NAME`
    /// and `SECRET_KEY`, in that order, given their values (`None` where
    /// one is not set).
    pub fn from_env(
        database_base_url: Option<String>,
        database_name: Option<String>,
        secret_key: Option<String>,
    ) -> (r: Result<Self, ConfigError>)
        ensures
            match (database_base_url, database_name, secret_key) {
                (Some(b), Some(n), Some(k)) => r matches Ok(c) && c.database_settings.base_url == b
                    && c.database_settings.name == n && c.secret_key == k,
                (None, _, _) => r == Err::<Self, ConfigError>(
                    ConfigError { missing: EnvVar::DatabaseBaseUrl },
                ),
                (Some(_), None, _) => r == Err::<Self, ConfigError>(
                    ConfigError { missing: EnvVar::DatabaseName },
                ),
                (Some(_), Some(_), None) => r == Err::<Self, ConfigError>(
                    ConfigError { missing: EnvVar::SecretKey },
                ),
            },
    {
        let database_settings = DatabaseSettings::from_env(database_base_url, database_name)?;
        let secret_key = match secret_key {
            Some(k) => k,
            None => return Err(ConfigError { missing: EnvVar::SecretKey }),
        };
        Ok(Self { secret_key, database_settings })
    }

    /// The same configuration with a fresh test database, named by a
    /// random UUID.
    pub fn with_test_db(self) -> (r: Self)
        ensures
            r.secret_key == self.secret_key,
            r.database_settings.base_url == self.database_settings.base_url,
            is_uuid_v4_text(r.database_settings.name@),
    {
        let Configuration { secret_key, database_settings } = self;
        Configuration { secret_key, database_settings: database_settings.with_test_db() }
    }

    /// The settings that start the server: the pool `diesel_postgres_pool`
    /// of 10 connections to the configured database, and the cookie key.
    pub fn build(self) -> (r: RocketSettings)
        ensures
            is_rocket_settings(
                r,
                connection_url(self.database_settings.base_url@, self.database_settings.name@),
                self.secret_key@,
            ),
            r.pool_name@ == "diesel_postgres_pool"@,
            r.pool_size == 10,
            r.database_url@ == self.database_settings.base_url@ + "/"@ + self.database_settings.name@,
            r.secret_key@ == self.secret_key@,
    {
        let database_url = self.database_settings.connection_string();
        RocketSettings {
            pool_name: String::from_str(POOL_NAME),
            database_url,
            pool_size: POOL_SIZE,
            secret_key: self.secret_key,
        }
    }
}

} // verus!
