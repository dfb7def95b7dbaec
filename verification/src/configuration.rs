//! The settings that the server starts with, straight from the values of
//! the environment.
use vstd::prelude::*;

use crate::config::{
    connection_url, is_rocket_settings, ConfigError, Configuration, EnvVar, RocketSettings,
};

verus! {

/// The settings read from `DATABASE_BASE_URL`, `DATABASE_NAME` and
/// `SECRET_KEY`, in that order, given their values (`None` where one is not
/// set): the pool of the database `<base_url>/<name>` and the cookie key.
pub fn get_configuration(
    database_base_url: Option<String>,
    database_name: Option<String>,
    secret_key: Option<String>,
) -> (r: Result<RocketSettings, ConfigError>)
    ensures
        match (database_base_url, database_name, secret_key) {
            (Some(b), Some(n), Some(k)) => r matches Ok(s) && is_rocket_settings(
                s,
                connection_url(b@, n@),
                k@,
            ) && s.pool_name@ == "diesel_postgres_pool"@ && s.pool_size == 10 && s.database_url@
                == b@ + "/"@ + n@ && s.secret_key@ == k@,
            (None, _, _) => r == Err::<RocketSettings, ConfigError>(
                ConfigError { missing: EnvVar::DatabaseBaseUrl },
            ),
            (Some(_), None, _) => r == Err::<RocketSettings, ConfigError>(
                ConfigError { missing: EnvVar::DatabaseName },
            ),
            (Some(_), Some(_), None) => r == Err::<RocketSettings, ConfigError>(
                ConfigError { missing: EnvVar::SecretKey },
            ),
        },
{
    let configuration = Configuration::from_env(database_base_url, database_name, secret_key)?;
    Ok(configuration.build())
}

} // verus!
