//! Startup configuration: the storage connection string.
use vstd::prelude::*;

verus! {

/// Name of the environment variable that holds the connection string.
pub const DATABASE_URL_VAR: &'static str = "DATABASE_URL";

/// Name of the environment variable that holds the token signing key.
pub const JWT_SECRET_VAR: &'static str = "JWT_SECRET";

/// Signing key used when none is configured. It is a placeholder: the login
/// endpoint is a stub that checks no credentials.
pub const DEFAULT_JWT_SECRET: &'static str = "secret";

/// Why the configuration could not be loaded.
#[derive(Clone, Copy, Debug, PartialEq, Eq, Structural)]
pub enum ConfigError {
    /// The connection-string variable is not set.
    MissingDatabaseUrl,
}

impl ConfigError {
    /// A message for the startup log.
    pub fn message(&self) -> (r: String)
        ensures
            r@ == "Failed to load DATABASE_URL from env"@,
    {
        "Failed to load DATABASE_URL from env".to_owned()
    }
}

/// Read-only startup configuration.
pub struct Config {
    database_url: String,
    jwt_secret: String,
}

impl Config {
    /// The connection string this configuration holds.
    pub closed spec fn database_url(&self) -> Seq<char> {
        self.database_url@
    }

    /// The key tokens are signed with.
    pub closed spec fn jwt_secret(&self) -> Seq<char> {
        self.jwt_secret@
    }

    /// Builds the configuration from the value of the connection-string
    /// variable, as read from the environment (`None` when it is unset).
    /// A missing value is an error; there is no default.
    pub fn new(database_url: Option<String>) -> (r: Result<Config, ConfigError>)
        ensures
            database_url is None <==> r == Err::<Config, ConfigError>(
                ConfigError::MissingDatabaseUrl,
            ),
            database_url is Some ==> r is Ok && r->Ok_0.database_url()
                == database_url->Some_0@ && r->Ok_0.jwt_secret() == DEFAULT_JWT_SECRET@,
    {
        match database_url {
            Some(url) => Ok(Config { database_url: url, jwt_secret: DEFAULT_JWT_SECRET.to_owned() }),
            None => Err(ConfigError::MissingDatabaseUrl),
        }
    }

    pub fn get_database_url(&self) -> (r: &str)
        ensures
            r@ == self.database_url(),
    {
        self.database_url.as_str()
    }

    /// Replaces the signing key by the value of the signing-key variable,
    /// when it is set; keeps the current key otherwise.
    pub fn with_jwt_secret(self, jwt_secret: Option<String>) -> (r: Config)
        ensures
            r.database_url() == self.database_url(),
            jwt_secret is Some ==> r.jwt_secret() == jwt_secret->Some_0@,
            jwt_secret is None ==> r.jwt_secret() == self.jwt_secret(),
    {
        match jwt_secret {
            Some(secret) => Config { database_url: self.database_url, jwt_secret: secret },
            None => self,
        }
    }

    pub fn get_jwt_secret(&self) -> (r: &str)
        ensures
            r@ == self.jwt_secret(),
    {
        self.jwt_secret.as_str()
    }
}

} // verus!
