//! The configuration the surrounding service is started with. Loading the
//! file and resolving directories is the runtime's work; the sections and
//! their defaults are the library's.

use vstd::prelude::*;

verus! {

/// The whole configuration: the application, authentication and database
/// sections, and the optional store-specific ones.
#[derive(Debug, Clone)]
pub struct Config {
    pub app: AppSection,
    pub auth: AuthSection,
    pub database: DatabaseSection,
    pub redis: Option<RedisSection>,
    pub sqlite: Option<SqliteSection>,
}

impl Config {
    pub open spec fn is_default(self) -> bool {
        &&& self.app.is_default()
        &&& self.auth.is_default()
        &&& self.database.is_default()
        &&& self.redis matches Some(r) && r.is_default()
        &&& self.sqlite matches Some(s) && s.is_default()
    }
}

impl Default for Config {
    fn default() -> (r: Self)
        ensures
            r.is_default(),
    {
        Config {
            app: AppSection::default(),
            auth: AuthSection::default(),
            database: DatabaseSection::default(),
            redis: Some(RedisSection::default()),
            sqlite: Some(SqliteSection::default()),
        }
    }
}

/// The application's own section: its display name and its secret key.
#[derive(Debug, Clone)]
pub struct AppSection {
    pub name: String,
    pub key: String,
}

impl AppSection {
    pub open spec fn is_default(self) -> bool {
        &&& self.name@ == "Nekobox"@
        &&& self.key@ =~= Seq::<char>::empty()
    }
}

impl Default for AppSection {
    fn default() -> (r: Self)
        ensures
            r.is_default(),
    {
        AppSection { name: "Nekobox".to_owned(), key: String::new() }
    }
}

/// The authentication section: whether registration is open, the token
/// secret, and the token timeout in minutes.
#[derive(Debug, Clone)]
pub struct AuthSection {
    pub allow_registration: bool,
    pub token_secret: String,
    pub token_timeout: i32,
}

impl AuthSection {
    pub open spec fn is_default(self) -> bool {
        &&& self.allow_registration == false
        &&& self.token_secret@ =~= Seq::<char>::empty()
        &&& self.token_timeout == 120
    }
}

impl Default for AuthSection {
    fn default() -> (r: Self)
        ensures
            r.is_default(),
    {
        AuthSection { allow_registration: false, token_secret: String::new(), token_timeout: 120 }
    }
}

/// Which stores the service drives its queue and its accounts with.
#[derive(Debug, Clone)]
pub struct DatabaseSection {
    pub queue_driver: QueueDriver,
    pub auth_driver: AuthDriver,
}

impl DatabaseSection {
    pub open spec fn is_default(self) -> bool {
        &&& self.queue_driver == QueueDriver::Redis
        &&& self.auth_driver == AuthDriver::Sqlite
    }
}

impl Default for DatabaseSection {
    fn default() -> (r: Self)
        ensures
            r.is_default(),
    {
        DatabaseSection { queue_driver: QueueDriver::Redis, auth_driver: AuthDriver::Sqlite }
    }
}

/// The store the task queue state lives in.
#[derive(Clone, Copy, Debug, PartialEq, Eq, Structural)]
pub enum QueueDriver {
    Redis,
}

/// The store the accounts live in.
#[derive(Clone, Copy, Debug, PartialEq, Eq, Structural)]
pub enum AuthDriver {
    Sqlite,
}

/// How to reach the key/value store.
#[derive(Debug, Clone)]
pub struct RedisSection {
    pub host: String,
    pub port: u32,
    pub username: Option<String>,
    pub password: Option<String>,
    pub use_tls: bool,
}

impl RedisSection {
    pub open spec fn is_default(self) -> bool {
        &&& self.host@ == "localhost"@
        &&& self.port == 6379
        &&& self.username is None
        &&& self.password is None
        &&& self.use_tls == false
    }
}

impl Default for RedisSection {
    fn default() -> (r: Self)
        ensures
            r.is_default(),
    {
        RedisSection {
            host: "localhost".to_owned(),
            port: 6379,
            username: None,
            password: None,
            use_tls: false,
        }
    }
}

/// Where the account database file lives.
#[derive(Debug, Clone)]
pub struct SqliteSection {
    pub file: String,
}

impl SqliteSection {
    pub open spec fn is_default(self) -> bool {
        self.file@ == "nekobox.db"@
    }
}

impl Default for SqliteSection {
    fn default() -> (r: Self)
        ensures
            r.is_default(),
    {
        SqliteSection { file: "nekobox.db".to_owned() }
    }
}

} // verus!
