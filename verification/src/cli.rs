//! The server's command line settings.
use vstd::prelude::*;

verus! {

/// The command line settings (each may also come from the environment).
#[derive(Debug, Clone)]
pub struct Cli {
    /// Use local development settings (sets the database URL to ws://localhost:8000).
    pub local: bool,
    /// SurrealDB connection URL.
    pub db_url: String,
    /// SurrealDB username.
    pub db_user: String,
    /// SurrealDB password.
    pub db_pass: String,
    /// SurrealDB namespace.
    pub db_namespace: String,
    /// SurrealDB database.
    pub db_database: String,
    /// Maximum size of the database connection pool.
    pub db_pool_max_size: usize,
    /// Minimum idle connections in the pool.
    pub db_pool_min_idle: usize,
    /// Connection timeout in seconds.
    pub db_connection_timeout: u64,
}

impl Cli {
    /// With `--local`, the database URL becomes "ws://localhost:8000"; nothing
    /// else changes.
    pub fn apply_local_mode(&mut self)
        ensures
            final(self).local == old(self).local,
            old(self).local ==> final(self).db_url@ == "ws://localhost:8000"@,
            !old(self).local ==> final(self).db_url == old(self).db_url,
            final(self).db_user == old(self).db_user,
            final(self).db_pass == old(self).db_pass,
            final(self).db_namespace == old(self).db_namespace,
            final(self).db_database == old(self).db_database,
            final(self).db_pool_max_size == old(self).db_pool_max_size,
            final(self).db_pool_min_idle == old(self).db_pool_min_idle,
            final(self).db_connection_timeout == old(self).db_connection_timeout,
    {
        if self.local {
            self.db_url = "ws://localhost:8000".to_owned();
        }
    }
}

} // verus!
