//! Settings of the database connection pool.
use vstd::prelude::*;
use crate::cli::Cli;

verus! {

/// Where and as whom the pool connects.
#[derive(Debug)]
pub struct SurrealConnectionConfig {
    pub url: String,
    pub username: String,
    pub password: String,
    pub namespace: String,
    pub database: String,
}

impl Clone for SurrealConnectionConfig {
    fn clone(&self) -> (r: SurrealConnectionConfig)
        ensures
            r == *self,
    {
        SurrealConnectionConfig {
            url: self.url.clone(),
            username: self.username.clone(),
            password: self.password.clone(),
            namespace: self.namespace.clone(),
            database: self.database.clone(),
        }
    }
}

impl SurrealConnectionConfig {
    /// The connection settings the command line gives.
    pub fn from_cli(cli: &Cli) -> (c: SurrealConnectionConfig)
        ensures
            c.url == cli.db_url,
            c.username == cli.db_user,
            c.password == cli.db_pass,
            c.namespace == cli.db_namespace,
            c.database == cli.db_database,
    {
        SurrealConnectionConfig {
            url: cli.db_url.clone(),
            username: cli.db_user.clone(),
            password: cli.db_pass.clone(),
            namespace: cli.db_namespace.clone(),
            database: cli.db_database.clone(),
        }
    }
}

/// Creates the pool's connections from its settings.
#[derive(Debug)]
pub struct SurrealConnectionManager {
    config: SurrealConnectionConfig,
}

impl SurrealConnectionManager {
    pub closed spec fn spec_config(&self) -> SurrealConnectionConfig {
        self.config
    }

    pub fn new(config: SurrealConnectionConfig) -> (m: Self)
        ensures
            m.spec_config() == config,
    {
        SurrealConnectionManager { config }
    }

    pub fn config(&self) -> (c: &SurrealConnectionConfig)
        ensures
            *c == self.spec_config(),
    {
        &self.config
    }
}

/// Pool sizes and timeouts (the timeouts in seconds).
#[derive(Debug, Clone, Copy, PartialEq, Eq, Structural)]
pub struct PoolConfig {
    pub max_size: usize,
    pub min_idle: Option<usize>,
    pub max_lifetime_secs: Option<u64>,
    pub idle_timeout_secs: Option<u64>,
    pub connection_timeout_secs: u64,
}

impl Default for PoolConfig {
    /// Ten connections, two kept idle, each living at most an hour and idle
    /// at most ten minutes; thirty seconds to connect.
    fn default() -> (c: PoolConfig)
        ensures
            c == (PoolConfig {
                max_size: 10,
                min_idle: Some(2),
                max_lifetime_secs: Some(3600),
                idle_timeout_secs: Some(600),
                connection_timeout_secs: 30,
            }),
    {
        PoolConfig {
            max_size: 10,
            min_idle: Some(2),
            max_lifetime_secs: Some(3600),
            idle_timeout_secs: Some(600),
            connection_timeout_secs: 30,
        }
    }
}

impl PoolConfig {
    /// The pool settings the command line gives; the lifetimes keep their
    /// defaults.
    pub fn from_cli(cli: &Cli) -> (c: PoolConfig)
        ensures
            c == (PoolConfig {
                max_size: cli.db_pool_max_size,
                min_idle: Some(cli.db_pool_min_idle),
                max_lifetime_secs: Some(3600),
                idle_timeout_secs: Some(600),
                connection_timeout_secs: cli.db_connection_timeout,
            }),
    {
        PoolConfig {
            max_size: cli.db_pool_max_size,
            min_idle: Some(cli.db_pool_min_idle),
            connection_timeout_secs: cli.db_connection_timeout,
            ..PoolConfig::default()
        }
    }

    /// The timeout for recycling a connection: the idle timeout, where set.
    pub fn recycle_timeout_secs(&self) -> (t: Option<u64>)
        ensures
            t == self.idle_timeout_secs,
    {
        self.idle_timeout_secs
    }
}

} // verus!
