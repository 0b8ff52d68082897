//! Typed process configuration. Loading and parsing the configuration file
//! is the surrounding program's concern; the core only carries the values.

pub mod database_config;
pub mod indexer_runner_config;
pub mod logger_config;
pub mod server_config;

use vstd::prelude::*;

use crate::config::database_config::DatabaseConfig;
use crate::config::indexer_runner_config::IndexerRunnerConfig;
use crate::config::logger_config::LoggerConfig;
use crate::config::server_config::ServerConfig;

verus! {

pub struct Config {
    pub database: DatabaseConfig,
    pub server: ServerConfig,
    pub indexer_runner: IndexerRunnerConfig,
    pub logger: LoggerConfig,
}

impl Config {
    pub fn new(
        database: DatabaseConfig,
        server: ServerConfig,
        indexer_runner: IndexerRunnerConfig,
        logger: LoggerConfig,
    ) -> (c: Config)
        ensures
            c == (Config { database, server, indexer_runner, logger }),
    {
        Config { database, server, indexer_runner, logger }
    }

    pub fn database(&self) -> (r: &DatabaseConfig)
        ensures
            r == self.database,
    {
        &self.database
    }

    pub fn database_mut(&mut self) -> (r: &mut DatabaseConfig)
        ensures
            *r == old(self).database,
            *final(self) == (Config { database: *final(r), ..*old(self) }),
    {
        &mut self.database
    }

    pub fn server(&self) -> (r: &ServerConfig)
        ensures
            r == self.server,
    {
        &self.server
    }

    pub fn indexer_runner(&self) -> (r: &IndexerRunnerConfig)
        ensures
            r == self.indexer_runner,
    {
        &self.indexer_runner
    }

    pub fn logger(&self) -> (r: &LoggerConfig)
        ensures
            r == self.logger,
    {
        &self.logger
    }
}

} // verus!
