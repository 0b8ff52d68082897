//! Connection settings for the relational store.

use vstd::prelude::*;

verus! {

pub struct DatabaseConfig {
    pub db_name: String,
    pub username: String,
    pub password: String,
    pub host: String,
    pub port: u16,
    pub max_connections: u32,
    pub min_connections: u32,
}

impl DatabaseConfig {
    pub fn new(
        db_name: String,
        username: String,
        password: String,
        host: String,
        port: u16,
        max_connections: u32,
        min_connections: u32,
    ) -> (c: DatabaseConfig)
        ensures
            c == (DatabaseConfig {
                db_name,
                username,
                password,
                host,
                port,
                max_connections,
                min_connections,
            }),
    {
        DatabaseConfig { db_name, username, password, host, port, max_connections, min_connections }
    }

    pub fn db_name(&self) -> (r: &String)
        ensures
            r == self.db_name,
    {
        &self.db_name
    }

    pub fn username(&self) -> (r: &String)
        ensures
            r == self.username,
    {
        &self.username
    }

    pub fn password(&self) -> (r: &String)
        ensures
            r == self.password,
    {
        &self.password
    }

    pub fn host(&self) -> (r: &String)
        ensures
            r == self.host,
    {
        &self.host
    }

    pub fn port(&self) -> (r: u16)
        ensures
            r == self.port,
    {
        self.port
    }

    pub fn max_connections(&self) -> (r: u32)
        ensures
            r == self.max_connections,
    {
        self.max_connections
    }

    pub fn min_connections(&self) -> (r: u32)
        ensures
            r == self.min_connections,
    {
        self.min_connections
    }

    pub fn set_port(&mut self, port: u16)
        ensures
            *final(self) == (DatabaseConfig { port, ..*old(self) }),
    {
        self.port = port;
    }
}

} // verus!
