//! Listen address of the HTTP front end.

use vstd::prelude::*;

verus! {

pub struct ServerConfig {
    pub host: String,
    pub port: u16,
}

impl ServerConfig {
    pub fn new(host: String, port: u16) -> (c: ServerConfig)
        ensures
            c == (ServerConfig { host, port }),
    {
        ServerConfig { host, port }
    }

    pub fn host(&self) -> (r: &String)
        ensures
            r == self.host,
    {
        &self.host
    }

    pub fn port(&self) -> (r: u16)
        ensures
            r == self.port,
    {
        self.port
    }
}

} // verus!
