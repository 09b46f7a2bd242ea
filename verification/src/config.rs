//! The settings of a server that works on a database through this
//! library.

use vstd::prelude::*;

verus! {

/// All settings.
#[derive(Debug)]
pub struct Config {
    pub connection: ConnectionConfig,
    pub excludes: Excludes,
    pub http: HTTP,
}

/// Where the database is and who connects to it. A password of the form
/// `env:NAME` stands for the value of the environment variable `NAME`.
#[derive(Debug)]
pub struct ConnectionConfig {
    pub url: String,
    pub user: String,
    pub pw: String,
}

/// The schemas that are left out of the catalogue.
#[derive(Debug)]
pub struct Excludes {
    pub schemas: Vec<String>,
}

/// Settings of the listener.
#[derive(Debug)]
pub struct HTTP {
    pub listen: String,
    pub ssl: SSL,
    pub jwt: JWT,
}

/// Where the key and the certificate of the listener are.
#[derive(Debug)]
pub struct SSL {
    pub path: String,
    pub keyfile: String,
    pub certfile: String,
}

/// How a caller's token is found and checked.
#[derive(Debug)]
pub struct JWT {
    pub cookie: String,
    pub issuer: String,
    pub publickey: String,
}

} // verus!
