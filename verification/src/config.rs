//! Resolved service configuration. Each setting comes from an optional
//! externally supplied value (the process environment, read outside this
//! library) and falls back to a documented default when unset.

use vstd::prelude::*;

verus! {

/// The configuration bundle the service runs with: where to reach the
/// database, the credentials to authenticate with, the namespace and
/// database name to select, and the address the HTTP listener binds to.
#[derive(Clone, Debug)]
pub struct Config {
    pub database_url: String,
    pub database_username: String,
    pub database_password: String,
    pub database_namespace: String,
    pub database_name: String,
    pub bind_addr: String,
}

/// The supplied value when there is one, the default otherwise.
pub open spec fn resolved(supplied: Option<String>, default: Seq<char>) -> Seq<char> {
    match supplied {
        Option::Some(s) => s@,
        Option::None => default,
    }
}

fn resolve(supplied: Option<String>, default: &str) -> (r: String)
    ensures
        r@ == resolved(supplied, default@),
{
    match supplied {
        Option::Some(s) => s,
        Option::None => default.to_string(),
    }
}

impl Config {
    /// Resolve the configuration from the optional externally supplied
    /// values, applying the documented fallback defaults to any that is
    /// unset.
    pub fn from_opts(
        database_url: Option<String>,
        database_username: Option<String>,
        database_password: Option<String>,
        database_namespace: Option<String>,
        database_name: Option<String>,
        bind_addr: Option<String>,
    ) -> (c: Config)
        ensures
            c.database_url@ == resolved(database_url, "localhost:8000"@),
            c.database_username@ == resolved(database_username, "root"@),
            c.database_password@ == resolved(database_password, "root"@),
            c.database_namespace@ == resolved(database_namespace, "main"@),
            c.database_name@ == resolved(database_name, "main"@),
            c.bind_addr@ == resolved(bind_addr, "localhost:3000"@),
    {
        Config {
            database_url: resolve(database_url, "localhost:8000"),
            database_username: resolve(database_username, "root"),
            database_password: resolve(database_password, "root"),
            database_namespace: resolve(database_namespace, "main"),
            database_name: resolve(database_name, "main"),
            bind_addr: resolve(bind_addr, "localhost:3000"),
        }
    }
}

} // verus!
