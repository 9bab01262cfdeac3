//! Shared application state: the immutable-after-construction bundle of
//! resolved configuration and the established connection, handed to every
//! request handler. Handlers read it concurrently and never mutate it.

use vstd::prelude::*;
use crate::config::Config;
use crate::init::Connection;

verus! {

/// The state every request handler reads: the resolved configuration and
/// the one established connection. Constructed once, only after
/// initialization has succeeded; cloned into each handler; never mutated.
#[derive(Clone, Debug)]
pub struct AppState {
    pub config: Config,
    pub connection: Connection,
}

impl AppState {
    /// Pure construction: no I/O and no failure mode. The caller invokes
    /// this only once initialization has produced the connection.
    pub fn new(config: Config, connection: Connection) -> (s: AppState)
        ensures
            s.config == config,
            s.connection == connection,
    {
        AppState { config, connection }
    }
}

} // verus!
