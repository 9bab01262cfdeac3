//! The one-time initialization of the database session: a strict
//! connect -> authenticate -> select sequence. Any failure at any step
//! aborts the whole sequence — there is no partial-success state — and
//! names the step that failed. The outside transport performs each step;
//! this module decides, from each step's outcome, what follows.

use vstd::prelude::*;
use crate::config::Config;

verus! {

/// Why the one-time initialization failed, named after the step that
/// failed. Startup faults are fatal: the process exits non-zero, with no
/// retry.
#[derive(Clone, Copy, PartialEq, Eq, Structural, Debug)]
pub enum InitError {
    /// The transport to the endpoint could not be opened.
    Connection,
    /// The credentials were rejected.
    Authentication,
    /// Selecting the namespace or the database name was rejected.
    Selection,
}

/// The steps of the initialization sequence, in their strict order.
#[derive(Clone, Copy, PartialEq, Eq, Structural, Debug)]
pub enum InitStep {
    Connect,
    Authenticate,
    Select,
    Done,
}

/// The single authenticated session against the remote database, as the
/// verified logic sees it: the parameters it was established with. The
/// underlying transport handle lives outside the library; it is read by
/// every handler, never mutated, and torn down only by process exit.
#[derive(Clone, Debug)]
pub struct Connection {
    pub endpoint: String,
    pub username: String,
    pub namespace: String,
    pub database: String,
}

pub open spec fn spec_init_step(step: InitStep, ok: bool) -> Result<InitStep, InitError> {
    match step {
        InitStep::Connect => if ok {
            Result::Ok(InitStep::Authenticate)
        } else {
            Result::Err(InitError::Connection)
        },
        InitStep::Authenticate => if ok {
            Result::Ok(InitStep::Select)
        } else {
            Result::Err(InitError::Authentication)
        },
        InitStep::Select => if ok {
            Result::Ok(InitStep::Done)
        } else {
            Result::Err(InitError::Selection)
        },
        InitStep::Done => Result::Ok(InitStep::Done),
    }
}

/// Decide what follows one step of the sequence: on success the next
/// step, on failure the error naming the step that failed.
pub fn init_step(step: InitStep, ok: bool) -> (r: Result<InitStep, InitError>)
    ensures
        r == spec_init_step(step, ok),
{
    match step {
        InitStep::Connect => if ok {
            Ok(InitStep::Authenticate)
        } else {
            Err(InitError::Connection)
        },
        InitStep::Authenticate => if ok {
            Ok(InitStep::Select)
        } else {
            Err(InitError::Authentication)
        },
        InitStep::Select => if ok {
            Ok(InitStep::Done)
        } else {
            Err(InitError::Selection)
        },
        InitStep::Done => Ok(InitStep::Done),
    }
}

/// Outcome of the whole sequence, given which steps succeeded: the
/// session succeeds exactly when every step did, and otherwise reports
/// the earliest step that failed — the later outcomes are then never
/// consulted, since a failure aborts the sequence.
pub fn initialize_outcome(
    config: &Config,
    connect_ok: bool,
    auth_ok: bool,
    select_ok: bool,
) -> (r: Result<Connection, InitError>)
    ensures
        r is Ok <==> connect_ok && auth_ok && select_ok,
        !connect_ok ==> r == Result::<Connection, InitError>::Err(InitError::Connection),
        connect_ok && !auth_ok ==> r == Result::<Connection, InitError>::Err(
            InitError::Authentication,
        ),
        connect_ok && auth_ok && !select_ok ==> r == Result::<Connection, InitError>::Err(
            InitError::Selection,
        ),
        r matches Result::Ok(c) ==> {
            &&& c.endpoint@ == config.database_url@
            &&& c.username@ == config.database_username@
            &&& c.namespace@ == config.database_namespace@
            &&& c.database@ == config.database_name@
        },
{
    let step1 = init_step(InitStep::Connect, connect_ok);
    match step1 {
        Err(e) => Err(e),
        Ok(s) => {
            let step2 = init_step(s, auth_ok);
            match step2 {
                Err(e) => Err(e),
                Ok(s) => {
                    let step3 = init_step(s, select_ok);
                    match step3 {
                        Err(e) => Err(e),
                        Ok(_) => Ok(Connection {
                            endpoint: config.database_url.clone(),
                            username: config.database_username.clone(),
                            namespace: config.database_namespace.clone(),
                            database: config.database_name.clone(),
                        }),
                    }
                },
            }
        },
    }
}

} // verus!
