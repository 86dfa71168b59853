//! Running scripts of statements: a session that can create external
//! tables, in buckets too.

use vstd::prelude::*;
use vstd::string::StringExecFns;
use crate::error::{Failure, ViewerError};
use crate::location::Location;
use crate::store::{object_store, spec_object_store, spec_store_outcome, StorePlan, StorePlanView};
use crate::table::SessionSetup;
use crate::utils::{ensure_scheme, spec_ensure_scheme, PathProbe};

verus! {

/// What the session reads of a planned statement before it runs it.
#[derive(Clone, Debug, PartialEq, Eq)]
pub enum PlanSummary {
    /// The statement creates an external table at this location.
    CreateExternalTable { location: String },
    /// Any other statement.
    Other,
}

/// The store to register for an external table at a path: the path is
/// resolved, and the location decides.
pub open spec fn spec_register_object_store(location: Seq<char>, probe: PathProbe) -> Result<
    Option<StorePlanView>,
    Failure,
> {
    match spec_ensure_scheme(location, probe) {
        Err(e) => Err(e),
        Ok(l) => spec_object_store(l),
    }
}

/// The store to register before a planned statement is run: that of the
/// table which the statement creates, if it creates one.
pub open spec fn spec_execute_logical_plan(plan: PlanSummary, probe: PathProbe) -> Result<
    Option<StorePlanView>,
    Failure,
> {
    match plan {
        PlanSummary::CreateExternalTable { location } => spec_register_object_store(
            location@,
            probe,
        ),
        PlanSummary::Other => Ok(None),
    }
}

/// The decisions of a session that runs scripts. The session of the query
/// engine is the caller's.
#[derive(Clone, Copy, Debug, PartialEq, Eq, Structural)]
pub struct SQLContext {}

impl SQLContext {
    /// The decisions of a new session.
    pub fn new() -> (session: SQLContext)
        ensures
            session == (SQLContext {  }),
    {
        SQLContext {  }
    }

    /// The setup of the session: it answers questions about its tables, and
    /// statements can create external tables of the format `DELTA`.
    pub fn session_setup() -> (setup: SessionSetup)
        ensures
            setup.information_schema,
            setup.table_factories@.len() == 1,
            setup.table_factories@[0]@ == "DELTA"@,
    {
        let mut table_factories: Vec<String> = Vec::new();
        table_factories.push(String::from_str("DELTA"));
        SessionSetup { information_schema: true, table_factories }
    }

    /// The object store that a resolved location calls for: that of its
    /// bucket where the scheme addresses one, and none otherwise.
    pub fn store_for(&self, location: &Location) -> (r: Result<Option<StorePlan>, ViewerError>)
        ensures
            spec_store_outcome(r) == spec_object_store(location@),
    {
        object_store(location)
    }

    /// The object store to register for an external table at a path. The
    /// probe says what the local file system holds at the path.
    pub fn register_object_store(&self, location: &str, probe: &PathProbe) -> (r: Result<
        Option<StorePlan>,
        ViewerError,
    >)
        ensures
            spec_store_outcome(r) == spec_register_object_store(location@, *probe),
    {
        match ensure_scheme(location, probe) {
            Ok(l) => self.store_for(&l),
            Err(e) => Err(e),
        }
    }

    /// The object store to register before a planned statement is handed to
    /// the engine. The probe says what the local file system holds at the
    /// location of the table that the statement creates, if it creates one.
    pub fn execute_logical_plan(&self, plan: &PlanSummary, probe: &PathProbe) -> (r: Result<
        Option<StorePlan>,
        ViewerError,
    >)
        ensures
            spec_store_outcome(r) == spec_execute_logical_plan(*plan, *probe),
    {
        match plan {
            PlanSummary::CreateExternalTable { location } => self.register_object_store(
                location.as_str(),
                probe,
            ),
            PlanSummary::Other => Ok(None),
        }
    }
}

} // verus!
