//! The shared application state: the resolved environment name and the
//! logical database handles. Built exactly once at startup, before any
//! request is served, and only ever read afterwards — no handler mutates it,
//! so it can be shared across concurrent handlers without locking.

use vstd::prelude::*;
use crate::config::AppConfig;
use crate::database::Databases;
use crate::database::analytics_db_name;
use crate::database::logs_db_name;

verus! {

/// Everything a request handler may read: the environment name and the
/// logical databases.
pub struct AppState {
    pub env: String,
    pub databases: Databases,
}

impl AppState {
    /// Builds the application state from the resolved configuration: the
    /// environment name is taken over, and the main database handle carries
    /// the configured database name.
    pub fn build(config: AppConfig) -> (r: AppState)
        ensures
            r.env@ == config.env@,
            r.databases.main.name@ == config.mongo.db_name@,
            r.databases.analytics.name@ == analytics_db_name(),
            r.databases.logs.name@ == logs_db_name(),
    {
        AppState { env: config.env, databases: Databases::named(config.mongo.db_name) }
    }
}

} // verus!
