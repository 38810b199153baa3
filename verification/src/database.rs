//! The logical databases the service works with, modeled by their names.
//!
//! One client connection serves a fixed, statically named set of logical
//! databases. The driver that actually opens the connection lives outside
//! this crate; it takes the names resolved here and hands back real handles.
//! The main handle carries the configured database name; the auxiliary
//! handles carry fixed names.

use vstd::prelude::*;

verus! {

/// A handle to one logical database, identified by its name. Request
/// handlers only ever read the name, so the name is the whole model.
pub struct DbHandle {
    pub name: String,
}

impl DbHandle {
    /// The name this handle was created with.
    pub fn name(&self) -> (r: &String)
        ensures
            r@ == self.name@,
    {
        &self.name
    }
}

/// The fixed set of logical databases, all served by one connection.
pub struct Databases {
    pub main: DbHandle,
    pub analytics: DbHandle,
    pub logs: DbHandle,
}

/// The name of the analytics database.
pub open spec fn analytics_db_name() -> Seq<char> {
    "analytics_db"@
}

/// The name of the logging database.
pub open spec fn logs_db_name() -> Seq<char> {
    "logs_db"@
}

impl Databases {
    /// Resolves the set of logical database names: the main database takes
    /// the configured name, the auxiliary ones their fixed names.
    pub fn named(db_name: String) -> (r: Databases)
        ensures
            r.main.name@ == db_name@,
            r.analytics.name@ == analytics_db_name(),
            r.logs.name@ == logs_db_name(),
    {
        Databases {
            main: DbHandle { name: db_name },
            analytics: DbHandle { name: "analytics_db".to_owned() },
            logs: DbHandle { name: "logs_db".to_owned() },
        }
    }
}

} // verus!
