//! Administration.
use vstd::prelude::*;

verus! {

/// A statement of SQL to run against the database as it is.
pub struct RunSqlData {
    pub sql: String,
}

} // verus!
