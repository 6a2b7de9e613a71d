use vstd::prelude::*;

verus! {

/// Why an audit-log operation on the database failed.
#[derive(Debug)]
pub enum AuditError {
    /// SQLite refused the statement, its values, or one of the rows it read.
    Sqlite(rusqlite::Error),
}

} // verus!
