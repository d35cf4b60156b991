use vstd::prelude::*;

verus! {

/// The ways a record-store operation can fail.
#[derive(Debug, Clone)]
pub enum StoreError {
    /// A point lookup matched no row.
    NotFound,
    /// The input was malformed, such as an identifier that does not parse.
    Validation,
    /// The database failed: a constraint was violated, the connection was
    /// lost, or a lookup by key matched more than one row.
    Storage(String),
}

} // verus!
