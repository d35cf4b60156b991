use vstd::prelude::*;
use crate::error::StoreError;
use crate::user::{User, UserView};

verus! {

/// The views of a sequence of records.
pub open spec fn views(users: Seq<User>) -> Seq<UserView> {
    users.map_values(|u: User| u@)
}

/// The result of a lookup by key, given every row that matched it: exactly
/// one row is the record, none is `NotFound`, and more than one means the
/// key constraint was broken, a storage failure.
pub fn lookup_outcome(rows: Vec<User>) -> (r: Result<User, StoreError>)
    ensures
        rows@.len() == 0 <==> r is Err && r->Err_0 is NotFound,
        rows@.len() == 1 <==> r is Ok,
        rows@.len() == 1 ==> r->Ok_0@ == rows@[0]@,
        rows@.len() > 1 <==> r is Err && r->Err_0 is Storage,
{
    let mut rows = rows;
    let n = rows.len();
    if n == 0 {
        Err(StoreError::NotFound)
    } else if n == 1 {
        Ok(rows.pop().unwrap())
    } else {
        Err(StoreError::Storage(String::from_str("more than one row has this key")))
    }
}

/// The result of a statement that writes (an insert or a delete), given what
/// the database reported: the number of rows it touched, or its error
/// message. The count is not inspected, so a delete that matched nothing
/// succeeds.
pub fn write_outcome(db: Result<u64, String>) -> (r: Result<(), StoreError>)
    ensures
        db is Ok <==> r is Ok,
        db is Err ==> r is Err && r->Err_0 == StoreError::Storage(db->Err_0),
{
    match db {
        Ok(_) => Ok(()),
        Err(msg) => Err(StoreError::Storage(msg)),
    }
}

/// The result of a query that reads all rows, given what the database
/// reported: the rows, or its error message.
pub fn list_outcome(db: Result<Vec<User>, String>) -> (r: Result<Vec<User>, StoreError>)
    ensures
        db is Ok <==> r is Ok,
        db is Ok ==> r->Ok_0@ == db->Ok_0@,
        db is Err ==> r is Err && r->Err_0 == StoreError::Storage(db->Err_0),
{
    match db {
        Ok(rows) => Ok(rows),
        Err(msg) => Err(StoreError::Storage(msg)),
    }
}

} // verus!
