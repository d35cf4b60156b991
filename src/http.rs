//! The decisions of the HTTP adapter: reading an identifier from a path,
//! turning store outcomes into replies, and the status code of each reply.
use vstd::prelude::*;
use crate::error::StoreError;
use crate::outcome::views;
use crate::table::{deleted, has_id, lookup, UserTable};
use crate::user::{is_random_uuid, parse_uuid, parsed_uuid, User};

verus! {

/// Status code of a request that ran out of time.
pub const STATUS_REQUEST_TIMEOUT: u16 = 408;

/// Status code of a fault that no handler dealt with.
pub const STATUS_INTERNAL_ERROR: u16 = 500;

/// A request to the user endpoints; path identifiers are still text.
pub enum Request {
    /// `GET /user`
    List,
    /// `POST /user` with a name and an age
    Create(String, u8),
    /// `GET /user/{id}`
    Get(String),
    /// `DELETE /user/{id}`
    Delete(String),
}

/// The answer to a request on the user endpoints.
#[derive(Debug, Clone)]
pub enum Reply {
    /// Every record.
    Listed(Vec<User>),
    /// The record that was stored.
    Created(User),
    /// The record that was looked up.
    Found(User),
    /// The delete went through.
    Deleted,
    /// The operation failed.
    Failed(StoreError),
}

/// The status code for a failure: `NotFound` is 404, a malformed input 400,
/// and a storage failure 500.
pub open spec fn error_status(e: StoreError) -> u16 {
    match e {
        StoreError::NotFound => 404,
        StoreError::Validation => 400,
        StoreError::Storage(_) => 500,
    }
}

/// The status code of a reply.
pub open spec fn reply_status(r: Reply) -> u16 {
    match r {
        Reply::Listed(_) => 200,
        Reply::Created(_) => 201,
        Reply::Found(_) => 200,
        Reply::Deleted => 200,
        Reply::Failed(e) => error_status(e),
    }
}

/// The status code for a failure.
pub fn status_of_error(e: &StoreError) -> (r: u16)
    ensures
        r == error_status(*e),
{
    match e {
        StoreError::NotFound => 404,
        StoreError::Validation => 400,
        StoreError::Storage(_) => 500,
    }
}

impl Reply {
    /// The status code of this reply.
    pub fn status(&self) -> (r: u16)
        ensures
            r == reply_status(*self),
    {
        match self {
            Reply::Listed(_) => 200,
            Reply::Created(_) => 201,
            Reply::Found(_) => 200,
            Reply::Deleted => 200,
            Reply::Failed(e) => status_of_error(e),
        }
    }
}

/// The status code for a fault raised outside the handlers: 408 when the
/// request timed out, 500 otherwise.
pub fn status_of_fault(timed_out: bool) -> (r: u16)
    ensures
        r == (if timed_out { 408u16 } else { 500u16 }),
{
    if timed_out {
        STATUS_REQUEST_TIMEOUT
    } else {
        STATUS_INTERNAL_ERROR
    }
}

/// Reads a user identifier from a path segment; one that is not a UUID is a
/// validation error.
pub fn parse_user_id(s: &str) -> (r: Result<u128, StoreError>)
    ensures
        match parsed_uuid(s@) {
            Some(v) => r == Ok::<u128, StoreError>(v),
            None => r is Err && r->Err_0 is Validation,
        },
{
    match parse_uuid(s) {
        Some(v) => Ok(v),
        None => Err(StoreError::Validation),
    }
}

/// The reply to a list request.
pub fn reply_list(r: Result<Vec<User>, StoreError>) -> (out: Reply)
    ensures
        match r {
            Ok(v) => out is Listed && out->Listed_0@ == v@,
            Err(e) => out == Reply::Failed(e),
        },
{
    match r {
        Ok(v) => Reply::Listed(v),
        Err(e) => Reply::Failed(e),
    }
}

/// The reply to a create request for `user`: the record itself once stored.
pub fn reply_create(user: User, r: Result<(), StoreError>) -> (out: Reply)
    ensures
        match r {
            Ok(_) => out == Reply::Created(user),
            Err(e) => out == Reply::Failed(e),
        },
{
    match r {
        Ok(_) => Reply::Created(user),
        Err(e) => Reply::Failed(e),
    }
}

/// The reply to a lookup, given its outcome.
pub fn reply_get(r: Result<User, StoreError>) -> (out: Reply)
    ensures
        match r {
            Ok(u) => out == Reply::Found(u),
            Err(e) => out == Reply::Failed(e),
        },
{
    match r {
        Ok(u) => Reply::Found(u),
        Err(e) => Reply::Failed(e),
    }
}

/// The reply to a delete.
pub fn reply_delete(r: Result<(), StoreError>) -> (out: Reply)
    ensures
        match r {
            Ok(_) => out == Reply::Deleted,
            Err(e) => out == Reply::Failed(e),
        },
{
    match r {
        Ok(_) => Reply::Deleted,
        Err(e) => Reply::Failed(e),
    }
}

/// Answers one request against an in-memory store.
pub fn serve(table: &mut UserTable, req: Request) -> (r: Reply)
    requires
        old(table).wf(),
    ensures
        final(table).wf(),
        match req {
            Request::List => final(table)@ == old(table)@ && r is Listed && views(r->Listed_0@)
                == old(table)@,
            Request::Create(name, age) => match r {
                Reply::Created(u) => u.name@ == name@ && u.age == age && is_random_uuid(u.id)
                    && !has_id(old(table)@, u.id) && final(table)@ == old(table)@.push(u@),
                Reply::Failed(e) => e is Storage && final(table)@ == old(table)@,
                _ => false,
            },
            Request::Get(s) => final(table)@ == old(table)@ && match parsed_uuid(s@) {
                None => r is Failed && r->Failed_0 is Validation,
                Some(id) => match lookup(old(table)@, id) {
                    Some(u) => r is Found && r->Found_0@ == u,
                    None => r is Failed && r->Failed_0 is NotFound,
                },
            },
            Request::Delete(s) => match parsed_uuid(s@) {
                None => r is Failed && r->Failed_0 is Validation && final(table)@ == old(table)@,
                Some(id) => r is Deleted && final(table)@ == deleted(old(table)@, id),
            },
        },
{
    match req {
        Request::List => reply_list(Ok(table.get_users())),
        Request::Create(name, age) => {
            let user = User::new(name, age);
            let stored = user.duplicate();
            let r = table.create_user(stored);
            reply_create(user, r)
        },
        Request::Get(s) => match parse_user_id(s.as_str()) {
            Ok(id) => reply_get(table.get_user_by_id(id)),
            Err(e) => Reply::Failed(e),
        },
        Request::Delete(s) => match parse_user_id(s.as_str()) {
            Ok(id) => reply_delete(table.delete_user(id)),
            Err(e) => Reply::Failed(e),
        },
    }
}

} // verus!
