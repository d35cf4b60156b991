use vstd::prelude::*;

verus! {

/// What a user record holds, as mathematical values.
pub ghost struct UserView {
    pub id: u128,
    pub name: Seq<char>,
    pub age: u8,
}

/// A user record: a 128-bit identifier, a free-text name and an age in 0..=255.
#[derive(Debug, Clone)]
pub struct User {
    /// The UUID, as its big-endian 128-bit value.
    pub id: u128,
    pub name: String,
    pub age: u8,
}

impl View for User {
    type V = UserView;

    open spec fn view(&self) -> UserView {
        UserView { id: self.id, name: self.name@, age: self.age }
    }
}

/// The version field (bits 76..80) of a UUID value.
pub open spec fn uuid_version(v: u128) -> u128 {
    (v >> 76u128) & 0xFu128
}

/// The variant field (bits 62..64) of a UUID value.
pub open spec fn uuid_variant(v: u128) -> u128 {
    (v >> 62u128) & 0x3u128
}

/// A random (version 4, RFC 4122 variant) UUID value.
pub open spec fn is_random_uuid(v: u128) -> bool {
    uuid_version(v) == 4 && uuid_variant(v) == 2
}

/// What `uuid::Uuid::parse_str` makes of a text, as a 128-bit value.
pub uninterp spec fn parsed_uuid(s: Seq<char>) -> Option<u128>;

/// Relies on uuid::Uuid::new_v4 (with Uuid::as_u128): a random value whose
/// version bits are set to 4 and whose variant bits are set to 0b10.
#[verifier::external_body]
fn random_uuid() -> (r: u128)
    ensures
        is_random_uuid(r),
{
    uuid::Uuid::new_v4().as_u128()
}

/// Relies on uuid::Uuid::parse_str (with Uuid::as_u128): the outcome depends
/// on the text alone.
#[verifier::external_body]
pub(crate) fn parse_uuid(s: &str) -> (r: Option<u128>)
    ensures
        r == parsed_uuid(s@),
{
    match uuid::Uuid::parse_str(s) {
        Ok(u) => Some(u.as_u128()),
        Err(_) => None,
    }
}

impl User {
    /// A new record with the given name and age and a fresh random identifier.
    pub fn new(name: String, age: u8) -> (r: User)
        ensures
            r.name@ == name@,
            r.age == age,
            is_random_uuid(r.id),
    {
        User { id: random_uuid(), name, age }
    }

    /// A copy of this record, field for field.
    pub fn duplicate(&self) -> (r: User)
        ensures
            r@ == self@,
    {
        User { id: self.id, name: self.name.clone(), age: self.age }
    }
}

} // verus!
