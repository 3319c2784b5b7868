//! Identifiers of habits and entries, backed by UUIDs from the `uuid` crate.

use vstd::prelude::*;
use vstd::string::StringSliceAdditionalSpecFns;

verus! {

#[verifier::external_type_specification]
#[verifier::external_body]
pub struct ExUuid(uuid::Uuid);

#[verifier::external_type_specification]
#[verifier::external_body]
pub struct ExUuidError(uuid::Error);

/// Relies on uuid::Uuid::new_v4: a random UUID; nothing is known of its value.
#[verifier::external_body]
fn random_uuid() -> (r: uuid::Uuid) {
    uuid::Uuid::new_v4()
}

/// Relies on uuid::Uuid::parse_str: the input is accepted only in one of its
/// four shapes, of 32 (simple), 36 (hyphenated), 38 (braced) or 45 (URN) bytes.
#[verifier::external_body]
fn parse_uuid(s: &str) -> (r: Result<uuid::Uuid, uuid::Error>)
    ensures
        r is Ok ==> (s.spec_bytes().len() == 32 || s.spec_bytes().len() == 36
            || s.spec_bytes().len() == 38 || s.spec_bytes().len() == 45),
{
    uuid::Uuid::parse_str(s)
}

/// Relies on uuid::Uuid's Display: the lower-case hyphenated form, 36 characters.
#[verifier::external_body]
fn uuid_text(u: &uuid::Uuid) -> (r: String)
    ensures
        r@.len() == 36,
{
    u.to_string()
}

/// Unique identifier for a habit.
#[derive(Debug, Clone, Copy, PartialEq, Eq, Hash)]
pub struct HabitId(pub uuid::Uuid);

impl HabitId {
    /// Generate a new random habit ID.
    pub fn new() -> (r: HabitId) {
        HabitId(random_uuid())
    }

    /// Parse a habit ID from its text form.
    pub fn from_string(s: &str) -> (r: Result<HabitId, uuid::Error>)
        ensures
            s@.len() == 0 ==> r is Err,
    {
        match parse_uuid(s) {
            Ok(u) => Ok(HabitId(u)),
            Err(e) => Err(e),
        }
    }

    /// The hyphenated lower-case text form.
    pub fn to_string(&self) -> (r: String)
        ensures
            r@.len() == 36,
    {
        uuid_text(&self.0)
    }
}

/// Unique identifier for a habit entry.
#[derive(Debug, Clone, Copy, PartialEq, Eq, Hash)]
pub struct EntryId(pub uuid::Uuid);

impl EntryId {
    /// Generate a new random entry ID.
    pub fn new() -> (r: EntryId) {
        EntryId(random_uuid())
    }

    /// Parse an entry ID from its text form.
    pub fn from_string(s: &str) -> (r: Result<EntryId, uuid::Error>)
        ensures
            s@.len() == 0 ==> r is Err,
    {
        match parse_uuid(s) {
            Ok(u) => Ok(EntryId(u)),
            Err(e) => Err(e),
        }
    }

    /// The hyphenated lower-case text form.
    pub fn to_string(&self) -> (r: String)
        ensures
            r@.len() == 36,
    {
        uuid_text(&self.0)
    }
}

} // verus!
