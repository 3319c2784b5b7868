//! A recorded completion of a habit on a calendar day.

use vstd::prelude::*;
use vstd::string::StringSliceAdditionalSpecFns;
use crate::calendar::{Date, Timestamp};
use crate::error::DomainError;
use crate::ids::{EntryId, HabitId};
use crate::text::{byte_len, trim_of, trimmed};

verus! {

/// How far back, in days, a completion may be logged.
pub const MAX_BACKDATE_DAYS: i64 = 365;

/// The largest value an entry may record.
pub const MAX_ENTRY_VALUE: u32 = 100000;

/// The longest notes an entry may hold, in bytes.
pub const MAX_NOTES_BYTES: usize = 500;

/// A record of completing a habit on a specific day.
#[derive(Debug, Clone, PartialEq)]
pub struct HabitEntry {
    /// Unique identifier for this entry.
    pub id: EntryId,
    /// Which habit this entry is for.
    pub habit_id: HabitId,
    /// When this entry was logged.
    pub logged_at: Timestamp,
    /// Which day this completion was for.
    pub completed_at: Date,
    /// Amount achieved, when the habit has a target.
    pub value: Option<u32>,
    /// Intensity rating from 1 to 10.
    pub intensity: Option<u8>,
    /// Notes about this completion.
    pub notes: Option<String>,
}

/// A completion day is neither after `today` nor more than a year before it.
pub open spec fn completed_at_ok(date: Date, today: Date) -> bool {
    today.day - MAX_BACKDATE_DAYS <= date.day <= today.day
}

/// A recorded value is at most `MAX_ENTRY_VALUE`.
pub open spec fn value_ok(value: Option<u32>) -> bool {
    value matches Some(v) ==> v <= MAX_ENTRY_VALUE
}

/// An intensity rating is between 1 and 10.
pub open spec fn intensity_ok(intensity: Option<u8>) -> bool {
    intensity matches Some(i) ==> 1 <= i <= 10
}

/// Notes are at most `MAX_NOTES_BYTES` bytes long.
pub open spec fn notes_ok(notes: Option<String>) -> bool {
    notes matches Some(n) ==> byte_len(n@) <= MAX_NOTES_BYTES
}

impl HabitEntry {
    /// Create a new entry, logged at `now`, after validating its fields in
    /// this order: the day, the value, the intensity, the notes.
    pub fn new(
        habit_id: HabitId,
        completed_at: Date,
        value: Option<u32>,
        intensity: Option<u8>,
        notes: Option<String>,
        now: Timestamp,
    ) -> (r: Result<HabitEntry, DomainError>)
        requires
            i32::MIN <= now.spec_date_day() <= i32::MAX,
        ensures
            r is Ok <==> completed_at_ok(completed_at, now.spec_date()) && value_ok(value)
                && intensity_ok(intensity) && notes_ok(notes),
            !completed_at_ok(completed_at, now.spec_date()) ==> (r is Err && r->Err_0 is InvalidDate),
            completed_at_ok(completed_at, now.spec_date()) && !(value_ok(value) && intensity_ok(
                intensity,
            ) && notes_ok(notes)) ==> (r is Err && r->Err_0 is InvalidValue),
            r is Ok ==> ({
                let e = r->Ok_0;
                &&& e.habit_id == habit_id
                &&& e.completed_at == completed_at
                &&& e.value == value
                &&& e.intensity == intensity
                &&& e.notes == notes
                &&& e.logged_at == now
            }),
    {
        let today = now.date();
        Self::validate_completed_at(completed_at, today)?;
        Self::validate_value(value)?;
        Self::validate_intensity(intensity)?;
        Self::validate_notes(&notes)?;
        Ok(
            HabitEntry {
                id: EntryId::new(),
                habit_id,
                logged_at: now,
                completed_at,
                value,
                intensity,
                notes,
            },
        )
    }

    /// Create an entry from already validated data.
    pub fn from_existing(
        id: EntryId,
        habit_id: HabitId,
        logged_at: Timestamp,
        completed_at: Date,
        value: Option<u32>,
        intensity: Option<u8>,
        notes: Option<String>,
    ) -> (r: HabitEntry)
        ensures
            r == (HabitEntry { id, habit_id, logged_at, completed_at, value, intensity, notes }),
    {
        HabitEntry { id, habit_id, logged_at, completed_at, value, intensity, notes }
    }

    /// Whether this entry records a value.
    pub fn has_value(&self) -> (r: bool)
        ensures
            r == self.value is Some,
    {
        self.value.is_some()
    }

    /// Whether this entry has an intensity rating.
    pub fn has_intensity(&self) -> (r: bool)
        ensures
            r == self.intensity is Some,
    {
        self.intensity.is_some()
    }

    /// Whether this entry has notes that are not only white space.
    pub fn has_notes(&self) -> (r: bool)
        ensures
            r == (self.notes matches Some(n) && trim_of(n@).len() > 0),
    {
        match &self.notes {
            Some(n) => !trimmed(n.as_str()).is_empty(),
            None => false,
        }
    }

    /// The completion day is neither in the future nor more than a year back.
    fn validate_completed_at(date: Date, today: Date) -> (r: Result<(), DomainError>)
        ensures
            r is Ok <==> completed_at_ok(date, today),
            r matches Err(e) ==> e is InvalidDate,
    {
        if date.day > today.day {
            return Err(DomainError::InvalidDate("Cannot log habits for future dates".to_string()));
        }
        if (date.day as i64) < today.day as i64 - MAX_BACKDATE_DAYS {
            return Err(
                DomainError::InvalidDate(
                    "Cannot log habits more than 1 year in the past".to_string(),
                ),
            );
        }
        Ok(())
    }

    fn validate_value(value: Option<u32>) -> (r: Result<(), DomainError>)
        ensures
            r is Ok <==> value_ok(value),
            r matches Err(e) ==> e is InvalidValue,
    {
        if let Some(v) = value {
            if v > MAX_ENTRY_VALUE {
                return Err(
                    DomainError::InvalidValue { message: "Value cannot exceed 100000".to_string() },
                );
            }
        }
        Ok(())
    }

    fn validate_intensity(intensity: Option<u8>) -> (r: Result<(), DomainError>)
        ensures
            r is Ok <==> intensity_ok(intensity),
            r matches Err(e) ==> e is InvalidValue,
    {
        if let Some(i) = intensity {
            if i < 1 || i > 10 {
                return Err(
                    DomainError::InvalidValue {
                        message: "Intensity must be between 1 and 10".to_string(),
                    },
                );
            }
        }
        Ok(())
    }

    fn validate_notes(notes: &Option<String>) -> (r: Result<(), DomainError>)
        ensures
            r is Ok <==> notes_ok(*notes),
            r matches Err(e) ==> e is InvalidValue,
    {
        if let Some(text) = notes {
            if text.as_str().len() > MAX_NOTES_BYTES {
                return Err(
                    DomainError::InvalidValue {
                        message: "Notes cannot be longer than 500 characters".to_string(),
                    },
                );
            }
        }
        Ok(())
    }
}

} // verus!
