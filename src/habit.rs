//! The habit a user wants to track, with its validation rules.

use vstd::prelude::*;
use vstd::string::StringExecFns;
use crate::calendar::Timestamp;
use crate::error::DomainError;
use crate::ids::HabitId;
use crate::text::{byte_len, decimal, decimal_string, trim_of, trimmed};
use crate::types::{Category, Frequency};

verus! {

/// Longest habit name, in bytes once trimmed.
pub const MAX_NAME_BYTES: usize = 100;

/// Longest description, in bytes.
pub const MAX_DESCRIPTION_BYTES: usize = 500;

/// Largest numeric target.
pub const MAX_TARGET: u32 = 10000;

/// Longest unit, in bytes once trimmed.
pub const MAX_UNIT_BYTES: usize = 20;

/// Something the user wants to do regularly.
#[derive(Debug, Clone, PartialEq)]
pub struct Habit {
    pub id: HabitId,
    /// Display name, e.g. "Morning Run".
    pub name: String,
    pub description: Option<String>,
    pub category: Category,
    /// How often the habit should be performed.
    pub frequency: Frequency,
    /// Numeric target, e.g. 30 for "30 minutes".
    pub target_value: Option<u32>,
    /// Unit of the target, e.g. "minutes".
    pub unit: Option<String>,
    /// When the habit was created.
    pub created_at: Timestamp,
    /// Whether the habit is active (it can be paused).
    pub is_active: bool,
}

/// A name is not blank and, trimmed, at most `MAX_NAME_BYTES` bytes.
pub open spec fn name_ok(name: Seq<char>) -> bool {
    trim_of(name).len() > 0 && byte_len(trim_of(name)) <= MAX_NAME_BYTES
}

/// A description is at most `MAX_DESCRIPTION_BYTES` bytes.
pub open spec fn description_ok(description: Option<String>) -> bool {
    description matches Some(d) ==> byte_len(d@) <= MAX_DESCRIPTION_BYTES
}

/// A target is between 1 and `MAX_TARGET`; a unit is not blank and, trimmed,
/// at most `MAX_UNIT_BYTES` bytes.
pub open spec fn target_and_unit_ok(target: Option<u32>, unit: Option<String>) -> bool {
    &&& (target matches Some(v) ==> 1 <= v <= MAX_TARGET)
    &&& (unit matches Some(u) ==> trim_of(u@).len() > 0 && byte_len(trim_of(u@)) <= MAX_UNIT_BYTES)
}

/// The target followed by its unit, e.g. "30 minutes".
pub open spec fn spec_target_display(target: Option<u32>, unit: Option<String>) -> Option<Seq<char>> {
    match (target, unit) {
        (Some(v), Some(u)) => Some(decimal(v as nat) + " "@ + u@),
        (Some(v), None) => Some(decimal(v as nat)),
        _ => None,
    }
}

impl Habit {
    /// Create a new active habit, created at `now`, after validating the
    /// name, the description, the frequency, then the target and unit.
    pub fn new(
        name: String,
        description: Option<String>,
        category: Category,
        frequency: Frequency,
        target_value: Option<u32>,
        unit: Option<String>,
        now: Timestamp,
    ) -> (r: Result<Habit, DomainError>)
        ensures
            r is Ok <==> name_ok(name@) && description_ok(description) && frequency.is_valid()
                && target_and_unit_ok(target_value, unit),
            !name_ok(name@) ==> (r is Err && r->Err_0 is InvalidHabitName),
            name_ok(name@) && !description_ok(description) ==> (r is Err && r->Err_0 is Validation),
            name_ok(name@) && description_ok(description) && !frequency.is_valid() ==> (r is Err
                && r->Err_0 is InvalidFrequency),
            name_ok(name@) && description_ok(description) && frequency.is_valid()
                && !target_and_unit_ok(target_value, unit) ==> (r is Err && r->Err_0 is InvalidValue),
            r is Ok ==> ({
                let h = r->Ok_0;
                &&& h.name == name
                &&& h.description == description
                &&& h.category == category
                &&& h.frequency == frequency
                &&& h.target_value == target_value
                &&& h.unit == unit
                &&& h.created_at == now
                &&& h.is_active
            }),
    {
        Self::validate_name(name.as_str())?;
        Self::validate_description(&description)?;
        frequency.validate()?;
        Self::validate_target_and_unit(target_value, &unit)?;
        Ok(
            Habit {
                id: HabitId::new(),
                name,
                description,
                category,
                frequency,
                target_value,
                unit,
                created_at: now,
                is_active: true,
            },
        )
    }

    /// A habit from already validated data.
    pub fn from_existing(
        id: HabitId,
        name: String,
        description: Option<String>,
        category: Category,
        frequency: Frequency,
        target_value: Option<u32>,
        unit: Option<String>,
        created_at: Timestamp,
        is_active: bool,
    ) -> (r: Habit)
        ensures
            r == (Habit {
                id,
                name,
                description,
                category,
                frequency,
                target_value,
                unit,
                created_at,
                is_active,
            }),
    {
        Habit { id, name, description, category, frequency, target_value, unit, created_at, is_active }
    }

    /// Apply the given changes, all or none: each new value is validated
    /// first, the target and unit together as they would stand afterwards.
    pub fn update(
        &mut self,
        name: Option<String>,
        description: Option<Option<String>>,
        frequency: Option<Frequency>,
        target_value: Option<Option<u32>>,
        unit: Option<Option<String>>,
        is_active: Option<bool>,
    ) -> (r: Result<(), DomainError>)
        ensures
            r is Ok <==> ({
                &&& (name matches Some(n) ==> name_ok(n@))
                &&& (description matches Some(d) ==> description_ok(d))
                &&& (frequency matches Some(f) ==> f.is_valid())
                &&& target_and_unit_ok(
                    if target_value is Some { target_value->Some_0 } else { old(self).target_value },
                    if unit is Some { unit->Some_0 } else { old(self).unit },
                )
            }),
            r is Err ==> *final(self) == *old(self),
            r is Ok ==> ({
                let h = *final(self);
                let o = *old(self);
                &&& h.id == o.id
                &&& h.category == o.category
                &&& h.created_at == o.created_at
                &&& h.name == (if name is Some { name->Some_0 } else { o.name })
                &&& h.description == (if description is Some { description->Some_0 } else { o.description })
                &&& h.frequency == (if frequency is Some { frequency->Some_0 } else { o.frequency })
                &&& h.target_value == (if target_value is Some { target_value->Some_0 } else { o.target_value })
                &&& h.unit == (if unit is Some { unit->Some_0 } else { o.unit })
                &&& h.is_active == (if is_active is Some { is_active->Some_0 } else { o.is_active })
            }),
    {
        if let Some(n) = &name {
            Self::validate_name(n.as_str())?;
        }
        if let Some(d) = &description {
            Self::validate_description(d)?;
        }
        if let Some(f) = &frequency {
            f.validate()?;
        }
        let new_target = match target_value {
            Some(t) => t,
            None => self.target_value,
        };
        match &unit {
            Some(u) => Self::validate_target_and_unit(new_target, u)?,
            None => Self::validate_target_and_unit(new_target, &self.unit)?,
        }
        if let Some(n) = name {
            self.name = n;
        }
        if let Some(d) = description {
            self.description = d;
        }
        if let Some(f) = frequency {
            self.frequency = f;
        }
        if let Some(t) = target_value {
            self.target_value = t;
        }
        if let Some(u) = unit {
            self.unit = u;
        }
        if let Some(a) = is_active {
            self.is_active = a;
        }
        Ok(())
    }

    /// Whether the habit has a numeric target.
    pub fn has_target(&self) -> (r: bool)
        ensures
            r == self.target_value is Some,
    {
        self.target_value.is_some()
    }

    /// The target with its unit, e.g. "30 minutes", or the bare number.
    pub fn target_display(&self) -> (r: Option<String>)
        ensures
            r is Some <==> self.target_value is Some,
            r is Some ==> spec_target_display(self.target_value, self.unit) == Some(r->Some_0@),
    {
        match (self.target_value, &self.unit) {
            (Some(v), Some(u)) => {
                let s = decimal_string(v as u64).concat(" ").concat(u.as_str());
                Some(s)
            },
            (Some(v), None) => Some(decimal_string(v as u64)),
            _ => None,
        }
    }

    fn validate_name(name: &str) -> (r: Result<(), DomainError>)
        ensures
            r is Ok <==> name_ok(name@),
            r matches Err(e) ==> e is InvalidHabitName,
    {
        let t = trimmed(name);
        if t.is_empty() {
            return Err(DomainError::InvalidHabitName("Habit name cannot be empty".to_string()));
        }
        if t.len() > MAX_NAME_BYTES {
            return Err(
                DomainError::InvalidHabitName(
                    "Habit name cannot be longer than 100 characters".to_string(),
                ),
            );
        }
        Ok(())
    }

    fn validate_description(description: &Option<String>) -> (r: Result<(), DomainError>)
        ensures
            r is Ok <==> description_ok(*description),
            r matches Err(e) ==> e is Validation,
    {
        if let Some(d) = description {
            if d.as_str().len() > MAX_DESCRIPTION_BYTES {
                return Err(
                    DomainError::Validation {
                        message: "Description cannot be longer than 500 characters".to_string(),
                    },
                );
            }
        }
        Ok(())
    }

    fn validate_target_and_unit(target_value: Option<u32>, unit: &Option<String>) -> (r: Result<(), DomainError>)
        ensures
            r is Ok <==> target_and_unit_ok(target_value, *unit),
            r matches Err(e) ==> e is InvalidValue,
    {
        if let Some(v) = target_value {
            if v == 0 {
                return Err(
                    DomainError::InvalidValue {
                        message: "Target value must be greater than 0".to_string(),
                    },
                );
            }
            if v > MAX_TARGET {
                return Err(
                    DomainError::InvalidValue {
                        message: "Target value cannot exceed 10000".to_string(),
                    },
                );
            }
        }
        if let Some(u) = unit {
            let t = trimmed(u.as_str());
            if t.is_empty() {
                return Err(
                    DomainError::InvalidValue {
                        message: "Unit cannot be empty if specified".to_string(),
                    },
                );
            }
            if t.len() > MAX_UNIT_BYTES {
                return Err(
                    DomainError::InvalidValue {
                        message: "Unit cannot be longer than 20 characters".to_string(),
                    },
                );
            }
        }
        Ok(())
    }
}

} // verus!
