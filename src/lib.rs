//! Habit tracking library: schedules, completion entries and the verified
//! streak and completion-rate engine.

pub mod calendar;
pub mod error;
pub mod types;
pub mod ids;
pub mod text;
pub mod entry;
pub mod habit;
pub mod streak;
pub mod laws;
pub mod storage;
pub mod protocol;
pub mod analytics;
pub mod tools;

pub use calendar::{Date, Timestamp, Weekday};
pub use error::DomainError;
pub use types::{Category, Frequency};
pub use ids::{HabitId, EntryId};
pub use entry::HabitEntry;
pub use storage::StorageError;
pub use streak::{CompletionRate, Streak};
pub use habit::Habit;
pub use analytics::{AnalyticsConfig, AnalyticsEngine, InsightKind, InsightsParams};
pub use tools::{
    CreateHabitParams, CreateHabitResponse, ListHabitsParams, LogHabitParams, LogHabitResponse,
    StatusParams, UpdateHabitParams, UpdateHabitResponse,
};
pub use protocol::{
    ClientInfo, InitializeResult, ServerCapabilities, ServerInfo, ToolCallResult, ToolContent,
    ToolsCapability,
};
