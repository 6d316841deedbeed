//! Interview events for Google Calendar.

pub mod types;

pub use types::{CalendarEventResult, InterviewEvent};
