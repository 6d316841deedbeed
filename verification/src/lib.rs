//! Verified core of a command-line assistant that answers recruiters on
//! LinkedIn: prompt construction, reply parsing, profile and conversation
//! rendering, configuration and interview-event building.

pub mod text;
pub mod json;
pub mod ai;
pub mod time;
pub mod linkedin;
pub mod config;
pub mod calendar;
pub mod bot;
pub mod laws;
