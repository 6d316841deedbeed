//! LinkedIn data: conversations and messages, profiles, job opportunities,
//! and what is read out of LinkedIn pages.

pub mod client;
pub mod messages;
pub mod profile;
pub mod types;

pub use messages::{Conversation, Message, MessageDirection};
pub use profile::{Education, LinkedInProfile, Position};
pub use types::{InterviewDetails, JobOpportunity, Recruiter};
