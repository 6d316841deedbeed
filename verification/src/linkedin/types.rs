//! Recruiters, job opportunities and interview details.

use vstd::prelude::*;
use vstd::string::*;
use crate::time::UtcDateTime;

verus! {

broadcast use vstd::string::group_string_axioms;

/// Represents a recruiter contact.
#[derive(Debug, Clone)]
pub struct Recruiter {
    /// LinkedIn profile ID
    pub profile_id: String,
    /// Recruiter's name
    pub name: String,
    /// Recruiter's title/role
    pub title: Option<String>,
    /// Company they work for
    pub company: Option<String>,
    /// Profile URL
    pub profile_url: String,
}

/// Represents a job opportunity.
#[derive(Debug, Clone)]
pub struct JobOpportunity {
    /// Unique identifier
    pub id: String,
    /// Job title
    pub title: String,
    /// Company name
    pub company: String,
    /// Job location
    pub location: Option<String>,
    /// Remote/hybrid/onsite
    pub work_type: Option<String>,
    /// Salary range
    pub salary_range: Option<String>,
    /// Job description
    pub description: Option<String>,
    /// Recruiter contact
    pub recruiter: Option<Recruiter>,
    /// When this opportunity was first received
    pub received_at: UtcDateTime,
}

/// Interview scheduling details.
#[derive(Debug, Clone)]
pub struct InterviewDetails {
    /// Job opportunity this interview is for
    pub job_id: String,
    /// Interview type (phone, video, onsite, etc.)
    pub interview_type: String,
    /// Scheduled date and time
    pub scheduled_time: UtcDateTime,
    /// Duration in minutes
    pub duration_minutes: u32,
    /// Meeting link (for video interviews)
    pub meeting_link: Option<String>,
    /// Interview location (for onsite)
    pub location: Option<String>,
    /// Interviewer names
    pub interviewers: Vec<String>,
    /// Additional notes
    pub notes: Option<String>,
}

/// Whether `c` is a lowercase hexadecimal digit.
pub open spec fn is_lower_hex(c: char) -> bool {
    ('0' <= c && c <= '9') || ('a' <= c && c <= 'f')
}

/// Whether `s` is the hyphenated lowercase text of a random (version 4,
/// RFC 4122 variant) UUID: `xxxxxxxx-xxxx-4xxx-Nxxx-xxxxxxxxxxxx` with `N`
/// one of `8`, `9`, `a`, `b`.
pub open spec fn is_uuid_v4_text(s: Seq<char>) -> bool {
    &&& s.len() == 36
    &&& forall|i: int|
        0 <= i < 36 ==> if i == 8 || i == 13 || i == 18 || i == 23 {
            s[i] == '-'
        } else {
            is_lower_hex(#[trigger] s[i])
        }
    &&& s[14] == '4'
    &&& (s[19] == '8' || s[19] == '9' || s[19] == 'a' || s[19] == 'b')
}

/// `uuid::Uuid::new_v4().to_string()`: a fresh random UUID, written as
/// `Display` writes it (hyphenated lowercase hexadecimal). `new_v4` sets
/// the version nibble to 4 and the variant bits to `10`; which UUID comes
/// out is chance and is not stated.
#[verifier::external_body]
fn new_uuid_v4_text() -> (r: String)
    ensures
        is_uuid_v4_text(r@),
{
    uuid::Uuid::new_v4().to_string()
}

impl JobOpportunity {
    /// Create a new job opportunity with a fresh random identifier,
    /// received now, with no further details.
    pub fn new(title: String, company: String) -> (r: JobOpportunity)
        ensures
            r.title == title,
            r.company == company,
            is_uuid_v4_text(r.id@),
            r.location is None,
            r.work_type is None,
            r.salary_range is None,
            r.description is None,
            r.recruiter is None,
            r.received_at.secs() >= 0,
    {
        JobOpportunity {
            id: new_uuid_v4_text(),
            title,
            company,
            location: None,
            work_type: None,
            salary_range: None,
            description: None,
            recruiter: None,
            received_at: UtcDateTime::now(),
        }
    }
}

impl InterviewDetails {
    /// Create new interview details, with no link, location, interviewers
    /// or notes.
    pub fn new(
        job_id: String,
        interview_type: String,
        scheduled_time: UtcDateTime,
        duration_minutes: u32,
    ) -> (r: InterviewDetails)
        ensures
            r.job_id == job_id,
            r.interview_type == interview_type,
            r.scheduled_time == scheduled_time,
            r.duration_minutes == duration_minutes,
            r.meeting_link is None,
            r.location is None,
            r.interviewers@.len() == 0,
            r.notes is None,
    {
        InterviewDetails {
            job_id,
            interview_type,
            scheduled_time,
            duration_minutes,
            meeting_link: None,
            location: None,
            interviewers: Vec::new(),
            notes: None,
        }
    }
}

} // verus!
