//! Calendar events for interviews.

use vstd::prelude::*;
use vstd::string::*;
use crate::text::opt_text;
use crate::time::{UtcDateTime, MAX_TIMESTAMP};

verus! {

broadcast use vstd::string::group_string_axioms;

/// Represents a calendar event for an interview.
#[derive(Debug, Clone)]
pub struct InterviewEvent {
    /// Event title
    pub title: String,
    /// Event description
    pub description: String,
    /// Start time
    pub start_time: UtcDateTime,
    /// End time
    pub end_time: UtcDateTime,
    /// Location (physical address or video link)
    pub location: Option<String>,
    /// Meeting link (for video interviews)
    pub meeting_link: Option<String>,
    /// Attendees (interviewers)
    pub attendees: Vec<String>,
}

/// Result of creating a calendar event.
#[derive(Debug, Clone)]
pub struct CalendarEventResult {
    /// Event ID from Google Calendar
    pub event_id: String,
    /// Link to the event in Google Calendar
    pub html_link: String,
}

/// Whether `end` lies `minutes` minutes after `start`, as `chrono` adds a
/// number of minutes to an instant.
pub open spec fn ends_after(start: UtcDateTime, end: UtcDateTime, minutes: u32) -> bool {
    &&& end.secs() == start.secs() + 60 * minutes
    &&& end.nanos() == if start.nanos() >= 1_000_000_000 && minutes > 0 {
        start.nanos() - 1_000_000_000
    } else {
        start.nanos() as int
    }
}

/// Whether an interview of `minutes` minutes starting at `start` ends at an
/// instant that `chrono` represents.
pub open spec fn end_in_range(start: UtcDateTime, minutes: u32) -> bool {
    start.secs() + 60 * minutes <= MAX_TIMESTAMP
}

impl InterviewEvent {
    /// Create a new interview event lasting `duration_minutes` minutes, with
    /// no location, link or attendees.
    pub fn new(title: String, description: String, start_time: UtcDateTime, duration_minutes: u32) -> (r:
        InterviewEvent)
        requires
            end_in_range(start_time, duration_minutes),
        ensures
            r.title == title,
            r.description == description,
            r.start_time == start_time,
            ends_after(start_time, r.end_time, duration_minutes),
            r.location is None,
            r.meeting_link is None,
            r.attendees@.len() == 0,
    {
        let end_time = start_time.plus_minutes(duration_minutes);
        InterviewEvent {
            title,
            description,
            start_time,
            end_time,
            location: None,
            meeting_link: None,
            attendees: Vec::new(),
        }
    }

    /// Set the location.
    pub fn with_location(self, location: String) -> (r: InterviewEvent)
        ensures
            r == (InterviewEvent { location: Some(location), ..self }),
    {
        let mut e = self;
        e.location = Some(location);
        e
    }

    /// Set the meeting link.
    pub fn with_meeting_link(self, link: String) -> (r: InterviewEvent)
        ensures
            r == (InterviewEvent { meeting_link: Some(link), ..self }),
    {
        let mut e = self;
        e.meeting_link = Some(link);
        e
    }

    /// Set the attendees.
    pub fn with_attendees(self, attendees: Vec<String>) -> (r: InterviewEvent)
        ensures
            r == (InterviewEvent { attendees, ..self }),
    {
        let mut e = self;
        e.attendees = attendees;
        e
    }

    /// Where the calendar event takes place: the location, or else the
    /// meeting link.
    pub fn calendar_location(&self) -> (r: Option<String>)
        ensures
            opt_text(r) == match self.location {
                Some(l) => Some(l@),
                None => opt_text(self.meeting_link),
            },
    {
        match &self.location {
            Some(l) => Some(l.clone()),
            None => match &self.meeting_link {
                Some(m) => Some(m.clone()),
                None => None,
            },
        }
    }
}

impl CalendarEventResult {
    /// The result for a created event: its identifier and link, each empty
    /// when the calendar gave none.
    pub fn from_created(event_id: Option<String>, html_link: Option<String>) -> (r: CalendarEventResult)
        ensures
            r.event_id@ == match event_id {
                Some(s) => s@,
                None => Seq::<char>::empty(),
            },
            r.html_link@ == match html_link {
                Some(s) => s@,
                None => Seq::<char>::empty(),
            },
    {
        CalendarEventResult {
            event_id: match event_id {
                Some(s) => s,
                None => String::new(),
            },
            html_link: match html_link {
                Some(s) => s,
                None => String::new(),
            },
        }
    }
}

} // verus!
