//! The structured details that a reply of the assistant may carry: an
//! interview to schedule and a job to record, and how they are read out of
//! a JSON value.
//!
//! A struct is read from a JSON value the way a derived `Deserialize` reads
//! a `serde_json::Value`: from an object, member by member name (unknown
//! members ignored, a missing optional member read as absent, `null` read as
//! absent), or from an array holding exactly one element per field, in the
//! order in which the fields are declared.

use vstd::prelude::*;
use vstd::string::*;
use crate::json::{json_get, json_str, JsonNumber, JsonValue};
use crate::text::{opt_text, texts};

verus! {

broadcast use vstd::string::group_string_axioms;

/// Interview details parsed from an AI reply.
#[derive(Debug, Clone)]
pub struct ParsedInterview {
    pub job_title: String,
    pub company: String,
    pub interview_type: String,
    pub date: String,
    pub time: String,
    pub timezone: Option<String>,
    pub duration_minutes: u32,
    pub meeting_link: Option<String>,
    pub location: Option<String>,
    pub interviewers: Vec<String>,
    pub notes: Option<String>,
}

/// Job details parsed from an AI reply.
#[derive(Debug, Clone)]
pub struct ParsedJob {
    pub title: String,
    pub company: String,
    pub location: Option<String>,
    pub work_type: Option<String>,
    pub salary_range: Option<String>,
    pub description: Option<String>,
}

/// The texts of a [`ParsedInterview`].
pub struct ParsedInterviewView {
    pub job_title: Seq<char>,
    pub company: Seq<char>,
    pub interview_type: Seq<char>,
    pub date: Seq<char>,
    pub time: Seq<char>,
    pub timezone: Option<Seq<char>>,
    pub duration_minutes: u32,
    pub meeting_link: Option<Seq<char>>,
    pub location: Option<Seq<char>>,
    pub interviewers: Seq<Seq<char>>,
    pub notes: Option<Seq<char>>,
}

/// The texts of a [`ParsedJob`].
pub struct ParsedJobView {
    pub title: Seq<char>,
    pub company: Seq<char>,
    pub location: Option<Seq<char>>,
    pub work_type: Option<Seq<char>>,
    pub salary_range: Option<Seq<char>>,
    pub description: Option<Seq<char>>,
}

impl View for ParsedInterview {
    type V = ParsedInterviewView;

    open spec fn view(&self) -> ParsedInterviewView {
        ParsedInterviewView {
            job_title: self.job_title@,
            company: self.company@,
            interview_type: self.interview_type@,
            date: self.date@,
            time: self.time@,
            timezone: opt_text(self.timezone),
            duration_minutes: self.duration_minutes,
            meeting_link: opt_text(self.meeting_link),
            location: opt_text(self.location),
            interviewers: texts(self.interviewers@),
            notes: opt_text(self.notes),
        }
    }
}

impl View for ParsedJob {
    type V = ParsedJobView;

    open spec fn view(&self) -> ParsedJobView {
        ParsedJobView {
            title: self.title@,
            company: self.company@,
            location: opt_text(self.location),
            work_type: opt_text(self.work_type),
            salary_range: opt_text(self.salary_range),
            description: opt_text(self.description),
        }
    }
}

/// A `String` field: read from a JSON string only.
pub open spec fn de_text(v: JsonValue) -> Option<Seq<char>> {
    json_str(v)
}

/// An `Option<String>` field: `null` is absent, a string is present.
pub open spec fn de_opt_text(v: JsonValue) -> Option<Option<Seq<char>>> {
    match v {
        JsonValue::Null => Some(None),
        JsonValue::Str(s) => Some(Some(s@)),
        _ => None,
    }
}

/// A `u32` field: read from a non-negative integer that fits in `u32`.
pub open spec fn de_u32(v: JsonValue) -> Option<u32> {
    match v {
        JsonValue::Number(JsonNumber::PosInt(u)) => if u <= u32::MAX {
            Some(u as u32)
        } else {
            None
        },
        _ => None,
    }
}

/// The text of a JSON string, and nothing for anything else.
pub open spec fn text_or_empty(v: JsonValue) -> Seq<char> {
    match v {
        JsonValue::Str(s) => s@,
        _ => seq![],
    }
}

/// A `Vec<String>` field: read from an array of strings only.
pub open spec fn de_text_list(v: JsonValue) -> Option<Seq<Seq<char>>> {
    match v {
        JsonValue::Array(items) => if forall|i: int|
            0 <= i < items@.len() ==> (#[trigger] items@[i]) is Str {
            Some(items@.map_values(|j: JsonValue| text_or_empty(j)))
        } else {
            None
        },
        _ => None,
    }
}

/// A required member: it must be there and read as `de` reads it.
pub open spec fn required<T>(v: JsonValue, name: Seq<char>, de: spec_fn(JsonValue) -> Option<T>) -> Option<T> {
    match json_get(v, name) {
        Some(m) => de(m),
        None => None,
    }
}

/// An optional text member: a missing member reads as absent.
pub open spec fn optional_text(v: JsonValue, name: Seq<char>) -> Option<Option<Seq<char>>> {
    match json_get(v, name) {
        Some(m) => de_opt_text(m),
        None => Some(None),
    }
}

/// The job that a JSON value reads as, or `None` when it does not read as one.
pub open spec fn job_from_json(v: JsonValue) -> Option<ParsedJobView> {
    match v {
        JsonValue::Object(_) => {
            let title = required(v, "title"@, |j: JsonValue| de_text(j));
            let company = required(v, "company"@, |j: JsonValue| de_text(j));
            let location = optional_text(v, "location"@);
            let work_type = optional_text(v, "work_type"@);
            let salary_range = optional_text(v, "salary_range"@);
            let description = optional_text(v, "description"@);
            if title is Some && company is Some && location is Some && work_type is Some
                && salary_range is Some && description is Some {
                Some(
                    ParsedJobView {
                        title: title->0,
                        company: company->0,
                        location: location->0,
                        work_type: work_type->0,
                        salary_range: salary_range->0,
                        description: description->0,
                    },
                )
            } else {
                None
            }
        },
        JsonValue::Array(items) => {
            let e = items@;
            if e.len() == 6 && de_text(e[0]) is Some && de_text(e[1]) is Some && de_opt_text(
                e[2],
            ) is Some && de_opt_text(e[3]) is Some && de_opt_text(e[4]) is Some && de_opt_text(
                e[5],
            ) is Some {
                Some(
                    ParsedJobView {
                        title: de_text(e[0])->0,
                        company: de_text(e[1])->0,
                        location: de_opt_text(e[2])->0,
                        work_type: de_opt_text(e[3])->0,
                        salary_range: de_opt_text(e[4])->0,
                        description: de_opt_text(e[5])->0,
                    },
                )
            } else {
                None
            }
        },
        _ => None,
    }
}

/// The interview that a JSON value reads as, or `None` when it does not
/// read as one.
pub open spec fn interview_from_json(v: JsonValue) -> Option<ParsedInterviewView> {
    match v {
        JsonValue::Object(_) => {
            let job_title = required(v, "job_title"@, |j: JsonValue| de_text(j));
            let company = required(v, "company"@, |j: JsonValue| de_text(j));
            let interview_type = required(v, "interview_type"@, |j: JsonValue| de_text(j));
            let date = required(v, "date"@, |j: JsonValue| de_text(j));
            let time = required(v, "time"@, |j: JsonValue| de_text(j));
            let timezone = optional_text(v, "timezone"@);
            let duration = required(v, "duration_minutes"@, |j: JsonValue| de_u32(j));
            let meeting_link = optional_text(v, "meeting_link"@);
            let location = optional_text(v, "location"@);
            let interviewers = required(v, "interviewers"@, |j: JsonValue| de_text_list(j));
            let notes = optional_text(v, "notes"@);
            if job_title is Some && company is Some && interview_type is Some && date is Some
                && time is Some && timezone is Some && duration is Some && meeting_link is Some
                && location is Some && interviewers is Some && notes is Some {
                Some(
                    ParsedInterviewView {
                        job_title: job_title->0,
                        company: company->0,
                        interview_type: interview_type->0,
                        date: date->0,
                        time: time->0,
                        timezone: timezone->0,
                        duration_minutes: duration->0,
                        meeting_link: meeting_link->0,
                        location: location->0,
                        interviewers: interviewers->0,
                        notes: notes->0,
                    },
                )
            } else {
                None
            }
        },
        JsonValue::Array(items) => {
            let e = items@;
            if e.len() == 11 && de_text(e[0]) is Some && de_text(e[1]) is Some && de_text(e[2]) is Some
                && de_text(e[3]) is Some && de_text(e[4]) is Some && de_opt_text(e[5]) is Some
                && de_u32(e[6]) is Some && de_opt_text(e[7]) is Some && de_opt_text(e[8]) is Some
                && de_text_list(e[9]) is Some && de_opt_text(e[10]) is Some {
                Some(
                    ParsedInterviewView {
                        job_title: de_text(e[0])->0,
                        company: de_text(e[1])->0,
                        interview_type: de_text(e[2])->0,
                        date: de_text(e[3])->0,
                        time: de_text(e[4])->0,
                        timezone: de_opt_text(e[5])->0,
                        duration_minutes: de_u32(e[6])->0,
                        meeting_link: de_opt_text(e[7])->0,
                        location: de_opt_text(e[8])->0,
                        interviewers: de_text_list(e[9])->0,
                        notes: de_opt_text(e[10])->0,
                    },
                )
            } else {
                None
            }
        },
        _ => None,
    }
}

/// Reads a `String` field.
fn read_text(v: &JsonValue) -> (r: Option<String>)
    ensures
        opt_text(r) == de_text(*v),
{
    match v {
        JsonValue::Str(s) => Some(s.clone()),
        _ => None,
    }
}

/// Reads an `Option<String>` field.
fn read_opt_text(v: &JsonValue) -> (r: Option<Option<String>>)
    ensures
        match r {
            Some(o) => de_opt_text(*v) == Some(opt_text(o)),
            None => de_opt_text(*v) is None,
        },
{
    match v {
        JsonValue::Null => Some(None),
        JsonValue::Str(s) => Some(Some(s.clone())),
        _ => None,
    }
}

/// Reads a `u32` field.
fn read_u32(v: &JsonValue) -> (r: Option<u32>)
    ensures
        r == de_u32(*v),
{
    match v {
        JsonValue::Number(JsonNumber::PosInt(u)) => {
            if *u <= 4294967295u64 {
                Some(*u as u32)
            } else {
                None
            }
        },
        _ => None,
    }
}

/// Reads a `Vec<String>` field.
fn read_text_list(v: &JsonValue) -> (r: Option<Vec<String>>)
    ensures
        match r {
            Some(l) => de_text_list(*v) == Some(texts(l@)),
            None => de_text_list(*v) is None,
        },
{
    match v {
        JsonValue::Array(items) => {
            let n = items.len();
            let mut out: Vec<String> = Vec::new();
            for i in 0..n
                invariant
                    n == items@.len(),
                    *v == JsonValue::Array(*items),
                    out@.len() == i,
                    forall|j: int| 0 <= j < i ==> (#[trigger] items@[j]) is Str,
                    forall|j: int| 0 <= j < i ==> #[trigger] out@[j]@ == text_or_empty(items@[j]),
            {
                match &items[i] {
                    JsonValue::Str(s) => {
                        out.push(s.clone());
                    },
                    _ => {
                        assert(!(items@[i as int] is Str));
                        return None;
                    },
                }
            }
            assert(texts(out@) =~= items@.map_values(|j: JsonValue| text_or_empty(j)));
            Some(out)
        },
        _ => None,
    }
}

/// Reads the required `String` member `name`.
fn read_required_text(v: &JsonValue, name: &str) -> (r: Option<String>)
    ensures
        opt_text(r) == required(*v, name@, |j: JsonValue| de_text(j)),
{
    match v.get(name) {
        Some(m) => read_text(m),
        None => None,
    }
}

/// Reads the optional `String` member `name`.
fn read_optional_text(v: &JsonValue, name: &str) -> (r: Option<Option<String>>)
    ensures
        match r {
            Some(o) => optional_text(*v, name@) == Some(opt_text(o)),
            None => optional_text(*v, name@) is None,
        },
{
    match v.get(name) {
        Some(m) => read_opt_text(m),
        None => Some(None),
    }
}

impl ParsedJob {
    /// Reads a job out of a JSON value, as the derived `Deserialize` reads it.
    pub fn from_json(v: &JsonValue) -> (r: Option<ParsedJob>)
        ensures
            match r {
                Some(j) => job_from_json(*v) == Some(j@),
                None => job_from_json(*v) is None,
            },
    {
        match v {
            JsonValue::Object(_) => {
                let title = read_required_text(v, "title");
                let company = read_required_text(v, "company");
                let location = read_optional_text(v, "location");
                let work_type = read_optional_text(v, "work_type");
                let salary_range = read_optional_text(v, "salary_range");
                let description = read_optional_text(v, "description");
                match (title, company, location, work_type, salary_range, description) {
                    (Some(t), Some(c), Some(l), Some(w), Some(s), Some(d)) => Some(
                        ParsedJob {
                            title: t,
                            company: c,
                            location: l,
                            work_type: w,
                            salary_range: s,
                            description: d,
                        },
                    ),
                    _ => None,
                }
            },
            JsonValue::Array(items) => {
                if items.len() != 6 {
                    return None;
                }
                let title = read_text(&items[0]);
                let company = read_text(&items[1]);
                let location = read_opt_text(&items[2]);
                let work_type = read_opt_text(&items[3]);
                let salary_range = read_opt_text(&items[4]);
                let description = read_opt_text(&items[5]);
                match (title, company, location, work_type, salary_range, description) {
                    (Some(t), Some(c), Some(l), Some(w), Some(s), Some(d)) => Some(
                        ParsedJob {
                            title: t,
                            company: c,
                            location: l,
                            work_type: w,
                            salary_range: s,
                            description: d,
                        },
                    ),
                    _ => None,
                }
            },
            _ => None,
        }
    }
}

impl ParsedInterview {
    /// Reads an interview out of a JSON value, as the derived `Deserialize`
    /// reads it.
    pub fn from_json(v: &JsonValue) -> (r: Option<ParsedInterview>)
        ensures
            match r {
                Some(i) => interview_from_json(*v) == Some(i@),
                None => interview_from_json(*v) is None,
            },
    {
        match v {
            JsonValue::Object(_) => {
                let job_title = read_required_text(v, "job_title");
                let company = read_required_text(v, "company");
                let interview_type = read_required_text(v, "interview_type");
                let date = read_required_text(v, "date");
                let time = read_required_text(v, "time");
                let timezone = read_optional_text(v, "timezone");
                let duration = match v.get("duration_minutes") {
                    Some(m) => read_u32(m),
                    None => None,
                };
                let meeting_link = read_optional_text(v, "meeting_link");
                let location = read_optional_text(v, "location");
                let interviewers = match v.get("interviewers") {
                    Some(m) => read_text_list(m),
                    None => None,
                };
                let notes = read_optional_text(v, "notes");
                if job_title.is_none() || company.is_none() || interview_type.is_none()
                    || date.is_none() || time.is_none() || timezone.is_none() || duration.is_none()
                    || meeting_link.is_none() || location.is_none() || interviewers.is_none()
                    || notes.is_none() {
                    return None;
                }
                Some(
                    ParsedInterview {
                        job_title: job_title.unwrap(),
                        company: company.unwrap(),
                        interview_type: interview_type.unwrap(),
                        date: date.unwrap(),
                        time: time.unwrap(),
                        timezone: timezone.unwrap(),
                        duration_minutes: duration.unwrap(),
                        meeting_link: meeting_link.unwrap(),
                        location: location.unwrap(),
                        interviewers: interviewers.unwrap(),
                        notes: notes.unwrap(),
                    },
                )
            },
            JsonValue::Array(items) => {
                if items.len() != 11 {
                    return None;
                }
                let job_title = read_text(&items[0]);
                let company = read_text(&items[1]);
                let interview_type = read_text(&items[2]);
                let date = read_text(&items[3]);
                let time = read_text(&items[4]);
                let timezone = read_opt_text(&items[5]);
                let duration = read_u32(&items[6]);
                let meeting_link = read_opt_text(&items[7]);
                let location = read_opt_text(&items[8]);
                let interviewers = read_text_list(&items[9]);
                let notes = read_opt_text(&items[10]);
                if job_title.is_none() || company.is_none() || interview_type.is_none()
                    || date.is_none() || time.is_none() || timezone.is_none() || duration.is_none()
                    || meeting_link.is_none() || location.is_none() || interviewers.is_none()
                    || notes.is_none() {
                    return None;
                }
                Some(
                    ParsedInterview {
                        job_title: job_title.unwrap(),
                        company: company.unwrap(),
                        interview_type: interview_type.unwrap(),
                        date: date.unwrap(),
                        time: time.unwrap(),
                        timezone: timezone.unwrap(),
                        duration_minutes: duration.unwrap(),
                        meeting_link: meeting_link.unwrap(),
                        location: location.unwrap(),
                        interviewers: interviewers.unwrap(),
                        notes: notes.unwrap(),
                    },
                )
            },
            _ => None,
        }
    }
}

} // verus!
