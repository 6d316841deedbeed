//! The decisions of the bot's commands: which conversations a round
//! answers, whether a reply is sent, how an interview becomes a calendar
//! event, and the text the commands show.

use vstd::prelude::*;
use vstd::string::*;

verus! {

broadcast use vstd::string::group_string_axioms;

use crate::ai::assistant::AIResponse;
use crate::ai::parsed::ParsedInterview;
use crate::calendar::types::{ends_after, InterviewEvent};
use crate::linkedin::messages::{Conversation, Message, MessageDirection};
use crate::text::{join, join_strings, opt_text, text_or, texts};
use crate::time::{
    parse_clock, parse_date, parsed_clock, parsed_date, timestamp_of, ClockTime, CalendarDate,
    UtcDateTime, MAX_TIMESTAMP,
};

/// The conversations of `cs` that have unread messages, in order.
pub open spec fn unread_conversations(cs: Seq<Conversation>) -> Seq<Conversation>
    decreases cs.len(),
{
    if cs.len() == 0 {
        seq![]
    } else {
        unread_conversations(cs.drop_last()) + if cs.last().has_unread {
            seq![cs.last()]
        } else {
            seq![]
        }
    }
}

/// The conversations that one round of the bot answers: the first
/// `max_messages` of those with unread messages, in order.
pub open spec fn round_selection(cs: Seq<Conversation>, max_messages: nat) -> Seq<Conversation> {
    let u = unread_conversations(cs);
    if u.len() <= max_messages {
        u
    } else {
        u.take(max_messages as int)
    }
}

/// Selects the conversations that one round of the bot answers.
pub fn select_unread(conversations: Vec<Conversation>, max_messages: usize) -> (r: Vec<Conversation>)
    ensures
        r@ == round_selection(conversations@, max_messages as nat),
{
    let ghost all = conversations@;
    let mut out: Vec<Conversation> = Vec::new();
    for c in it: conversations.into_iter()
        invariant
            it.seq() == all,
            out@ == round_selection(all.take(it.index()), max_messages as nat),
    {
        let ghost i = it.index();
        assert(all.take(i + 1).drop_last() =~= all.take(i));
        assert(all.take(i + 1).last() == c);
        let ghost before = unread_conversations(all.take(i));
        if c.has_unread && out.len() < max_messages {
            out.push(c);
        } else {
            proof {
                if before.len() >= max_messages {
                    assert((before + seq![c]).take(max_messages as int) =~= before.take(
                        max_messages as int,
                    ));
                }
                assert(before + Seq::<Conversation>::empty() =~= before);
            }
        }
    }
    assert(all.take(all.len() as int) =~= all);
    out
}

/// What the bot does with a generated reply.
#[derive(Debug, Clone, Copy, PartialEq, Eq, Structural)]
pub enum ReplyPlan {
    /// Send the reply.
    Send,
    /// Dry run: show the reply, send nothing.
    DryRun,
    /// Nothing to send: the reply is empty.
    Hold,
}

/// The plan for a reply: send it when not in a dry run and it is not
/// empty; in a dry run, only show it.
pub open spec fn reply_plan(dry_run: bool, message: Seq<char>) -> ReplyPlan {
    if !dry_run && message.len() > 0 {
        ReplyPlan::Send
    } else if dry_run {
        ReplyPlan::DryRun
    } else {
        ReplyPlan::Hold
    }
}

/// Decides what to do with a generated reply.
pub fn plan_reply(dry_run: bool, message: &str) -> (r: ReplyPlan)
    ensures
        r == reply_plan(dry_run, message@),
{
    if !dry_run && !message.is_empty() {
        ReplyPlan::Send
    } else if dry_run {
        ReplyPlan::DryRun
    } else {
        ReplyPlan::Hold
    }
}

/// Why an interview could not become a calendar event.
#[derive(Debug, Clone, Copy, PartialEq, Eq, Structural)]
pub enum EventError {
    /// The date is not `YYYY-MM-DD` as `chrono` reads it.
    InvalidDate,
    /// The time is not `HH:MM` as `chrono` reads it.
    InvalidTime,
    /// The interview would end after the last instant that `chrono`
    /// represents.
    EndOutOfRange,
}

/// Whether an interview on `date` at `time` lasting `minutes` minutes ends
/// at an instant that `chrono` represents, when the date and time parse.
pub open spec fn schedule_fits(date: Seq<char>, time: Seq<char>, minutes: u32) -> bool {
    match (parsed_date(date), parsed_clock(time)) {
        (Some(d), Some(t)) => timestamp_of(d, t) + 60 * minutes <= MAX_TIMESTAMP,
        _ => true,
    }
}

/// The title of the calendar event of an interview.
pub open spec fn event_title(interview_type: Seq<char>, job_title: Seq<char>, company: Seq<char>) -> Seq<
    char,
> {
    interview_type + " Interview - "@ + job_title + " at "@ + company
}

/// The description of the calendar event of a scheduled interview.
pub open spec fn interview_description(i: ParsedInterview) -> Seq<char> {
    "Job: "@ + i.job_title@ + " at "@ + i.company@ + "\nType: "@ + i.interview_type@
        + "\n\nInterviewers: "@ + join(texts(i.interviewers@), ", "@) + "\n\nNotes: "@ + text_or(
        opt_text(i.notes),
        "None"@,
    )
}

/// Whether `e` is the calendar event of the interview `i` held on `d` at `t`.
pub open spec fn is_interview_event(i: ParsedInterview, d: CalendarDate, t: ClockTime, e: InterviewEvent) -> bool {
    &&& e.title@ == event_title(i.interview_type@, i.job_title@, i.company@)
    &&& e.description@ == interview_description(i)
    &&& e.start_time.secs() == timestamp_of(d, t)
    &&& e.start_time.nanos() == 0
    &&& ends_after(e.start_time, e.end_time, i.duration_minutes)
    &&& opt_text(e.meeting_link) == opt_text(i.meeting_link)
    &&& opt_text(e.location) == opt_text(i.location)
    &&& e.attendees@ == i.interviewers@
}

/// A copy of a list of strings.
fn copy_strings(v: &Vec<String>) -> (r: Vec<String>)
    ensures
        r@ == v@,
{
    let mut out: Vec<String> = Vec::new();
    let n = v.len();
    for i in 0..n
        invariant
            n == v@.len(),
            out@ == v@.take(i as int),
    {
        out.push(v[i].clone());
        assert(v@.take(i + 1) =~= v@.take(i as int).push(v@[i as int]));
    }
    assert(v@.take(n as int) =~= v@);
    out
}

/// A copy of an optional string.
fn copy_text(o: &Option<String>) -> (r: Option<String>)
    ensures
        opt_text(r) == opt_text(*o),
{
    match o {
        Some(s) => Some(s.clone()),
        None => None,
    }
}

/// `"<type> Interview - <title> at <company>"`.
fn make_event_title(interview_type: &str, job_title: &str, company: &str) -> (r: String)
    ensures
        r@ == event_title(interview_type@, job_title@, company@),
{
    let mut r = String::new();
    r.append(interview_type);
    r.append(" Interview - ");
    r.append(job_title);
    r.append(" at ");
    r.append(company);
    r
}

/// Create an interview event from parsed interview data: the date and
/// time are read as UTC; the event has the interview's link, location and
/// interviewers.
pub fn create_interview_event(interview: &ParsedInterview) -> (r: Result<InterviewEvent, EventError>)
    requires
        schedule_fits(interview.date@, interview.time@, interview.duration_minutes),
    ensures
        match (parsed_date(interview.date@), parsed_clock(interview.time@)) {
            (None, _) => r == Err::<InterviewEvent, EventError>(EventError::InvalidDate),
            (Some(_), None) => r == Err::<InterviewEvent, EventError>(EventError::InvalidTime),
            (Some(d), Some(t)) => r matches Ok(e) && is_interview_event(*interview, d, t, e),
        },
{
    let date = match parse_date(interview.date.as_str()) {
        Some(d) => d,
        None => return Err(EventError::InvalidDate),
    };
    let time = match parse_clock(interview.time.as_str()) {
        Some(t) => t,
        None => return Err(EventError::InvalidTime),
    };
    let start_time = UtcDateTime::from_date_and_clock(date, time);
    let title = make_event_title(
        interview.interview_type.as_str(),
        interview.job_title.as_str(),
        interview.company.as_str(),
    );
    let mut description = String::new();
    description.append("Job: ");
    description.append(interview.job_title.as_str());
    description.append(" at ");
    description.append(interview.company.as_str());
    description.append("\nType: ");
    description.append(interview.interview_type.as_str());
    description.append("\n\nInterviewers: ");
    let names = join_strings(&interview.interviewers, ", ");
    description.append(names.as_str());
    description.append("\n\nNotes: ");
    match &interview.notes {
        Some(n) => description.append(n.as_str()),
        None => description.append("None"),
    }
    let mut event = InterviewEvent::new(title, description, start_time, interview.duration_minutes);
    match &interview.meeting_link {
        Some(link) => {
            event = event.with_meeting_link(link.clone());
        },
        None => {},
    }
    match &interview.location {
        Some(location) => {
            event = event.with_location(location.clone());
        },
        None => {},
    }
    event = event.with_attendees(copy_strings(&interview.interviewers));
    Ok(event)
}

/// Whether the start at `d`, `t` plus `minutes` minutes stays in range.
fn fits(d: CalendarDate, t: ClockTime, minutes: u32) -> (r: bool)
    requires
        crate::time::valid_date(d),
        crate::time::valid_clock(t),
    ensures
        r == (timestamp_of(d, t) + 60 * minutes <= MAX_TIMESTAMP),
{
    let start = UtcDateTime::from_date_and_clock(d, t).timestamp();
    let span: i64 = 60 * (minutes as i64);
    start <= MAX_TIMESTAMP - span
}

/// The calendar event of an interview when its date and time parse and it
/// ends in range; which of these fails otherwise.
pub fn checked_interview_event(interview: &ParsedInterview) -> (r: Result<InterviewEvent, EventError>)
    ensures
        match (parsed_date(interview.date@), parsed_clock(interview.time@)) {
            (None, _) => r == Err::<InterviewEvent, EventError>(EventError::InvalidDate),
            (Some(_), None) => r == Err::<InterviewEvent, EventError>(EventError::InvalidTime),
            (Some(d), Some(t)) => if timestamp_of(d, t) + 60 * interview.duration_minutes
                <= MAX_TIMESTAMP {
                r matches Ok(e) && is_interview_event(*interview, d, t, e)
            } else {
                r == Err::<InterviewEvent, EventError>(EventError::EndOutOfRange)
            },
        },
{
    let date = match parse_date(interview.date.as_str()) {
        Some(d) => d,
        None => return Err(EventError::InvalidDate),
    };
    let time = match parse_clock(interview.time.as_str()) {
        Some(t) => t,
        None => return Err(EventError::InvalidTime),
    };
    if !fits(date, time, interview.duration_minutes) {
        return Err(EventError::EndOutOfRange);
    }
    create_interview_event(interview)
}

/// The description of an exported interview.
pub open spec fn export_description(title: Seq<char>, company: Seq<char>, interview_type: Seq<char>) -> Seq<
    char,
> {
    "Job: "@ + title + " at "@ + company + "\nType: "@ + interview_type
}

/// Whether `e` is the exported event of an interview held on `d` at `t`.
pub open spec fn is_export_event(
    title: Seq<char>,
    company: Seq<char>,
    d: CalendarDate,
    t: ClockTime,
    duration: u32,
    interview_type: Seq<char>,
    meeting_link: Option<Seq<char>>,
    location: Option<Seq<char>>,
    e: InterviewEvent,
) -> bool {
    &&& e.title@ == event_title(interview_type, title, company)
    &&& e.description@ == export_description(title, company, interview_type)
    &&& e.start_time.secs() == timestamp_of(d, t)
    &&& e.start_time.nanos() == 0
    &&& ends_after(e.start_time, e.end_time, duration)
    &&& opt_text(e.meeting_link) == meeting_link
    &&& opt_text(e.location) == location
    &&& e.attendees@.len() == 0
}

/// The text of an optional borrowed string.
pub open spec fn opt_str(o: Option<&str>) -> Option<Seq<char>> {
    match o {
        Some(s) => Some(s@),
        None => None,
    }
}

/// An owned copy of an optional borrowed string.
fn own_text(o: Option<&str>) -> (r: Option<String>)
    ensures
        opt_text(r) == opt_str(o),
{
    match o {
        Some(s) => {
            let mut t = String::new();
            t.append(s);
            Some(t)
        },
        None => None,
    }
}

/// The event for exporting an interview given on the command line: the
/// date and time are read as UTC, and the event has the given link and
/// location.
pub fn export_event(
    title: &str,
    company: &str,
    date: &str,
    time: &str,
    duration: u32,
    interview_type: &str,
    meeting_link: Option<&str>,
    location: Option<&str>,
) -> (r: Result<InterviewEvent, EventError>)
    requires
        schedule_fits(date@, time@, duration),
    ensures
        match (parsed_date(date@), parsed_clock(time@)) {
            (None, _) => r == Err::<InterviewEvent, EventError>(EventError::InvalidDate),
            (Some(_), None) => r == Err::<InterviewEvent, EventError>(EventError::InvalidTime),
            (Some(d), Some(t)) => r matches Ok(e) && is_export_event(
                title@,
                company@,
                d,
                t,
                duration,
                interview_type@,
                opt_str(meeting_link),
                opt_str(location),
                e,
            ),
        },
{
    let d = match parse_date(date) {
        Some(d) => d,
        None => return Err(EventError::InvalidDate),
    };
    let t = match parse_clock(time) {
        Some(t) => t,
        None => return Err(EventError::InvalidTime),
    };
    let start_time = UtcDateTime::from_date_and_clock(d, t);
    let event_title = make_event_title(interview_type, title, company);
    let mut description = String::new();
    description.append("Job: ");
    description.append(title);
    description.append(" at ");
    description.append(company);
    description.append("\nType: ");
    description.append(interview_type);
    let mut event = InterviewEvent::new(event_title, description, start_time, duration);
    match own_text(meeting_link) {
        Some(link) => {
            event = event.with_meeting_link(link);
        },
        None => {},
    }
    match own_text(location) {
        Some(loc) => {
            event = event.with_location(loc);
        },
        None => {},
    }
    Ok(event)
}

/// The exported event when the date and time parse and it ends in range;
/// which of these fails otherwise.
pub fn checked_export_event(
    title: &str,
    company: &str,
    date: &str,
    time: &str,
    duration: u32,
    interview_type: &str,
    meeting_link: Option<&str>,
    location: Option<&str>,
) -> (r: Result<InterviewEvent, EventError>)
    ensures
        match (parsed_date(date@), parsed_clock(time@)) {
            (None, _) => r == Err::<InterviewEvent, EventError>(EventError::InvalidDate),
            (Some(_), None) => r == Err::<InterviewEvent, EventError>(EventError::InvalidTime),
            (Some(d), Some(t)) => if timestamp_of(d, t) + 60 * duration <= MAX_TIMESTAMP {
                r matches Ok(e) && is_export_event(
                    title@,
                    company@,
                    d,
                    t,
                    duration,
                    interview_type@,
                    opt_str(meeting_link),
                    opt_str(location),
                    e,
                )
            } else {
                r == Err::<InterviewEvent, EventError>(EventError::EndOutOfRange)
            },
        },
{
    let d = match parse_date(date) {
        Some(d) => d,
        None => return Err(EventError::InvalidDate),
    };
    let t = match parse_clock(time) {
        Some(t) => t,
        None => return Err(EventError::InvalidTime),
    };
    if !fits(d, t, duration) {
        return Err(EventError::EndOutOfRange);
    }
    export_event(title, company, date, time, duration, interview_type, meeting_link, location)
}

/// A one-message conversation with a test recruiter, for trying out replies.
pub fn mock_conversation(message: &str) -> (r: Conversation)
    ensures
        r.id@ == "test-conv"@,
        texts(r.participants@) == seq!["Test Recruiter"@],
        r.messages@.len() == 1,
        r.messages@[0].id@ == "test-msg"@,
        r.messages@[0].content@ == message@,
        r.messages@[0].sender_name@ == "Test Recruiter"@,
        r.messages@[0].sender_id@ == "test-recruiter"@,
        r.messages@[0].direction == MessageDirection::Received,
        !r.messages@[0].is_read,
        !r.has_unread,
{
    let mut id = String::new();
    id.append("test-conv");
    let mut recruiter = String::new();
    recruiter.append("Test Recruiter");
    let participants = vec![recruiter];
    assert(texts(participants@) =~= seq!["Test Recruiter"@]);
    let mut conversation = Conversation::new(id, participants);
    let mut msg_id = String::new();
    msg_id.append("test-msg");
    let mut content = String::new();
    content.append(message);
    let mut sender_name = String::new();
    sender_name.append("Test Recruiter");
    let mut sender_id = String::new();
    sender_id.append("test-recruiter");
    conversation.messages.push(
        Message {
            id: msg_id,
            content,
            sender_name,
            sender_id,
            direction: MessageDirection::Received,
            timestamp: UtcDateTime::now(),
            is_read: false,
        },
    );
    conversation
}

/// The line that lists a conversation: `- <participants> (<id>)`, marked
/// ` [UNREAD]` when it has unread messages.
pub open spec fn listing_line(c: Conversation) -> Seq<char> {
    "- "@ + join(texts(c.participants@), ", "@) + " ("@ + c.id@ + ")"@ + if c.has_unread {
        " [UNREAD]"@
    } else {
        seq![]
    }
}

/// The line that lists a conversation.
pub fn conversation_listing(c: &Conversation) -> (r: String)
    ensures
        r@ == listing_line(*c),
{
    let mut r = String::new();
    r.append("- ");
    let names = join_strings(&c.participants, ", ");
    r.append(names.as_str());
    r.append(" (");
    r.append(c.id.as_str());
    r.append(")");
    let ghost before = r@;
    if c.has_unread {
        r.append(" [UNREAD]");
    } else {
        assert(before + Seq::<char>::empty() =~= before);
    }
    r
}

/// What becomes of an interview when a calendar is at hand: its event, when
/// its date and time parse and it ends in range; none otherwise.
pub open spec fn interview_event_outcome(i: ParsedInterview, e: Option<InterviewEvent>) -> bool {
    match (parsed_date(i.date@), parsed_clock(i.time@)) {
        (Some(d), Some(t)) => if timestamp_of(d, t) + 60 * i.duration_minutes <= MAX_TIMESTAMP {
            e matches Some(ev) && is_interview_event(i, d, t, ev)
        } else {
            e is None
        },
        _ => e is None,
    }
}

/// What the bot does for one conversation once the assistant has replied:
/// the calendar event to create, if any, and what to do with the reply.
#[derive(Debug, Clone)]
pub struct ConversationPlan {
    pub calendar_event: Option<InterviewEvent>,
    pub reply: ReplyPlan,
}

/// Decides what the bot does with a reply: an interview in it becomes a
/// calendar event when a calendar is available and the interview reads as
/// one; the reply is sent unless this is a dry run or it is empty.
pub fn plan_conversation(response: &AIResponse, calendar_available: bool, dry_run: bool) -> (r:
    ConversationPlan)
    ensures
        r.reply == reply_plan(dry_run, response.message@),
        match response.interview {
            Some(i) => if calendar_available {
                interview_event_outcome(i, r.calendar_event)
            } else {
                r.calendar_event is None
            },
            None => r.calendar_event is None,
        },
{
    let calendar_event = match &response.interview {
        Some(i) => {
            if calendar_available {
                match checked_interview_event(i) {
                    Ok(e) => Some(e),
                    Err(_) => None,
                }
            } else {
                None
            }
        },
        None => None,
    };
    ConversationPlan { calendar_event, reply: plan_reply(dry_run, response.message.as_str()) }
}

} // verus!
