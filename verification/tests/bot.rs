use linked_chat_bot::ai::{AIAssistant, ParsedInterview};
use linked_chat_bot::bot::{
    checked_export_event, checked_interview_event, conversation_listing, create_interview_event,
    export_event, mock_conversation, plan_conversation, plan_reply, select_unread, EventError,
    ReplyPlan,
};
use linked_chat_bot::linkedin::{Conversation, MessageDirection};

fn interview(date: &str, time: &str, minutes: u32) -> ParsedInterview {
    ParsedInterview {
        job_title: "Backend Engineer".to_string(),
        company: "Acme".to_string(),
        interview_type: "video".to_string(),
        date: date.to_string(),
        time: time.to_string(),
        timezone: None,
        duration_minutes: minutes,
        meeting_link: Some("https://meet.example/x".to_string()),
        location: None,
        interviewers: vec!["Ann".to_string(), "Bob".to_string()],
        notes: None,
    }
}

#[test]
fn interview_becomes_event() {
    let event = create_interview_event(&interview("2024-03-01", "09:30", 60)).unwrap();
    assert_eq!(event.title, "video Interview - Backend Engineer at Acme");
    assert_eq!(
        event.description,
        "Job: Backend Engineer at Acme\nType: video\n\nInterviewers: Ann, Bob\n\nNotes: None"
    );
    assert_eq!(event.start_time.timestamp(), 1709285400);
    assert_eq!(event.end_time.timestamp(), 1709285400 + 3600);
    assert_eq!(event.meeting_link.as_deref(), Some("https://meet.example/x"));
    assert!(event.location.is_none());
    assert_eq!(event.attendees, vec!["Ann".to_string(), "Bob".to_string()]);
}

#[test]
fn interview_with_bad_date_or_time() {
    assert_eq!(create_interview_event(&interview("2024-13-01", "09:30", 60)).unwrap_err(), EventError::InvalidDate);
    assert_eq!(create_interview_event(&interview("2024-03-01", "9h30", 60)).unwrap_err(), EventError::InvalidTime);
    assert_eq!(checked_interview_event(&interview("x", "y", 60)).unwrap_err(), EventError::InvalidDate);
}

#[test]
fn interview_ending_out_of_range() {
    let late = interview("+262142-12-31", "23:00", 120);
    assert_eq!(checked_interview_event(&late).unwrap_err(), EventError::EndOutOfRange);
    let fine = interview("+262142-12-31", "23:00", 59);
    assert!(checked_interview_event(&fine).is_ok());
}

#[test]
fn exported_event() {
    let e = export_event("SWE", "TechCorp", "2024-12-15", "10:00", 30, "phone", None, Some("HQ")).unwrap();
    assert_eq!(e.title, "phone Interview - SWE at TechCorp");
    assert_eq!(e.description, "Job: SWE at TechCorp\nType: phone");
    assert_eq!(e.start_time.timestamp(), 1734256800);
    assert_eq!(e.end_time.timestamp(), 1734256800 + 1800);
    assert!(e.meeting_link.is_none());
    assert_eq!(e.location.as_deref(), Some("HQ"));
    assert!(e.attendees.is_empty());
    assert_eq!(
        checked_export_event("a", "b", "2024-12-15", "10", 30, "video", None, None).unwrap_err(),
        EventError::InvalidTime
    );
}

#[test]
fn reply_plans() {
    assert_eq!(plan_reply(true, "hello"), ReplyPlan::DryRun);
    assert_eq!(plan_reply(true, ""), ReplyPlan::DryRun);
    assert_eq!(plan_reply(false, "hello"), ReplyPlan::Send);
    assert_eq!(plan_reply(false, ""), ReplyPlan::Hold);
}

fn conv(id: &str, unread: bool) -> Conversation {
    let mut c = Conversation::new(id.to_string(), vec![format!("P{}", id)]);
    c.has_unread = unread;
    c
}

#[test]
fn round_takes_first_unread() {
    let cs = vec![conv("1", false), conv("2", true), conv("3", true), conv("4", false), conv("5", true)];
    let picked: Vec<String> = select_unread(cs, 2).into_iter().map(|c| c.id).collect();
    assert_eq!(picked, vec!["2".to_string(), "3".to_string()]);
    let cs = vec![conv("1", true), conv("2", false)];
    assert_eq!(select_unread(cs, 10).len(), 1);
    let cs = vec![conv("1", true)];
    assert!(select_unread(cs, 0).is_empty());
}

#[test]
fn conversation_plan() {
    let assistant = AIAssistant::new("k", "m");
    let reply = "See you! ```json {\"action\":\"schedule_interview\",\"interview\":{\"job_title\":\"J\",\"company\":\"C\",\"interview_type\":\"onsite\",\"date\":\"2024-12-15\",\"time\":\"10:00\",\"duration_minutes\":60,\"interviewers\":[]}} ```";
    let response = assistant.parse_response(reply);
    let plan = plan_conversation(&response, true, false);
    assert_eq!(plan.reply, ReplyPlan::Send);
    let e = plan.calendar_event.expect("event");
    assert_eq!(e.title, "onsite Interview - J at C");
    assert_eq!(e.start_time.timestamp(), 1734256800);
    let plan = plan_conversation(&response, false, true);
    assert_eq!(plan.reply, ReplyPlan::DryRun);
    assert!(plan.calendar_event.is_none());
}

#[test]
fn test_conversation_and_listing() {
    let c = mock_conversation("Hi there");
    assert_eq!(c.id, "test-conv");
    assert_eq!(c.participants, vec!["Test Recruiter".to_string()]);
    assert_eq!(c.messages.len(), 1);
    assert_eq!(c.messages[0].content, "Hi there");
    assert_eq!(c.messages[0].direction, MessageDirection::Received);
    assert_eq!(conversation_listing(&c), "- Test Recruiter (test-conv)");
    let mut u = conv("9", true);
    u.participants.push("Q".to_string());
    assert_eq!(conversation_listing(&u), "- P9, Q (9) [UNREAD]");
}
