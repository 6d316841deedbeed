use linked_chat_bot::linkedin::client::{
    classify_login_url, conversations_from_page_data, LinkedInError, LinkedInSession, LoginOutcome,
};
use linked_chat_bot::linkedin::{
    Conversation, InterviewDetails, JobOpportunity, LinkedInProfile, Message, MessageDirection,
    Position,
};
use linked_chat_bot::bot::select_unread;
use linked_chat_bot::time::UtcDateTime;

#[test]
fn login_urls() {
    assert_eq!(classify_login_url("https://www.linkedin.com/feed/"), LoginOutcome::LoggedIn);
    assert_eq!(classify_login_url("https://www.linkedin.com/mynetwork/"), LoginOutcome::LoggedIn);
    assert_eq!(classify_login_url("https://www.linkedin.com/checkpoint/lg"), LoginOutcome::VerificationRequired);
    assert_eq!(classify_login_url("https://x/challenge"), LoginOutcome::VerificationRequired);
    assert_eq!(classify_login_url("https://www.linkedin.com/login"), LoginOutcome::Failed);
}

#[test]
fn session_login() {
    let mut s = LinkedInSession::new();
    assert!(!s.is_logged_in());
    assert_eq!(s.ensure_logged_in(), Err(LinkedInError::NotLoggedIn));
    let err = s.finish_login("https://www.linkedin.com/login?x").unwrap_err();
    assert_eq!(err.message(), "Login may have failed. Current URL: https://www.linkedin.com/login?x");
    assert!(!s.is_logged_in());
    assert_eq!(s.finish_login("https://www.linkedin.com/checkpoint"), Err(LinkedInError::VerificationRequired));
    assert!(s.finish_login("https://www.linkedin.com/feed/").is_ok());
    assert!(s.is_logged_in());
    assert!(s.ensure_logged_in().is_ok());
    assert_eq!(LinkedInError::NotLoggedIn.message(), "Not logged in to LinkedIn");
}

#[test]
fn profile_from_page() {
    let p = LinkedInProfile::from_page_data(Some(
        r#"{"name":"Jane Doe","headline":"Engineer","location":"","profile_url":"https://in/jane","x":1}"#,
    ));
    assert_eq!(p.name, "Jane Doe");
    assert_eq!(p.headline.as_deref(), Some("Engineer"));
    assert_eq!(p.location.as_deref(), Some(""));
    assert_eq!(p.profile_url, "https://in/jane");
    assert!(p.id.is_empty());
    assert!(p.skills.is_empty());
    let missing = LinkedInProfile::from_page_data(Some(r#"{"name": 5}"#));
    assert_eq!(missing.name, "");
    assert!(missing.headline.is_none());
    let garbage = LinkedInProfile::from_page_data(Some("not json"));
    assert_eq!(garbage.name, "");
    let none = LinkedInProfile::from_page_data(None);
    assert_eq!(none.profile_url, "");
}

#[test]
fn conversations_from_page() {
    let cs = conversations_from_page_data(Some(
        r#"[{"id":"conv-0","participant":"Ann","preview":"hi"},{"id":"conv-1"},7]"#,
    ));
    assert_eq!(cs.len(), 3);
    assert_eq!(cs[0].id, "conv-0");
    assert_eq!(cs[0].participants, vec!["Ann".to_string()]);
    assert_eq!(cs[1].participants, vec!["".to_string()]);
    assert_eq!(cs[2].id, "");
    assert!(cs.iter().all(|c| c.messages.is_empty() && !c.has_unread));
    assert!(conversations_from_page_data(Some("{}")).is_empty());
    assert!(conversations_from_page_data(None).is_empty());
}

#[test]
fn unread_marker_of_listed_conversations() {
    let cs = conversations_from_page_data(Some(
        r#"[{"id":"conv-0","participant":"Ann","unread":true},{"id":"conv-1","participant":"Bob","unread":false},{"id":"conv-2","participant":"Cy","unread":"yes"},{"id":"conv-3","participant":"Di","unread":true}]"#,
    ));
    let unread: Vec<bool> = cs.iter().map(|c| c.has_unread).collect();
    assert_eq!(unread, vec![true, false, false, true]);
    let round = select_unread(cs, 1);
    assert_eq!(round.len(), 1);
    assert_eq!(round[0].id, "conv-0");
}

#[test]
fn summary_of_profile() {
    let mut p = LinkedInProfile::default();
    p.name = "Jane".to_string();
    assert_eq!(p.to_summary(), "Name: Jane\n");
    p.headline = Some("Engineer".to_string());
    p.location = Some("Paris".to_string());
    p.current_position = Some(Position {
        title: "SWE".to_string(),
        company: "Acme".to_string(),
        location: None,
        start_date: None,
        end_date: None,
        description: None,
    });
    p.skills = vec!["Rust".to_string(), "Go".to_string()];
    p.summary = Some("Builds things".to_string());
    assert_eq!(
        p.to_summary(),
        "Name: Jane\nHeadline: Engineer\nLocation: Paris\nCurrent Position: SWE at Acme\nKey Skills: Rust, Go\n\nAbout: Builds things\n"
    );
}

fn message(content: &str, direction: MessageDirection, read: bool, ts: i64) -> Message {
    Message {
        id: "m".to_string(),
        content: content.to_string(),
        sender_name: "Jane Recruiter".to_string(),
        sender_id: "jane".to_string(),
        direction,
        timestamp: UtcDateTime::from_timestamp(ts, 0).unwrap(),
        is_read: read,
    }
}

#[test]
fn context_and_unread() {
    let mut c = Conversation::new("c".to_string(), vec!["Jane Recruiter".to_string(), "Bob".to_string()]);
    c.messages.push(message("Hello!", MessageDirection::Received, true, 1734256800));
    c.messages.push(message("Hi Jane", MessageDirection::Sent, false, 1734256860));
    c.messages.push(message("Free Monday?", MessageDirection::Received, false, 1734256920));
    assert_eq!(
        c.to_context_string(),
        "Conversation with: Jane Recruiter, Bob\n\n[2024-12-15 10:00] Jane Recruiter: Hello!\n[2024-12-15 10:01] You: Hi Jane\n[2024-12-15 10:02] Jane Recruiter: Free Monday?\n"
    );
    let unread: Vec<&str> = c.unread_messages().iter().map(|m| m.content.as_str()).collect();
    assert_eq!(unread, vec!["Hi Jane", "Free Monday?"]);
    assert_eq!(c.last_message().unwrap().content, "Free Monday?");
}

#[test]
fn opportunities_and_details() {
    let a = JobOpportunity::new("T".to_string(), "C".to_string());
    let b = JobOpportunity::new("T".to_string(), "C".to_string());
    assert_ne!(a.id, b.id);
    assert_eq!(a.id.len(), 36);
    assert!(a.location.is_none() && a.recruiter.is_none());
    let d = InterviewDetails::new("job".to_string(), "phone".to_string(), UtcDateTime::from_timestamp(0, 0).unwrap(), 30);
    assert_eq!(d.job_id, "job");
    assert_eq!(d.duration_minutes, 30);
    assert!(d.interviewers.is_empty() && d.notes.is_none());
}
