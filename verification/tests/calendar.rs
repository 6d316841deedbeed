use linked_chat_bot::calendar::InterviewEvent;
use linked_chat_bot::time::UtcDateTime;

#[test]
fn test_interview_event_creation() {
    let event = InterviewEvent::new(
        "Interview at TechCorp".to_string(),
        "Software Engineer position".to_string(),
        UtcDateTime::now(),
        60,
    )
    .with_location("123 Main St".to_string())
    .with_meeting_link("https://zoom.us/j/123456".to_string())
    .with_attendees(vec!["recruiter@example.com".to_string()]);

    assert_eq!(event.title, "Interview at TechCorp");
    assert!(event.location.is_some());
    assert!(event.meeting_link.is_some());
    assert_eq!(event.attendees.len(), 1);
}
