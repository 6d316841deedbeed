use linked_chat_bot::ai::AIAssistant;

#[test]
fn test_parse_response_simple() {
    let assistant = AIAssistant::new("test-key", "gpt-4");
    let response = "Thank you for reaching out! I'd love to learn more about this opportunity.";

    let parsed = assistant.parse_response(response);
    assert_eq!(parsed.message, response);
    assert!(parsed.job_opportunity.is_none());
    assert!(parsed.interview.is_none());
}

#[test]
fn test_parse_response_with_job() {
    let assistant = AIAssistant::new("test-key", "gpt-4");
    let response = r#"Thank you for the details!

```json
{
  "action": "extract_job",
  "job": {
    "title": "Senior Software Engineer",
    "company": "TechCorp",
    "location": "San Francisco",
    "work_type": "hybrid",
    "salary_range": "$150k-$200k"
  }
}
```

I'm very interested in this position."#;

    let parsed = assistant.parse_response(response);
    assert!(parsed.message.contains("Thank you"));
    assert!(parsed.message.contains("interested"));
    assert!(parsed.job_opportunity.is_some());

    let job = parsed.job_opportunity.unwrap();
    assert_eq!(job.title, "Senior Software Engineer");
    assert_eq!(job.company, "TechCorp");
}

use linked_chat_bot::ai::assistant::ChatRequest;
use linked_chat_bot::config::UserProfile;
use linked_chat_bot::linkedin::Conversation;

#[test]
fn profile_and_preferences_context() {
    let assistant = AIAssistant::new("test-key", "gpt-4");
    let mut user = UserProfile::default();
    user.name = "Jo".to_string();
    user.email = "jo@x.io".to_string();
    user.location = Some("Berlin".to_string());
    assert_eq!(
        assistant.build_profile_context(&user, Some("Name: Jo\n")),
        "Name: Jo\nEmail: jo@x.io\nLocation: Berlin\n\nLinkedIn Profile:\nName: Jo\n\n"
    );
    assert_eq!(assistant.build_preferences_context(&user), "No specific preferences provided.");
    user.target_role = Some("Staff".to_string());
    user.notes = Some("Remote".to_string());
    assert_eq!(
        assistant.build_preferences_context(&user),
        "Target Role: Staff\nAdditional Notes: Remote\n"
    );
}

#[test]
fn request_for_a_conversation() {
    let assistant = AIAssistant::new("test-key", "gpt-4o");
    let user = UserProfile::default();
    let conversation = Conversation::new("c".to_string(), vec!["Ann".to_string()]);
    let ChatRequest { model, system_prompt, user_message, max_tokens } =
        assistant.prepare_request(&conversation, &user, None);
    assert_eq!(model, "gpt-4o");
    assert_eq!(max_tokens, 1024);
    assert!(system_prompt.ends_with("## User Profile\nName: \nEmail: \n\n\n## User Preferences\nNo specific preferences provided."));
    assert_eq!(
        user_message,
        "Here is the conversation so far:\n\nConversation with: Ann\n\n\n\nPlease generate an appropriate response."
    );
}

#[test]
fn first_choice_text() {
    assert_eq!(AIAssistant::reply_text(&vec![Some("a".to_string()), Some("b".to_string())]), "a");
    assert_eq!(AIAssistant::reply_text(&vec![None, Some("b".to_string())]), "");
    assert_eq!(AIAssistant::reply_text(&Vec::new()), "");
}
