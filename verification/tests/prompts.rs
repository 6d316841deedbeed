use linked_chat_bot::ai::get_system_prompt;
use linked_chat_bot::ai::prompts::RECRUITER_RESPONSE_PROMPT;

#[test]
fn test_get_system_prompt() {
    let profile = "Name: John Doe\nRole: Software Engineer";
    let preferences = "Looking for remote positions";
    let prompt = get_system_prompt(profile, preferences);

    assert!(prompt.contains("John Doe"));
    assert!(prompt.contains("remote positions"));
    assert!(prompt.contains("schedule_interview"));
}

#[test]
fn system_prompt_layout() {
    let prompt = get_system_prompt("P", "Q");
    let expected = format!(
        "{}\n\n## User Profile\nP\n\n## User Preferences\nQ",
        RECRUITER_RESPONSE_PROMPT
    );
    assert_eq!(prompt, expected);
    assert!(prompt.starts_with(RECRUITER_RESPONSE_PROMPT));
    assert!(prompt.contains("extract_job"));
}
