use linked_chat_bot::ai::AIAssistant;

fn assistant() -> AIAssistant {
    AIAssistant::new("test-key", "gpt-4")
}

const INTERVIEW: &str = r#"Great, see you then!

```json
{
  "action": "schedule_interview",
  "interview": {
    "job_title": "Backend Engineer",
    "company": "Acme",
    "interview_type": "video",
    "date": "2024-12-15",
    "time": "10:00",
    "timezone": "UTC",
    "duration_minutes": 45,
    "meeting_link": "https://meet.example/abc",
    "location": null,
    "interviewers": ["Ann", "Bob"],
    "notes": "Bring questions"
  }
}
```"#;

#[test]
fn interview_block_is_read() {
    let parsed = assistant().parse_response(INTERVIEW);
    assert_eq!(parsed.message, "Great, see you then!");
    assert!(parsed.job_opportunity.is_none());
    let i = parsed.interview.expect("interview");
    assert_eq!(i.job_title, "Backend Engineer");
    assert_eq!(i.company, "Acme");
    assert_eq!(i.interview_type, "video");
    assert_eq!(i.date, "2024-12-15");
    assert_eq!(i.time, "10:00");
    assert_eq!(i.timezone.as_deref(), Some("UTC"));
    assert_eq!(i.duration_minutes, 45);
    assert_eq!(i.meeting_link.as_deref(), Some("https://meet.example/abc"));
    assert!(i.location.is_none());
    assert_eq!(i.interviewers, vec!["Ann".to_string(), "Bob".to_string()]);
    assert_eq!(i.notes.as_deref(), Some("Bring questions"));
}

#[test]
fn job_details_and_fresh_id() {
    let reply = "ok ```json {\"action\":\"extract_job\",\"job\":{\"title\":\"T\",\"company\":\"C\",\"description\":\"D\",\"extra\":1}} ```";
    let parsed = assistant().parse_response(reply);
    assert_eq!(parsed.message, "ok");
    let job = parsed.job_opportunity.expect("job");
    assert_eq!(job.title, "T");
    assert_eq!(job.company, "C");
    assert_eq!(job.description.as_deref(), Some("D"));
    assert!(job.location.is_none());
    assert!(job.work_type.is_none());
    assert!(job.salary_range.is_none());
    assert!(job.recruiter.is_none());
    let id: Vec<char> = job.id.chars().collect();
    assert_eq!(id.len(), 36);
    assert_eq!(id[8], '-');
    assert_eq!(id[13], '-');
    assert_eq!(id[14], '4');
    assert_eq!(id[18], '-');
    assert_eq!(id[23], '-');
    assert!(matches!(id[19], '8' | '9' | 'a' | 'b'));
}

#[test]
fn last_block_of_each_kind_wins() {
    let reply = [
        "```json {\"action\":\"extract_job\",\"job\":{\"title\":\"First\",\"company\":\"A\"}} ```",
        " mid ",
        "```json {\"action\":\"extract_job\",\"job\":{\"title\":\"Second\",\"company\":\"B\"}} ```",
        " ```json {\"action\":\"extract_job\",\"job\":{\"company\":\"no title\"}} ```",
    ]
    .join("");
    let reply = reply.as_str();
    let parsed = assistant().parse_response(reply);
    assert_eq!(parsed.message, "mid");
    let job = parsed.job_opportunity.expect("job");
    assert_eq!(job.title, "Second");
    assert_eq!(job.company, "B");
}

#[test]
fn blocks_that_do_not_read_are_still_removed() {
    let reply = "a ```json not json ``` b ```json {\"action\":\"other\"} ``` c ```json [1] ```";
    let parsed = assistant().parse_response(reply);
    assert_eq!(parsed.message, "a  b  c");
    assert!(parsed.job_opportunity.is_none());
    assert!(parsed.interview.is_none());
}

#[test]
fn job_from_array_of_fields() {
    let reply = "```json {\"action\":\"extract_job\",\"job\":[\"T\",\"C\",null,\"remote\",null,null]} ```";
    let job = assistant().parse_response(reply).job_opportunity.expect("job");
    assert_eq!(job.title, "T");
    assert_eq!(job.company, "C");
    assert_eq!(job.work_type.as_deref(), Some("remote"));
    let short = "```json {\"action\":\"extract_job\",\"job\":[\"T\",\"C\",null]} ```";
    assert!(assistant().parse_response(short).job_opportunity.is_none());
}

#[test]
fn interview_needs_integer_duration_and_interviewers() {
    let float = INTERVIEW.replace("\"duration_minutes\": 45", "\"duration_minutes\": 45.0");
    assert!(assistant().parse_response(&float).interview.is_none());
    let negative = INTERVIEW.replace("\"duration_minutes\": 45", "\"duration_minutes\": -5");
    assert!(assistant().parse_response(&negative).interview.is_none());
    let too_big = INTERVIEW.replace("\"duration_minutes\": 45", "\"duration_minutes\": 4294967296");
    assert!(assistant().parse_response(&too_big).interview.is_none());
    let no_list = INTERVIEW.replace("\"interviewers\": [\"Ann\", \"Bob\"],", "");
    assert!(assistant().parse_response(&no_list).interview.is_none());
    let bad_list = INTERVIEW.replace("[\"Ann\", \"Bob\"]", "[\"Ann\", 2]");
    assert!(assistant().parse_response(&bad_list).interview.is_none());
    let no_optionals = INTERVIEW
        .replace("\"timezone\": \"UTC\",", "")
        .replace("\"notes\": \"Bring questions\"", "\"n\": 0");
    let i = assistant().parse_response(&no_optionals).interview.expect("interview");
    assert!(i.timezone.is_none());
    assert!(i.notes.is_none());
}

#[test]
fn action_must_be_a_string() {
    let reply = "```json {\"action\":1,\"job\":{\"title\":\"T\",\"company\":\"C\"}} ```";
    assert!(assistant().parse_response(reply).job_opportunity.is_none());
}

#[test]
fn every_copy_of_a_block_is_removed() {
    let block = "```json {} ```";
    let reply = format!("x{}y{}z", block, block);
    let parsed = assistant().parse_response(&reply);
    assert_eq!(parsed.message, "xyz");
}
