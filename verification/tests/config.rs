use linked_chat_bot::config::{
    default_calendar_id, default_model, Config, ConfigError, EnvVars, RequiredVar, UserProfile,
};

#[test]
fn test_default_model() {
    assert_eq!(default_model(), "gpt-4");
}

#[test]
fn test_default_calendar_id() {
    assert_eq!(default_calendar_id(), "primary");
}

#[test]
fn test_user_profile_default() {
    let profile = UserProfile::default();
    assert!(profile.name.is_empty());
    assert!(profile.email.is_empty());
    assert!(profile.phone.is_none());
}

fn vars() -> EnvVars {
    EnvVars {
        linkedin_email: Some("me@example.com".to_string()),
        linkedin_password: Some("secret".to_string()),
        openai_api_key: Some("sk-test".to_string()),
        openai_model: None,
        google_credentials_path: None,
        google_calendar_id: None,
        user_name: None,
        user_email: None,
        user_phone: Some("+1-555".to_string()),
        user_location: None,
        user_availability: None,
        user_current_role: None,
        user_target_role: Some("Staff Engineer".to_string()),
        user_salary_expectations: None,
        user_notes: None,
    }
}

#[test]
fn env_defaults_apply() {
    let config = Config::from_env_vars(vars()).unwrap();
    assert_eq!(config.linkedin.email, "me@example.com");
    assert_eq!(config.linkedin.password, "secret");
    assert_eq!(config.openai.api_key, "sk-test");
    assert_eq!(config.openai.model, "gpt-4");
    assert_eq!(config.google_calendar.credentials_path, "google_credentials.json");
    assert_eq!(config.google_calendar.calendar_id, "primary");
    assert_eq!(config.user_profile.name, "");
    assert_eq!(config.user_profile.email, "");
    assert_eq!(config.user_profile.phone.as_deref(), Some("+1-555"));
    assert_eq!(config.user_profile.target_role.as_deref(), Some("Staff Engineer"));
    assert!(config.user_profile.notes.is_none());
}

#[test]
fn env_values_override_defaults() {
    let mut v = vars();
    v.openai_model = Some("gpt-4o".to_string());
    v.google_calendar_id = Some("work".to_string());
    v.google_credentials_path = Some("/etc/creds.json".to_string());
    v.user_name = Some("Ada".to_string());
    let config = Config::from_env_vars(v).unwrap();
    assert_eq!(config.openai.model, "gpt-4o");
    assert_eq!(config.google_calendar.calendar_id, "work");
    assert_eq!(config.google_calendar.credentials_path, "/etc/creds.json");
    assert_eq!(config.user_profile.name, "Ada");
}

#[test]
fn env_missing_email_is_reported_first() {
    let mut v = vars();
    v.linkedin_email = None;
    v.openai_api_key = None;
    let err = Config::from_env_vars(v).unwrap_err();
    assert_eq!(err, ConfigError::MissingVariable(RequiredVar::LinkedInEmail));
    assert_eq!(err.message(), "LINKEDIN_EMAIL environment variable not set");
}

#[test]
fn env_missing_password() {
    let mut v = vars();
    v.linkedin_password = None;
    let err = Config::from_env_vars(v).unwrap_err();
    assert_eq!(err, ConfigError::MissingVariable(RequiredVar::LinkedInPassword));
    assert_eq!(err.message(), "LINKEDIN_PASSWORD environment variable not set");
}

#[test]
fn env_missing_api_key() {
    let mut v = vars();
    v.openai_api_key = None;
    let err = Config::from_env_vars(v).unwrap_err();
    assert_eq!(err, ConfigError::MissingVariable(RequiredVar::OpenAIApiKey));
    assert_eq!(err.message(), "OPENAI_API_KEY environment variable not set");
}
