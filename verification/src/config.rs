//! Configuration of the assistant: LinkedIn credentials, the OpenAI model,
//! the Google Calendar to write to, and the user's profile.
//!
//! A configuration is read from environment variables (with defaults for
//! the optional ones) or from a JSON file; reading them is the program's
//! part, and [`Config::from_env_vars`] decides what their values make.

use vstd::prelude::*;
use vstd::string::*;
use crate::text::{opt_text, text_or};

verus! {

broadcast use vstd::string::group_string_axioms;

/// Main application configuration.
#[derive(Debug, Clone)]
pub struct Config {
    /// LinkedIn credentials
    pub linkedin: LinkedInConfig,
    /// OpenAI API configuration
    pub openai: OpenAIConfig,
    /// Google Calendar configuration
    pub google_calendar: GoogleCalendarConfig,
    /// User profile information to share with recruiters
    pub user_profile: UserProfile,
}

/// LinkedIn login credentials.
#[derive(Debug, Clone)]
pub struct LinkedInConfig {
    /// LinkedIn email or username
    pub email: String,
    /// LinkedIn password
    pub password: String,
}

/// OpenAI API configuration.
#[derive(Debug, Clone)]
pub struct OpenAIConfig {
    /// OpenAI API key
    pub api_key: String,
    /// Model to use (default: gpt-4)
    pub model: String,
}

/// Google Calendar configuration.
#[derive(Debug, Clone)]
pub struct GoogleCalendarConfig {
    /// Path to Google OAuth2 credentials JSON file
    pub credentials_path: String,
    /// Calendar ID to add events to (default: primary)
    pub calendar_id: String,
}

/// User's profile information that can be shared with recruiters.
#[derive(Debug, Clone)]
pub struct UserProfile {
    /// User's full name
    pub name: String,
    /// User's email for contact
    pub email: String,
    /// User's phone number
    pub phone: Option<String>,
    /// User's location/timezone
    pub location: Option<String>,
    /// User's preferred availability for interviews
    pub availability: Option<String>,
    /// User's current role/title
    pub current_role: Option<String>,
    /// User's target role/title
    pub target_role: Option<String>,
    /// User's salary expectations
    pub salary_expectations: Option<String>,
    /// Additional notes or preferences
    pub notes: Option<String>,
}

impl Default for UserProfile {
    /// A profile with empty name and email and nothing else.
    fn default() -> (r: UserProfile)
        ensures
            r.name@.len() == 0,
            r.email@.len() == 0,
            r.phone is None,
            r.location is None,
            r.availability is None,
            r.current_role is None,
            r.target_role is None,
            r.salary_expectations is None,
            r.notes is None,
    {
        UserProfile {
            name: String::new(),
            email: String::new(),
            phone: None,
            location: None,
            availability: None,
            current_role: None,
            target_role: None,
            salary_expectations: None,
            notes: None,
        }
    }
}

/// The model used when none is configured.
pub fn default_model() -> (r: String)
    ensures
        r@ == "gpt-4"@,
{
    let mut r = String::new();
    r.append("gpt-4");
    r
}

/// The calendar written to when none is configured.
pub fn default_calendar_id() -> (r: String)
    ensures
        r@ == "primary"@,
{
    let mut r = String::new();
    r.append("primary");
    r
}

/// The credentials file used when none is configured.
pub fn default_credentials_path() -> (r: String)
    ensures
        r@ == "google_credentials.json"@,
{
    let mut r = String::new();
    r.append("google_credentials.json");
    r
}

/// The values of the environment variables that configure the assistant,
/// each `None` when the variable is not set (or not Unicode).
#[derive(Debug, Clone)]
pub struct EnvVars {
    /// `LINKEDIN_EMAIL`
    pub linkedin_email: Option<String>,
    /// `LINKEDIN_PASSWORD`
    pub linkedin_password: Option<String>,
    /// `OPENAI_API_KEY`
    pub openai_api_key: Option<String>,
    /// `OPENAI_MODEL`
    pub openai_model: Option<String>,
    /// `GOOGLE_CREDENTIALS_PATH`
    pub google_credentials_path: Option<String>,
    /// `GOOGLE_CALENDAR_ID`
    pub google_calendar_id: Option<String>,
    /// `USER_NAME`
    pub user_name: Option<String>,
    /// `USER_EMAIL`
    pub user_email: Option<String>,
    /// `USER_PHONE`
    pub user_phone: Option<String>,
    /// `USER_LOCATION`
    pub user_location: Option<String>,
    /// `USER_AVAILABILITY`
    pub user_availability: Option<String>,
    /// `USER_CURRENT_ROLE`
    pub user_current_role: Option<String>,
    /// `USER_TARGET_ROLE`
    pub user_target_role: Option<String>,
    /// `USER_SALARY_EXPECTATIONS`
    pub user_salary_expectations: Option<String>,
    /// `USER_NOTES`
    pub user_notes: Option<String>,
}

/// An environment variable that the configuration cannot do without.
#[derive(Debug, Clone, Copy, PartialEq, Eq, Structural)]
pub enum RequiredVar {
    LinkedInEmail,
    LinkedInPassword,
    OpenAIApiKey,
}

/// Why a configuration could not be made.
#[derive(Debug, Clone, PartialEq, Eq, Structural)]
pub enum ConfigError {
    /// A required environment variable is not set.
    MissingVariable(RequiredVar),
}

/// The name of a required variable.
pub open spec fn var_name(v: RequiredVar) -> Seq<char> {
    match v {
        RequiredVar::LinkedInEmail => "LINKEDIN_EMAIL"@,
        RequiredVar::LinkedInPassword => "LINKEDIN_PASSWORD"@,
        RequiredVar::OpenAIApiKey => "OPENAI_API_KEY"@,
    }
}

impl RequiredVar {
    /// The name of the variable.
    pub fn name(&self) -> (r: &'static str)
        ensures
            r@ == var_name(*self),
    {
        match self {
            RequiredVar::LinkedInEmail => "LINKEDIN_EMAIL",
            RequiredVar::LinkedInPassword => "LINKEDIN_PASSWORD",
            RequiredVar::OpenAIApiKey => "OPENAI_API_KEY",
        }
    }
}

impl ConfigError {
    /// The message of the error: `<NAME> environment variable not set`.
    pub fn message(&self) -> (r: String)
        ensures
            match *self {
                ConfigError::MissingVariable(v) => r@ == var_name(v) + " environment variable not set"@,
            },
    {
        match self {
            ConfigError::MissingVariable(v) => {
                let mut r = String::new();
                r.append(v.name());
                r.append(" environment variable not set");
                r
            },
        }
    }
}

/// The first required variable, in the order email, password, API key,
/// that `vars` does not set.
pub open spec fn first_missing(vars: EnvVars) -> Option<RequiredVar> {
    if vars.linkedin_email is None {
        Some(RequiredVar::LinkedInEmail)
    } else if vars.linkedin_password is None {
        Some(RequiredVar::LinkedInPassword)
    } else if vars.openai_api_key is None {
        Some(RequiredVar::OpenAIApiKey)
    } else {
        None
    }
}

/// Whether `c` is the configuration that `vars` describes: the required
/// values as set, the defaults `gpt-4`, `google_credentials.json` and
/// `primary` where those are not set, an empty name or email where those
/// are not set, and the optional profile fields as set.
pub open spec fn config_from_vars(vars: EnvVars, c: Config) -> bool {
    &&& opt_text(vars.linkedin_email) == Some(c.linkedin.email@)
    &&& opt_text(vars.linkedin_password) == Some(c.linkedin.password@)
    &&& opt_text(vars.openai_api_key) == Some(c.openai.api_key@)
    &&& c.openai.model@ == text_or(opt_text(vars.openai_model), "gpt-4"@)
    &&& c.google_calendar.credentials_path@ == text_or(
        opt_text(vars.google_credentials_path),
        "google_credentials.json"@,
    )
    &&& c.google_calendar.calendar_id@ == text_or(opt_text(vars.google_calendar_id), "primary"@)
    &&& c.user_profile.name@ == text_or(opt_text(vars.user_name), seq![])
    &&& c.user_profile.email@ == text_or(opt_text(vars.user_email), seq![])
    &&& c.user_profile.phone == vars.user_phone
    &&& c.user_profile.location == vars.user_location
    &&& c.user_profile.availability == vars.user_availability
    &&& c.user_profile.current_role == vars.user_current_role
    &&& c.user_profile.target_role == vars.user_target_role
    &&& c.user_profile.salary_expectations == vars.user_salary_expectations
    &&& c.user_profile.notes == vars.user_notes
}

/// `o`, or `default()` when it is `None`.
fn or_text(o: Option<String>, default: String) -> (r: String)
    ensures
        r@ == text_or(opt_text(o), default@),
{
    match o {
        Some(s) => s,
        None => default,
    }
}

impl Config {
    /// Make the configuration that the environment variables describe; it
    /// fails, naming the first required variable missing, exactly when
    /// `LINKEDIN_EMAIL`, `LINKEDIN_PASSWORD` or `OPENAI_API_KEY` is not set.
    pub fn from_env_vars(vars: EnvVars) -> (r: Result<Config, ConfigError>)
        ensures
            match r {
                Ok(c) => first_missing(vars) is None && config_from_vars(vars, c),
                Err(ConfigError::MissingVariable(v)) => first_missing(vars) == Some(v),
            },
    {
        let EnvVars {
            linkedin_email,
            linkedin_password,
            openai_api_key,
            openai_model,
            google_credentials_path,
            google_calendar_id,
            user_name,
            user_email,
            user_phone,
            user_location,
            user_availability,
            user_current_role,
            user_target_role,
            user_salary_expectations,
            user_notes,
        } = vars;
        let email = match linkedin_email {
            Some(s) => s,
            None => return Err(ConfigError::MissingVariable(RequiredVar::LinkedInEmail)),
        };
        let password = match linkedin_password {
            Some(s) => s,
            None => return Err(ConfigError::MissingVariable(RequiredVar::LinkedInPassword)),
        };
        let api_key = match openai_api_key {
            Some(s) => s,
            None => return Err(ConfigError::MissingVariable(RequiredVar::OpenAIApiKey)),
        };
        let linkedin = LinkedInConfig { email, password };
        let openai = OpenAIConfig { api_key, model: or_text(openai_model, default_model()) };
        let google_calendar = GoogleCalendarConfig {
            credentials_path: or_text(google_credentials_path, default_credentials_path()),
            calendar_id: or_text(google_calendar_id, default_calendar_id()),
        };
        let user_profile = UserProfile {
            name: or_text(user_name, String::new()),
            email: or_text(user_email, String::new()),
            phone: user_phone,
            location: user_location,
            availability: user_availability,
            current_role: user_current_role,
            target_role: user_target_role,
            salary_expectations: user_salary_expectations,
            notes: user_notes,
        };
        Ok(Config { linkedin, openai, google_calendar, user_profile })
    }
}

} // verus!
