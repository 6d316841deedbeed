//! The decisions of the LinkedIn browser client: whether a login worked,
//! whether an operation may run, and what the pages' scripts returned.
//!
//! The browser itself is driven by the program; it hands the library the
//! URL it landed on and the JSON text that a page script returned.

use vstd::prelude::*;
use vstd::string::*;
use crate::json::{json_get, json_get_str, parse_json, parsed_json, JsonValue};
use crate::linkedin::messages::Conversation;
use crate::text::{contains, text_contains, text_or};

verus! {

broadcast use vstd::string::group_string_axioms;

/// How a login attempt ended, judged by the URL the browser landed on.
#[derive(Debug, Clone, Copy, PartialEq, Eq, Structural)]
pub enum LoginOutcome {
    /// The feed or the network page: logged in.
    LoggedIn,
    /// A checkpoint or challenge page: LinkedIn asks for more verification.
    VerificationRequired,
    /// Any other page.
    Failed,
}

/// The outcome of a login that landed on `url`.
pub open spec fn login_outcome(url: Seq<char>) -> LoginOutcome {
    if contains(url, "feed"@) || contains(url, "mynetwork"@) {
        LoginOutcome::LoggedIn
    } else if contains(url, "checkpoint"@) || contains(url, "challenge"@) {
        LoginOutcome::VerificationRequired
    } else {
        LoginOutcome::Failed
    }
}

/// Judges a login attempt by the URL the browser landed on.
pub fn classify_login_url(url: &str) -> (r: LoginOutcome)
    ensures
        r == login_outcome(url@),
{
    if text_contains(url, "feed") || text_contains(url, "mynetwork") {
        LoginOutcome::LoggedIn
    } else if text_contains(url, "checkpoint") || text_contains(url, "challenge") {
        LoginOutcome::VerificationRequired
    } else {
        LoginOutcome::Failed
    }
}

/// Why a LinkedIn operation failed.
#[derive(Debug, Clone, PartialEq, Eq)]
pub enum LinkedInError {
    /// The operation needs a logged-in session.
    NotLoggedIn,
    /// LinkedIn asks for a CAPTCHA or a second factor.
    VerificationRequired,
    /// The login ended on an unexpected page, whose URL is kept.
    LoginFailed(String),
}

impl LinkedInError {
    /// The message of the error.
    pub fn message(&self) -> (r: String)
        ensures
            r@ == match *self {
                LinkedInError::NotLoggedIn => "Not logged in to LinkedIn"@,
                LinkedInError::VerificationRequired =>
                    "LinkedIn is requesting additional verification (CAPTCHA or 2FA). Please log in manually first or try again later."@,
                LinkedInError::LoginFailed(url) => "Login may have failed. Current URL: "@ + url@,
            },
    {
        let mut r = String::new();
        match self {
            LinkedInError::NotLoggedIn => r.append("Not logged in to LinkedIn"),
            LinkedInError::VerificationRequired => r.append(
                "LinkedIn is requesting additional verification (CAPTCHA or 2FA). Please log in manually first or try again later.",
            ),
            LinkedInError::LoginFailed(url) => {
                r.append("Login may have failed. Current URL: ");
                r.append(url.as_str());
            },
        }
        r
    }
}

/// Whether the browser session is logged in to LinkedIn.
#[derive(Debug, Clone, Copy)]
pub struct LinkedInSession {
    pub logged_in: bool,
}

impl LinkedInSession {
    /// A session that has not logged in.
    pub fn new() -> (r: LinkedInSession)
        ensures
            !r.logged_in,
    {
        LinkedInSession { logged_in: false }
    }

    /// Check if the client is logged in.
    pub fn is_logged_in(&self) -> (r: bool)
        ensures
            r == self.logged_in,
    {
        self.logged_in
    }

    /// Records a login attempt that landed on `url`: the session is logged
    /// in exactly when the URL shows the feed or the network page, and
    /// stays as it was otherwise; the error says why the login did not work.
    pub fn finish_login(&mut self, url: &str) -> (r: Result<(), LinkedInError>)
        ensures
            match login_outcome(url@) {
                LoginOutcome::LoggedIn => r is Ok && final(self).logged_in,
                LoginOutcome::VerificationRequired => r == Err::<(), LinkedInError>(
                    LinkedInError::VerificationRequired,
                ) && final(self).logged_in == old(self).logged_in,
                LoginOutcome::Failed => r matches Err(LinkedInError::LoginFailed(u)) && u@ == url@
                    && final(self).logged_in == old(self).logged_in,
            },
    {
        match classify_login_url(url) {
            LoginOutcome::LoggedIn => {
                self.logged_in = true;
                Ok(())
            },
            LoginOutcome::VerificationRequired => Err(LinkedInError::VerificationRequired),
            LoginOutcome::Failed => {
                let mut u = String::new();
                u.append(url);
                Err(LinkedInError::LoginFailed(u))
            },
        }
    }

    /// Whether an operation that needs a login may run.
    pub fn ensure_logged_in(&self) -> (r: Result<(), LinkedInError>)
        ensures
            r is Ok <==> self.logged_in,
            r is Err ==> r == Err::<(), LinkedInError>(LinkedInError::NotLoggedIn),
    {
        if self.logged_in {
            Ok(())
        } else {
            Err(LinkedInError::NotLoggedIn)
        }
    }
}

/// The text that the conversation list script returned, or `"[]"` when it
/// returned no text.
pub open spec fn list_text(raw: Option<Seq<char>>) -> Seq<char> {
    match raw {
        Some(t) => t,
        None => "[]"@,
    }
}

/// The entries of the conversation list: the elements when the text parses
/// as a JSON array, and none otherwise (`from_str::<Vec<Value>>(..).unwrap_or_default()`).
pub open spec fn list_entries(text: Seq<char>) -> Seq<JsonValue> {
    match parsed_json(text) {
        Some(JsonValue::Array(items)) => items@,
        _ => seq![],
    }
}

/// Whether a list entry is marked unread: its `unread` member is `true`.
pub open spec fn entry_unread(entry: JsonValue) -> bool {
    json_get(entry, "unread"@) == Some(JsonValue::Bool(true))
}

/// Whether `c` is the conversation made for a list entry: its `id` and
/// `participant` strings (empty where missing), no messages, and unread
/// exactly when the entry is marked unread.
pub open spec fn conversation_of(c: Conversation, entry: JsonValue) -> bool {
    &&& c.id@ == text_or(json_get_str(entry, "id"@), seq![])
    &&& c.participants@.len() == 1
    &&& c.participants@[0]@ == text_or(json_get_str(entry, "participant"@), seq![])
    &&& c.messages@.len() == 0
    &&& c.has_unread == entry_unread(entry)
}

/// The conversations listed by the JSON text that the messaging page
/// script returns (`None` when it returned no text, read as `"[]"`): one
/// per array element, in order.
pub fn conversations_from_page_data(raw: Option<&str>) -> (r: Vec<Conversation>)
    ensures
        ({
            let entries = list_entries(
                list_text(
                    match raw {
                        Some(t) => Some(t@),
                        None => None,
                    },
                ),
            );
            &&& r@.len() == entries.len()
            &&& forall|i: int| 0 <= i < r@.len() ==> conversation_of(#[trigger] r@[i], entries[i])
        }),
{
    let text: &str = match raw {
        Some(t) => t,
        None => "[]",
    };
    let parsed = parse_json(text);
    let mut out: Vec<Conversation> = Vec::new();
    match &parsed {
        Some(JsonValue::Array(items)) => {
            let n = items.len();
            for i in 0..n
                invariant
                    n == items@.len(),
                    list_entries(text@) == items@,
                    out@.len() == i,
                    forall|k: int| 0 <= k < i ==> conversation_of(#[trigger] out@[k], items@[k]),
            {
                let id = match items[i].get_text("id") {
                    Some(s) => s,
                    None => String::new(),
                };
                let participant = match items[i].get_text("participant") {
                    Some(s) => s,
                    None => String::new(),
                };
                let mut c = Conversation::new(id, vec![participant]);
                c.has_unread = match items[i].get("unread") {
                    Some(JsonValue::Bool(b)) => *b,
                    _ => false,
                };
                out.push(c);
            }
        },
        _ => {},
    }
    out
}

} // verus!
