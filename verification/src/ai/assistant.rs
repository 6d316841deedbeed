//! The assistant: what it asks the model, and what it reads out of the
//! model's reply.
//!
//! A reply is plain text that may hold fenced JSON blocks (see
//! [`crate::ai::fence`]). Each block whose body parses as JSON may carry an
//! action: `schedule_interview` with an `interview` member, or
//! `extract_job` with a `job` member. The last block that yields an
//! interview gives the interview, the last block that yields a job gives
//! the job, and the message is the reply with the text of every block
//! removed, trimmed of white space.

use vstd::prelude::*;
use vstd::string::*;
use crate::ai::fence::{fence_in, fences, find_fences, spans, Fence};
use crate::ai::parsed::{
    interview_from_json, job_from_json, ParsedInterview, ParsedInterviewView, ParsedJob,
    ParsedJobView,
};
use crate::ai::prompts::{get_system_prompt, system_prompt_text};
use crate::config::UserProfile;
use crate::json::{json_get, json_get_str, parse_json, parsed_json, text_eq, JsonValue};
use crate::linkedin::messages::{context_text, Conversation};
use crate::linkedin::types::{is_uuid_v4_text, JobOpportunity};
use crate::text::{
    chars_of, opt_text, remove_all, remove_all_chars, string_from_chars, string_from_range, trim,
    trim_chars,
};

verus! {

broadcast use vstd::string::group_string_axioms;

/// AI assistant that generates responses to recruiter messages: the
/// credentials and model with which the program talks to OpenAI.
#[derive(Debug, Clone)]
pub struct AIAssistant {
    /// The OpenAI API key.
    pub api_key: String,
    /// The chat model to use.
    pub model: String,
}

/// Parsed response from the AI.
#[derive(Debug, Clone)]
pub struct AIResponse {
    /// The message text to send
    pub message: String,
    /// Extracted job opportunity (if any)
    pub job_opportunity: Option<JobOpportunity>,
    /// Interview to schedule (if any)
    pub interview: Option<ParsedInterview>,
}

/// The most tokens a reply may take.
pub const MAX_REPLY_TOKENS: u32 = 1024u32;

/// The chat request for one conversation: a system message, a user
/// message, the model to send them to and the most tokens of the reply.
#[derive(Debug, Clone)]
pub struct ChatRequest {
    pub model: String,
    pub system_prompt: String,
    pub user_message: String,
    pub max_tokens: u32,
}

/// `label`, the text and a line break, when there is a text.
pub open spec fn context_line(label: Seq<char>, o: Option<Seq<char>>) -> Seq<char> {
    match o {
        Some(s) => label + s + "\n"@,
        None => seq![],
    }
}

/// What the assistant is told about the user.
pub open spec fn profile_context(p: UserProfile, linkedin: Option<Seq<char>>) -> Seq<char> {
    "Name: "@ + p.name@ + "\n"@ + "Email: "@ + p.email@ + "\n"@ + context_line(
        "Phone: "@,
        opt_text(p.phone),
    ) + context_line("Location: "@, opt_text(p.location)) + context_line(
        "Current Role: "@,
        opt_text(p.current_role),
    ) + context_line("\nLinkedIn Profile:\n"@, linkedin)
}

/// The stated preferences of the user, one line each.
pub open spec fn preference_lines(p: UserProfile) -> Seq<char> {
    context_line("Target Role: "@, opt_text(p.target_role)) + context_line(
        "Availability for interviews: "@,
        opt_text(p.availability),
    ) + context_line("Salary Expectations: "@, opt_text(p.salary_expectations)) + context_line(
        "Additional Notes: "@,
        opt_text(p.notes),
    )
}

/// What the assistant is told about the user's preferences.
pub open spec fn preferences_context(p: UserProfile) -> Seq<char> {
    if preference_lines(p).len() == 0 {
        "No specific preferences provided."@
    } else {
        preference_lines(p)
    }
}

/// The user message of a request: the conversation and the instruction.
pub open spec fn user_message_text(c: Conversation) -> Seq<char> {
    "Here is the conversation so far:\n\n"@ + context_text(c)
        + "\n\nPlease generate an appropriate response."@
}

/// What a fenced block asks of the assistant.
pub enum ReplyAction {
    Interview(ParsedInterviewView),
    Job(ParsedJobView),
    Nothing,
}

/// The action that a parsed block carries.
pub open spec fn block_action(v: JsonValue) -> ReplyAction {
    match json_get_str(v, "action"@) {
        Some(a) => if a == "schedule_interview"@ {
            match json_get(v, "interview"@) {
                Some(d) => match interview_from_json(d) {
                    Some(i) => ReplyAction::Interview(i),
                    None => ReplyAction::Nothing,
                },
                None => ReplyAction::Nothing,
            }
        } else if a == "extract_job"@ {
            match json_get(v, "job"@) {
                Some(d) => match job_from_json(d) {
                    Some(j) => ReplyAction::Job(j),
                    None => ReplyAction::Nothing,
                },
                None => ReplyAction::Nothing,
            }
        } else {
            ReplyAction::Nothing
        },
        None => ReplyAction::Nothing,
    }
}

/// The action of the block `f` of the reply `s`: nothing when its body is
/// not JSON.
pub open spec fn fence_action(s: Seq<char>, f: (int, int, int, int)) -> ReplyAction {
    match parsed_json(s.subrange(f.1, f.2)) {
        Some(v) => block_action(v),
        None => ReplyAction::Nothing,
    }
}

/// The interview of the last of the blocks `fs` that yields one.
pub open spec fn interview_after(s: Seq<char>, fs: Seq<(int, int, int, int)>) -> Option<
    ParsedInterviewView,
>
    decreases fs.len(),
{
    if fs.len() == 0 {
        None
    } else {
        match fence_action(s, fs.last()) {
            ReplyAction::Interview(i) => Some(i),
            _ => interview_after(s, fs.drop_last()),
        }
    }
}

/// The job of the last of the blocks `fs` that yields one.
pub open spec fn job_after(s: Seq<char>, fs: Seq<(int, int, int, int)>) -> Option<ParsedJobView>
    decreases fs.len(),
{
    if fs.len() == 0 {
        None
    } else {
        match fence_action(s, fs.last()) {
            ReplyAction::Job(j) => Some(j),
            _ => job_after(s, fs.drop_last()),
        }
    }
}

/// The reply `s` with the text of each of the blocks `fs` removed in turn,
/// every occurrence of it each time.
pub open spec fn stripped(s: Seq<char>, fs: Seq<(int, int, int, int)>) -> Seq<char>
    decreases fs.len(),
{
    if fs.len() == 0 {
        s
    } else {
        remove_all(stripped(s, fs.drop_last()), s.subrange(fs.last().0, fs.last().3))
    }
}

/// The message of a reply.
pub open spec fn reply_message(s: Seq<char>) -> Seq<char> {
    trim(stripped(s, fences(s)))
}

/// The interview of a reply.
pub open spec fn reply_interview(s: Seq<char>) -> Option<ParsedInterviewView> {
    interview_after(s, fences(s))
}

/// The job of a reply.
pub open spec fn reply_job(s: Seq<char>) -> Option<ParsedJobView> {
    job_after(s, fences(s))
}

/// The view of an optional interview.
pub open spec fn interview_view(o: Option<ParsedInterview>) -> Option<ParsedInterviewView> {
    match o {
        Some(i) => Some(i@),
        None => None,
    }
}

/// Whether `j` is the job opportunity recorded for the parsed job `p`: its
/// details, no recruiter, a fresh random identifier and the time it was
/// recorded.
pub open spec fn opportunity_of(j: JobOpportunity, p: ParsedJobView) -> bool {
    &&& j.title@ == p.title
    &&& j.company@ == p.company
    &&& opt_text(j.location) == p.location
    &&& opt_text(j.work_type) == p.work_type
    &&& opt_text(j.salary_range) == p.salary_range
    &&& opt_text(j.description) == p.description
    &&& j.recruiter is None
    &&& is_uuid_v4_text(j.id@)
}

/// Whether the optional opportunity `j` is the one recorded for `p`.
pub open spec fn opportunity_matches(j: Option<JobOpportunity>, p: Option<ParsedJobView>) -> bool {
    match (j, p) {
        (None, None) => true,
        (Some(j), Some(p)) => opportunity_of(j, p),
        _ => false,
    }
}

/// What a block asks, with the details read out of it.
enum BlockAction {
    Interview(ParsedInterview),
    Job(ParsedJob),
    Nothing,
}

spec fn block_action_view(a: BlockAction) -> ReplyAction {
    match a {
        BlockAction::Interview(i) => ReplyAction::Interview(i@),
        BlockAction::Job(j) => ReplyAction::Job(j@),
        BlockAction::Nothing => ReplyAction::Nothing,
    }
}

/// Reads the action that a parsed block carries.
fn read_action(v: &JsonValue) -> (r: BlockAction)
    ensures
        block_action_view(r) == block_action(*v),
{
    let action = match v.get("action") {
        Some(a) => a.as_str(),
        None => None,
    };
    match action {
        Some(a) => {
            if text_eq(a, "schedule_interview") {
                match v.get("interview") {
                    Some(d) => match ParsedInterview::from_json(d) {
                        Some(i) => BlockAction::Interview(i),
                        None => BlockAction::Nothing,
                    },
                    None => BlockAction::Nothing,
                }
            } else if text_eq(a, "extract_job") {
                match v.get("job") {
                    Some(d) => match ParsedJob::from_json(d) {
                        Some(j) => BlockAction::Job(j),
                        None => BlockAction::Nothing,
                    },
                    None => BlockAction::Nothing,
                }
            } else {
                BlockAction::Nothing
            }
        },
        None => BlockAction::Nothing,
    }
}

/// The characters `v[from..to]`.
fn sub_chars(v: &Vec<char>, from: usize, to: usize) -> (r: Vec<char>)
    requires
        from <= to <= v@.len(),
    ensures
        r@ == v@.subrange(from as int, to as int),
{
    let mut out: Vec<char> = Vec::new();
    let mut i = from;
    while i < to
        invariant
            from <= i <= to <= v@.len(),
            out@ == v@.subrange(from as int, i as int),
        decreases to - i,
    {
        out.push(v[i]);
        assert(v@.subrange(from as int, i + 1) =~= v@.subrange(from as int, i as int).push(
            v@[i as int],
        ));
        i = i + 1;
    }
    out
}

/// Appends `label`, the text and a line break when `o` holds a text.
fn push_line(out: &mut String, label: &str, o: Option<&str>)
    ensures
        final(out)@ == old(out)@ + context_line(
            label@,
            match o {
                Some(s) => Some(s@),
                None => None,
            },
        ),
{
    match o {
        Some(s) => {
            out.append(label);
            out.append(s);
            out.append("\n");
        },
        None => {
            assert(old(out)@ + Seq::<char>::empty() =~= old(out)@);
        },
    }
}

/// The text of an optional string, borrowed.
fn as_text(o: &Option<String>) -> (r: Option<&str>)
    ensures
        match r {
            Some(s) => opt_text(*o) == Some(s@),
            None => opt_text(*o) is None,
        },
{
    match o {
        Some(s) => Some(s.as_str()),
        None => None,
    }
}

impl AIAssistant {
    /// Create a new AI assistant with the given API key.
    pub fn new(api_key: &str, model: &str) -> (r: AIAssistant)
        ensures
            r.api_key@ == api_key@,
            r.model@ == model@,
    {
        let mut k = String::new();
        k.append(api_key);
        let mut m = String::new();
        m.append(model);
        AIAssistant { api_key: k, model: m }
    }

    /// Build user profile context string.
    pub fn build_profile_context(&self, user_profile: &UserProfile, linkedin_summary: Option<&str>) -> (r:
        String)
        ensures
            r@ == profile_context(
                *user_profile,
                match linkedin_summary {
                    Some(s) => Some(s@),
                    None => None,
                },
            ),
    {
        let mut context = String::new();
        context.append("Name: ");
        context.append(user_profile.name.as_str());
        context.append("\n");
        context.append("Email: ");
        context.append(user_profile.email.as_str());
        context.append("\n");
        push_line(&mut context, "Phone: ", as_text(&user_profile.phone));
        push_line(&mut context, "Location: ", as_text(&user_profile.location));
        push_line(&mut context, "Current Role: ", as_text(&user_profile.current_role));
        push_line(&mut context, "\nLinkedIn Profile:\n", linkedin_summary);
        context
    }

    /// Build user preferences context string.
    pub fn build_preferences_context(&self, user_profile: &UserProfile) -> (r: String)
        ensures
            r@ == preferences_context(*user_profile),
    {
        let mut context = String::new();
        push_line(&mut context, "Target Role: ", as_text(&user_profile.target_role));
        push_line(&mut context, "Availability for interviews: ", as_text(&user_profile.availability));
        push_line(&mut context, "Salary Expectations: ", as_text(&user_profile.salary_expectations));
        push_line(&mut context, "Additional Notes: ", as_text(&user_profile.notes));
        assert(context@ =~= preference_lines(*user_profile));
        if context.as_str().unicode_len() == 0 {
            let mut none = String::new();
            none.append("No specific preferences provided.");
            none
        } else {
            context
        }
    }

    /// The request for a reply to `conversation`: the system prompt with the
    /// user's profile and preferences, the conversation so far, and a reply
    /// of at most [`MAX_REPLY_TOKENS`] tokens.
    pub fn prepare_request(
        &self,
        conversation: &Conversation,
        user_profile: &UserProfile,
        linkedin_profile_summary: Option<&str>,
    ) -> (r: ChatRequest)
        ensures
            r.model@ == self.model@,
            r.system_prompt@ == system_prompt_text(
                profile_context(
                    *user_profile,
                    match linkedin_profile_summary {
                        Some(s) => Some(s@),
                        None => None,
                    },
                ),
                preferences_context(*user_profile),
            ),
            r.user_message@ == user_message_text(*conversation),
            r.max_tokens == MAX_REPLY_TOKENS,
    {
        let profile_context = self.build_profile_context(user_profile, linkedin_profile_summary);
        let preferences_context = self.build_preferences_context(user_profile);
        let system_prompt = get_system_prompt(profile_context.as_str(), preferences_context.as_str());
        let conversation_context = conversation.to_context_string();
        let mut user_message = String::new();
        user_message.append("Here is the conversation so far:\n\n");
        user_message.append(conversation_context.as_str());
        user_message.append("\n\nPlease generate an appropriate response.");
        let mut model = String::new();
        model.append(self.model.as_str());
        ChatRequest { model, system_prompt, user_message, max_tokens: MAX_REPLY_TOKENS }
    }

    /// The text of the first choice of a completion, empty when there is no
    /// choice or the first has no content.
    pub fn reply_text(contents: &Vec<Option<String>>) -> (r: String)
        ensures
            r@ == (if contents@.len() > 0 && contents@[0] is Some {
                contents@[0]->0@
            } else {
                Seq::<char>::empty()
            }),
    {
        if contents.len() > 0 {
            match &contents[0] {
                Some(s) => s.clone(),
                None => String::new(),
            }
        } else {
            String::new()
        }
    }

    /// Parse the AI response to extract actions and clean message. Reading
    /// a reply cannot fail.
    pub fn parse_response(&self, response: &str) -> (r: AIResponse)
        ensures
            r.message@ == reply_message(response@),
            interview_view(r.interview) == reply_interview(response@),
            opportunity_matches(r.job_opportunity, reply_job(response@)),
    {
        let chars = chars_of(response);
        let fs = find_fences(&chars);
        let ghost all = spans(fs@);
        let mut message = chars_of(response);
        let mut interview: Option<ParsedInterview> = None;
        let mut job_opportunity: Option<JobOpportunity> = None;
        let n = fs.len();
        for i in 0..n
            invariant
                n == fs@.len(),
                chars@ == response@,
                all == spans(fs@),
                all == fences(chars@),
                forall|k: int| 0 <= k < fs@.len() ==> fence_in(#[trigger] fs@[k], chars@.len() as int),
                message@ == stripped(chars@, all.take(i as int)),
                interview_view(interview) == interview_after(chars@, all.take(i as int)),
                opportunity_matches(job_opportunity, job_after(chars@, all.take(i as int))),
        {
            let f: Fence = fs[i];
            assert(fence_in(fs@[i as int], chars@.len() as int));
            assert(all[i as int] == (
                f.start as int,
                f.inner_start as int,
                f.inner_end as int,
                f.end as int,
            ));
            assert(all.take(i + 1).drop_last() =~= all.take(i as int));
            assert(all.take(i + 1).last() == all[i as int]);
            let body = string_from_range(&chars, f.inner_start, f.inner_end);
            match parse_json(body.as_str()) {
                Some(v) => {
                    match read_action(&v) {
                        BlockAction::Interview(pi) => {
                            interview = Some(pi);
                        },
                        BlockAction::Job(pj) => {
                            let mut job = JobOpportunity::new(pj.title, pj.company);
                            job.location = pj.location;
                            job.work_type = pj.work_type;
                            job.salary_range = pj.salary_range;
                            job.description = pj.description;
                            job_opportunity = Some(job);
                        },
                        BlockAction::Nothing => {},
                    }
                },
                None => {},
            }
            let whole = sub_chars(&chars, f.start, f.end);
            message = remove_all_chars(&message, &whole);
        }
        assert(all.take(n as int) =~= all);
        let trimmed = trim_chars(&message);
        let message = string_from_chars(&trimmed);
        AIResponse { message, job_opportunity, interview }
    }
}

} // verus!
