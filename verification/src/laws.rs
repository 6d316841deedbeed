//! Properties of the library as a whole, each stated over the spec
//! functions that the executable functions' contracts use.

use vstd::prelude::*;
use vstd::string::*;
use crate::ai::assistant::{
    preferences_context, reply_interview, reply_job, reply_message, stripped,
};
use crate::ai::fence::{
    close_marker, fence_from, fences, fences_from, find_from, lemma_fence_bounds, lemma_fence_shape,
    open_marker,
};
use crate::ai::prompts::{system_prompt_text, RECRUITER_RESPONSE_PROMPT};
use crate::bot::{reply_plan, round_selection, unread_conversations, ReplyPlan};
use crate::config::UserProfile;
use crate::linkedin::messages::{unread_of, Conversation, Message};
use crate::text::{contains, is_space, join, occurs_at, texts, trim, trim_end, trim_start};
use crate::ai::parsed::{interview_from_json, job_from_json};
use crate::json::{json_get, JsonNumber, JsonValue};
use crate::ai::assistant::{opportunity_of, profile_context};
use crate::ai::parsed::ParsedJobView;
use crate::linkedin::types::JobOpportunity;
use crate::ai::parsed::ParsedInterview;
use crate::bot::{is_export_event, is_interview_event};
use crate::calendar::types::InterviewEvent;
use crate::time::{CalendarDate, ClockTime};
use crate::text::opt_text;

verus! {

broadcast use vstd::string::group_string_axioms;

/// In a dry run the bot never sends a reply.
pub proof fn law_dry_run_never_sends(message: Seq<char>)
    ensures
        reply_plan(true, message) == ReplyPlan::DryRun,
{
}

/// An empty reply is never sent.
pub proof fn law_empty_reply_never_sent(dry_run: bool)
    ensures
        reply_plan(dry_run, Seq::<char>::empty()) != ReplyPlan::Send,
{
}

/// Outside a dry run, every reply that is not empty is sent.
pub proof fn law_nonempty_reply_sent(message: Seq<char>)
    requires
        message.len() > 0,
    ensures
        reply_plan(false, message) == ReplyPlan::Send,
{
}

proof fn lemma_trim_start_shape(s: Seq<char>)
    ensures
        exists|k: int| 0 <= k <= s.len() && trim_start(s) == s.skip(k),
        trim_start(s).len() > 0 ==> !is_space(trim_start(s)[0]),
    decreases s.len(),
{
    if s.len() > 0 && is_space(s[0]) {
        lemma_trim_start_shape(s.drop_first());
        let k = choose|k: int|
            0 <= k <= s.drop_first().len() && trim_start(s.drop_first()) == s.drop_first().skip(k);
        assert(s.drop_first().skip(k) =~= s.skip(k + 1));
    } else {
        assert(s.skip(0) =~= s);
    }
}

proof fn lemma_trim_end_shape(s: Seq<char>)
    ensures
        exists|k: int| 0 <= k <= s.len() && trim_end(s) == s.take(k),
        trim_end(s).len() > 0 ==> !is_space(trim_end(s).last()),
    decreases s.len(),
{
    if s.len() > 0 && is_space(s.last()) {
        lemma_trim_end_shape(s.drop_last());
        let k = choose|k: int|
            0 <= k <= s.drop_last().len() && trim_end(s.drop_last()) == s.drop_last().take(k);
        assert(s.drop_last().take(k) =~= s.take(k));
    } else {
        assert(s.take(s.len() as int) =~= s);
    }
}

/// A trimmed text starts and ends with a character that is not white space.
pub proof fn law_trim_has_no_outer_space(s: Seq<char>)
    ensures
        trim(s).len() > 0 ==> !is_space(trim(s)[0]) && !is_space(trim(s).last()),
{
    lemma_trim_start_shape(s);
    let t = trim_start(s);
    lemma_trim_end_shape(t);
    let k = choose|k: int| 0 <= k <= t.len() && trim_end(t) == t.take(k);
    if trim(s).len() > 0 {
        assert(trim(s)[0] == t[0]);
    }
}

/// Trimming a trimmed text changes nothing.
pub proof fn law_trim_idempotent(s: Seq<char>)
    ensures
        trim(trim(s)) == trim(s),
{
    law_trim_has_no_outer_space(s);
    let r = trim(s);
    assert(trim_start(r) == r);
    assert(trim_end(r) == r);
}

/// The message of a reply has no white space at either end, and reading it
/// again as a text to trim leaves it as it is.
pub proof fn law_reply_message_trimmed(s: Seq<char>)
    ensures
        reply_message(s).len() > 0 ==> !is_space(reply_message(s)[0]) && !is_space(
            reply_message(s).last(),
        ),
        trim(reply_message(s)) == reply_message(s),
{
    law_trim_has_no_outer_space(stripped(s, fences(s)));
    law_trim_idempotent(stripped(s, fences(s)));
}

proof fn lemma_find_from_absent(s: Seq<char>, i: int, pat: Seq<char>)
    requires
        !contains(s, pat),
    ensures
        find_from(s, i, pat) is None,
    decreases s.len() + 1 - i,
{
    if 0 <= i <= s.len() {
        assert(!occurs_at(s, i, pat));
        lemma_find_from_absent(s, i + 1, pat);
    }
}

/// A reply without an opening `` ```json `` marker carries no interview and
/// no job, and its message is the reply trimmed.
pub proof fn law_reply_without_blocks(s: Seq<char>)
    requires
        !contains(s, open_marker()),
    ensures
        fences(s).len() == 0,
        reply_message(s) == trim(s),
        reply_interview(s) is None,
        reply_job(s) is None,
{
    lemma_find_from_absent(s, 0, open_marker());
    assert(fence_from(s, 0) is None);
    assert(fences(s) =~= Seq::<(int, int, int, int)>::empty());
}

proof fn lemma_fences_from_ordered(s: Seq<char>, from: int)
    requires
        0 <= from <= s.len(),
    ensures
        forall|i: int|
            0 <= i < fences_from(s, from).len() ==> {
                let f = #[trigger] fences_from(s, from)[i];
                from <= f.0 && f.0 + 7 <= f.1 <= f.2 && f.2 + 3 <= f.3 <= s.len()
            },
        forall|i: int, j: int|
            0 <= i < j < fences_from(s, from).len() ==> (#[trigger] fences_from(s, from)[i]).3
                <= (#[trigger] fences_from(s, from)[j]).0,
    decreases s.len() + 1 - from,
{
    lemma_fence_bounds(s, from);
    if let Some(f) = fence_from(s, from) {
        if from < f.3 <= s.len() {
            lemma_fences_from_ordered(s, f.3);
            let rest = fences_from(s, f.3);
            let all = fences_from(s, from);
            assert(all == seq![f] + rest);
            assert forall|i: int| 0 <= i < all.len() implies {
                let g = #[trigger] all[i];
                from <= g.0 && g.0 + 7 <= g.1 <= g.2 && g.2 + 3 <= g.3 <= s.len()
            } by {
                if i > 0 {
                    assert(all[i] == rest[i - 1]);
                }
            }
            assert forall|i: int, j: int| 0 <= i < j < all.len() implies (#[trigger] all[i]).3
                <= (#[trigger] all[j]).0 by {
                assert(all[j] == rest[j - 1]);
                if i > 0 {
                    assert(all[i] == rest[i - 1]);
                }
            }
        }
    }
}

/// The fenced blocks of a reply lie inside it, each with its body between
/// its markers, and they follow one another without overlapping.
pub proof fn law_fences_ordered(s: Seq<char>)
    ensures
        forall|i: int|
            0 <= i < fences(s).len() ==> {
                let f = #[trigger] fences(s)[i];
                0 <= f.0 && f.0 + 7 <= f.1 <= f.2 && f.2 + 3 <= f.3 <= s.len()
            },
        forall|i: int, j: int|
            0 <= i < j < fences(s).len() ==> (#[trigger] fences(s)[i]).3 <= (#[trigger] fences(
                s,
            )[j]).0,
{
    lemma_fences_from_ordered(s, 0);
}

proof fn lemma_fences_from_shape(s: Seq<char>, from: int)
    requires
        0 <= from <= s.len(),
    ensures
        forall|i: int|
            0 <= i < fences_from(s, from).len() ==> {
                let f = #[trigger] fences_from(s, from)[i];
                &&& occurs_at(s, f.0, open_marker())
                &&& occurs_at(s, f.3 - 3, close_marker())
                &&& forall|k: int| f.0 + 7 <= k < f.1 ==> is_space(#[trigger] s[k])
                &&& forall|k: int| f.2 <= k < f.3 - 3 ==> is_space(#[trigger] s[k])
                &&& f.1 < f.2 ==> !is_space(s[f.1]) && !is_space(s[f.2 - 1])
            },
    decreases s.len() + 1 - from,
{
    lemma_fence_bounds(s, from);
    lemma_fence_shape(s, from);
    if let Some(f) = fence_from(s, from) {
        if from < f.3 <= s.len() {
            lemma_fences_from_shape(s, f.3);
            let rest = fences_from(s, f.3);
            let all = fences_from(s, from);
            assert(all == seq![f] + rest);
            assert forall|i: int| 0 <= i < all.len() implies {
                let g = #[trigger] all[i];
                &&& occurs_at(s, g.0, open_marker())
                &&& occurs_at(s, g.3 - 3, close_marker())
                &&& forall|k: int| g.0 + 7 <= k < g.1 ==> is_space(#[trigger] s[k])
                &&& forall|k: int| g.2 <= k < g.3 - 3 ==> is_space(#[trigger] s[k])
                &&& g.1 < g.2 ==> !is_space(s[g.1]) && !is_space(s[g.2 - 1])
            } by {
                if i > 0 {
                    assert(all[i] == rest[i - 1]);
                }
            }
        }
    }
}

/// Each fenced block of a reply is the opening marker, white space, a body
/// that neither starts nor ends with white space, white space, and the
/// closing marker.
pub proof fn law_fence_shape(s: Seq<char>)
    ensures
        forall|i: int|
            0 <= i < fences(s).len() ==> {
                let f = #[trigger] fences(s)[i];
                &&& occurs_at(s, f.0, open_marker())
                &&& occurs_at(s, f.3 - 3, close_marker())
                &&& forall|k: int| f.0 + 7 <= k < f.1 ==> is_space(#[trigger] s[k])
                &&& forall|k: int| f.2 <= k < f.3 - 3 ==> is_space(#[trigger] s[k])
                &&& f.1 < f.2 ==> !is_space(s[f.1]) && !is_space(s[f.2 - 1])
            },
{
    lemma_fences_from_shape(s, 0);
}

/// The system prompt is the fixed prompt followed by the user's profile and
/// preferences, both of which it holds.
pub proof fn law_system_prompt_holds_context(profile: Seq<char>, preferences: Seq<char>)
    ensures
        system_prompt_text(profile, preferences).take(RECRUITER_RESPONSE_PROMPT@.len() as int)
            == RECRUITER_RESPONSE_PROMPT@,
        contains(system_prompt_text(profile, preferences), profile),
        contains(system_prompt_text(profile, preferences), preferences),
{
    let t = system_prompt_text(profile, preferences);
    let a = RECRUITER_RESPONSE_PROMPT@ + "\n\n## User Profile\n"@;
    let b = a + profile + "\n\n## User Preferences\n"@;
    assert(t.take(RECRUITER_RESPONSE_PROMPT@.len() as int) =~= RECRUITER_RESPONSE_PROMPT@);
    assert(t.subrange(a.len() as int, (a.len() + profile.len()) as int) =~= profile);
    assert(occurs_at(t, a.len() as int, profile));
    assert(t.subrange(b.len() as int, (b.len() + preferences.len()) as int) =~= preferences);
    assert(occurs_at(t, b.len() as int, preferences));
}

/// The preferences the assistant is given are never empty: without any
/// stated preference they say so.
pub proof fn law_preferences_never_empty(p: UserProfile)
    ensures
        preferences_context(p).len() > 0,
{
    reveal_strlit("No specific preferences provided.");
}

proof fn lemma_unread_conversations(cs: Seq<Conversation>)
    ensures
        unread_conversations(cs).len() <= cs.len(),
        forall|i: int|
            0 <= i < unread_conversations(cs).len() ==> (#[trigger] unread_conversations(cs)[i]).has_unread
                && cs.contains(unread_conversations(cs)[i]),
    decreases cs.len(),
{
    if cs.len() > 0 {
        lemma_unread_conversations(cs.drop_last());
        let u = unread_conversations(cs);
        let p = unread_conversations(cs.drop_last());
        assert forall|i: int| 0 <= i < u.len() implies (#[trigger] u[i]).has_unread && cs.contains(
            u[i],
        ) by {
            if i < p.len() {
                assert(u[i] == p[i]);
                let k = choose|k: int| 0 <= k < cs.drop_last().len() && cs.drop_last()[k] == p[i];
                assert(cs[k] == p[i]);
            } else {
                assert(u[i] == cs.last());
                assert(cs[cs.len() - 1] == cs.last());
            }
        }
    }
}

/// A round of the bot answers at most `max_messages` conversations, only
/// conversations with unread messages, and only conversations it was given.
pub proof fn law_round_selection(cs: Seq<Conversation>, max_messages: nat)
    ensures
        round_selection(cs, max_messages).len() <= max_messages,
        round_selection(cs, max_messages).len() <= cs.len(),
        forall|i: int|
            0 <= i < round_selection(cs, max_messages).len() ==> (#[trigger] round_selection(
                cs,
                max_messages,
            )[i]).has_unread && cs.contains(round_selection(cs, max_messages)[i]),
{
    lemma_unread_conversations(cs);
    let u = unread_conversations(cs);
    let r = round_selection(cs, max_messages);
    assert forall|i: int| 0 <= i < r.len() implies (#[trigger] r[i]).has_unread && cs.contains(
        r[i],
    ) by {
        assert(r[i] == u[i]);
    }
}

/// The unread messages of a conversation are unread, and there are no more
/// of them than messages.
pub proof fn law_unread_messages(ms: Seq<Message>)
    ensures
        unread_of(ms).len() <= ms.len(),
        forall|i: int| 0 <= i < unread_of(ms).len() ==> !(#[trigger] unread_of(ms)[i]).is_read,
    decreases ms.len(),
{
    if ms.len() > 0 {
        law_unread_messages(ms.drop_last());
        let u = unread_of(ms);
        let p = unread_of(ms.drop_last());
        assert forall|i: int| 0 <= i < u.len() implies !(#[trigger] u[i]).is_read by {
            if i < p.len() {
                assert(u[i] == p[i]);
            }
        }
    }
}

/// The text of `v`'s member `key` when it is a string; nothing when the
/// member is missing or holds anything else.
pub open spec fn string_member(v: JsonValue, key: Seq<char>) -> Option<Seq<char>> {
    match json_get(v, key) {
        Some(JsonValue::Str(s)) => Some(s@),
        _ => None,
    }
}

/// Whether `v`'s member `key` may stand for an optional text: it is
/// missing, `null` or a string.
pub open spec fn optional_member(v: JsonValue, key: Seq<char>) -> bool {
    match json_get(v, key) {
        None => true,
        Some(JsonValue::Null) => true,
        Some(JsonValue::Str(_)) => true,
        _ => false,
    }
}

/// The text of a JSON string; nothing for anything else.
pub open spec fn string_value(v: JsonValue) -> Option<Seq<char>> {
    match v {
        JsonValue::Str(s) => Some(s@),
        _ => None,
    }
}

/// Whether `v` may stand for an optional text: `null` or a string.
pub open spec fn optional_value(v: JsonValue) -> bool {
    v is Null || v is Str
}

/// A job read from a JSON object has each field from the member of the same
/// name: the title and company from string members, and each optional field
/// from its member's string, absent when that member is missing or `null`.
/// The object reads as a job exactly when its members have these kinds.
pub proof fn law_job_fields_from_object(v: JsonValue)
    requires
        v is Object,
    ensures
        job_from_json(v) is Some <==> {
            &&& string_member(v, "title"@) is Some
            &&& string_member(v, "company"@) is Some
            &&& optional_member(v, "location"@)
            &&& optional_member(v, "work_type"@)
            &&& optional_member(v, "salary_range"@)
            &&& optional_member(v, "description"@)
        },
        job_from_json(v) matches Some(j) ==> {
            &&& Some(j.title) == string_member(v, "title"@)
            &&& Some(j.company) == string_member(v, "company"@)
            &&& j.location == string_member(v, "location"@)
            &&& j.work_type == string_member(v, "work_type"@)
            &&& j.salary_range == string_member(v, "salary_range"@)
            &&& j.description == string_member(v, "description"@)
        },
{
}

/// A job read from a JSON array takes its fields from the six elements, in
/// the order title, company, location, work type, salary range,
/// description; an array of any other length does not read as a job.
pub proof fn law_job_fields_from_array(v: JsonValue)
    requires
        v is Array,
    ensures
        job_from_json(v) is Some <==> {
            let e = v->Array_0@;
            &&& e.len() == 6
            &&& string_value(e[0]) is Some
            &&& string_value(e[1]) is Some
            &&& optional_value(e[2])
            &&& optional_value(e[3])
            &&& optional_value(e[4])
            &&& optional_value(e[5])
        },
        job_from_json(v) matches Some(j) ==> {
            let e = v->Array_0@;
            &&& Some(j.title) == string_value(e[0])
            &&& Some(j.company) == string_value(e[1])
            &&& j.location == string_value(e[2])
            &&& j.work_type == string_value(e[3])
            &&& j.salary_range == string_value(e[4])
            &&& j.description == string_value(e[5])
        },
{
}

/// The `u32` of `v`'s member `key`: a non-negative integer no larger than
/// `u32::MAX`; nothing otherwise.
pub open spec fn u32_member(v: JsonValue, key: Seq<char>) -> Option<u32> {
    match json_get(v, key) {
        Some(JsonValue::Number(JsonNumber::PosInt(u))) => if u <= u32::MAX {
            Some(u as u32)
        } else {
            None
        },
        _ => None,
    }
}

/// Whether the JSON value `l` is an array of strings whose texts are `names`.
pub open spec fn string_list(l: JsonValue, names: Seq<Seq<char>>) -> bool {
    &&& l is Array
    &&& l->Array_0@.len() == names.len()
    &&& forall|k: int| 0 <= k < names.len() ==> string_value(#[trigger] l->Array_0@[k]) == Some(names[k])
}

/// An interview read from a JSON object has each field from the member of
/// the same name: texts from string members, optional texts from a string
/// member (absent when the member is missing or `null`), the duration from
/// an integer member and the interviewers from an array of strings.
pub proof fn law_interview_fields_from_object(v: JsonValue)
    requires
        v is Object,
    ensures
        interview_from_json(v) matches Some(i) ==> {
            &&& Some(i.job_title) == string_member(v, "job_title"@)
            &&& Some(i.company) == string_member(v, "company"@)
            &&& Some(i.interview_type) == string_member(v, "interview_type"@)
            &&& Some(i.date) == string_member(v, "date"@)
            &&& Some(i.time) == string_member(v, "time"@)
            &&& i.timezone == string_member(v, "timezone"@)
            &&& Some(i.duration_minutes) == u32_member(v, "duration_minutes"@)
            &&& i.meeting_link == string_member(v, "meeting_link"@)
            &&& i.location == string_member(v, "location"@)
            &&& json_get(v, "interviewers"@) matches Some(l) && string_list(l, i.interviewers)
            &&& i.notes == string_member(v, "notes"@)
        },
        ({
            &&& string_member(v, "job_title"@) is Some
            &&& string_member(v, "company"@) is Some
            &&& string_member(v, "interview_type"@) is Some
            &&& string_member(v, "date"@) is Some
            &&& string_member(v, "time"@) is Some
            &&& optional_member(v, "timezone"@)
            &&& u32_member(v, "duration_minutes"@) is Some
            &&& optional_member(v, "meeting_link"@)
            &&& optional_member(v, "location"@)
            &&& json_get(v, "interviewers"@) matches Some(l) && (l is Array && forall|k: int|
                0 <= k < l->Array_0@.len() ==> (#[trigger] l->Array_0@[k]) is Str)
            &&& optional_member(v, "notes"@)
        }) ==> interview_from_json(v) is Some,
{
    if let Some(i) = interview_from_json(v) {
        let l = json_get(v, "interviewers"@)->0;
        assert(string_list(l, i.interviewers));
    }
}

/// The `u32` of a JSON value: a non-negative integer no larger than
/// `u32::MAX`; nothing otherwise.
pub open spec fn u32_value(v: JsonValue) -> Option<u32> {
    match v {
        JsonValue::Number(JsonNumber::PosInt(u)) => if u <= u32::MAX {
            Some(u as u32)
        } else {
            None
        },
        _ => None,
    }
}

/// An interview read from a JSON array takes its fields from the eleven
/// elements in the order in which the fields are declared.
pub proof fn law_interview_fields_from_array(v: JsonValue)
    requires
        v is Array,
    ensures
        interview_from_json(v) matches Some(i) ==> {
            let e = v->Array_0@;
            &&& e.len() == 11
            &&& Some(i.job_title) == string_value(e[0])
            &&& Some(i.company) == string_value(e[1])
            &&& Some(i.interview_type) == string_value(e[2])
            &&& Some(i.date) == string_value(e[3])
            &&& Some(i.time) == string_value(e[4])
            &&& i.timezone == string_value(e[5])
            &&& Some(i.duration_minutes) == u32_value(e[6])
            &&& i.meeting_link == string_value(e[7])
            &&& i.location == string_value(e[8])
            &&& string_list(e[9], i.interviewers)
            &&& i.notes == string_value(e[10])
        },
{
    if let Some(i) = interview_from_json(v) {
        assert(string_list(v->Array_0@[9], i.interviewers));
    }
}

/// Whether `s` starts with `prefix`.
pub open spec fn starts_with(s: Seq<char>, prefix: Seq<char>) -> bool {
    prefix.len() <= s.len() && s.take(prefix.len() as int) == prefix
}

/// Whether `s` ends with `suffix`.
pub open spec fn ends_with(s: Seq<char>, suffix: Seq<char>) -> bool {
    suffix.len() <= s.len() && s.skip(s.len() - suffix.len()) == suffix
}

proof fn lemma_concat_parts(a: Seq<char>, b: Seq<char>, c: Seq<char>)
    ensures
        starts_with(a + b + c, a),
        ends_with(a + b + c, c),
        contains(a + b + c, b),
{
    let s = a + b + c;
    assert(s.take(a.len() as int) =~= a);
    assert(s.skip(s.len() - c.len()) =~= c);
    assert(s.subrange(a.len() as int, (a.len() + b.len()) as int) =~= b);
    assert(occurs_at(s, a.len() as int, b));
}

/// The calendar event of an interview is titled `<type> Interview - <title>
/// at <company>`; its description starts with the job and the type, lists
/// the interviewers and ends with the interview's notes (`None` only when
/// it has none); it lasts the interview's duration and carries the
/// interview's link, location and interviewers.
pub proof fn law_interview_event_holds_interview(
    i: ParsedInterview,
    d: CalendarDate,
    t: ClockTime,
    e: InterviewEvent,
)
    requires
        is_interview_event(i, d, t, e),
    ensures
        e.title@ == i.interview_type@ + " Interview - "@ + i.job_title@ + " at "@ + i.company@,
        starts_with(
            e.description@,
            "Job: "@ + i.job_title@ + " at "@ + i.company@ + "\nType: "@ + i.interview_type@,
        ),
        contains(e.description@, "\n\nInterviewers: "@ + join(texts(i.interviewers@), ", "@)),
        ends_with(
            e.description@,
            "\n\nNotes: "@ + match i.notes {
                Some(n) => n@,
                None => "None"@,
            },
        ),
        e.end_time.secs() == e.start_time.secs() + 60 * i.duration_minutes,
        opt_text(e.meeting_link) == opt_text(i.meeting_link),
        opt_text(e.location) == opt_text(i.location),
        e.attendees@ == i.interviewers@,
{
    let head = "Job: "@ + i.job_title@ + " at "@ + i.company@ + "\nType: "@ + i.interview_type@;
    let names = "\n\nInterviewers: "@ + join(texts(i.interviewers@), ", "@);
    let notes = "\n\nNotes: "@ + match i.notes {
        Some(n) => n@,
        None => "None"@,
    };
    assert(e.description@ =~= head + names + notes);
    lemma_concat_parts(head, names, notes);
}

/// The exported event of an interview given on the command line is titled
/// `<type> Interview - <title> at <company>`, is described by the job and
/// the type, lasts the given duration, carries exactly the given meeting
/// link and location, and has no attendees.
pub proof fn law_export_event_holds_arguments(
    title: Seq<char>,
    company: Seq<char>,
    d: CalendarDate,
    t: ClockTime,
    duration: u32,
    interview_type: Seq<char>,
    meeting_link: Option<Seq<char>>,
    location: Option<Seq<char>>,
    e: InterviewEvent,
)
    requires
        is_export_event(title, company, d, t, duration, interview_type, meeting_link, location, e),
    ensures
        e.title@ == interview_type + " Interview - "@ + title + " at "@ + company,
        e.description@ == "Job: "@ + title + " at "@ + company + "\nType: "@ + interview_type,
        e.end_time.secs() == e.start_time.secs() + 60 * duration,
        opt_text(e.meeting_link) == meeting_link,
        opt_text(e.location) == location,
        e.attendees@.len() == 0,
{
}

/// Every preference that the user states is in what the assistant is told
/// of the preferences, as its label and its text on a line; with none
/// stated, it is told that none were given.
pub proof fn law_preferences_mention_each(p: UserProfile)
    ensures
        p.target_role matches Some(x) ==> contains(
            preferences_context(p),
            "Target Role: "@ + x@ + "\n"@,
        ),
        p.availability matches Some(x) ==> contains(
            preferences_context(p),
            "Availability for interviews: "@ + x@ + "\n"@,
        ),
        p.salary_expectations matches Some(x) ==> contains(
            preferences_context(p),
            "Salary Expectations: "@ + x@ + "\n"@,
        ),
        p.notes matches Some(x) ==> contains(
            preferences_context(p),
            "Additional Notes: "@ + x@ + "\n"@,
        ),
        (p.target_role is None && p.availability is None && p.salary_expectations is None
            && p.notes is None) ==> preferences_context(p) == "No specific preferences provided."@,
{
    reveal_strlit("\n");
    let a = crate::ai::assistant::context_line("Target Role: "@, opt_text(p.target_role));
    let b = crate::ai::assistant::context_line(
        "Availability for interviews: "@,
        opt_text(p.availability),
    );
    let c = crate::ai::assistant::context_line(
        "Salary Expectations: "@,
        opt_text(p.salary_expectations),
    );
    let n = crate::ai::assistant::context_line("Additional Notes: "@, opt_text(p.notes));
    let all = crate::ai::assistant::preference_lines(p);
    assert(all == a + b + c + n);
    if p.target_role is Some {
        assert(a.len() > 0);
        lemma_concat_parts(seq![], a, b + c + n);
        assert(all =~= Seq::<char>::empty() + a + (b + c + n));
    }
    if p.availability is Some {
        assert(b.len() > 0);
        lemma_concat_parts(a, b, c + n);
        assert(all =~= a + b + (c + n));
    }
    if p.salary_expectations is Some {
        assert(c.len() > 0);
        lemma_concat_parts(a + b, c, n);
    }
    if p.notes is Some {
        assert(n.len() > 0);
        lemma_concat_parts(a + b + c, n, seq![]);
        assert(all =~= a + b + c + n + Seq::<char>::empty());
    }
    if p.target_role is None && p.availability is None && p.salary_expectations is None
        && p.notes is None {
        assert(all.len() == 0);
    }
}

/// What the assistant is told of the user holds the name and the email,
/// each stated detail (phone, location, current role) as its label and its
/// text on a line, and the LinkedIn summary when there is one.
pub proof fn law_profile_context_mentions_each(p: UserProfile, linkedin: Option<Seq<char>>)
    ensures
        starts_with(profile_context(p, linkedin), "Name: "@ + p.name@ + "\n"@ + "Email: "@ + p.email@ + "\n"@),
        p.phone matches Some(x) ==> contains(profile_context(p, linkedin), "Phone: "@ + x@ + "\n"@),
        p.location matches Some(x) ==> contains(
            profile_context(p, linkedin),
            "Location: "@ + x@ + "\n"@,
        ),
        p.current_role matches Some(x) ==> contains(
            profile_context(p, linkedin),
            "Current Role: "@ + x@ + "\n"@,
        ),
        linkedin matches Some(x) ==> ends_with(
            profile_context(p, linkedin),
            "\nLinkedIn Profile:\n"@ + x + "\n"@,
        ),
{
    let h = "Name: "@ + p.name@ + "\n"@ + "Email: "@ + p.email@ + "\n"@;
    let a = crate::ai::assistant::context_line("Phone: "@, opt_text(p.phone));
    let b = crate::ai::assistant::context_line("Location: "@, opt_text(p.location));
    let c = crate::ai::assistant::context_line("Current Role: "@, opt_text(p.current_role));
    let l = crate::ai::assistant::context_line("\nLinkedIn Profile:\n"@, linkedin);
    let all = profile_context(p, linkedin);
    assert(all =~= h + (a + b + c) + l);
    lemma_concat_parts(h, a + b + c, l);
    assert(all =~= h + a + (b + c + l));
    lemma_concat_parts(h, a, b + c + l);
    assert(all =~= (h + a) + b + (c + l));
    lemma_concat_parts(h + a, b, c + l);
    assert(all =~= (h + a + b) + c + l);
    lemma_concat_parts(h + a + b, c, l);
}

/// The job opportunity recorded for a job read out of a reply has the
/// job's title, company, location, work type, salary range and description,
/// and no recruiter.
pub proof fn law_opportunity_copies_job(j: JobOpportunity, p: ParsedJobView)
    requires
        opportunity_of(j, p),
    ensures
        j.title@ == p.title,
        j.company@ == p.company,
        opt_text(j.location) == p.location,
        opt_text(j.work_type) == p.work_type,
        opt_text(j.salary_range) == p.salary_range,
        opt_text(j.description) == p.description,
        j.recruiter is None,
{
}

} // verus!
