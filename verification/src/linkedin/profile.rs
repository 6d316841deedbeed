//! LinkedIn profile data and its summary for the assistant.

use vstd::prelude::*;
use vstd::string::*;
use crate::json::{json_get_str, parse_json, parsed_json, JsonValue};
use crate::text::{join, join_strings, opt_text, text_or, texts};

verus! {

broadcast use vstd::string::group_string_axioms;

/// User's LinkedIn profile information.
#[derive(Debug, Clone)]
pub struct LinkedInProfile {
    /// LinkedIn profile ID
    pub id: String,
    /// User's full name
    pub name: String,
    /// Profile headline
    pub headline: Option<String>,
    /// Current location
    pub location: Option<String>,
    /// About/summary section
    pub summary: Option<String>,
    /// Current position
    pub current_position: Option<Position>,
    /// Work experience
    pub experience: Vec<Position>,
    /// Education
    pub education: Vec<Education>,
    /// Skills
    pub skills: Vec<String>,
    /// Profile URL
    pub profile_url: String,
    /// Contact email (if visible)
    pub email: Option<String>,
    /// Phone number (if visible)
    pub phone: Option<String>,
}

/// Work position/experience.
#[derive(Debug, Clone)]
pub struct Position {
    /// Job title
    pub title: String,
    /// Company name
    pub company: String,
    /// Location
    pub location: Option<String>,
    /// Start date (YYYY-MM format)
    pub start_date: Option<String>,
    /// End date (YYYY-MM format, None if current)
    pub end_date: Option<String>,
    /// Description
    pub description: Option<String>,
}

/// Education entry.
#[derive(Debug, Clone)]
pub struct Education {
    /// School/university name
    pub school: String,
    /// Degree
    pub degree: Option<String>,
    /// Field of study
    pub field_of_study: Option<String>,
    /// Start year
    pub start_year: Option<u32>,
    /// End year
    pub end_year: Option<u32>,
}

/// `label`, the text and a line break, when there is a text.
pub open spec fn labelled_line(label: Seq<char>, o: Option<String>) -> Seq<char> {
    match o {
        Some(s) => label + s@ + "\n"@,
        None => seq![],
    }
}

/// The summary of a profile that the assistant is given.
pub open spec fn summary_text(p: LinkedInProfile) -> Seq<char> {
    "Name: "@ + p.name@ + "\n"@ + labelled_line("Headline: "@, p.headline) + labelled_line(
        "Location: "@,
        p.location,
    ) + match p.current_position {
        Some(c) => "Current Position: "@ + c.title@ + " at "@ + c.company@ + "\n"@,
        None => seq![],
    } + if p.skills@.len() > 0 {
        "Key Skills: "@ + join(texts(p.skills@), ", "@) + "\n"@
    } else {
        seq![]
    } + labelled_line("\nAbout: "@, p.summary)
}

/// Whether a profile holds nothing: empty texts, no optional field, no entries.
pub open spec fn is_blank(p: LinkedInProfile) -> bool {
    &&& p.id@.len() == 0
    &&& p.name@.len() == 0
    &&& p.headline is None
    &&& p.location is None
    &&& p.summary is None
    &&& p.current_position is None
    &&& p.experience@.len() == 0
    &&& p.education@.len() == 0
    &&& p.skills@.len() == 0
    &&& p.profile_url@.len() == 0
    &&& p.email is None
    &&& p.phone is None
}

/// The JSON value of the text that a profile page gives, or `null` when it
/// does not parse (`serde_json::from_str(..).unwrap_or_default()`).
pub open spec fn page_value(text: Seq<char>) -> JsonValue {
    match parsed_json(text) {
        Some(v) => v,
        None => JsonValue::Null,
    }
}

/// The text that a page script returned, or `"{}"` when it returned no text.
pub open spec fn page_text(raw: Option<Seq<char>>) -> Seq<char> {
    match raw {
        Some(t) => t,
        None => "{}"@,
    }
}

/// Appends `label`, `o` and a line break when `o` holds a text.
fn push_labelled(out: &mut String, label: &str, o: &Option<String>)
    ensures
        final(out)@ == old(out)@ + labelled_line(label@, *o),
{
    match o {
        Some(s) => {
            out.append(label);
            out.append(s.as_str());
            out.append("\n");
        },
        None => {
            assert(old(out)@ + Seq::<char>::empty() =~= old(out)@);
        },
    }
}

impl Default for LinkedInProfile {
    /// An empty profile.
    fn default() -> (r: LinkedInProfile)
        ensures
            is_blank(r),
    {
        LinkedInProfile {
            id: String::new(),
            name: String::new(),
            headline: None,
            location: None,
            summary: None,
            current_position: None,
            experience: Vec::new(),
            education: Vec::new(),
            skills: Vec::new(),
            profile_url: String::new(),
            email: None,
            phone: None,
        }
    }
}

impl LinkedInProfile {
    /// Generate a summary of the profile for AI context.
    pub fn to_summary(&self) -> (r: String)
        ensures
            r@ == summary_text(*self),
    {
        let mut out = String::new();
        out.append("Name: ");
        out.append(self.name.as_str());
        out.append("\n");
        push_labelled(&mut out, "Headline: ", &self.headline);
        push_labelled(&mut out, "Location: ", &self.location);
        let ghost before_position = out@;
        match &self.current_position {
            Some(c) => {
                out.append("Current Position: ");
                out.append(c.title.as_str());
                out.append(" at ");
                out.append(c.company.as_str());
                out.append("\n");
            },
            None => {
                assert(before_position + Seq::<char>::empty() =~= before_position);
            },
        }
        let ghost before_skills = out@;
        if self.skills.len() > 0 {
            out.append("Key Skills: ");
            let skills = join_strings(&self.skills, ", ");
            out.append(skills.as_str());
            out.append("\n");
        } else {
            assert(before_skills + Seq::<char>::empty() =~= before_skills);
        }
        push_labelled(&mut out, "\nAbout: ", &self.summary);
        assert(out@ =~= summary_text(*self));
        out
    }

    /// The profile read out of the JSON text that the profile page script
    /// returns (`None` when it returned no text, read as `"{}"`): name,
    /// headline, location and URL from the string members of that name,
    /// an empty name or URL where there is none, and nothing else.
    pub fn from_page_data(raw: Option<&str>) -> (r: LinkedInProfile)
        ensures
            ({
                let v = page_value(
                    page_text(
                        match raw {
                            Some(t) => Some(t@),
                            None => None,
                        },
                    ),
                );
                &&& r.id@.len() == 0
                &&& r.name@ == text_or(json_get_str(v, "name"@), seq![])
                &&& opt_text(r.headline) == json_get_str(v, "headline"@)
                &&& opt_text(r.location) == json_get_str(v, "location"@)
                &&& r.profile_url@ == text_or(json_get_str(v, "profile_url"@), seq![])
                &&& r.summary is None
                &&& r.current_position is None
                &&& r.experience@.len() == 0
                &&& r.education@.len() == 0
                &&& r.skills@.len() == 0
                &&& r.email is None
                &&& r.phone is None
            }),
    {
        let text: &str = match raw {
            Some(t) => t,
            None => "{}",
        };
        let v = match parse_json(text) {
            Some(v) => v,
            None => JsonValue::Null,
        };
        let name = match v.get_text("name") {
            Some(s) => s,
            None => String::new(),
        };
        let profile_url = match v.get_text("profile_url") {
            Some(s) => s,
            None => String::new(),
        };
        LinkedInProfile {
            id: String::new(),
            name,
            headline: v.get_text("headline"),
            location: v.get_text("location"),
            summary: None,
            current_position: None,
            experience: Vec::new(),
            education: Vec::new(),
            skills: Vec::new(),
            profile_url,
            email: None,
            phone: None,
        }
    }
}

} // verus!
