//! Shared response and request shapes of the service, and the issue type
//! with its typed field readers.

use vstd::prelude::*;

use crate::builder::string_pair_views;
use crate::fields::{
    duplicate_entries, entries_deep, get_field, get_opt_str, get_opt_u64, get_req_bool,
    get_req_str, get_req_u64, get_value, lookup_value, obj_bool, obj_field, obj_missing, obj_str,
    obj_uint, opt_str, opt_str_ok, opt_uint, opt_uint_ok, str_of, FieldValue,
};
use crate::text::string_views;
use crate::{url_joined, Jira};

verus! {

/// The structured error body the service returns on a client-error status:
/// a list of free-text messages and a mapping from field name to message.
#[derive(Debug)]
pub struct Errors {
    pub error_messages: Vec<String>,
    pub errors: Vec<(String, String)>,
}

/// A calendar timestamp with a fixed offset, held in plain fields.
#[derive(Debug, Clone, Copy, PartialEq, Eq, Structural)]
pub struct DateTime {
    pub year: i32,
    pub month: u8,
    pub day: u8,
    pub hour: u8,
    pub minute: u8,
    pub second: u8,
    pub nanosecond: u32,
    pub offset_seconds: i32,
}

/// One issue: its links, key, identifier and the named field values.
#[derive(Debug)]
pub struct Issue {
    pub self_link: String,
    pub key: String,
    pub id: String,
    pub fields: Vec<(String, FieldValue)>,
    pub changelog: Option<Changelog>,
}

/// One attachment's metadata.
#[derive(Debug)]
pub struct Attachment {
    pub id: String,
    pub self_link: String,
    pub filename: String,
    pub author: User,
    pub created: String,
    pub size: u64,
    pub mime_type: String,
    pub content: String,
    pub thumbnail: Option<String>,
}

/// One comment on an issue.
#[derive(Debug)]
pub struct Comment {
    pub id: Option<String>,
    pub self_link: String,
    pub author: Option<User>,
    pub update_author: Option<User>,
    pub created: Option<DateTime>,
    pub updated: Option<DateTime>,
    pub body: String,
    pub visibility: Option<Visibility>,
}

/// Who may see a comment or worklog.
#[derive(Debug)]
pub struct Visibility {
    pub visibility_type: String,
    pub value: String,
}

/// The change history of an issue.
#[derive(Debug)]
pub struct Changelog {
    pub histories: Vec<History>,
}

/// One recorded change.
#[derive(Debug)]
pub struct History {
    pub author: User,
    pub created: String,
    pub items: Vec<HistoryItem>,
}

/// One changed field within a recorded change.
#[derive(Debug)]
pub struct HistoryItem {
    pub field: String,
    pub from: Option<String>,
    pub from_string: Option<String>,
    pub to: Option<String>,
    pub to_string: Option<String>,
}

/// One project.
#[derive(Debug)]
pub struct Project {
    pub id: String,
    pub key: String,
    pub name: String,
}

/// A link relationship between two issues.
#[derive(Debug)]
pub struct IssueLink {
    pub id: String,
    pub self_link: String,
    pub outward_issue: Option<Issue>,
    pub inward_issue: Option<Issue>,
    pub link_type: LinkType,
}

/// The kind of relation an issue link expresses.
#[derive(Debug)]
pub struct LinkType {
    pub id: String,
    pub inward: String,
    pub name: String,
    pub outward: String,
    pub self_link: String,
}

/// One project version.
#[derive(Debug)]
pub struct Version {
    pub archived: bool,
    pub id: String,
    pub name: String,
    pub project_id: u64,
    pub released: bool,
    pub self_link: String,
}

/// The body that creates a version.
#[derive(Debug)]
pub struct VersionCreationBody {
    pub name: String,
    pub project_id: u64,
}

/// The body that moves a version after another.
#[derive(Debug)]
pub struct VersionMoveAfterBody {
    pub after: String,
}

/// The body that updates a version's released and archived state.
#[derive(Debug)]
pub struct VersionUpdateBody {
    pub released: bool,
    pub archived: bool,
    pub move_unfixed_issues_to: Option<String>,
}

/// One user.
#[derive(Debug)]
pub struct User {
    pub active: bool,
    pub avatar_urls: Option<Vec<(String, String)>>,
    pub display_name: String,
    pub email_address: Option<String>,
    pub key: Option<String>,
    pub name: String,
    pub self_link: String,
    pub timezone: Option<String>,
}

/// One issue status.
#[derive(Debug)]
pub struct Status {
    pub description: String,
    pub icon_url: String,
    pub id: String,
    pub name: String,
    pub self_link: String,
}

/// One issue priority.
#[derive(Debug)]
pub struct Priority {
    pub icon_url: String,
    pub id: String,
    pub name: String,
    pub self_link: String,
}

/// One issue type.
#[derive(Debug)]
pub struct IssueType {
    pub description: String,
    pub icon_url: String,
    pub id: String,
    pub name: String,
    pub self_link: String,
    pub subtask: bool,
}

/// One page of issue search results, terminated by the total count.
#[derive(Debug)]
pub struct SearchResults {
    pub total: u64,
    pub max_results: u64,
    pub start_at: u64,
    pub expand: Option<String>,
    pub issues: Vec<Issue>,
}

/// The time tracked on an issue.
#[derive(Debug)]
pub struct TimeTracking {
    pub original_estimate: Option<String>,
    pub original_estimate_seconds: Option<u64>,
    pub remaining_estimate: Option<String>,
    pub remaining_estimate_seconds: Option<u64>,
    pub time_spent: Option<String>,
    pub time_spent_seconds: Option<u64>,
}

/// One transition an issue may go through.
#[derive(Debug)]
pub struct TransitionOption {
    pub id: String,
    pub name: String,
    pub to: TransitionTo,
}

/// The status a transition leads to.
#[derive(Debug)]
pub struct TransitionTo {
    pub name: String,
    pub id: String,
}

/// The list of transitions an issue may go through.
#[derive(Debug)]
pub struct TransitionOptions {
    pub transitions: Vec<TransitionOption>,
}

/// A resolution to set while transitioning.
#[derive(Debug)]
pub struct Resolution {
    pub name: String,
}

/// One transition, named by its identifier.
#[derive(Debug)]
pub struct Transition {
    pub id: String,
}

/// The current session.
#[derive(Debug)]
pub struct Session {
    pub name: String,
}

/// The body that triggers a transition, with the fields it updates.
#[derive(Debug)]
pub struct TransitionTriggerOptions {
    pub transition: Transition,
    pub fields: Vec<(String, FieldValue)>,
}

impl TransitionTriggerOptions {
    /// A trigger of the transition with the given identifier, updating no
    /// fields.
    pub fn new(id: &str) -> (r: TransitionTriggerOptions)
        ensures
            r.transition.id@ == id@,
            r.fields@.len() == 0,
    {
        TransitionTriggerOptions { transition: Transition { id: String::from_str(id) }, fields: Vec::new() }
    }

    /// A builder seeded with the transition's identifier.
    pub fn builder(id: &str) -> (r: TransitionTriggerOptionsBuilder)
        ensures
            r.transition.id@ == id@,
            r.fields@.len() == 0,
    {
        TransitionTriggerOptionsBuilder::new(id)
    }
}

/// A builder for a transition trigger.
#[derive(Debug)]
pub struct TransitionTriggerOptionsBuilder {
    pub transition: Transition,
    pub fields: Vec<(String, FieldValue)>,
}

impl TransitionTriggerOptionsBuilder {
    /// A builder for the transition with the given identifier.
    pub fn new(id: &str) -> (r: TransitionTriggerOptionsBuilder)
        ensures
            r.transition.id@ == id@,
            r.fields@.len() == 0,
    {
        TransitionTriggerOptionsBuilder {
            transition: Transition { id: String::from_str(id) },
            fields: Vec::new(),
        }
    }

    /// Sets one field to update as part of the transition; a later write
    /// under the same name wins.
    pub fn field(self, name: &str, value: FieldValue) -> (r: TransitionTriggerOptionsBuilder)
        ensures
            r.transition == self.transition,
            lookup_value(r.fields@, name@) == Some(value),
            forall|n: Seq<char>| n != name@ ==> lookup_value(r.fields@, n) == lookup_value(
                self.fields@,
                n,
            ),
    {
        let TransitionTriggerOptionsBuilder { transition, mut fields } = self;
        fields.push((String::from_str(name), value));
        proof {
            assert(fields@.drop_last() =~= self.fields@);
        }
        TransitionTriggerOptionsBuilder { transition, fields }
    }

    /// Sets the resolution to apply in the transition.
    pub fn resolution(self, name: &str) -> (r: TransitionTriggerOptionsBuilder)
        ensures
            r.transition == self.transition,
            (lookup_value(r.fields@, "resolution"@) matches Some(v) && obj_str(v, "name"@) == Some(
                name@,
            )),
            forall|n: Seq<char>| n != "resolution"@ ==> lookup_value(r.fields@, n) == lookup_value(
                self.fields@,
                n,
            ),
    {
        let mut entries: Vec<(String, FieldValue)> = Vec::new();
        entries.push((String::from_str("name"), FieldValue::Str(String::from_str(name))));
        let value = FieldValue::Object(entries);
        proof {
            assert(obj_str(value, "name"@) == Some(name@));
        }
        self.field("resolution", value)
    }

    /// Builds the trigger body holding the set fields.
    pub fn build(&self) -> (r: TransitionTriggerOptions)
        ensures
            r.transition.id@ == self.transition.id@,
            entries_deep(r.fields@) == entries_deep(self.fields@),
    {
        TransitionTriggerOptions {
            transition: Transition { id: self.transition.id.clone() },
            fields: crate::fields::duplicate_entries(&self.fields),
        }
    }
}

/// What parsing a text as an ISO-8601 timestamp gives, as a named function
/// of the text alone.
pub uninterp spec fn iso8601_datetime(s: Seq<char>) -> Option<DateTime>;

/// Relies on time's `OffsetDateTime::parse` with the ISO-8601 description;
/// the parsed timestamp's calendar fields are copied out, a function of
/// the text alone.
#[verifier::external_body]
fn parse_iso8601(s: &str) -> (r: Option<DateTime>)
    ensures
        r == iso8601_datetime(s@),
{
    match time::OffsetDateTime::parse(s, &time::format_description::well_known::Iso8601::DEFAULT) {
        Ok(t) => Some(
            DateTime {
                year: t.year(),
                month: t.month() as u8,
                day: t.day(),
                hour: t.hour(),
                minute: t.minute(),
                second: t.second(),
                nanosecond: t.nanosecond(),
                offset_seconds: t.offset().whole_seconds(),
            },
        ),
        Err(_) => None,
    }
}

/// The view of an optional text.
pub open spec fn opt_text(o: Option<String>) -> Option<Seq<char>> {
    match o {
        Some(s) => Some(s@),
        None => None,
    }
}

/// Whether an optional timestamp field reads cleanly: absent, null, or a
/// text that parses as an ISO-8601 timestamp.
pub open spec fn opt_datetime_ok(v: FieldValue, name: Seq<char>) -> bool {
    obj_missing(v, name) || (obj_str(v, name) matches Some(t) && iso8601_datetime(t) is Some)
}

/// The reading of an optional timestamp field.
pub open spec fn opt_datetime(v: FieldValue, name: Seq<char>) -> Option<DateTime> {
    if obj_missing(v, name) {
        None
    } else {
        match obj_str(v, name) {
            Some(t) => iso8601_datetime(t),
            None => None,
        }
    }
}

/// Reads an optional timestamp field: the outer option is the clean
/// reading, the inner the presence.
fn get_opt_datetime(v: &FieldValue, name: &str) -> (r: Option<Option<DateTime>>)
    ensures
        r is Some <==> opt_datetime_ok(*v, name@),
        r matches Some(o) ==> o == opt_datetime(*v, name@),
{
    match get_field(v, name) {
        None => Some(None),
        Some(f) => match f {
            FieldValue::Null => Some(None),
            FieldValue::Str(s) => match parse_iso8601(s.as_str()) {
                Some(t) => Some(Some(t)),
                None => None,
            },
            _ => None,
        },
    }
}

/// Whether every entry of a list of named values holds a string.
pub open spec fn str_entries_ok(entries: Seq<(String, FieldValue)>) -> bool {
    forall|i: int| 0 <= i < entries.len() ==> entries[i].1 is Str
}

/// The texts of a list of named string values.
pub open spec fn str_entry_views(entries: Seq<(String, FieldValue)>) -> Seq<(Seq<char>, Seq<char>)> {
    Seq::new(entries.len(), |i: int| (entries[i].0@, entries[i].1->Str_0@))
}

/// Returns the pairs of an object value whose entries are all strings.
#[verifier::loop_isolation(false)]
fn get_str_pairs(v: &FieldValue) -> (r: Option<Vec<(String, String)>>)
    ensures
        r is Some <==> (*v matches FieldValue::Object(e) && str_entries_ok(e@)),
        r matches Some(ps) ==> (*v matches FieldValue::Object(e) && string_pair_views(ps@)
            == str_entry_views(e@)),
{
    match v {
        FieldValue::Object(entries) => {
            let mut out: Vec<(String, String)> = Vec::new();
            let mut i: usize = 0;
            while i < entries.len()
                invariant
                    0 <= i <= entries@.len(),
                    out@.len() == i,
                    forall|k: int| 0 <= k < i ==> entries@[k].1 is Str,
                    forall|k: int|
                        0 <= k < i ==> out@[k].0@ == entries@[k].0@ && out@[k].1@ == entries@[k].1->Str_0@,
                decreases entries@.len() - i,
            {
                match &entries[i].1 {
                    FieldValue::Str(s) => {
                        out.push((entries[i].0.clone(), s.clone()));
                    },
                    _ => {
                        return None;
                    },
                }
                i = i + 1;
            }
            proof {
                assert(string_pair_views(out@) =~~= str_entry_views(entries@));
            }
            Some(out)
        },
        _ => None,
    }
}

/// Whether an avatar map field reads cleanly: absent, null, or an object
/// of strings.
pub open spec fn avatar_ok(v: FieldValue) -> bool {
    obj_missing(v, "avatarUrls"@) || (obj_field(v, "avatarUrls"@) matches Some(f) && f matches
        FieldValue::Object(e) && str_entries_ok(e@))
}

/// Whether a value parses as a user.
pub open spec fn user_ok(v: FieldValue) -> bool {
    &&& obj_bool(v, "active"@) is Some
    &&& obj_str(v, "displayName"@) is Some
    &&& obj_str(v, "name"@) is Some
    &&& obj_str(v, "self"@) is Some
    &&& opt_str_ok(v, "emailAddress"@)
    &&& opt_str_ok(v, "key"@)
    &&& opt_str_ok(v, "timeZone"@)
    &&& avatar_ok(v)
}

/// Whether `u` is the user a value parses to.
pub open spec fn user_matches(v: FieldValue, u: User) -> bool {
    &&& obj_bool(v, "active"@) == Some(u.active)
    &&& obj_str(v, "displayName"@) == Some(u.display_name@)
    &&& obj_str(v, "name"@) == Some(u.name@)
    &&& obj_str(v, "self"@) == Some(u.self_link@)
    &&& opt_text(u.email_address) == opt_str(v, "emailAddress"@)
    &&& opt_text(u.key) == opt_str(v, "key"@)
    &&& opt_text(u.timezone) == opt_str(v, "timeZone"@)
    &&& match u.avatar_urls {
        Some(ps) => !obj_missing(v, "avatarUrls"@) && (obj_field(v, "avatarUrls"@) matches Some(f)
            && f matches FieldValue::Object(e) && string_pair_views(ps@) == str_entry_views(e@)),
        None => obj_missing(v, "avatarUrls"@),
    }
}

/// Parses a user from a field value.
pub fn user_of(v: &FieldValue) -> (r: Option<User>)
    ensures
        r is Some <==> user_ok(*v),
        r matches Some(u) ==> user_matches(*v, u),
{
    let active = match get_req_bool(v, "active") {
        Some(b) => b,
        None => {
            return None;
        },
    };
    let display_name = match get_req_str(v, "displayName") {
        Some(s) => s,
        None => {
            return None;
        },
    };
    let name = match get_req_str(v, "name") {
        Some(s) => s,
        None => {
            return None;
        },
    };
    let self_link = match get_req_str(v, "self") {
        Some(s) => s,
        None => {
            return None;
        },
    };
    let email_address = match get_opt_str(v, "emailAddress") {
        Some(o) => o,
        None => {
            return None;
        },
    };
    let key = match get_opt_str(v, "key") {
        Some(o) => o,
        None => {
            return None;
        },
    };
    let timezone = match get_opt_str(v, "timeZone") {
        Some(o) => o,
        None => {
            return None;
        },
    };
    let avatar_urls = match get_field(v, "avatarUrls") {
        None => None,
        Some(f) => match f {
            FieldValue::Null => None,
            _ => match get_str_pairs(f) {
                Some(ps) => Some(ps),
                None => {
                    return None;
                },
            },
        },
    };
    Some(User { active, avatar_urls, display_name, email_address, key, name, self_link, timezone })
}

/// Whether a value parses as a status.
pub open spec fn status_ok(v: FieldValue) -> bool {
    &&& obj_str(v, "description"@) is Some
    &&& obj_str(v, "iconUrl"@) is Some
    &&& obj_str(v, "id"@) is Some
    &&& obj_str(v, "name"@) is Some
    &&& obj_str(v, "self"@) is Some
}

/// Whether `s` is the status a value parses to.
pub open spec fn status_matches(v: FieldValue, s: Status) -> bool {
    &&& obj_str(v, "description"@) == Some(s.description@)
    &&& obj_str(v, "iconUrl"@) == Some(s.icon_url@)
    &&& obj_str(v, "id"@) == Some(s.id@)
    &&& obj_str(v, "name"@) == Some(s.name@)
    &&& obj_str(v, "self"@) == Some(s.self_link@)
}

/// Parses a status from a field value.
pub fn status_of(v: &FieldValue) -> (r: Option<Status>)
    ensures
        r is Some <==> status_ok(*v),
        r matches Some(s) ==> status_matches(*v, s),
{
    let description = match get_req_str(v, "description") {
        Some(s) => s,
        None => {
            return None;
        },
    };
    let icon_url = match get_req_str(v, "iconUrl") {
        Some(s) => s,
        None => {
            return None;
        },
    };
    let id = match get_req_str(v, "id") {
        Some(s) => s,
        None => {
            return None;
        },
    };
    let name = match get_req_str(v, "name") {
        Some(s) => s,
        None => {
            return None;
        },
    };
    let self_link = match get_req_str(v, "self") {
        Some(s) => s,
        None => {
            return None;
        },
    };
    Some(Status { description, icon_url, id, name, self_link })
}

/// Whether a value parses as a priority. The icon address is read under
/// `icon_url`, a plain snake-case key, unlike the camel-case `iconUrl` of
/// statuses and issue types.
pub open spec fn priority_ok(v: FieldValue) -> bool {
    &&& obj_str(v, "icon_url"@) is Some
    &&& obj_str(v, "id"@) is Some
    &&& obj_str(v, "name"@) is Some
    &&& obj_str(v, "self"@) is Some
}

/// Whether `p` is the priority a value parses to.
pub open spec fn priority_matches(v: FieldValue, p: Priority) -> bool {
    &&& obj_str(v, "icon_url"@) == Some(p.icon_url@)
    &&& obj_str(v, "id"@) == Some(p.id@)
    &&& obj_str(v, "name"@) == Some(p.name@)
    &&& obj_str(v, "self"@) == Some(p.self_link@)
}

/// Parses a priority from a field value.
pub fn priority_of(v: &FieldValue) -> (r: Option<Priority>)
    ensures
        r is Some <==> priority_ok(*v),
        r matches Some(p) ==> priority_matches(*v, p),
{
    let icon_url = match get_req_str(v, "icon_url") {
        Some(s) => s,
        None => {
            return None;
        },
    };
    let id = match get_req_str(v, "id") {
        Some(s) => s,
        None => {
            return None;
        },
    };
    let name = match get_req_str(v, "name") {
        Some(s) => s,
        None => {
            return None;
        },
    };
    let self_link = match get_req_str(v, "self") {
        Some(s) => s,
        None => {
            return None;
        },
    };
    Some(Priority { icon_url, id, name, self_link })
}

/// Whether a value parses as an issue type.
pub open spec fn issue_type_ok(v: FieldValue) -> bool {
    &&& obj_str(v, "description"@) is Some
    &&& obj_str(v, "iconUrl"@) is Some
    &&& obj_str(v, "id"@) is Some
    &&& obj_str(v, "name"@) is Some
    &&& obj_str(v, "self"@) is Some
    &&& obj_bool(v, "subtask"@) is Some
}

/// Whether `t` is the issue type a value parses to.
pub open spec fn issue_type_matches(v: FieldValue, t: IssueType) -> bool {
    &&& obj_str(v, "description"@) == Some(t.description@)
    &&& obj_str(v, "iconUrl"@) == Some(t.icon_url@)
    &&& obj_str(v, "id"@) == Some(t.id@)
    &&& obj_str(v, "name"@) == Some(t.name@)
    &&& obj_str(v, "self"@) == Some(t.self_link@)
    &&& obj_bool(v, "subtask"@) == Some(t.subtask)
}

/// Parses an issue type from a field value.
pub fn issue_type_of(v: &FieldValue) -> (r: Option<IssueType>)
    ensures
        r is Some <==> issue_type_ok(*v),
        r matches Some(t) ==> issue_type_matches(*v, t),
{
    let description = match get_req_str(v, "description") {
        Some(s) => s,
        None => {
            return None;
        },
    };
    let icon_url = match get_req_str(v, "iconUrl") {
        Some(s) => s,
        None => {
            return None;
        },
    };
    let id = match get_req_str(v, "id") {
        Some(s) => s,
        None => {
            return None;
        },
    };
    let name = match get_req_str(v, "name") {
        Some(s) => s,
        None => {
            return None;
        },
    };
    let self_link = match get_req_str(v, "self") {
        Some(s) => s,
        None => {
            return None;
        },
    };
    let subtask = match get_req_bool(v, "subtask") {
        Some(b) => b,
        None => {
            return None;
        },
    };
    Some(IssueType { description, icon_url, id, name, self_link, subtask })
}

/// Whether a value parses as a project.
pub open spec fn project_ok(v: FieldValue) -> bool {
    &&& obj_str(v, "id"@) is Some
    &&& obj_str(v, "key"@) is Some
    &&& obj_str(v, "name"@) is Some
}

/// Whether `p` is the project a value parses to.
pub open spec fn project_matches(v: FieldValue, p: Project) -> bool {
    &&& obj_str(v, "id"@) == Some(p.id@)
    &&& obj_str(v, "key"@) == Some(p.key@)
    &&& obj_str(v, "name"@) == Some(p.name@)
}

/// Parses a project from a field value.
pub fn project_of(v: &FieldValue) -> (r: Option<Project>)
    ensures
        r is Some <==> project_ok(*v),
        r matches Some(p) ==> project_matches(*v, p),
{
    let id = match get_req_str(v, "id") {
        Some(s) => s,
        None => {
            return None;
        },
    };
    let key = match get_req_str(v, "key") {
        Some(s) => s,
        None => {
            return None;
        },
    };
    let name = match get_req_str(v, "name") {
        Some(s) => s,
        None => {
            return None;
        },
    };
    Some(Project { id, key, name })
}

/// Whether a value parses as a resolution.
pub open spec fn resolution_ok(v: FieldValue) -> bool {
    obj_str(v, "name"@) is Some
}

/// Whether `x` is the resolution a value parses to.
pub open spec fn resolution_matches(v: FieldValue, x: Resolution) -> bool {
    obj_str(v, "name"@) == Some(x.name@)
}

/// Parses a resolution from a field value.
pub fn resolution_of(v: &FieldValue) -> (r: Option<Resolution>)
    ensures
        r is Some <==> resolution_ok(*v),
        r matches Some(x) ==> resolution_matches(*v, x),
{
    match get_req_str(v, "name") {
        Some(name) => Some(Resolution { name }),
        None => None,
    }
}

/// Whether a value parses as a version.
pub open spec fn version_ok(v: FieldValue) -> bool {
    &&& obj_bool(v, "archived"@) is Some
    &&& obj_str(v, "id"@) is Some
    &&& obj_str(v, "name"@) is Some
    &&& obj_uint(v, "projectId"@) is Some
    &&& obj_bool(v, "released"@) is Some
    &&& obj_str(v, "self"@) is Some
}

/// Whether `x` is the version a value parses to.
pub open spec fn version_matches(v: FieldValue, x: Version) -> bool {
    &&& obj_bool(v, "archived"@) == Some(x.archived)
    &&& obj_str(v, "id"@) == Some(x.id@)
    &&& obj_str(v, "name"@) == Some(x.name@)
    &&& obj_uint(v, "projectId"@) == Some(x.project_id)
    &&& obj_bool(v, "released"@) == Some(x.released)
    &&& obj_str(v, "self"@) == Some(x.self_link@)
}

/// Parses a version from a field value.
pub fn version_of(v: &FieldValue) -> (r: Option<Version>)
    ensures
        r is Some <==> version_ok(*v),
        r matches Some(x) ==> version_matches(*v, x),
{
    let archived = match get_req_bool(v, "archived") {
        Some(b) => b,
        None => {
            return None;
        },
    };
    let id = match get_req_str(v, "id") {
        Some(s) => s,
        None => {
            return None;
        },
    };
    let name = match get_req_str(v, "name") {
        Some(s) => s,
        None => {
            return None;
        },
    };
    let project_id = match get_req_u64(v, "projectId") {
        Some(n) => n,
        None => {
            return None;
        },
    };
    let released = match get_req_bool(v, "released") {
        Some(b) => b,
        None => {
            return None;
        },
    };
    let self_link = match get_req_str(v, "self") {
        Some(s) => s,
        None => {
            return None;
        },
    };
    Some(Version { archived, id, name, project_id, released, self_link })
}

/// Whether a value parses as a visibility.
pub open spec fn visibility_ok(v: FieldValue) -> bool {
    &&& obj_str(v, "type"@) is Some
    &&& obj_str(v, "value"@) is Some
}

/// Whether `x` is the visibility a value parses to.
pub open spec fn visibility_matches(v: FieldValue, x: Visibility) -> bool {
    &&& obj_str(v, "type"@) == Some(x.visibility_type@)
    &&& obj_str(v, "value"@) == Some(x.value@)
}

/// Parses a visibility from a field value.
pub fn visibility_of(v: &FieldValue) -> (r: Option<Visibility>)
    ensures
        r is Some <==> visibility_ok(*v),
        r matches Some(x) ==> visibility_matches(*v, x),
{
    let visibility_type = match get_req_str(v, "type") {
        Some(s) => s,
        None => {
            return None;
        },
    };
    let value = match get_req_str(v, "value") {
        Some(s) => s,
        None => {
            return None;
        },
    };
    Some(Visibility { visibility_type, value })
}

/// Whether a value parses as a time tracking record.
pub open spec fn timetracking_ok(v: FieldValue) -> bool {
    &&& v is Object
    &&& opt_str_ok(v, "originalEstimate"@)
    &&& opt_uint_ok(v, "originalEstimateSeconds"@)
    &&& opt_str_ok(v, "remainingEstimate"@)
    &&& opt_uint_ok(v, "remainingEstimateSeconds"@)
    &&& opt_str_ok(v, "timeSpent"@)
    &&& opt_uint_ok(v, "timeSpentSeconds"@)
}

/// Whether `t` is the time tracking record a value parses to.
pub open spec fn timetracking_matches(v: FieldValue, t: TimeTracking) -> bool {
    &&& opt_text(t.original_estimate) == opt_str(v, "originalEstimate"@)
    &&& t.original_estimate_seconds == opt_uint(v, "originalEstimateSeconds"@)
    &&& opt_text(t.remaining_estimate) == opt_str(v, "remainingEstimate"@)
    &&& t.remaining_estimate_seconds == opt_uint(v, "remainingEstimateSeconds"@)
    &&& opt_text(t.time_spent) == opt_str(v, "timeSpent"@)
    &&& t.time_spent_seconds == opt_uint(v, "timeSpentSeconds"@)
}

/// Parses a time tracking record from a field value.
pub fn timetracking_of(v: &FieldValue) -> (r: Option<TimeTracking>)
    ensures
        r is Some <==> timetracking_ok(*v),
        r matches Some(t) ==> timetracking_matches(*v, t),
{
    match v {
        FieldValue::Object(_) => {},
        _ => {
            return None;
        },
    }
    let original_estimate = match get_opt_str(v, "originalEstimate") {
        Some(o) => o,
        None => {
            return None;
        },
    };
    let original_estimate_seconds = match get_opt_u64(v, "originalEstimateSeconds") {
        Some(o) => o,
        None => {
            return None;
        },
    };
    let remaining_estimate = match get_opt_str(v, "remainingEstimate") {
        Some(o) => o,
        None => {
            return None;
        },
    };
    let remaining_estimate_seconds = match get_opt_u64(v, "remainingEstimateSeconds") {
        Some(o) => o,
        None => {
            return None;
        },
    };
    let time_spent = match get_opt_str(v, "timeSpent") {
        Some(o) => o,
        None => {
            return None;
        },
    };
    let time_spent_seconds = match get_opt_u64(v, "timeSpentSeconds") {
        Some(o) => o,
        None => {
            return None;
        },
    };
    Some(
        TimeTracking {
            original_estimate,
            original_estimate_seconds,
            remaining_estimate,
            remaining_estimate_seconds,
            time_spent,
            time_spent_seconds,
        },
    )
}

/// Whether an optional user field reads cleanly: absent, null, or a value
/// that parses as a user.
pub open spec fn opt_user_ok(v: FieldValue, name: Seq<char>) -> bool {
    obj_missing(v, name) || (obj_field(v, name) matches Some(f) && user_ok(f))
}

/// Whether `o` is the reading of an optional user field.
pub open spec fn opt_user_matches(v: FieldValue, name: Seq<char>, o: Option<User>) -> bool {
    match o {
        Some(u) => !obj_missing(v, name) && (obj_field(v, name) matches Some(f) && user_matches(
            f,
            u,
        )),
        None => obj_missing(v, name),
    }
}

/// Reads an optional user field: the outer option is the clean reading,
/// the inner the presence.
fn opt_user_field(v: &FieldValue, name: &str) -> (r: Option<Option<User>>)
    ensures
        r is Some <==> opt_user_ok(*v, name@),
        r matches Some(o) ==> opt_user_matches(*v, name@, o),
{
    match get_field(v, name) {
        None => Some(None),
        Some(f) => match f {
            FieldValue::Null => Some(None),
            _ => match user_of(f) {
                Some(u) => Some(Some(u)),
                None => None,
            },
        },
    }
}

/// Whether a value parses as a comment.
pub open spec fn comment_ok(v: FieldValue) -> bool {
    &&& obj_str(v, "self"@) is Some
    &&& obj_str(v, "body"@) is Some
    &&& opt_str_ok(v, "id"@)
    &&& opt_user_ok(v, "author"@)
    &&& opt_user_ok(v, "updateAuthor"@)
    &&& opt_datetime_ok(v, "created"@)
    &&& opt_datetime_ok(v, "updated"@)
    &&& (obj_missing(v, "visibility"@) || (obj_field(v, "visibility"@) matches Some(f)
        && visibility_ok(f)))
}

/// Whether `c` is the comment a value parses to.
pub open spec fn comment_matches(v: FieldValue, c: Comment) -> bool {
    &&& obj_str(v, "self"@) == Some(c.self_link@)
    &&& obj_str(v, "body"@) == Some(c.body@)
    &&& opt_text(c.id) == opt_str(v, "id"@)
    &&& opt_user_matches(v, "author"@, c.author)
    &&& opt_user_matches(v, "updateAuthor"@, c.update_author)
    &&& c.created == opt_datetime(v, "created"@)
    &&& c.updated == opt_datetime(v, "updated"@)
    &&& match c.visibility {
        Some(x) => !obj_missing(v, "visibility"@) && (obj_field(v, "visibility"@) matches Some(f)
            && visibility_matches(f, x)),
        None => obj_missing(v, "visibility"@),
    }
}

/// Parses a comment from a field value.
pub fn comment_of(v: &FieldValue) -> (r: Option<Comment>)
    ensures
        r is Some <==> comment_ok(*v),
        r matches Some(c) ==> comment_matches(*v, c),
{
    let self_link = match get_req_str(v, "self") {
        Some(s) => s,
        None => {
            return None;
        },
    };
    let body = match get_req_str(v, "body") {
        Some(s) => s,
        None => {
            return None;
        },
    };
    let id = match get_opt_str(v, "id") {
        Some(o) => o,
        None => {
            return None;
        },
    };
    let author = match opt_user_field(v, "author") {
        Some(o) => o,
        None => {
            return None;
        },
    };
    let update_author = match opt_user_field(v, "updateAuthor") {
        Some(o) => o,
        None => {
            return None;
        },
    };
    let created = match get_opt_datetime(v, "created") {
        Some(o) => o,
        None => {
            return None;
        },
    };
    let updated = match get_opt_datetime(v, "updated") {
        Some(o) => o,
        None => {
            return None;
        },
    };
    let visibility = match get_field(v, "visibility") {
        None => None,
        Some(f) => match f {
            FieldValue::Null => None,
            _ => match visibility_of(f) {
                Some(x) => Some(x),
                None => {
                    return None;
                },
            },
        },
    };
    Some(Comment { id, self_link, author, update_author, created, updated, body, visibility })
}

/// Whether a value parses as an attachment.
pub open spec fn attachment_ok(v: FieldValue) -> bool {
    &&& obj_str(v, "id"@) is Some
    &&& obj_str(v, "self"@) is Some
    &&& obj_str(v, "filename"@) is Some
    &&& (obj_field(v, "author"@) matches Some(f) && user_ok(f))
    &&& obj_str(v, "created"@) is Some
    &&& obj_uint(v, "size"@) is Some
    &&& obj_str(v, "mimeType"@) is Some
    &&& obj_str(v, "content"@) is Some
    &&& opt_str_ok(v, "thumbnail"@)
}

/// Whether `a` is the attachment a value parses to.
pub open spec fn attachment_matches(v: FieldValue, a: Attachment) -> bool {
    &&& obj_str(v, "id"@) == Some(a.id@)
    &&& obj_str(v, "self"@) == Some(a.self_link@)
    &&& obj_str(v, "filename"@) == Some(a.filename@)
    &&& (obj_field(v, "author"@) matches Some(f) && user_matches(f, a.author))
    &&& obj_str(v, "created"@) == Some(a.created@)
    &&& obj_uint(v, "size"@) == Some(a.size)
    &&& obj_str(v, "mimeType"@) == Some(a.mime_type@)
    &&& obj_str(v, "content"@) == Some(a.content@)
    &&& opt_text(a.thumbnail) == opt_str(v, "thumbnail"@)
}

/// Parses an attachment from a field value.
pub fn attachment_of(v: &FieldValue) -> (r: Option<Attachment>)
    ensures
        r is Some <==> attachment_ok(*v),
        r matches Some(a) ==> attachment_matches(*v, a),
{
    let id = match get_req_str(v, "id") {
        Some(s) => s,
        None => {
            return None;
        },
    };
    let self_link = match get_req_str(v, "self") {
        Some(s) => s,
        None => {
            return None;
        },
    };
    let filename = match get_req_str(v, "filename") {
        Some(s) => s,
        None => {
            return None;
        },
    };
    let author = match get_field(v, "author") {
        Some(f) => match user_of(f) {
            Some(u) => u,
            None => {
                return None;
            },
        },
        None => {
            return None;
        },
    };
    let created = match get_req_str(v, "created") {
        Some(s) => s,
        None => {
            return None;
        },
    };
    let size = match get_req_u64(v, "size") {
        Some(n) => n,
        None => {
            return None;
        },
    };
    let mime_type = match get_req_str(v, "mimeType") {
        Some(s) => s,
        None => {
            return None;
        },
    };
    let content = match get_req_str(v, "content") {
        Some(s) => s,
        None => {
            return None;
        },
    };
    let thumbnail = match get_opt_str(v, "thumbnail") {
        Some(o) => o,
        None => {
            return None;
        },
    };
    Some(Attachment { id, self_link, filename, author, created, size, mime_type, content, thumbnail })
}

/// Whether a value parses as a link kind.
pub open spec fn link_type_ok(v: FieldValue) -> bool {
    &&& obj_str(v, "id"@) is Some
    &&& obj_str(v, "inward"@) is Some
    &&& obj_str(v, "name"@) is Some
    &&& obj_str(v, "outward"@) is Some
    &&& obj_str(v, "self"@) is Some
}

/// Whether `t` is the link kind a value parses to.
pub open spec fn link_type_matches(v: FieldValue, t: LinkType) -> bool {
    &&& obj_str(v, "id"@) == Some(t.id@)
    &&& obj_str(v, "inward"@) == Some(t.inward@)
    &&& obj_str(v, "name"@) == Some(t.name@)
    &&& obj_str(v, "outward"@) == Some(t.outward@)
    &&& obj_str(v, "self"@) == Some(t.self_link@)
}

/// Parses a link kind from a field value.
pub fn link_type_of(v: &FieldValue) -> (r: Option<LinkType>)
    ensures
        r is Some <==> link_type_ok(*v),
        r matches Some(t) ==> link_type_matches(*v, t),
{
    let id = match get_req_str(v, "id") {
        Some(s) => s,
        None => {
            return None;
        },
    };
    let inward = match get_req_str(v, "inward") {
        Some(s) => s,
        None => {
            return None;
        },
    };
    let name = match get_req_str(v, "name") {
        Some(s) => s,
        None => {
            return None;
        },
    };
    let outward = match get_req_str(v, "outward") {
        Some(s) => s,
        None => {
            return None;
        },
    };
    let self_link = match get_req_str(v, "self") {
        Some(s) => s,
        None => {
            return None;
        },
    };
    Some(LinkType { id, inward, name, outward, self_link })
}

/// Whether a value parses as a changed field record.
pub open spec fn history_item_ok(v: FieldValue) -> bool {
    &&& obj_str(v, "field"@) is Some
    &&& opt_str_ok(v, "from"@)
    &&& opt_str_ok(v, "fromString"@)
    &&& opt_str_ok(v, "to"@)
    &&& opt_str_ok(v, "toString"@)
}

/// Whether `x` is the changed field record a value parses to.
pub open spec fn history_item_matches(v: FieldValue, x: HistoryItem) -> bool {
    &&& obj_str(v, "field"@) == Some(x.field@)
    &&& opt_text(x.from) == opt_str(v, "from"@)
    &&& opt_text(x.from_string) == opt_str(v, "fromString"@)
    &&& opt_text(x.to) == opt_str(v, "to"@)
    &&& opt_text(x.to_string) == opt_str(v, "toString"@)
}

/// Parses a changed field record from a field value.
pub fn history_item_of(v: &FieldValue) -> (r: Option<HistoryItem>)
    ensures
        r is Some <==> history_item_ok(*v),
        r matches Some(x) ==> history_item_matches(*v, x),
{
    let field = match get_req_str(v, "field") {
        Some(s) => s,
        None => {
            return None;
        },
    };
    let from = match get_opt_str(v, "from") {
        Some(o) => o,
        None => {
            return None;
        },
    };
    let from_string = match get_opt_str(v, "fromString") {
        Some(o) => o,
        None => {
            return None;
        },
    };
    let to = match get_opt_str(v, "to") {
        Some(o) => o,
        None => {
            return None;
        },
    };
    let to_string = match get_opt_str(v, "toString") {
        Some(o) => o,
        None => {
            return None;
        },
    };
    Some(HistoryItem { field, from, from_string, to, to_string })
}

/// Whether every element of a list parses as a changed field record.
pub open spec fn history_items_ok(l: Seq<FieldValue>) -> bool {
    forall|i: int| 0 <= i < l.len() ==> history_item_ok(l[i])
}

/// Whether `out` holds the changed field records the list parses to.
pub open spec fn history_items_match(l: Seq<FieldValue>, out: Seq<HistoryItem>) -> bool {
    out.len() == l.len() && (forall|i: int| 0 <= i < l.len() ==> history_item_matches(l[i], out[i]))
}

/// Parses a list of changed field records.
#[verifier::loop_isolation(false)]
fn history_items_of(l: &Vec<FieldValue>) -> (r: Option<Vec<HistoryItem>>)
    ensures
        r is Some <==> history_items_ok(l@),
        r matches Some(out) ==> history_items_match(l@, out@),
{
    let mut out: Vec<HistoryItem> = Vec::new();
    let mut i: usize = 0;
    while i < l.len()
        invariant
            0 <= i <= l@.len(),
            out@.len() == i,
            forall|k: int| 0 <= k < i ==> history_item_ok(l@[k]),
            forall|k: int| 0 <= k < i ==> history_item_matches(l@[k], out@[k]),
        decreases l@.len() - i,
    {
        match history_item_of(&l[i]) {
            Some(x) => {
                out.push(x);
            },
            None => {
                return None;
            },
        }
        i = i + 1;
    }
    Some(out)
}

/// Whether a value parses as a recorded change.
pub open spec fn history_ok(v: FieldValue) -> bool {
    &&& (obj_field(v, "author"@) matches Some(f) && user_ok(f))
    &&& obj_str(v, "created"@) is Some
    &&& (obj_field(v, "items"@) matches Some(f) && f matches FieldValue::List(l)
        && history_items_ok(l@))
}

/// Whether `h` is the recorded change a value parses to.
pub open spec fn history_matches(v: FieldValue, h: History) -> bool {
    &&& (obj_field(v, "author"@) matches Some(f) && user_matches(f, h.author))
    &&& obj_str(v, "created"@) == Some(h.created@)
    &&& (obj_field(v, "items"@) matches Some(f) && f matches FieldValue::List(l)
        && history_items_match(l@, h.items@))
}

/// Parses a recorded change from a field value.
pub fn history_of(v: &FieldValue) -> (r: Option<History>)
    ensures
        r is Some <==> history_ok(*v),
        r matches Some(h) ==> history_matches(*v, h),
{
    let author = match get_field(v, "author") {
        Some(f) => match user_of(f) {
            Some(u) => u,
            None => {
                return None;
            },
        },
        None => {
            return None;
        },
    };
    let created = match get_req_str(v, "created") {
        Some(s) => s,
        None => {
            return None;
        },
    };
    let items = match get_field(v, "items") {
        Some(f) => match f {
            FieldValue::List(l) => match history_items_of(l) {
                Some(out) => out,
                None => {
                    return None;
                },
            },
            _ => {
                return None;
            },
        },
        None => {
            return None;
        },
    };
    Some(History { author, created, items })
}

/// Whether every element of a list parses as a recorded change.
pub open spec fn histories_ok(l: Seq<FieldValue>) -> bool {
    forall|i: int| 0 <= i < l.len() ==> history_ok(l[i])
}

/// Whether `out` holds the recorded changes the list parses to.
pub open spec fn histories_match(l: Seq<FieldValue>, out: Seq<History>) -> bool {
    out.len() == l.len() && (forall|i: int| 0 <= i < l.len() ==> history_matches(l[i], out[i]))
}

/// Whether a value parses as a change history.
pub open spec fn changelog_ok(v: FieldValue) -> bool {
    obj_field(v, "histories"@) matches Some(f) && f matches FieldValue::List(l) && histories_ok(l@)
}

/// Whether `c` is the change history a value parses to.
pub open spec fn changelog_matches(v: FieldValue, c: Changelog) -> bool {
    obj_field(v, "histories"@) matches Some(f) && f matches FieldValue::List(l) && histories_match(
        l@,
        c.histories@,
    )
}

/// Parses a change history from a field value.
#[verifier::loop_isolation(false)]
pub fn changelog_of(v: &FieldValue) -> (r: Option<Changelog>)
    ensures
        r is Some <==> changelog_ok(*v),
        r matches Some(c) ==> changelog_matches(*v, c),
{
    let l = match get_field(v, "histories") {
        Some(f) => match f {
            FieldValue::List(l) => l,
            _ => {
                return None;
            },
        },
        None => {
            return None;
        },
    };
    let mut out: Vec<History> = Vec::new();
    let mut i: usize = 0;
    while i < l.len()
        invariant
            0 <= i <= l@.len(),
            out@.len() == i,
            forall|k: int| 0 <= k < i ==> history_ok(l@[k]),
            forall|k: int| 0 <= k < i ==> history_matches(l@[k], out@[k]),
        decreases l@.len() - i,
    {
        match history_of(&l[i]) {
            Some(h) => {
                out.push(h);
            },
            None => {
                return None;
            },
        }
        i = i + 1;
    }
    Some(Changelog { histories: out })
}

/// Whether a value parses as an issue.
pub open spec fn issue_ok(v: FieldValue) -> bool {
    &&& obj_str(v, "self"@) is Some
    &&& obj_str(v, "key"@) is Some
    &&& obj_str(v, "id"@) is Some
    &&& (obj_field(v, "fields"@) matches Some(f) && f is Object)
    &&& (obj_missing(v, "changelog"@) || (obj_field(v, "changelog"@) matches Some(f)
        && changelog_ok(f)))
}

/// Whether `x` is the issue a value parses to, its field entries compared
/// by their shapes.
pub open spec fn issue_matches(v: FieldValue, x: Issue) -> bool {
    &&& obj_str(v, "self"@) == Some(x.self_link@)
    &&& obj_str(v, "key"@) == Some(x.key@)
    &&& obj_str(v, "id"@) == Some(x.id@)
    &&& (obj_field(v, "fields"@) matches Some(f) && f matches FieldValue::Object(e)
        && entries_deep(x.fields@) == entries_deep(e@))
    &&& match x.changelog {
        Some(c) => !obj_missing(v, "changelog"@) && (obj_field(v, "changelog"@) matches Some(f)
            && changelog_matches(f, c)),
        None => obj_missing(v, "changelog"@),
    }
}

/// Parses an issue from a field value.
pub fn issue_of(v: &FieldValue) -> (r: Option<Issue>)
    ensures
        r is Some <==> issue_ok(*v),
        r matches Some(x) ==> issue_matches(*v, x),
{
    let self_link = match get_req_str(v, "self") {
        Some(s) => s,
        None => {
            return None;
        },
    };
    let key = match get_req_str(v, "key") {
        Some(s) => s,
        None => {
            return None;
        },
    };
    let id = match get_req_str(v, "id") {
        Some(s) => s,
        None => {
            return None;
        },
    };
    let fields = match get_field(v, "fields") {
        Some(f) => match f {
            FieldValue::Object(entries) => duplicate_entries(entries),
            _ => {
                return None;
            },
        },
        None => {
            return None;
        },
    };
    let changelog = match get_field(v, "changelog") {
        None => None,
        Some(f) => match f {
            FieldValue::Null => None,
            _ => match changelog_of(f) {
                Some(c) => Some(c),
                None => {
                    return None;
                },
            },
        },
    };
    Some(Issue { self_link, key, id, fields, changelog })
}

/// Whether an optional linked issue reads cleanly: absent, null, or a
/// value that parses as an issue.
pub open spec fn opt_issue_ok(v: FieldValue, name: Seq<char>) -> bool {
    obj_missing(v, name) || (obj_field(v, name) matches Some(f) && issue_ok(f))
}

/// Whether `o` is the reading of an optional linked issue.
pub open spec fn opt_issue_matches(v: FieldValue, name: Seq<char>, o: Option<Issue>) -> bool {
    match o {
        Some(x) => !obj_missing(v, name) && (obj_field(v, name) matches Some(f) && issue_matches(
            f,
            x,
        )),
        None => obj_missing(v, name),
    }
}

/// Whether a value parses as an issue link.
pub open spec fn issue_link_ok(v: FieldValue) -> bool {
    &&& obj_str(v, "id"@) is Some
    &&& obj_str(v, "self"@) is Some
    &&& (obj_field(v, "type"@) matches Some(f) && link_type_ok(f))
    &&& opt_issue_ok(v, "outwardIssue"@)
    &&& opt_issue_ok(v, "inwardIssue"@)
}

/// Whether `x` is the issue link a value parses to.
pub open spec fn issue_link_matches(v: FieldValue, x: IssueLink) -> bool {
    &&& obj_str(v, "id"@) == Some(x.id@)
    &&& obj_str(v, "self"@) == Some(x.self_link@)
    &&& (obj_field(v, "type"@) matches Some(f) && link_type_matches(f, x.link_type))
    &&& opt_issue_matches(v, "outwardIssue"@, x.outward_issue)
    &&& opt_issue_matches(v, "inwardIssue"@, x.inward_issue)
}

/// Parses an issue link from a field value.
pub fn issue_link_of(v: &FieldValue) -> (r: Option<IssueLink>)
    ensures
        r is Some <==> issue_link_ok(*v),
        r matches Some(x) ==> issue_link_matches(*v, x),
{
    let id = match get_req_str(v, "id") {
        Some(s) => s,
        None => {
            return None;
        },
    };
    let self_link = match get_req_str(v, "self") {
        Some(s) => s,
        None => {
            return None;
        },
    };
    let link_type = match get_field(v, "type") {
        Some(f) => match link_type_of(f) {
            Some(t) => t,
            None => {
                return None;
            },
        },
        None => {
            return None;
        },
    };
    let outward_issue = match get_field(v, "outwardIssue") {
        None => None,
        Some(f) => match f {
            FieldValue::Null => None,
            _ => match issue_of(f) {
                Some(x) => Some(x),
                None => {
                    return None;
                },
            },
        },
    };
    let inward_issue = match get_field(v, "inwardIssue") {
        None => None,
        Some(f) => match f {
            FieldValue::Null => None,
            _ => match issue_of(f) {
                Some(x) => Some(x),
                None => {
                    return None;
                },
            },
        },
    };
    Some(IssueLink { id, self_link, outward_issue, inward_issue, link_type })
}

/// The reading of a text field of an issue.
pub open spec fn spec_string_field(fields: Seq<(String, FieldValue)>, name: Seq<char>) -> Option<
    Seq<char>,
> {
    match lookup_value(fields, name) {
        Some(f) => str_of(f),
        None => None,
    }
}

/// The reading of a timestamp field of an issue: a text field parsed as an
/// ISO-8601 timestamp, nothing where absent, not text, or unparsable.
pub open spec fn spec_datetime_field(fields: Seq<(String, FieldValue)>, name: Seq<char>) -> Option<
    DateTime,
> {
    match spec_string_field(fields, name) {
        Some(t) => iso8601_datetime(t),
        None => None,
    }
}

/// The labels a field value lists: the texts where it is a list of
/// strings, and nothing otherwise.
pub open spec fn str_list_ok(l: Seq<FieldValue>) -> bool {
    forall|i: int| 0 <= i < l.len() ==> l[i] is Str
}

/// The texts of a list of string values.
pub open spec fn str_list_views(l: Seq<FieldValue>) -> Seq<Seq<char>> {
    Seq::new(l.len(), |i: int| l[i]->Str_0@)
}

/// Whether every element of a list parses as a version.
pub open spec fn version_list_ok(l: Seq<FieldValue>) -> bool {
    forall|i: int| 0 <= i < l.len() ==> version_ok(l[i])
}

/// Whether `out` holds the versions the list parses to.
pub open spec fn version_list_match(l: Seq<FieldValue>, out: Seq<Version>) -> bool {
    out.len() == l.len() && (forall|i: int| 0 <= i < l.len() ==> version_matches(l[i], out[i]))
}

/// Whether every element of a list parses as an issue link.
pub open spec fn link_list_ok(l: Seq<FieldValue>) -> bool {
    forall|i: int| 0 <= i < l.len() ==> issue_link_ok(l[i])
}

/// Whether `out` holds the issue links the list parses to.
pub open spec fn link_list_match(l: Seq<FieldValue>, out: Seq<IssueLink>) -> bool {
    out.len() == l.len() && (forall|i: int| 0 <= i < l.len() ==> issue_link_matches(l[i], out[i]))
}

/// Whether every element of a list parses as an attachment.
pub open spec fn attachment_list_ok(l: Seq<FieldValue>) -> bool {
    forall|i: int| 0 <= i < l.len() ==> attachment_ok(l[i])
}

/// Whether `out` holds the attachments the list parses to.
pub open spec fn attachment_list_match(l: Seq<FieldValue>, out: Seq<Attachment>) -> bool {
    out.len() == l.len() && (forall|i: int| 0 <= i < l.len() ==> attachment_matches(l[i], out[i]))
}

/// Whether every element of a list parses as a comment.
pub open spec fn comment_list_ok(l: Seq<FieldValue>) -> bool {
    forall|i: int| 0 <= i < l.len() ==> comment_ok(l[i])
}

/// Whether `out` holds the comments the list parses to.
pub open spec fn comment_list_match(l: Seq<FieldValue>, out: Seq<Comment>) -> bool {
    out.len() == l.len() && (forall|i: int| 0 <= i < l.len() ==> comment_matches(l[i], out[i]))
}

impl Issue {
    /// The value of a named field, the last write winning.
    pub fn field(&self, name: &str) -> (r: Option<&FieldValue>)
        ensures
            match r {
                Some(f) => lookup_value(self.fields@, name@) == Some(*f),
                None => lookup_value(self.fields@, name@) is None,
            },
    {
        get_value(&self.fields, name)
    }

    /// The user a named field holds.
    fn user_field(&self, name: &str) -> (r: Option<User>)
        ensures
            r is Some <==> (lookup_value(self.fields@, name@) matches Some(f) && user_ok(f)),
            r matches Some(u) ==> user_matches(lookup_value(self.fields@, name@)->Some_0, u),
    {
        match get_value(&self.fields, name) {
            Some(f) => user_of(f),
            None => None,
        }
    }

    /// The text a named field holds.
    fn string_field(&self, name: &str) -> (r: Option<String>)
        ensures
            r is Some <==> spec_string_field(self.fields@, name@) is Some,
            r matches Some(s) ==> spec_string_field(self.fields@, name@) == Some(s@),
    {
        match get_value(&self.fields, name) {
            Some(f) => crate::fields::as_str_value(f),
            None => None,
        }
    }

    /// The user assigned to the issue.
    pub fn assignee(&self) -> (r: Option<User>)
        ensures
            r is Some <==> (lookup_value(self.fields@, "assignee"@) matches Some(f) && user_ok(f)),
            r matches Some(u) ==> user_matches(lookup_value(self.fields@, "assignee"@)->Some_0, u),
    {
        self.user_field("assignee")
    }

    /// The user that created the issue.
    pub fn creator(&self) -> (r: Option<User>)
        ensures
            r is Some <==> (lookup_value(self.fields@, "creator"@) matches Some(f) && user_ok(f)),
            r matches Some(u) ==> user_matches(lookup_value(self.fields@, "creator"@)->Some_0, u),
    {
        self.user_field("creator")
    }

    /// The user that reported the issue.
    pub fn reporter(&self) -> (r: Option<User>)
        ensures
            r is Some <==> (lookup_value(self.fields@, "reporter"@) matches Some(f) && user_ok(f)),
            r matches Some(u) ==> user_matches(lookup_value(self.fields@, "reporter"@)->Some_0, u),
    {
        self.user_field("reporter")
    }

    /// The current status of the issue.
    pub fn status(&self) -> (r: Option<Status>)
        ensures
            r is Some <==> (lookup_value(self.fields@, "status"@) matches Some(f) && status_ok(f)),
            r matches Some(s) ==> status_matches(lookup_value(self.fields@, "status"@)->Some_0, s),
    {
        match get_value(&self.fields, "status") {
            Some(f) => status_of(f),
            None => None,
        }
    }

    /// The brief summary of the issue.
    pub fn summary(&self) -> (r: Option<String>)
        ensures
            r is Some <==> spec_string_field(self.fields@, "summary"@) is Some,
            r matches Some(s) ==> spec_string_field(self.fields@, "summary"@) == Some(s@),
    {
        self.string_field("summary")
    }

    /// The description of the issue.
    pub fn description(&self) -> (r: Option<String>)
        ensures
            r is Some <==> spec_string_field(self.fields@, "description"@) is Some,
            r matches Some(s) ==> spec_string_field(self.fields@, "description"@) == Some(s@),
    {
        self.string_field("description")
    }

    /// A named text field parsed as an ISO-8601 timestamp; nothing where
    /// the field is absent, not text, or does not parse.
    fn datetime_field(&self, name: &str) -> (r: Option<DateTime>)
        ensures
            r == spec_datetime_field(self.fields@, name@),
    {
        match self.string_field(name) {
            Some(t) => parse_iso8601(t.as_str()),
            None => None,
        }
    }

    /// When the issue was last updated.
    pub fn updated(&self) -> (r: Option<DateTime>)
        ensures
            r == spec_datetime_field(self.fields@, "updated"@),
    {
        self.datetime_field("updated")
    }

    /// When the issue was created.
    pub fn created(&self) -> (r: Option<DateTime>)
        ensures
            r == spec_datetime_field(self.fields@, "created"@),
    {
        self.datetime_field("created")
    }

    /// When the issue was resolved.
    pub fn resolution_date(&self) -> (r: Option<DateTime>)
        ensures
            r == spec_datetime_field(self.fields@, "resolutiondate"@),
    {
        self.datetime_field("resolutiondate")
    }

    /// The issue's type.
    pub fn issue_type(&self) -> (r: Option<IssueType>)
        ensures
            r is Some <==> (lookup_value(self.fields@, "issuetype"@) matches Some(f)
                && issue_type_ok(f)),
            r matches Some(t) ==> issue_type_matches(
                lookup_value(self.fields@, "issuetype"@)->Some_0,
                t,
            ),
    {
        match get_value(&self.fields, "issuetype") {
            Some(f) => issue_type_of(f),
            None => None,
        }
    }

    /// The labels attached to the issue; empty where the field is absent
    /// or not a list of strings.
    #[verifier::loop_isolation(false)]
    pub fn labels(&self) -> (r: Vec<String>)
        ensures
            (lookup_value(self.fields@, "labels"@) matches Some(f) && f matches FieldValue::List(l)
                && str_list_ok(l@)) ==> string_views(r@) == str_list_views(
                lookup_value(self.fields@, "labels"@)->Some_0->List_0@,
            ),
            !(lookup_value(self.fields@, "labels"@) matches Some(f) && f matches FieldValue::List(
                l,
            ) && str_list_ok(l@)) ==> r@.len() == 0,
    {
        let l = match get_value(&self.fields, "labels") {
            Some(f) => match f {
                FieldValue::List(l) => l,
                _ => {
                    return Vec::new();
                },
            },
            None => {
                return Vec::new();
            },
        };
        let mut out: Vec<String> = Vec::new();
        let mut i: usize = 0;
        while i < l.len()
            invariant
                0 <= i <= l@.len(),
                out@.len() == i,
                forall|k: int| 0 <= k < i ==> l@[k] is Str,
                forall|k: int| 0 <= k < i ==> out@[k]@ == l@[k]->Str_0@,
            decreases l@.len() - i,
        {
            match &l[i] {
                FieldValue::Str(s) => {
                    out.push(s.clone());
                },
                _ => {
                    return Vec::new();
                },
            }
            i = i + 1;
        }
        proof {
            assert(string_views(out@) =~~= str_list_views(l@));
        }
        out
    }

    /// The versions the issue fixes; empty where the field is absent or
    /// does not parse.
    #[verifier::loop_isolation(false)]
    pub fn fix_versions(&self) -> (r: Vec<Version>)
        ensures
            (lookup_value(self.fields@, "fixVersions"@) matches Some(f) && f matches
                FieldValue::List(l) && version_list_ok(l@)) ==> version_list_match(
                lookup_value(self.fields@, "fixVersions"@)->Some_0->List_0@,
                r@,
            ),
            !(lookup_value(self.fields@, "fixVersions"@) matches Some(f) && f matches
                FieldValue::List(l) && version_list_ok(l@)) ==> r@.len() == 0,
    {
        let l = match get_value(&self.fields, "fixVersions") {
            Some(f) => match f {
                FieldValue::List(l) => l,
                _ => {
                    return Vec::new();
                },
            },
            None => {
                return Vec::new();
            },
        };
        let mut out: Vec<Version> = Vec::new();
        let mut i: usize = 0;
        while i < l.len()
            invariant
                0 <= i <= l@.len(),
                out@.len() == i,
                forall|k: int| 0 <= k < i ==> version_ok(l@[k]),
                forall|k: int| 0 <= k < i ==> version_matches(l@[k], out@[k]),
            decreases l@.len() - i,
        {
            match version_of(&l[i]) {
                Some(x) => {
                    out.push(x);
                },
                None => {
                    return Vec::new();
                },
            }
            i = i + 1;
        }
        out
    }

    /// The issue's priority.
    pub fn priority(&self) -> (r: Option<Priority>)
        ensures
            r is Some <==> (lookup_value(self.fields@, "priority"@) matches Some(f)
                && priority_ok(f)),
            r matches Some(p) ==> priority_matches(
                lookup_value(self.fields@, "priority"@)->Some_0,
                p,
            ),
    {
        match get_value(&self.fields, "priority") {
            Some(f) => priority_of(f),
            None => None,
        }
    }

    /// The links to other issues; nothing where the field is absent or
    /// does not parse as a list of links.
    #[verifier::loop_isolation(false)]
    pub fn links(&self) -> (r: Option<Vec<IssueLink>>)
        ensures
            r is Some <==> (lookup_value(self.fields@, "issuelinks"@) matches Some(f) && f matches
                FieldValue::List(l) && link_list_ok(l@)),
            r matches Some(out) ==> link_list_match(
                lookup_value(self.fields@, "issuelinks"@)->Some_0->List_0@,
                out@,
            ),
    {
        let l = match get_value(&self.fields, "issuelinks") {
            Some(f) => match f {
                FieldValue::List(l) => l,
                _ => {
                    return None;
                },
            },
            None => {
                return None;
            },
        };
        let mut out: Vec<IssueLink> = Vec::new();
        let mut i: usize = 0;
        while i < l.len()
            invariant
                0 <= i <= l@.len(),
                out@.len() == i,
                forall|k: int| 0 <= k < i ==> issue_link_ok(l@[k]),
                forall|k: int| 0 <= k < i ==> issue_link_matches(l@[k], out@[k]),
            decreases l@.len() - i,
        {
            match issue_link_of(&l[i]) {
                Some(x) => {
                    out.push(x);
                },
                None => {
                    return None;
                },
            }
            i = i + 1;
        }
        Some(out)
    }

    /// The project the issue belongs to.
    pub fn project(&self) -> (r: Option<Project>)
        ensures
            r is Some <==> (lookup_value(self.fields@, "project"@) matches Some(f)
                && project_ok(f)),
            r matches Some(p) ==> project_matches(
                lookup_value(self.fields@, "project"@)->Some_0,
                p,
            ),
    {
        match get_value(&self.fields, "project") {
            Some(f) => project_of(f),
            None => None,
        }
    }

    /// The issue's resolution.
    pub fn resolution(&self) -> (r: Option<Resolution>)
        ensures
            r is Some <==> (lookup_value(self.fields@, "resolution"@) matches Some(f)
                && resolution_ok(f)),
            r matches Some(x) ==> resolution_matches(
                lookup_value(self.fields@, "resolution"@)->Some_0,
                x,
            ),
    {
        match get_value(&self.fields, "resolution") {
            Some(f) => resolution_of(f),
            None => None,
        }
    }

    /// The attachments of the issue; empty where the field is absent or
    /// does not parse.
    #[verifier::loop_isolation(false)]
    pub fn attachment(&self) -> (r: Vec<Attachment>)
        ensures
            (lookup_value(self.fields@, "attachment"@) matches Some(f) && f matches
                FieldValue::List(l) && attachment_list_ok(l@)) ==> attachment_list_match(
                lookup_value(self.fields@, "attachment"@)->Some_0->List_0@,
                r@,
            ),
            !(lookup_value(self.fields@, "attachment"@) matches Some(f) && f matches
                FieldValue::List(l) && attachment_list_ok(l@)) ==> r@.len() == 0,
    {
        let l = match get_value(&self.fields, "attachment") {
            Some(f) => match f {
                FieldValue::List(l) => l,
                _ => {
                    return Vec::new();
                },
            },
            None => {
                return Vec::new();
            },
        };
        let mut out: Vec<Attachment> = Vec::new();
        let mut i: usize = 0;
        while i < l.len()
            invariant
                0 <= i <= l@.len(),
                out@.len() == i,
                forall|k: int| 0 <= k < i ==> attachment_ok(l@[k]),
                forall|k: int| 0 <= k < i ==> attachment_matches(l@[k], out@[k]),
            decreases l@.len() - i,
        {
            match attachment_of(&l[i]) {
                Some(x) => {
                    out.push(x);
                },
                None => {
                    return Vec::new();
                },
            }
            i = i + 1;
        }
        out
    }

    /// The comments on the issue; empty where the field is absent or does
    /// not parse.
    #[verifier::loop_isolation(false)]
    pub fn comment(&self) -> (r: Vec<Comment>)
        ensures
            (lookup_value(self.fields@, "comment"@) matches Some(f) && f matches FieldValue::List(
                l,
            ) && comment_list_ok(l@)) ==> comment_list_match(
                lookup_value(self.fields@, "comment"@)->Some_0->List_0@,
                r@,
            ),
            !(lookup_value(self.fields@, "comment"@) matches Some(f) && f matches FieldValue::List(
                l,
            ) && comment_list_ok(l@)) ==> r@.len() == 0,
    {
        let l = match get_value(&self.fields, "comment") {
            Some(f) => match f {
                FieldValue::List(l) => l,
                _ => {
                    return Vec::new();
                },
            },
            None => {
                return Vec::new();
            },
        };
        let mut out: Vec<Comment> = Vec::new();
        let mut i: usize = 0;
        while i < l.len()
            invariant
                0 <= i <= l@.len(),
                out@.len() == i,
                forall|k: int| 0 <= k < i ==> comment_ok(l@[k]),
                forall|k: int| 0 <= k < i ==> comment_matches(l@[k], out@[k]),
            decreases l@.len() - i,
        {
            match comment_of(&l[i]) {
                Some(x) => {
                    out.push(x);
                },
                None => {
                    return Vec::new();
                },
            }
            i = i + 1;
        }
        out
    }

    /// The issue's parent issue.
    pub fn parent(&self) -> (r: Option<Issue>)
        ensures
            r is Some <==> (lookup_value(self.fields@, "parent"@) matches Some(f) && issue_ok(f)),
            r matches Some(x) ==> issue_matches(lookup_value(self.fields@, "parent"@)->Some_0, x),
    {
        match get_value(&self.fields, "parent") {
            Some(f) => issue_of(f),
            None => None,
        }
    }

    /// The time tracked on the issue.
    pub fn timetracking(&self) -> (r: Option<TimeTracking>)
        ensures
            r is Some <==> (lookup_value(self.fields@, "timetracking"@) matches Some(f)
                && timetracking_ok(f)),
            r matches Some(t) ==> timetracking_matches(
                lookup_value(self.fields@, "timetracking"@)->Some_0,
                t,
            ),
    {
        match get_value(&self.fields, "timetracking") {
            Some(f) => timetracking_of(f),
            None => None,
        }
    }

    /// The issue's browse address under the client's host. Callers that
    /// cannot show the join succeeds use `try_permalink`.
    pub fn permalink(&self, jira: &Jira) -> (r: String)
        requires
            url_joined(jira.spec_host(), "/browse/"@ + self.key@) is Some,
        ensures
            url_joined(jira.spec_host(), "/browse/"@ + self.key@) == Some(r@),
    {
        proof {
            use_type_invariant(jira);
        }
        let mut path = String::from_str("/browse/");
        path.append(self.key.as_str());
        match crate::join_url(jira.host_str(), path.as_str()) {
            Ok(u) => u,
            Err(_) => vstd::pervasive::unreached(),
        }
    }

    /// The issue's browse address under the client's host, or nothing
    /// where the address cannot be joined.
    pub fn try_permalink(&self, jira: &Jira) -> (r: Option<String>)
        ensures
            r is Some <==> url_joined(jira.spec_host(), "/browse/"@ + self.key@) is Some,
            r matches Some(s) ==> url_joined(jira.spec_host(), "/browse/"@ + self.key@) == Some(
                s@,
            ),
    {
        proof {
            use_type_invariant(jira);
        }
        let mut path = String::from_str("/browse/");
        path.append(self.key.as_str());
        match crate::join_url(jira.host_str(), path.as_str()) {
            Ok(_) => Some(self.permalink(jira)),
            Err(_) => None,
        }
    }
}

} // verus!
