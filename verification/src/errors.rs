//! The closed set of failure kinds a request can end in. Every failure
//! surfaces to the caller as one of these values; none is thrown.

use vstd::prelude::*;

use crate::rep::Errors;
use crate::text::{dec_digits, join_with, string_views, u64_string};

verus! {

/// What can go wrong when sending a request to the service.
#[derive(Debug)]
pub enum JiraError {
    /// Error associated with the HTTP transport
    Http(reqwest::Error),
    /// Error associated with local I/O while reading a response body
    IO(std::io::Error),
    /// Error associated with parsing or serializing
    Serde(serde_json::Error),
    /// The service rejected the request and returned a structured error body
    Fault { code: u16, errors: Errors },
    /// Invalid credentials
    Unauthorized,
    /// HTTP method is not allowed
    MethodNotAllowed,
    /// Page not found
    NotFound,
    /// The URL could not be parsed or joined
    ParseError(url::ParseError),
}

impl From<url::ParseError> for JiraError {
    fn from(error: url::ParseError) -> (r: JiraError) {
        JiraError::ParseError(error)
    }
}

impl vstd::std_specs::convert::FromSpecImpl<url::ParseError> for JiraError {
    open spec fn obeys_from_spec() -> bool {
        true
    }

    open spec fn from_spec(error: url::ParseError) -> JiraError {
        JiraError::ParseError(error)
    }
}

impl From<serde_json::Error> for JiraError {
    fn from(error: serde_json::Error) -> (r: JiraError) {
        JiraError::Serde(error)
    }
}

impl vstd::std_specs::convert::FromSpecImpl<serde_json::Error> for JiraError {
    open spec fn obeys_from_spec() -> bool {
        true
    }

    open spec fn from_spec(error: serde_json::Error) -> JiraError {
        JiraError::Serde(error)
    }
}

impl From<reqwest::Error> for JiraError {
    fn from(error: reqwest::Error) -> (r: JiraError) {
        JiraError::Http(error)
    }
}

impl vstd::std_specs::convert::FromSpecImpl<reqwest::Error> for JiraError {
    open spec fn obeys_from_spec() -> bool {
        true
    }

    open spec fn from_spec(error: reqwest::Error) -> JiraError {
        JiraError::Http(error)
    }
}

impl From<std::io::Error> for JiraError {
    fn from(error: std::io::Error) -> (r: JiraError) {
        JiraError::IO(error)
    }
}

impl vstd::std_specs::convert::FromSpecImpl<std::io::Error> for JiraError {
    open spec fn obeys_from_spec() -> bool {
        true
    }

    open spec fn from_spec(error: std::io::Error) -> JiraError {
        JiraError::IO(error)
    }
}

/// The rendering of one field error as `name: message`.
pub open spec fn field_error_texts(s: Seq<(String, String)>) -> Seq<Seq<char>> {
    Seq::new(s.len(), |i: int| s[i].0@ + ": "@ + s[i].1@)
}

/// The rendering of a `Fault`: the status code and the full structured
/// service error, messages and field errors joined with semicolons.
pub open spec fn fault_text(code: u16, errors: Errors) -> Seq<char> {
    "Jira Client Error ("@ + dec_digits(code as nat) + "): "@
        + join_with(string_views(errors.error_messages@) + field_error_texts(errors.errors@), "; "@)
}

/// Renders the field errors as `name: message` lines.
#[verifier::loop_isolation(false)]
fn field_error_strings(fields: &Vec<(String, String)>) -> (r: Vec<String>)
    ensures
        string_views(r@) == field_error_texts(fields@),
{
    let mut out: Vec<String> = Vec::new();
    let mut i: usize = 0;
    while i < fields.len()
        invariant
            0 <= i <= fields@.len(),
            out@.len() == i,
            forall|j: int| 0 <= j < i ==> out@[j]@ == fields@[j].0@ + ": "@ + fields@[j].1@,
        decreases fields@.len() - i,
    {
        let mut line = fields[i].0.clone();
        line.append(": ");
        line.append(fields[i].1.as_str());
        out.push(line);
        i = i + 1;
    }
    proof {
        assert(string_views(out@) =~= field_error_texts(fields@));
    }
    out
}

impl JiraError {
    /// What `message` returns.
    pub open spec fn spec_message(self) -> Seq<char> {
        match self {
            JiraError::Http(_) => "HTTP Error"@,
            JiraError::IO(_) => "IO Error"@,
            JiraError::Serde(_) => "Serialization Error"@,
            JiraError::Fault { code, errors } => fault_text(code, errors),
            JiraError::Unauthorized => "Could not connect to Jira: Unauthorized!"@,
            JiraError::MethodNotAllowed => "Could not connect to Jira: Method Not Allowed!"@,
            JiraError::NotFound => "Could not connect to Jira: Not Found!"@,
            JiraError::ParseError(_) => "Could not connect to Jira: invalid URL!"@,
        }
    }

    /// A human-readable rendering of the failure. For `Fault` it carries the
    /// status code and the full structured service error.
    pub fn message(&self) -> (r: String)
        ensures
            r@ == self.spec_message(),
    {
        match self {
            JiraError::Http(_) => String::from_str("HTTP Error"),
            JiraError::IO(_) => String::from_str("IO Error"),
            JiraError::Serde(_) => String::from_str("Serialization Error"),
            JiraError::Fault { code, errors } => {
                let mut parts: Vec<String> = Vec::new();
                let mut i: usize = 0;
                while i < errors.error_messages.len()
                    invariant
                        0 <= i <= errors.error_messages@.len(),
                        parts@.len() == i,
                        forall|j: int| 0 <= j < i ==> parts@[j]@ == errors.error_messages@[j]@,
                    decreases errors.error_messages@.len() - i,
                {
                    parts.push(errors.error_messages[i].clone());
                    i = i + 1;
                }
                let mut fields = field_error_strings(&errors.errors);
                parts.append(&mut fields);
                proof {
                    assert(string_views(parts@) =~= string_views(errors.error_messages@)
                        + field_error_texts(errors.errors@));
                }
                let mut out = String::from_str("Jira Client Error (");
                out.append(u64_string(*code as u64).as_str());
                out.append("): ");
                out.append(join_with_semicolons(&parts).as_str());
                proof {
                    assert(out@ =~= fault_text(*code, *errors));
                }
                out
            },
            JiraError::Unauthorized => String::from_str("Could not connect to Jira: Unauthorized!"),
            JiraError::MethodNotAllowed => String::from_str(
                "Could not connect to Jira: Method Not Allowed!",
            ),
            JiraError::NotFound => String::from_str("Could not connect to Jira: Not Found!"),
            JiraError::ParseError(_) => String::from_str("Could not connect to Jira: invalid URL!"),
        }
    }
}

/// Joins pieces with `; ` between each two.
fn join_with_semicolons(parts: &Vec<String>) -> (r: String)
    ensures
        r@ == join_with(string_views(parts@), "; "@),
{
    crate::text::join_strings(parts, "; ")
}

} // verus!
