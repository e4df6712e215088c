//! A typed client library for the Jira REST service: request planning,
//! credential application, response classification into a closed error
//! taxonomy, and paginated listing, with verified contracts.
//!
//! The library plans requests and classifies responses; performing the
//! network call itself is left to the program around it, which hands the
//! status and body back to the verified pipeline.

use vstd::prelude::*;

pub mod attachments;
pub mod backlog;
pub mod boards;
pub mod builder;
pub mod components;
pub mod errors;
pub mod fields;
pub mod issues;
pub mod outside;
pub mod pagination;
pub mod rep;
pub mod resolution;
pub mod search;
pub mod sprints;
pub mod text;
pub mod transitions;
pub mod versions;
pub mod worklogs;

use crate::builder::string_pair_views;
use crate::errors::JiraError;
use crate::rep::Errors;

verus! {

/// How a request is authenticated.
///
/// A personal access token is used with the `Basic` scheme as a password
/// replacement, not as a `Bearer` token.
#[derive(Clone, Debug)]
pub enum Credentials {
    /// Use no authentication
    Anonymous,
    /// Username and password credentials
    Basic(String, String),
    /// Authentication via bearer token
    Bearer(String),
}

/// What base64 writes for the UTF-8 bytes of a text, as a named function
/// of the text alone.
pub uninterp spec fn base64_text(s: Seq<char>) -> Seq<char>;

/// Relies on base64's standard-alphabet engine: encodes the string's UTF-8
/// bytes, a function of the text alone.
#[verifier::external_body]
fn base64_string(s: &str) -> (r: String)
    ensures
        r@ == base64_text(s@),
{
    base64::Engine::encode(&base64::engine::general_purpose::STANDARD, s.as_bytes())
}

impl Credentials {
    /// The one authentication header this credential adds, if any.
    pub open spec fn spec_auth_header(self) -> Option<(Seq<char>, Seq<char>)> {
        match self {
            Credentials::Anonymous => None,
            Credentials::Basic(user, pass) => Some(
                ("Authorization"@, "Basic "@ + base64_text(user@ + ":"@ + pass@)),
            ),
            Credentials::Bearer(token) => Some(("Authorization"@, "Bearer "@ + token@)),
        }
    }

    /// Applies the credential to a request's header list. `Anonymous` returns
    /// the headers unchanged; `Basic` and `Bearer` append exactly the one
    /// authentication header and change nothing else.
    pub fn apply(&self, headers: Vec<(String, String)>) -> (r: Vec<(String, String)>)
        ensures
            self is Anonymous ==> r == headers,
            self.spec_auth_header() matches Some(h) ==> string_pair_views(r@)
                == string_pair_views(headers@).push(h),
    {
        let ghost orig = string_pair_views(headers@);
        match self {
            Credentials::Anonymous => headers,
            Credentials::Basic(user, pass) => {
                let mut joined = user.clone();
                joined.append(":");
                joined.append(pass.as_str());
                let mut value = String::from_str("Basic ");
                value.append(base64_string(joined.as_str()).as_str());
                let mut out = headers;
                out.push((String::from_str("Authorization"), value));
                proof {
                    assert(string_pair_views(out@) =~= orig.push(
                        self.spec_auth_header()->Some_0,
                    ));
                }
                out
            },
            Credentials::Bearer(token) => {
                let mut value = String::from_str("Bearer ");
                value.append(token.as_str());
                let mut out = headers;
                out.push((String::from_str("Authorization"), value));
                proof {
                    assert(string_pair_views(out@) =~= orig.push(
                        self.spec_auth_header()->Some_0,
                    ));
                }
                out
            },
        }
    }

    /// A copy with the same fields.
    pub fn duplicate(&self) -> (r: Credentials)
        ensures
            r == *self,
    {
        match self {
            Credentials::Anonymous => Credentials::Anonymous,
            Credentials::Basic(user, pass) => Credentials::Basic(user.clone(), pass.clone()),
            Credentials::Bearer(token) => Credentials::Bearer(token.clone()),
        }
    }
}

/// The HTTP verb of a planned request.
#[derive(Clone, Copy, Debug, PartialEq, Eq, Structural)]
pub enum Method {
    Get,
    Post,
    Put,
    Delete,
}

impl Method {
    /// The verb's name on the wire.
    pub open spec fn spec_token(self) -> Seq<char> {
        match self {
            Method::Get => "GET"@,
            Method::Post => "POST"@,
            Method::Put => "PUT"@,
            Method::Delete => "DELETE"@,
        }
    }

    /// Returns the verb's name on the wire.
    pub fn token(&self) -> (r: &'static str)
        ensures
            r@ == self.spec_token(),
    {
        match self {
            Method::Get => "GET",
            Method::Post => "POST",
            Method::Put => "PUT",
            Method::Delete => "DELETE",
        }
    }
}

/// The REST API families the service exposes under one host.
#[derive(Clone, Copy, Debug, PartialEq, Eq, Structural)]
pub enum ApiName {
    /// The core API family
    Api,
    /// The agile API family
    Agile,
    /// The authentication session API family
    Auth,
}

impl ApiName {
    /// The family's path segment.
    pub open spec fn spec_token(self) -> Seq<char> {
        match self {
            ApiName::Api => "api"@,
            ApiName::Agile => "agile"@,
            ApiName::Auth => "auth"@,
        }
    }

    /// Returns the family's path segment.
    pub fn token(&self) -> (r: &'static str)
        ensures
            r@ == self.spec_token(),
    {
        match self {
            ApiName::Api => "api",
            ApiName::Agile => "agile",
            ApiName::Auth => "auth",
        }
    }
}

/// What the url crate's parser returns for a text: the parsed URL's
/// serialization, or nothing where the text is no absolute URL. A function
/// of the text alone.
pub uninterp spec fn url_normalized(s: Seq<char>) -> Option<Seq<char>>;

/// Relies on `url::Url::parse`: an absolute URL parses to its normalized
/// serialization, and the url crate documents that re-parsing a URL's
/// serialization returns the same URL.
#[verifier::external_body]
fn parse_url(s: &str) -> (r: Result<String, url::ParseError>)
    ensures
        r is Ok <==> url_normalized(s@) is Some,
        r matches Ok(u) ==> url_normalized(s@) == Some(u@) && url_normalized(u@) == Some(u@),
{
    match url::Url::parse(s) {
        Ok(u) => Ok(String::from(u)),
        Err(e) => Err(e),
    }
}

/// What joining a relative reference onto an absolute base URL gives: the
/// joined URL's serialization, or nothing where the reference cannot be
/// joined. A function of the two texts alone.
pub uninterp spec fn url_joined(base: Seq<char>, rel: Seq<char>) -> Option<Seq<char>>;

/// Relies on `url::Url::join`, with `url::Url::parse` converting the base
/// argument back into a URL value.
#[verifier::external_body]
pub(crate) fn join_url(base: &str, rel: &str) -> (r: Result<String, url::ParseError>)
    requires
        url_normalized(base@) is Some,
    ensures
        r is Ok <==> url_joined(base@, rel@) is Some,
        r matches Ok(u) ==> url_joined(base@, rel@) == Some(u@),
{
    match url::Url::parse(base) {
        Ok(b) => match b.join(rel) {
            Ok(u) => Ok(String::from(u)),
            Err(e) => Err(e),
        },
        Err(e) => Err(e),
    }
}

/// The header list of every planned request: the content type first, then
/// the credential's one authentication header, if the credential adds one.
pub open spec fn spec_plan_headers(credentials: Credentials) -> Seq<(Seq<char>, Seq<char>)> {
    match credentials.spec_auth_header() {
        None => seq![("Content-Type"@, "application/json"@)],
        Some(h) => seq![("Content-Type"@, "application/json"@)].push(h),
    }
}

/// A fully planned request: everything the transport needs to perform it.
#[derive(Debug)]
pub struct RequestPlan {
    /// The HTTP verb
    pub method: Method,
    /// The absolute request URL
    pub url: String,
    /// The headers to send, content type and authentication included
    pub headers: Vec<(String, String)>,
    /// The serialized request body, absent for read operations
    pub body: Option<Vec<u8>>,
}

/// An empty success body, decoded from the "no value" token.
#[derive(Debug)]
pub struct EmptyResponse;

/// Entry point into the client interface: holds the validated base host
/// and the credential, both immutable once constructed.
#[derive(Debug)]
pub struct Jira {
    host: String,
    credentials: Credentials,
}

impl Jira {
    /// The stored base host text is a normalized absolute URL.
    #[verifier::type_invariant]
    pub closed spec fn wf(self) -> bool {
        url_normalized(self.host@) == Some(self.host@)
    }

    /// The base host's serialization.
    pub closed spec fn spec_host(self) -> Seq<char> {
        self.host@
    }

    /// The credential applied to each request.
    pub closed spec fn spec_credentials(self) -> Credentials {
        self.credentials
    }

    /// Creates a new client handle, validating the base host. Fails with a
    /// `ParseError` exactly where the host is no absolute URL.
    pub fn new(host: &str, credentials: Credentials) -> (r: Result<Jira, JiraError>)
        ensures
            r is Ok <==> url_normalized(host@) is Some,
            r matches Ok(j) ==> url_normalized(host@) == Some(j.spec_host()) && j.spec_credentials()
                == credentials,
            r matches Err(e) ==> e is ParseError,
    {
        match parse_url(host) {
            Ok(normalized) => Ok(Jira { host: normalized, credentials }),
            Err(error) => Err(JiraError::from(error)),
        }
    }

    /// The base host's serialization.
    pub fn host_str(&self) -> (r: &str)
        ensures
            r@ == self.spec_host(),
    {
        self.host.as_str()
    }

    /// The credential applied to each request.
    pub fn credentials(&self) -> (r: &Credentials)
        ensures
            *r == self.spec_credentials(),
    {
        &self.credentials
    }

    /// A handle with the same host and credential.
    pub fn duplicate(&self) -> (r: Jira)
        ensures
            r == *self,
    {
        proof {
            use_type_invariant(self);
        }
        Jira { host: self.host.clone(), credentials: self.credentials.duplicate() }
    }

    /// The request path below the host for an endpoint of an API family.
    pub open spec fn spec_rest_path(api_name: ApiName, endpoint: Seq<char>) -> Seq<char> {
        "rest/"@ + api_name.spec_token() + "/latest"@ + endpoint
    }

    /// Plans a request: builds the URL from the base host, the API family
    /// and the endpoint path, applies the credential, and attaches the body.
    /// Fails with a `ParseError` exactly where the endpoint cannot be joined
    /// onto the base host.
    pub fn request(
        &self,
        method: Method,
        api_name: ApiName,
        endpoint: &str,
        body: Option<Vec<u8>>,
    ) -> (r: Result<RequestPlan, JiraError>)
        ensures
            r is Ok <==> url_joined(
                self.spec_host(),
                Self::spec_rest_path(api_name, endpoint@),
            ) is Some,
            r matches Ok(plan) ==> {
                &&& plan.method == method
                &&& url_joined(self.spec_host(), Self::spec_rest_path(api_name, endpoint@)) == Some(
                    plan.url@,
                )
                &&& string_pair_views(plan.headers@) == spec_plan_headers(self.spec_credentials())
                &&& plan.body == body
            },
            r matches Err(e) ==> e is ParseError,
    {
        proof {
            use_type_invariant(self);
        }
        let mut path = String::from_str("rest/");
        path.append(api_name.token());
        path.append("/latest");
        path.append(endpoint);
        match join_url(self.host.as_str(), path.as_str()) {
            Ok(url) => {
                let mut headers: Vec<(String, String)> = Vec::new();
                headers.push(
                    (String::from_str("Content-Type"), String::from_str("application/json")),
                );
                proof {
                    assert(string_pair_views(headers@) =~= seq![
                        ("Content-Type"@, "application/json"@),
                    ]);
                }
                let headers = self.credentials.apply(headers);
                Ok(RequestPlan { method, url, headers, body })
            },
            Err(error) => Err(JiraError::from(error)),
        }
    }

    /// Plans a DELETE request.
    pub fn delete(&self, api_name: ApiName, endpoint: &str) -> (r: Result<RequestPlan, JiraError>)
        ensures
            r is Ok <==> url_joined(
                self.spec_host(),
                Self::spec_rest_path(api_name, endpoint@),
            ) is Some,
            r matches Ok(plan) ==> {
                &&& plan.method == Method::Delete
                &&& url_joined(self.spec_host(), Self::spec_rest_path(api_name, endpoint@)) == Some(
                    plan.url@,
                )
                &&& string_pair_views(plan.headers@) == spec_plan_headers(self.spec_credentials())
                &&& plan.body is None
            },
            r matches Err(e) ==> e is ParseError,
    {
        self.request(Method::Delete, api_name, endpoint, None)
    }

    /// Plans a GET request.
    pub fn get(&self, api_name: ApiName, endpoint: &str) -> (r: Result<RequestPlan, JiraError>)
        ensures
            r is Ok <==> url_joined(
                self.spec_host(),
                Self::spec_rest_path(api_name, endpoint@),
            ) is Some,
            r matches Ok(plan) ==> {
                &&& plan.method == Method::Get
                &&& url_joined(self.spec_host(), Self::spec_rest_path(api_name, endpoint@)) == Some(
                    plan.url@,
                )
                &&& string_pair_views(plan.headers@) == spec_plan_headers(self.spec_credentials())
                &&& plan.body is None
            },
            r matches Err(e) ==> e is ParseError,
    {
        self.request(Method::Get, api_name, endpoint, None)
    }

    /// Plans a POST request carrying an already serialized body.
    pub fn post(&self, api_name: ApiName, endpoint: &str, body: Vec<u8>) -> (r: Result<
        RequestPlan,
        JiraError,
    >)
        ensures
            r is Ok <==> url_joined(
                self.spec_host(),
                Self::spec_rest_path(api_name, endpoint@),
            ) is Some,
            r matches Ok(plan) ==> {
                &&& plan.method == Method::Post
                &&& url_joined(self.spec_host(), Self::spec_rest_path(api_name, endpoint@)) == Some(
                    plan.url@,
                )
                &&& string_pair_views(plan.headers@) == spec_plan_headers(self.spec_credentials())
                &&& plan.body == Some(body)
            },
            r matches Err(e) ==> e is ParseError,
    {
        self.request(Method::Post, api_name, endpoint, Some(body))
    }

    /// Plans a PUT request carrying an already serialized body.
    pub fn put(&self, api_name: ApiName, endpoint: &str, body: Vec<u8>) -> (r: Result<
        RequestPlan,
        JiraError,
    >)
        ensures
            r is Ok <==> url_joined(
                self.spec_host(),
                Self::spec_rest_path(api_name, endpoint@),
            ) is Some,
            r matches Ok(plan) ==> {
                &&& plan.method == Method::Put
                &&& url_joined(self.spec_host(), Self::spec_rest_path(api_name, endpoint@)) == Some(
                    plan.url@,
                )
                &&& string_pair_views(plan.headers@) == spec_plan_headers(self.spec_credentials())
                &&& plan.body == Some(body)
            },
            r matches Err(e) ==> e is ParseError,
    {
        self.request(Method::Put, api_name, endpoint, Some(body))
    }

    /// Plans the request that fetches the current session.
    pub fn session(&self) -> (r: Result<RequestPlan, JiraError>)
        ensures
            r is Ok <==> url_joined(
                self.spec_host(),
                Self::spec_rest_path(ApiName::Auth, "/session"@),
            ) is Some,
            r matches Ok(plan) ==> plan.method == Method::Get && plan.body is None && url_joined(
                self.spec_host(),
                Self::spec_rest_path(ApiName::Auth, "/session"@),
            ) == Some(plan.url@) && string_pair_views(plan.headers@) == spec_plan_headers(
                self.spec_credentials(),
            ),
            r matches Err(e) ==> e is ParseError,
    {
        self.get(ApiName::Auth, "/session")
    }

    /// Returns the transitions interface for one issue.
    pub fn transitions(&self, key: &str) -> (r: crate::transitions::Transitions)
        ensures
            r.spec_jira() == *self,
            r.spec_key() == key@,
    {
        crate::transitions::Transitions::new(self, key)
    }

    /// Returns the search interface.
    pub fn search(&self) -> (r: crate::search::Search)
        ensures
            r.spec_jira() == *self,
    {
        crate::search::Search::new(self)
    }

    /// Returns the issues interface.
    pub fn issues(&self) -> (r: crate::issues::Issues)
        ensures
            r.spec_jira() == *self,
    {
        crate::issues::Issues::new(self)
    }

    /// Returns the attachments interface.
    pub fn attachments(&self) -> (r: crate::attachments::Attachments)
        ensures
            r.spec_jira() == *self,
    {
        crate::attachments::Attachments::new(self)
    }

    /// Returns the components interface.
    pub fn components(&self) -> (r: crate::components::Components)
        ensures
            r.spec_jira() == *self,
    {
        crate::components::Components::new(self)
    }

    /// Returns the boards interface.
    pub fn boards(&self) -> (r: crate::boards::Boards)
        ensures
            r.spec_jira() == *self,
    {
        crate::boards::Boards::new(self)
    }

    /// Returns the sprints interface.
    pub fn sprints(&self) -> (r: crate::sprints::Sprints)
        ensures
            r.spec_jira() == *self,
    {
        crate::sprints::Sprints::new(self)
    }

    /// Returns the versions interface.
    pub fn versions(&self) -> (r: crate::versions::Versions)
        ensures
            r.spec_jira() == *self,
    {
        crate::versions::Versions::new(self)
    }
}

/// What the pipeline does next with a response, decided by the status code.
#[derive(Debug)]
pub enum ResponseStep {
    /// The request failed with a status mapped directly to an error kind.
    Fail(JiraError),
    /// The service rejected the request: parse the body as its structured
    /// error shape, then build the `Fault` error.
    FaultBody { code: u16, body: String },
    /// The request succeeded: decode this text as the expected value. An
    /// empty body was replaced by the "no value" token.
    Decode(String),
}

/// Classifies a response by its status code, in precedence order: the
/// unauthorized status, then method-not-allowed, then not-found, then any
/// other client-error status, and otherwise success. On success an empty
/// body becomes the literal `null`, so empty responses decode to an empty
/// value rather than failing.
pub fn route_response(status: u16, body: String) -> (r: ResponseStep)
    ensures
        status == 401 ==> (r matches ResponseStep::Fail(e) && e is Unauthorized),
        status == 405 ==> (r matches ResponseStep::Fail(e) && e is MethodNotAllowed),
        status == 404 ==> (r matches ResponseStep::Fail(e) && e is NotFound),
        (400 <= status < 500 && status != 401 && status != 405 && status != 404) ==> (r matches
            ResponseStep::FaultBody { code, body: b } && code == status && b@ == body@),
        !(400 <= status < 500) ==> (r matches ResponseStep::Decode(text) && text@ == (
        if body@.len() == 0 {
            "null"@
        } else {
            body@
        })),
{
    if status == 401 {
        ResponseStep::Fail(JiraError::Unauthorized)
    } else if status == 405 {
        ResponseStep::Fail(JiraError::MethodNotAllowed)
    } else if status == 404 {
        ResponseStep::Fail(JiraError::NotFound)
    } else if 400 <= status && status < 500 {
        ResponseStep::FaultBody { code: status, body }
    } else if body.as_str().is_empty() {
        ResponseStep::Decode(String::from_str("null"))
    } else {
        ResponseStep::Decode(body)
    }
}

/// Builds the error for a rejected request from the parse outcome of the
/// service's error body: a `Fault` carrying the status and the structured
/// body where it parsed, and the parse failure itself where it did not.
pub fn fault_outcome(code: u16, parsed: Result<Errors, serde_json::Error>) -> (r: JiraError)
    ensures
        parsed matches Ok(errors) ==> (r matches JiraError::Fault { code: c, errors: e } && c
            == code && e == errors),
        parsed matches Err(error) ==> (r matches JiraError::Serde(se) && se == error),
{
    match parsed {
        Ok(errors) => JiraError::Fault { code, errors },
        Err(error) => JiraError::Serde(error),
    }
}

} // verus!
