//! Accessing and managing issues: fetch, create, edit and comment request
//! plans, and the count-terminated pagination over a board's issue pages.

use vstd::prelude::*;

use crate::boards::Board;
use crate::builder::SearchOptions;
use crate::errors::JiraError;
use crate::pagination::{PagedResponse, Paginator};
use crate::rep::Issue;
use crate::text::{dec_digits, u64_string};
use crate::{ApiName, Jira, Method, RequestPlan};

verus! {

/// The issues interface of a client handle.
#[derive(Debug)]
pub struct Issues {
    jira: Jira,
}

/// An assignee named in a creation body.
#[derive(Debug)]
pub struct Assignee {
    pub name: String,
}

/// An issue type named in a creation body.
#[derive(Debug)]
pub struct IssueType {
    pub id: String,
}

/// A priority named in a creation body.
#[derive(Debug)]
pub struct Priority {
    pub id: String,
}

/// A project named in a creation body.
#[derive(Debug)]
pub struct Project {
    pub key: String,
}

/// A component named in a creation body.
#[derive(Debug)]
pub struct Component {
    pub id: String,
    pub name: String,
}

/// The fields of an issue creation body.
#[derive(Debug)]
pub struct Fields {
    pub assignee: Assignee,
    pub components: Vec<Component>,
    pub description: String,
    pub environment: String,
    pub issuetype: IssueType,
    pub priority: Priority,
    pub project: Project,
    pub reporter: Assignee,
    pub summary: String,
}

/// The body that creates an issue.
#[derive(Debug)]
pub struct CreateIssue {
    pub fields: Fields,
}

/// The body that creates an issue with caller-shaped fields.
#[derive(Debug)]
pub struct CreateCustomIssue<CustomFields> {
    pub fields: CustomFields,
}

/// What the service returns for a created issue.
#[derive(Debug)]
pub struct CreateResponse {
    pub id: String,
    pub key: String,
    pub url: String,
}

/// The body that edits an issue's fields.
#[derive(Debug)]
pub struct EditIssue<T> {
    pub fields: Vec<(String, T)>,
}

/// The body that edits an issue with caller-shaped fields.
#[derive(Debug)]
pub struct EditCustomIssue<CustomFields> {
    pub fields: CustomFields,
}

/// One page of a board's issues, terminated by the total count.
#[derive(Debug)]
pub struct IssueResults {
    pub expand: Option<String>,
    pub max_results: u64,
    pub start_at: u64,
    pub total: u64,
    pub issues: Vec<Issue>,
}

/// The body that adds a comment.
#[derive(Debug)]
pub struct AddComment {
    pub body: String,
}

impl PagedResponse for IssueResults {
    type Item = Issue;

    open spec fn buffered(&self) -> Seq<Issue> {
        self.issues@
    }

    open spec fn spec_start_at(&self) -> u64 {
        self.start_at
    }

    open spec fn spec_max_results(&self) -> u64 {
        self.max_results
    }

    /// Count-based termination: more pages remain while the page's offset
    /// plus its size falls short of the total.
    open spec fn spec_more(&self) -> bool {
        (self.start_at as int + self.max_results as int) < (self.total as int)
    }

    fn start_at(&self) -> u64 {
        self.start_at
    }

    fn max_results(&self) -> u64 {
        self.max_results
    }

    fn more_pages(&self) -> bool {
        self.total > self.start_at && self.total - self.start_at > self.max_results
    }

    fn has_buffered(&self) -> bool {
        self.issues.len() > 0
    }

    fn pop(&mut self) -> Option<Issue> {
        self.issues.pop()
    }
}

/// The listing path for a board's issues, with the serialized options.
pub open spec fn spec_issue_list_path(board_id: u64, options: SearchOptions) -> Seq<char> {
    "/board/"@ + dec_digits(board_id as nat) + "/issue?"@ + match options.spec_serialize() {
        None => Seq::<char>::empty(),
        Some(q) => q,
    }
}

/// Renders the listing path for a board's issues.
fn issue_list_path(board_id: u64, options: &SearchOptions) -> (r: String)
    ensures
        r@ == spec_issue_list_path(board_id, *options),
{
    let mut path = String::from_str("/board/");
    path.append(u64_string(board_id).as_str());
    path.append("/issue?");
    match options.serialize() {
        Some(q) => {
            path.append(q.as_str());
            path
        },
        None => path,
    }
}

impl Issues {
    /// The owning client handle.
    pub closed spec fn spec_jira(self) -> Jira {
        self.jira
    }

    /// The issues interface of the given client handle.
    pub fn new(jira: &Jira) -> (r: Issues)
        ensures
            r.spec_jira() == *jira,
    {
        Issues { jira: jira.duplicate() }
    }

    /// Plans the request that fetches a single issue.
    pub fn get_request(&self, id: &str) -> (r: Result<RequestPlan, JiraError>)
        ensures
            r is Ok <==> crate::url_joined(
                self.spec_jira().spec_host(),
                Jira::spec_rest_path(ApiName::Api, "/issue/"@ + id@),
            ) is Some,
            r matches Ok(plan) ==> {
                &&& plan.method == Method::Get
                &&& crate::url_joined(
                self.spec_jira().spec_host(),
                Jira::spec_rest_path(ApiName::Api, "/issue/"@ + id@),
            ) == Some(plan.url@)
                &&& crate::builder::string_pair_views(plan.headers@) == crate::spec_plan_headers(
                    self.spec_jira().spec_credentials(),
                )
                &&& plan.body is None
            },
            r matches Err(e) ==> e is ParseError,
    {
        let mut path = String::from_str("/issue/");
        path.append(id);
        self.jira.get(ApiName::Api, path.as_str())
    }

    /// Plans the request that creates an issue; the serialized creation
    /// body is the request body.
    pub fn create_request(&self, body: Vec<u8>) -> (r: Result<RequestPlan, JiraError>)
        ensures
            r is Ok <==> crate::url_joined(
                self.spec_jira().spec_host(),
                Jira::spec_rest_path(ApiName::Api, "/issue"@),
            ) is Some,
            r matches Ok(plan) ==> {
                &&& plan.method == Method::Post
                &&& crate::url_joined(
                self.spec_jira().spec_host(),
                Jira::spec_rest_path(ApiName::Api, "/issue"@),
            ) == Some(plan.url@)
                &&& crate::builder::string_pair_views(plan.headers@) == crate::spec_plan_headers(
                    self.spec_jira().spec_credentials(),
                )
                &&& plan.body == Some(body)
            },
            r matches Err(e) ==> e is ParseError,
    {
        self.jira.post(ApiName::Api, "/issue", body)
    }

    /// Plans the request that edits an issue; the serialized edit body is
    /// the request body.
    pub fn edit_request(&self, id: &str, body: Vec<u8>) -> (r: Result<RequestPlan, JiraError>)
        ensures
            r is Ok <==> crate::url_joined(
                self.spec_jira().spec_host(),
                Jira::spec_rest_path(ApiName::Api, "/issue/"@ + id@),
            ) is Some,
            r matches Ok(plan) ==> {
                &&& plan.method == Method::Put
                &&& crate::url_joined(
                self.spec_jira().spec_host(),
                Jira::spec_rest_path(ApiName::Api, "/issue/"@ + id@),
            ) == Some(plan.url@)
                &&& crate::builder::string_pair_views(plan.headers@) == crate::spec_plan_headers(
                    self.spec_jira().spec_credentials(),
                )
                &&& plan.body == Some(body)
            },
            r matches Err(e) ==> e is ParseError,
    {
        let mut path = String::from_str("/issue/");
        path.append(id);
        self.jira.put(ApiName::Api, path.as_str(), body)
    }

    /// Plans the request that fetches a single page of a board's issues
    /// under the given options.
    pub fn list_request(&self, board: &Board, options: &SearchOptions) -> (r: Result<
        RequestPlan,
        JiraError,
    >)
        ensures
            r is Ok <==> crate::url_joined(
                self.spec_jira().spec_host(),
                Jira::spec_rest_path(ApiName::Api, spec_issue_list_path(board.id, *options)),
            ) is Some,
            r matches Ok(plan) ==> {
                &&& plan.method == Method::Get
                &&& crate::url_joined(
                self.spec_jira().spec_host(),
                Jira::spec_rest_path(ApiName::Api, spec_issue_list_path(board.id, *options)),
            ) == Some(plan.url@)
                &&& crate::builder::string_pair_views(plan.headers@) == crate::spec_plan_headers(
                    self.spec_jira().spec_credentials(),
                )
                &&& plan.body is None
            },
            r matches Err(e) ==> e is ParseError,
    {
        let path = issue_list_path(board.id, options);
        self.jira.get(ApiName::Api, path.as_str())
    }

    /// Plans the request that adds a comment to an issue; the serialized
    /// comment body is the request body.
    pub fn comment_request(&self, key: &str, body: Vec<u8>) -> (r: Result<RequestPlan, JiraError>)
        ensures
            r is Ok <==> crate::url_joined(
                self.spec_jira().spec_host(),
                Jira::spec_rest_path(ApiName::Api, "/issue/"@ + key@ + "/comment"@),
            ) is Some,
            r matches Ok(plan) ==> {
                &&& plan.method == Method::Post
                &&& crate::url_joined(
                self.spec_jira().spec_host(),
                Jira::spec_rest_path(ApiName::Api, "/issue/"@ + key@ + "/comment"@),
            ) == Some(plan.url@)
                &&& crate::builder::string_pair_views(plan.headers@) == crate::spec_plan_headers(
                    self.spec_jira().spec_credentials(),
                )
                &&& plan.body == Some(body)
            },
            r matches Err(e) ==> e is ParseError,
    {
        let mut path = String::from_str("/issue/");
        path.append(key);
        path.append("/comment");
        self.jira.post(ApiName::Api, path.as_str(), body)
    }

    /// Starts iterating over consecutive pages of a board's issues from the
    /// outcome of the eager first page fetch. Fails exactly where that fetch
    /// failed: no iterator is produced without at least one attempted page.
    pub fn iter(&self, board: &Board, options: &SearchOptions, first: Result<
        IssueResults,
        JiraError,
    >) -> (r: Result<IssuesIter, JiraError>)
        ensures
            r is Ok <==> first is Ok,
            r matches Ok(it) ==> first matches Ok(page) && it.pager.spec_page() == page
                && it.pager.spec_options()@ == options@ && !it.pager.spec_stopped() && it.board_id
                == board.id,
            r matches Err(e) ==> (first matches Err(e0) && e == e0),
    {
        match Paginator::new(first, options.as_builder().build()) {
            Ok(pager) => Ok(IssuesIter { board_id: board.id, pager }),
            Err(error) => Err(error),
        }
    }
}

/// Iterates over consecutive pages of a board's issues.
pub struct IssuesIter {
    /// The board whose issues are listed.
    pub board_id: u64,
    /// The pagination protocol state over issue pages.
    pub pager: Paginator<IssueResults>,
}

} // verus!
