//! Accessing and managing sprints: single-sprint, issue-move and
//! sprint-listing request plans, and the flag-terminated pagination over
//! sprint pages.

use vstd::prelude::*;

use crate::boards::Board;
use crate::builder::SearchOptions;
use crate::errors::JiraError;
use crate::pagination::{PagedResponse, Paginator};
use crate::rep::DateTime;
use crate::text::{dec_digits, u64_string};
use crate::{ApiName, Jira, Method, RequestPlan};

verus! {

/// The sprints interface of a client handle.
#[derive(Debug)]
pub struct Sprints {
    jira: Jira,
}

/// One sprint.
#[derive(Debug)]
pub struct Sprint {
    pub id: u64,
    pub self_link: String,
    pub name: String,
    pub state: Option<String>,
    pub start_date: Option<DateTime>,
    pub end_date: Option<DateTime>,
    pub complete_date: Option<DateTime>,
    pub origin_board_id: Option<u64>,
}

/// One page of sprint results, terminated by the last-page flag.
#[derive(Debug)]
pub struct SprintResults {
    pub max_results: u64,
    pub start_at: u64,
    pub is_last: bool,
    pub values: Vec<Sprint>,
}

impl PagedResponse for SprintResults {
    type Item = Sprint;

    open spec fn buffered(&self) -> Seq<Sprint> {
        self.values@
    }

    open spec fn spec_start_at(&self) -> u64 {
        self.start_at
    }

    open spec fn spec_max_results(&self) -> u64 {
        self.max_results
    }

    /// Flag-based termination: more pages remain while the flag is unset.
    open spec fn spec_more(&self) -> bool {
        !self.is_last
    }

    fn start_at(&self) -> u64 {
        self.start_at
    }

    fn max_results(&self) -> u64 {
        self.max_results
    }

    fn more_pages(&self) -> bool {
        !self.is_last
    }

    fn has_buffered(&self) -> bool {
        self.values.len() > 0
    }

    fn pop(&mut self) -> Option<Sprint> {
        self.values.pop()
    }
}

/// The listing path for a board's sprints, with the serialized options.
pub open spec fn spec_sprint_list_path(board_id: u64, options: SearchOptions) -> Seq<char> {
    "/board/"@ + dec_digits(board_id as nat) + "/sprint?"@ + match options.spec_serialize() {
        None => Seq::<char>::empty(),
        Some(q) => q,
    }
}

/// Renders the listing path for a board's sprints.
fn sprint_list_path(board_id: u64, options: &SearchOptions) -> (r: String)
    ensures
        r@ == spec_sprint_list_path(board_id, *options),
{
    let mut path = String::from_str("/board/");
    path.append(u64_string(board_id).as_str());
    path.append("/sprint?");
    match options.serialize() {
        Some(q) => {
            path.append(q.as_str());
            path
        },
        None => path,
    }
}

impl Sprints {
    /// The owning client handle.
    pub closed spec fn spec_jira(self) -> Jira {
        self.jira
    }

    /// The sprints interface of the given client handle.
    pub fn new(jira: &Jira) -> (r: Sprints)
        ensures
            r.spec_jira() == *jira,
    {
        Sprints { jira: jira.duplicate() }
    }

    /// Plans the request that fetches a single sprint.
    pub fn get_request(&self, id: &str) -> (r: Result<RequestPlan, JiraError>)
        ensures
            r is Ok <==> crate::url_joined(
                self.spec_jira().spec_host(),
                Jira::spec_rest_path(ApiName::Agile, "/sprint/"@ + id@),
            ) is Some,
            r matches Ok(plan) ==> {
                &&& plan.method == Method::Get
                &&& crate::url_joined(
                self.spec_jira().spec_host(),
                Jira::spec_rest_path(ApiName::Agile, "/sprint/"@ + id@),
            ) == Some(plan.url@)
                &&& crate::builder::string_pair_views(plan.headers@) == crate::spec_plan_headers(
                    self.spec_jira().spec_credentials(),
                )
                &&& plan.body is None
            },
            r matches Err(e) ==> e is ParseError,
    {
        let mut path = String::from_str("/sprint/");
        path.append(id);
        self.jira.get(ApiName::Agile, path.as_str())
    }

    /// Plans the request that moves issues into a sprint; the serialized
    /// issue list is the request body.
    pub fn move_issues_request(&self, sprint_id: u64, body: Vec<u8>) -> (r: Result<
        RequestPlan,
        JiraError,
    >)
        ensures
            r is Ok <==> crate::url_joined(
                self.spec_jira().spec_host(),
                Jira::spec_rest_path(
                    ApiName::Agile,
                    "/sprint/"@ + dec_digits(sprint_id as nat) + "/issue"@,
                ),
            ) is Some,
            r matches Ok(plan) ==> {
                &&& plan.method == Method::Post
                &&& crate::url_joined(
                self.spec_jira().spec_host(),
                Jira::spec_rest_path(
                    ApiName::Agile,
                    "/sprint/"@ + dec_digits(sprint_id as nat) + "/issue"@,
                ),
            ) == Some(plan.url@)
                &&& crate::builder::string_pair_views(plan.headers@) == crate::spec_plan_headers(
                    self.spec_jira().spec_credentials(),
                )
                &&& plan.body == Some(body)
            },
            r matches Err(e) ==> e is ParseError,
    {
        let mut path = String::from_str("/sprint/");
        path.append(u64_string(sprint_id).as_str());
        path.append("/issue");
        self.jira.post(ApiName::Agile, path.as_str(), body)
    }

    /// Plans the request that fetches a single page of a board's sprints
    /// under the given options.
    pub fn list_request(&self, board: &Board, options: &SearchOptions) -> (r: Result<
        RequestPlan,
        JiraError,
    >)
        ensures
            r is Ok <==> crate::url_joined(
                self.spec_jira().spec_host(),
                Jira::spec_rest_path(ApiName::Agile, spec_sprint_list_path(board.id, *options)),
            ) is Some,
            r matches Ok(plan) ==> {
                &&& plan.method == Method::Get
                &&& crate::url_joined(
                self.spec_jira().spec_host(),
                Jira::spec_rest_path(ApiName::Agile, spec_sprint_list_path(board.id, *options)),
            ) == Some(plan.url@)
                &&& crate::builder::string_pair_views(plan.headers@) == crate::spec_plan_headers(
                    self.spec_jira().spec_credentials(),
                )
                &&& plan.body is None
            },
            r matches Err(e) ==> e is ParseError,
    {
        let path = sprint_list_path(board.id, options);
        self.jira.get(ApiName::Agile, path.as_str())
    }

    /// Starts iterating over consecutive pages of a board's sprints from the
    /// outcome of the eager first page fetch. Fails exactly where that fetch
    /// failed: no iterator is produced without at least one attempted page.
    pub fn iter(&self, board: &Board, options: &SearchOptions, first: Result<
        SprintResults,
        JiraError,
    >) -> (r: Result<SprintsIter, JiraError>)
        ensures
            r is Ok <==> first is Ok,
            r matches Ok(it) ==> first matches Ok(page) && it.pager.spec_page() == page
                && it.pager.spec_options()@ == options@ && !it.pager.spec_stopped() && it.board_id
                == board.id,
            r matches Err(e) ==> (first matches Err(e0) && e == e0),
    {
        match Paginator::new(first, options.as_builder().build()) {
            Ok(pager) => Ok(SprintsIter { board_id: board.id, pager }),
            Err(error) => Err(error),
        }
    }
}

/// Iterates over consecutive pages of a board's sprints.
pub struct SprintsIter {
    /// The board whose sprints are listed.
    pub board_id: u64,
    /// The pagination protocol state over sprint pages.
    pub pager: Paginator<SprintResults>,
}

} // verus!
