//! Accessing and managing boards: single-board and board-listing request
//! plans, and the flag-terminated pagination over board pages.

use vstd::prelude::*;

use crate::builder::SearchOptions;
use crate::errors::JiraError;
use crate::pagination::{PagedResponse, Paginator};
use crate::{ApiName, Jira, Method, RequestPlan};

verus! {

/// The boards interface of a client handle.
#[derive(Debug)]
pub struct Boards {
    jira: Jira,
}

/// One board.
#[derive(Debug)]
pub struct Board {
    pub self_link: String,
    pub id: u64,
    pub name: String,
    pub board_type: String,
}

/// One page of board results, terminated by the last-page flag.
#[derive(Debug)]
pub struct BoardResults {
    pub max_results: u64,
    pub start_at: u64,
    pub is_last: bool,
    pub values: Vec<Board>,
}

impl PagedResponse for BoardResults {
    type Item = Board;

    open spec fn buffered(&self) -> Seq<Board> {
        self.values@
    }

    open spec fn spec_start_at(&self) -> u64 {
        self.start_at
    }

    open spec fn spec_max_results(&self) -> u64 {
        self.max_results
    }

    /// Flag-based termination: more pages remain while the flag is unset.
    open spec fn spec_more(&self) -> bool {
        !self.is_last
    }

    fn start_at(&self) -> u64 {
        self.start_at
    }

    fn max_results(&self) -> u64 {
        self.max_results
    }

    fn more_pages(&self) -> bool {
        !self.is_last
    }

    fn has_buffered(&self) -> bool {
        self.values.len() > 0
    }

    fn pop(&mut self) -> Option<Board> {
        self.values.pop()
    }
}

/// The listing path under the agile family, with the serialized options.
pub open spec fn spec_board_list_path(options: SearchOptions) -> Seq<char> {
    "/board?"@ + match options.spec_serialize() {
        None => Seq::<char>::empty(),
        Some(q) => q,
    }
}

/// Renders the listing path for the given options.
fn board_list_path(options: &SearchOptions) -> (r: String)
    ensures
        r@ == spec_board_list_path(*options),
{
    let mut path = String::from_str("/board?");
    match options.serialize() {
        Some(q) => {
            path.append(q.as_str());
            path
        },
        None => path,
    }
}

impl Boards {
    /// The owning client handle.
    pub closed spec fn spec_jira(self) -> Jira {
        self.jira
    }

    /// The boards interface of the given client handle.
    pub fn new(jira: &Jira) -> (r: Boards)
        ensures
            r.spec_jira() == *jira,
    {
        Boards { jira: jira.duplicate() }
    }

    /// Plans the request that fetches a single board.
    pub fn get_request(&self, id: &str) -> (r: Result<RequestPlan, JiraError>)
        ensures
            r is Ok <==> crate::url_joined(
                self.spec_jira().spec_host(),
                Jira::spec_rest_path(ApiName::Agile, "/board/"@ + id@),
            ) is Some,
            r matches Ok(plan) ==> {
                &&& plan.method == Method::Get
                &&& crate::url_joined(
                self.spec_jira().spec_host(),
                Jira::spec_rest_path(ApiName::Agile, "/board/"@ + id@),
            ) == Some(plan.url@)
                &&& crate::builder::string_pair_views(plan.headers@) == crate::spec_plan_headers(
                    self.spec_jira().spec_credentials(),
                )
                &&& plan.body is None
            },
            r matches Err(e) ==> e is ParseError,
    {
        let mut path = String::from_str("/board/");
        path.append(id);
        self.jira.get(ApiName::Agile, path.as_str())
    }

    /// Plans the request that fetches a single page of board results under
    /// the given options.
    pub fn list_request(&self, options: &SearchOptions) -> (r: Result<RequestPlan, JiraError>)
        ensures
            r is Ok <==> crate::url_joined(
                self.spec_jira().spec_host(),
                Jira::spec_rest_path(ApiName::Agile, spec_board_list_path(*options)),
            ) is Some,
            r matches Ok(plan) ==> {
                &&& plan.method == Method::Get
                &&& crate::url_joined(
                self.spec_jira().spec_host(),
                Jira::spec_rest_path(ApiName::Agile, spec_board_list_path(*options)),
            ) == Some(plan.url@)
                &&& crate::builder::string_pair_views(plan.headers@) == crate::spec_plan_headers(
                    self.spec_jira().spec_credentials(),
                )
                &&& plan.body is None
            },
            r matches Err(e) ==> e is ParseError,
    {
        let path = board_list_path(options);
        self.jira.get(ApiName::Agile, path.as_str())
    }

    /// Starts iterating over consecutive pages of board results from the
    /// outcome of the eager first page fetch. Fails exactly where that fetch
    /// failed: no iterator is produced without at least one attempted page.
    pub fn iter(&self, options: &SearchOptions, first: Result<BoardResults, JiraError>) -> (r:
        Result<BoardsIter, JiraError>)
        ensures
            r is Ok <==> first is Ok,
            r matches Ok(it) ==> first matches Ok(page) && it.pager.spec_page() == page
                && it.pager.spec_options()@ == options@ && !it.pager.spec_stopped(),
            r matches Err(e) ==> (first matches Err(e0) && e == e0),
    {
        match Paginator::new(first, options.as_builder().build()) {
            Ok(pager) => Ok(BoardsIter { pager }),
            Err(error) => Err(error),
        }
    }
}

/// Iterates over consecutive pages of board results.
pub struct BoardsIter {
    /// The pagination protocol state over board pages.
    pub pager: Paginator<BoardResults>,
}

/// Law: a page carrying the last-page flag never leads to another fetch,
/// however few items it still buffers.
pub proof fn lemma_flag_termination(p: Paginator<BoardResults>)
    requires
        p.spec_page().is_last,
    ensures
        !p.wants_fetch_spec(),
{
}

} // verus!
