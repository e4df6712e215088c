//! Searching for issues: the search request plan with its query pair, and
//! the count-terminated pagination over search result pages.

use vstd::prelude::*;

use crate::builder::{form_encoded, wire_pairs, ParamName, SearchOptions};
use crate::errors::JiraError;
use crate::pagination::{PagedResponse, Paginator};
use crate::rep::{Issue, SearchResults};
use crate::text::dec_digits;
use crate::{ApiName, Jira, Method, RequestPlan};

verus! {

/// The search interface of a client handle.
#[derive(Debug)]
pub struct Search {
    jira: Jira,
}

impl PagedResponse for SearchResults {
    type Item = Issue;

    open spec fn buffered(&self) -> Seq<Issue> {
        self.issues@
    }

    open spec fn spec_start_at(&self) -> u64 {
        self.start_at
    }

    open spec fn spec_max_results(&self) -> u64 {
        self.max_results
    }

    /// Count-based termination: more pages remain while the page's offset
    /// plus its size falls short of the total.
    open spec fn spec_more(&self) -> bool {
        (self.start_at as int + self.max_results as int) < (self.total as int)
    }

    fn start_at(&self) -> u64 {
        self.start_at
    }

    fn max_results(&self) -> u64 {
        self.max_results
    }

    fn more_pages(&self) -> bool {
        self.total > self.start_at && self.total - self.start_at > self.max_results
    }

    fn has_buffered(&self) -> bool {
        self.issues.len() > 0
    }

    fn pop(&mut self) -> Option<Issue> {
        self.issues.pop()
    }
}

/// The search path: the serialized options with the query pair appended.
pub open spec fn spec_search_path(jql: Seq<char>, options: SearchOptions) -> Seq<char> {
    "/search?"@ + form_encoded(wire_pairs(options.param_list()).push(("jql"@, jql)))
}

impl Search {
    /// The owning client handle.
    pub closed spec fn spec_jira(self) -> Jira {
        self.jira
    }

    /// The search interface of the given client handle.
    pub fn new(jira: &Jira) -> (r: Search)
        ensures
            r.spec_jira() == *jira,
    {
        Search { jira: jira.duplicate() }
    }

    /// Plans the request that fetches a single page of search results for a
    /// query under the given options.
    pub fn list_request(&self, jql: &str, options: &SearchOptions) -> (r: Result<
        RequestPlan,
        JiraError,
    >)
        ensures
            r is Ok <==> crate::url_joined(
                self.spec_jira().spec_host(),
                Jira::spec_rest_path(ApiName::Api, spec_search_path(jql@, *options)),
            ) is Some,
            r matches Ok(plan) ==> {
                &&& plan.method == Method::Get
                &&& crate::url_joined(
                self.spec_jira().spec_host(),
                Jira::spec_rest_path(ApiName::Api, spec_search_path(jql@, *options)),
            ) == Some(plan.url@)
                &&& crate::builder::string_pair_views(plan.headers@) == crate::spec_plan_headers(
                    self.spec_jira().spec_credentials(),
                )
                &&& plan.body is None
            },
            r matches Err(e) ==> e is ParseError,
    {
        let mut path = String::from_str("/search?");
        path.append(options.serialize_with("jql", jql).as_str());
        self.jira.get(ApiName::Api, path.as_str())
    }

    /// Starts iterating over consecutive pages of search results from the
    /// outcome of the eager first page fetch. Fails exactly where that fetch
    /// failed: no iterator is produced without at least one attempted page.
    pub fn iter(&self, jql: &str, options: &SearchOptions, first: Result<
        SearchResults,
        JiraError,
    >) -> (r: Result<Iter, JiraError>)
        ensures
            r is Ok <==> first is Ok,
            r matches Ok(it) ==> first matches Ok(page) && it.pager.spec_page() == page
                && it.pager.spec_options()@ == options@ && !it.pager.spec_stopped() && it.jql@
                == jql@,
            r matches Err(e) ==> (first matches Err(e0) && e == e0),
    {
        match Paginator::new(first, options.as_builder().build()) {
            Ok(pager) => Ok(Iter { jql: String::from_str(jql), pager }),
            Err(error) => Err(error),
        }
    }
}

/// Iterates over consecutive pages of search results.
pub struct Iter {
    /// The fixed query passed through to every page fetch.
    pub jql: String,
    /// The pagination protocol state over search result pages.
    pub pager: Paginator<SearchResults>,
}

/// Law: with the count policy, another fetch is wanted only while the
/// page's offset plus its size falls short of the total; and the next
/// fetch starts exactly past this page, with the page size held.
pub proof fn lemma_count_termination(p: Paginator<SearchResults>)
    ensures
        p.wants_fetch_spec() ==> p.spec_page().start_at + p.spec_page().max_results < p.spec_page().total,
        p.next_options_spec()[ParamName::StartAt] == dec_digits(
            (p.spec_page().start_at + p.spec_page().max_results) as nat,
        ),
        p.next_options_spec()[ParamName::MaxResults] == dec_digits(
            p.spec_page().max_results as nat,
        ),
{
}

} // verus!
