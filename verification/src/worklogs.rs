//! Accessing an issue's worklogs: the worklog-listing request plan and the
//! count-terminated pagination over worklog pages.

use vstd::prelude::*;

use crate::builder::SearchOptions;
use crate::errors::JiraError;
use crate::pagination::{PagedResponse, Paginator};
use crate::rep::{Comment, User, Visibility};
use crate::{ApiName, Jira, Method, RequestPlan};

verus! {

/// The worklogs interface of a client handle.
#[derive(Debug)]
pub struct Worklogs {
    jira: Jira,
}

/// One worklog entry.
#[derive(Debug)]
pub struct Worklog {
    pub self_link: String,
    pub author: User,
    pub update_author: User,
    pub comment: Option<Comment>,
    pub updated: String,
    pub visibility: Option<Visibility>,
    pub started: String,
    pub time_spent: String,
    pub time_spent_seconds: u64,
    pub id: String,
    pub issue_id: String,
}

/// One page of an issue's worklogs, terminated by the total count.
#[derive(Debug)]
pub struct WorklogResults {
    pub max_results: u64,
    pub start_at: u64,
    pub total: u64,
    pub worklogs: Vec<Worklog>,
}

impl PagedResponse for WorklogResults {
    type Item = Worklog;

    open spec fn buffered(&self) -> Seq<Worklog> {
        self.worklogs@
    }

    open spec fn spec_start_at(&self) -> u64 {
        self.start_at
    }

    open spec fn spec_max_results(&self) -> u64 {
        self.max_results
    }

    /// Count-based termination: more pages remain while the page's offset
    /// plus its size falls short of the total.
    open spec fn spec_more(&self) -> bool {
        (self.start_at as int + self.max_results as int) < (self.total as int)
    }

    fn start_at(&self) -> u64 {
        self.start_at
    }

    fn max_results(&self) -> u64 {
        self.max_results
    }

    fn more_pages(&self) -> bool {
        self.total > self.start_at && self.total - self.start_at > self.max_results
    }

    fn has_buffered(&self) -> bool {
        self.worklogs.len() > 0
    }

    fn pop(&mut self) -> Option<Worklog> {
        self.worklogs.pop()
    }
}

/// The listing path for an issue's worklogs, with the serialized options.
pub open spec fn spec_worklog_list_path(id: Seq<char>, options: SearchOptions) -> Seq<char> {
    "/issue/"@ + id + "/worklog?"@ + match options.spec_serialize() {
        None => Seq::<char>::empty(),
        Some(q) => q,
    }
}

/// Renders the listing path for an issue's worklogs.
fn worklog_list_path(id: &str, options: &SearchOptions) -> (r: String)
    ensures
        r@ == spec_worklog_list_path(id@, *options),
{
    let mut path = String::from_str("/issue/");
    path.append(id);
    path.append("/worklog?");
    match options.serialize() {
        Some(q) => {
            path.append(q.as_str());
            path
        },
        None => path,
    }
}

impl Worklogs {
    /// The owning client handle.
    pub closed spec fn spec_jira(self) -> Jira {
        self.jira
    }

    /// The worklogs interface of the given client handle.
    pub fn new(jira: &Jira) -> (r: Worklogs)
        ensures
            r.spec_jira() == *jira,
    {
        Worklogs { jira: jira.duplicate() }
    }

    /// Plans the request that fetches a single page of an issue's worklogs
    /// under the given options.
    pub fn list_request(&self, id: &str, options: &SearchOptions) -> (r: Result<
        RequestPlan,
        JiraError,
    >)
        ensures
            r is Ok <==> crate::url_joined(
                self.spec_jira().spec_host(),
                Jira::spec_rest_path(ApiName::Api, spec_worklog_list_path(id@, *options)),
            ) is Some,
            r matches Ok(plan) ==> {
                &&& plan.method == Method::Get
                &&& crate::url_joined(
                self.spec_jira().spec_host(),
                Jira::spec_rest_path(ApiName::Api, spec_worklog_list_path(id@, *options)),
            ) == Some(plan.url@)
                &&& crate::builder::string_pair_views(plan.headers@) == crate::spec_plan_headers(
                    self.spec_jira().spec_credentials(),
                )
                &&& plan.body is None
            },
            r matches Err(e) ==> e is ParseError,
    {
        let path = worklog_list_path(id, options);
        self.jira.get(ApiName::Api, path.as_str())
    }

    /// Starts iterating over consecutive pages of an issue's worklogs from
    /// the outcome of the eager first page fetch. Fails exactly where that
    /// fetch failed: no iterator is produced without at least one attempted
    /// page.
    pub fn iter(&self, id: &str, options: &SearchOptions, first: Result<
        WorklogResults,
        JiraError,
    >) -> (r: Result<Iter, JiraError>)
        ensures
            r is Ok <==> first is Ok,
            r matches Ok(it) ==> first matches Ok(page) && it.pager.spec_page() == page
                && it.pager.spec_options()@ == options@ && !it.pager.spec_stopped() && it.id@
                == id@,
            r matches Err(e) ==> (first matches Err(e0) && e == e0),
    {
        match Paginator::new(first, options.as_builder().build()) {
            Ok(pager) => Ok(Iter { id: String::from_str(id), pager }),
            Err(error) => Err(error),
        }
    }
}

/// Iterates over consecutive pages of an issue's worklogs.
pub struct Iter {
    /// The issue whose worklogs are listed.
    pub id: String,
    /// The pagination protocol state over worklog pages.
    pub pager: Paginator<WorklogResults>,
}

} // verus!
