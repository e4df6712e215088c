//! Accessing and managing the backlog: the request plan that moves issues
//! into it.

use vstd::prelude::*;

use crate::errors::JiraError;
use crate::{ApiName, Jira, Method, RequestPlan};

verus! {

/// The backlog interface of a client handle.
#[derive(Debug)]
pub struct Backlog {
    jira: Jira,
}

impl Backlog {
    /// The owning client handle.
    pub closed spec fn spec_jira(self) -> Jira {
        self.jira
    }

    /// The backlog interface of the given client handle.
    pub fn new(jira: &Jira) -> (r: Backlog)
        ensures
            r.spec_jira() == *jira,
    {
        Backlog { jira: jira.duplicate() }
    }

    /// Plans the request that moves issues into the backlog; the serialized
    /// issue list is the request body.
    pub fn put_request(&self, body: Vec<u8>) -> (r: Result<RequestPlan, JiraError>)
        ensures
            r is Ok <==> crate::url_joined(
                self.spec_jira().spec_host(),
                Jira::spec_rest_path(ApiName::Agile, "/backlog/issue"@),
            ) is Some,
            r matches Ok(plan) ==> {
                &&& plan.method == Method::Post
                &&& crate::url_joined(
                self.spec_jira().spec_host(),
                Jira::spec_rest_path(ApiName::Agile, "/backlog/issue"@),
            ) == Some(plan.url@)
                &&& crate::builder::string_pair_views(plan.headers@) == crate::spec_plan_headers(
                    self.spec_jira().spec_credentials(),
                )
                &&& plan.body == Some(body)
            },
            r matches Err(e) ==> e is ParseError,
    {
        self.jira.post(ApiName::Agile, "/backlog/issue", body)
    }
}

} // verus!
