//! Accessing and managing an issue's transitions: listing and trigger
//! request plans, and the trigger's documented success mapping.

use vstd::prelude::*;

use crate::errors::JiraError;
use crate::{ApiName, Jira, Method, RequestPlan};

verus! {

/// The transitions interface of a client handle, bound to one issue.
#[derive(Debug)]
pub struct Transitions {
    jira: Jira,
    key: String,
}

impl Transitions {
    /// The owning client handle.
    pub closed spec fn spec_jira(self) -> Jira {
        self.jira
    }

    /// The issue whose transitions these are.
    pub closed spec fn spec_key(self) -> Seq<char> {
        self.key@
    }

    /// The transitions interface for one issue of the given client handle.
    pub fn new(jira: &Jira, key: &str) -> (r: Transitions)
        ensures
            r.spec_jira() == *jira,
            r.spec_key() == key@,
    {
        Transitions { jira: jira.duplicate(), key: String::from_str(key) }
    }

    /// Plans the request that lists the transitions this issue can go
    /// through, fields expanded.
    pub fn list_request(&self) -> (r: Result<RequestPlan, JiraError>)
        ensures
            r is Ok <==> crate::url_joined(
                self.spec_jira().spec_host(),
                Jira::spec_rest_path(
                    ApiName::Api,
                    "/issue/"@ + self.spec_key() + "/transitions?expand=transitions.fields"@,
                ),
            ) is Some,
            r matches Ok(plan) ==> {
                &&& plan.method == Method::Get
                &&& crate::url_joined(
                self.spec_jira().spec_host(),
                Jira::spec_rest_path(
                    ApiName::Api,
                    "/issue/"@ + self.spec_key() + "/transitions?expand=transitions.fields"@,
                ),
            ) == Some(plan.url@)
                &&& crate::builder::string_pair_views(plan.headers@) == crate::spec_plan_headers(
                    self.spec_jira().spec_credentials(),
                )
                &&& plan.body is None
            },
            r matches Err(e) ==> e is ParseError,
    {
        let mut path = String::from_str("/issue/");
        path.append(self.key.as_str());
        path.append("/transitions?expand=transitions.fields");
        self.jira.get(ApiName::Api, path.as_str())
    }

    /// Plans the request that triggers a transition; the serialized trigger
    /// body is the request body.
    pub fn trigger_request(&self, body: Vec<u8>) -> (r: Result<RequestPlan, JiraError>)
        ensures
            r is Ok <==> crate::url_joined(
                self.spec_jira().spec_host(),
                Jira::spec_rest_path(ApiName::Api, "/issue/"@ + self.spec_key() + "/transitions"@),
            ) is Some,
            r matches Ok(plan) ==> {
                &&& plan.method == Method::Post
                &&& crate::url_joined(
                self.spec_jira().spec_host(),
                Jira::spec_rest_path(ApiName::Api, "/issue/"@ + self.spec_key() + "/transitions"@),
            ) == Some(plan.url@)
                &&& crate::builder::string_pair_views(plan.headers@) == crate::spec_plan_headers(
                    self.spec_jira().spec_credentials(),
                )
                &&& plan.body == Some(body)
            },
            r matches Err(e) ==> e is ParseError,
    {
        let mut path = String::from_str("/issue/");
        path.append(self.key.as_str());
        path.append("/transitions");
        self.jira.post(ApiName::Api, path.as_str(), body)
    }
}

/// Maps the outcome of a triggered transition: the endpoint is known to
/// sometimes return a non-JSON body on success, so a decode failure counts
/// as success; every other failure is returned unchanged.
pub fn trigger_outcome(result: Result<(), JiraError>) -> (r: Result<(), JiraError>)
    ensures
        result is Ok ==> r is Ok,
        result matches Err(e) ==> ((e is Serde ==> r is Ok) && (!(e is Serde) ==> (r matches Err(
            e2,
        ) && e2 == e))),
{
    match result {
        Ok(value) => Ok(value),
        Err(error) => match error {
            JiraError::Serde(_) => Ok(()),
            e => Err(e),
        },
    }
}

} // verus!
