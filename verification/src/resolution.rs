//! Accessing resolutions: the request plan that fetches one resolution.

use vstd::prelude::*;

use crate::errors::JiraError;
use crate::fields::FieldValue;
use crate::{ApiName, Jira, Method, RequestPlan};

verus! {

/// The resolutions interface of a client handle.
#[derive(Debug)]
pub struct Resolution {
    jira: Jira,
}

/// One resolved resolution, with its free-form properties.
#[derive(Debug)]
pub struct Resolved {
    pub id: String,
    pub title: String,
    pub resolution_type: String,
    pub properties: Vec<(String, FieldValue)>,
    pub additional_properties: bool,
}

impl Resolution {
    /// The owning client handle.
    pub closed spec fn spec_jira(self) -> Jira {
        self.jira
    }

    /// The resolutions interface of the given client handle.
    pub fn new(jira: &Jira) -> (r: Resolution)
        ensures
            r.spec_jira() == *jira,
    {
        Resolution { jira: jira.duplicate() }
    }

    /// Plans the request that fetches a single resolution.
    pub fn get_request(&self, id: &str) -> (r: Result<RequestPlan, JiraError>)
        ensures
            r is Ok <==> crate::url_joined(
                self.spec_jira().spec_host(),
                Jira::spec_rest_path(ApiName::Api, "/resolution/"@ + id@),
            ) is Some,
            r matches Ok(plan) ==> {
                &&& plan.method == Method::Get
                &&& crate::url_joined(
                self.spec_jira().spec_host(),
                Jira::spec_rest_path(ApiName::Api, "/resolution/"@ + id@),
            ) == Some(plan.url@)
                &&& crate::builder::string_pair_views(plan.headers@) == crate::spec_plan_headers(
                    self.spec_jira().spec_credentials(),
                )
                &&& plan.body is None
            },
            r matches Err(e) ==> e is ParseError,
    {
        let mut path = String::from_str("/resolution/");
        path.append(id);
        self.jira.get(ApiName::Api, path.as_str())
    }
}

} // verus!
