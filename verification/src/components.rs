//! Accessing and managing a project's components: fetch, create and
//! listing request plans.

use vstd::prelude::*;

use crate::errors::JiraError;
use crate::{ApiName, Jira, Method, RequestPlan};

verus! {

/// The body that creates a component.
#[derive(Debug)]
pub struct CreateComponent {
    pub name: String,
    pub description: Option<String>,
    pub project: String,
}

/// What the service returns for a created component.
#[derive(Debug)]
pub struct CreateComponentResponse {
    pub id: String,
    pub name: String,
    pub description: Option<String>,
    pub project: String,
    pub url: String,
}

/// The components interface of a client handle.
#[derive(Debug)]
pub struct Components {
    jira: Jira,
}

impl Components {
    /// The owning client handle.
    pub closed spec fn spec_jira(self) -> Jira {
        self.jira
    }

    /// The components interface of the given client handle.
    pub fn new(jira: &Jira) -> (r: Components)
        ensures
            r.spec_jira() == *jira,
    {
        Components { jira: jira.duplicate() }
    }

    /// Plans the request that fetches a single component.
    pub fn get_request(&self, id: &str) -> (r: Result<RequestPlan, JiraError>)
        ensures
            r is Ok <==> crate::url_joined(
                self.spec_jira().spec_host(),
                Jira::spec_rest_path(ApiName::Api, "/component/"@ + id@),
            ) is Some,
            r matches Ok(plan) ==> {
                &&& plan.method == Method::Get
                &&& crate::url_joined(
                self.spec_jira().spec_host(),
                Jira::spec_rest_path(ApiName::Api, "/component/"@ + id@),
            ) == Some(plan.url@)
                &&& crate::builder::string_pair_views(plan.headers@) == crate::spec_plan_headers(
                    self.spec_jira().spec_credentials(),
                )
                &&& plan.body is None
            },
            r matches Err(e) ==> e is ParseError,
    {
        let mut path = String::from_str("/component/");
        path.append(id);
        self.jira.get(ApiName::Api, path.as_str())
    }

    /// Plans the request that creates a component; the serialized creation
    /// body is the request body.
    pub fn create_request(&self, body: Vec<u8>) -> (r: Result<RequestPlan, JiraError>)
        ensures
            r is Ok <==> crate::url_joined(
                self.spec_jira().spec_host(),
                Jira::spec_rest_path(ApiName::Api, "/component"@),
            ) is Some,
            r matches Ok(plan) ==> {
                &&& plan.method == Method::Post
                &&& crate::url_joined(
                self.spec_jira().spec_host(),
                Jira::spec_rest_path(ApiName::Api, "/component"@),
            ) == Some(plan.url@)
                &&& crate::builder::string_pair_views(plan.headers@) == crate::spec_plan_headers(
                    self.spec_jira().spec_credentials(),
                )
                &&& plan.body == Some(body)
            },
            r matches Err(e) ==> e is ParseError,
    {
        self.jira.post(ApiName::Api, "/component", body)
    }

    /// Plans the request that fetches all components of a project.
    pub fn list_request(&self, project_id_or_key: &str) -> (r: Result<RequestPlan, JiraError>)
        ensures
            r is Ok <==> crate::url_joined(
                self.spec_jira().spec_host(),
                Jira::spec_rest_path(ApiName::Api, "/project/"@ + project_id_or_key@ + "/components"@),
            ) is Some,
            r matches Ok(plan) ==> {
                &&& plan.method == Method::Get
                &&& crate::url_joined(
                self.spec_jira().spec_host(),
                Jira::spec_rest_path(ApiName::Api, "/project/"@ + project_id_or_key@ + "/components"@),
            ) == Some(plan.url@)
                &&& crate::builder::string_pair_views(plan.headers@) == crate::spec_plan_headers(
                    self.spec_jira().spec_credentials(),
                )
                &&& plan.body is None
            },
            r matches Err(e) ==> e is ParseError,
    {
        let mut path = String::from_str("/project/");
        path.append(project_id_or_key);
        path.append("/components");
        self.jira.get(ApiName::Api, path.as_str())
    }
}

} // verus!
