//! Accessing and managing project versions: listing, creation, move and
//! release request plans. Releasing an already released version plans no
//! request at all.

use vstd::prelude::*;

use crate::errors::JiraError;
use crate::rep::Version;
use crate::{ApiName, Jira, Method, RequestPlan};

verus! {

/// The versions interface of a client handle.
#[derive(Debug)]
pub struct Versions {
    jira: Jira,
}

impl Versions {
    /// The owning client handle.
    pub closed spec fn spec_jira(self) -> Jira {
        self.jira
    }

    /// The versions interface of the given client handle.
    pub fn new(jira: &Jira) -> (r: Versions)
        ensures
            r.spec_jira() == *jira,
    {
        Versions { jira: jira.duplicate() }
    }

    /// Plans the request that fetches all versions of a project.
    pub fn project_versions_request(&self, project_id_or_key: &str) -> (r: Result<
        RequestPlan,
        JiraError,
    >)
        ensures
            r is Ok <==> crate::url_joined(
                self.spec_jira().spec_host(),
                Jira::spec_rest_path(ApiName::Api, "/project/"@ + project_id_or_key@ + "/versions"@),
            ) is Some,
            r matches Ok(plan) ==> {
                &&& plan.method == Method::Get
                &&& crate::url_joined(
                self.spec_jira().spec_host(),
                Jira::spec_rest_path(ApiName::Api, "/project/"@ + project_id_or_key@ + "/versions"@),
            ) == Some(plan.url@)
                &&& crate::builder::string_pair_views(plan.headers@) == crate::spec_plan_headers(
                    self.spec_jira().spec_credentials(),
                )
                &&& plan.body is None
            },
            r matches Err(e) ==> e is ParseError,
    {
        let mut path = String::from_str("/project/");
        path.append(project_id_or_key);
        path.append("/versions");
        self.jira.get(ApiName::Api, path.as_str())
    }

    /// Plans the request that creates a version; the serialized creation
    /// body is the request body.
    pub fn create_request(&self, body: Vec<u8>) -> (r: Result<RequestPlan, JiraError>)
        ensures
            r is Ok <==> crate::url_joined(
                self.spec_jira().spec_host(),
                Jira::spec_rest_path(ApiName::Api, "/version"@),
            ) is Some,
            r matches Ok(plan) ==> {
                &&& plan.method == Method::Post
                &&& crate::url_joined(
                self.spec_jira().spec_host(),
                Jira::spec_rest_path(ApiName::Api, "/version"@),
            ) == Some(plan.url@)
                &&& crate::builder::string_pair_views(plan.headers@) == crate::spec_plan_headers(
                    self.spec_jira().spec_credentials(),
                )
                &&& plan.body == Some(body)
            },
            r matches Err(e) ==> e is ParseError,
    {
        self.jira.post(ApiName::Api, "/version", body)
    }

    /// Plans the request that moves a version after another; the serialized
    /// move body is the request body.
    pub fn move_after_request(&self, version: &Version, body: Vec<u8>) -> (r: Result<
        RequestPlan,
        JiraError,
    >)
        ensures
            r is Ok <==> crate::url_joined(
                self.spec_jira().spec_host(),
                Jira::spec_rest_path(ApiName::Api, "/version/"@ + version.id@ + "/move"@),
            ) is Some,
            r matches Ok(plan) ==> {
                &&& plan.method == Method::Post
                &&& crate::url_joined(
                self.spec_jira().spec_host(),
                Jira::spec_rest_path(ApiName::Api, "/version/"@ + version.id@ + "/move"@),
            ) == Some(plan.url@)
                &&& crate::builder::string_pair_views(plan.headers@) == crate::spec_plan_headers(
                    self.spec_jira().spec_credentials(),
                )
                &&& plan.body == Some(body)
            },
            r matches Err(e) ==> e is ParseError,
    {
        let mut path = String::from_str("/version/");
        path.append(version.id.as_str());
        path.append("/move");
        self.jira.post(ApiName::Api, path.as_str(), body)
    }

    /// Plans the request that releases a version, carrying the serialized
    /// update body. A version already released needs no request: the plan
    /// is absent and the release counts as done.
    pub fn release_request(&self, version: &Version, body: Vec<u8>) -> (r: Result<
        Option<RequestPlan>,
        JiraError,
    >)
        ensures
            version.released ==> (r matches Ok(o) && o is None),
            !version.released ==> (r is Ok <==> crate::url_joined(
                self.spec_jira().spec_host(),
                Jira::spec_rest_path(ApiName::Api, "/version/"@ + version.id@),
            ) is Some),
            !version.released ==> (r matches Ok(o) ==> (o matches Some(plan) && plan.method
                == Method::Put && plan.body == Some(body) && crate::url_joined(
                self.spec_jira().spec_host(),
                Jira::spec_rest_path(ApiName::Api, "/version/"@ + version.id@),
            ) == Some(plan.url@) && crate::builder::string_pair_views(plan.headers@)
                == crate::spec_plan_headers(self.spec_jira().spec_credentials()))),
            r matches Err(e) ==> e is ParseError,
    {
        if version.released {
            Ok(None)
        } else {
            let mut path = String::from_str("/version/");
            path.append(version.id.as_str());
            match self.jira.put(ApiName::Api, path.as_str(), body) {
                Ok(plan) => Ok(Some(plan)),
                Err(error) => Err(error),
            }
        }
    }
}

} // verus!
