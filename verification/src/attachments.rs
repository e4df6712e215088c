//! Accessing and managing attachments: metadata fetch and delete request
//! plans.

use vstd::prelude::*;

use crate::errors::JiraError;
use crate::{ApiName, Jira, Method, RequestPlan};

verus! {

/// Same as `User`, but without an email address.
#[derive(Debug)]
pub struct UserResponse {
    pub active: bool,
    pub avatar_urls: Vec<(String, String)>,
    pub display_name: String,
    pub key: Option<String>,
    pub name: String,
    pub self_link: String,
    pub timezone: Option<String>,
}

/// Same as `Attachment`, but without an identifier and with `UserResponse`.
#[derive(Debug)]
pub struct AttachmentResponse {
    pub self_link: String,
    pub filename: String,
    pub author: UserResponse,
    pub created: String,
    pub size: u64,
    pub mime_type: String,
    pub content: String,
    pub thumbnail: Option<String>,
}

/// The attachments interface of a client handle.
#[derive(Debug)]
pub struct Attachments {
    jira: Jira,
}

impl Attachments {
    /// The owning client handle.
    pub closed spec fn spec_jira(self) -> Jira {
        self.jira
    }

    /// The attachments interface of the given client handle.
    pub fn new(jira: &Jira) -> (r: Attachments)
        ensures
            r.spec_jira() == *jira,
    {
        Attachments { jira: jira.duplicate() }
    }

    /// Plans the request that fetches a single attachment's metadata.
    pub fn get_request(&self, id: &str) -> (r: Result<RequestPlan, JiraError>)
        ensures
            r is Ok <==> crate::url_joined(
                self.spec_jira().spec_host(),
                Jira::spec_rest_path(ApiName::Api, "/attachment/"@ + id@),
            ) is Some,
            r matches Ok(plan) ==> {
                &&& plan.method == Method::Get
                &&& crate::url_joined(
                self.spec_jira().spec_host(),
                Jira::spec_rest_path(ApiName::Api, "/attachment/"@ + id@),
            ) == Some(plan.url@)
                &&& crate::builder::string_pair_views(plan.headers@) == crate::spec_plan_headers(
                    self.spec_jira().spec_credentials(),
                )
                &&& plan.body is None
            },
            r matches Err(e) ==> e is ParseError,
    {
        let mut path = String::from_str("/attachment/");
        path.append(id);
        self.jira.get(ApiName::Api, path.as_str())
    }

    /// Plans the request that deletes a single attachment.
    pub fn delete_request(&self, id: &str) -> (r: Result<RequestPlan, JiraError>)
        ensures
            r is Ok <==> crate::url_joined(
                self.spec_jira().spec_host(),
                Jira::spec_rest_path(ApiName::Api, "/attachment/"@ + id@),
            ) is Some,
            r matches Ok(plan) ==> {
                &&& plan.method == Method::Delete
                &&& crate::url_joined(
                self.spec_jira().spec_host(),
                Jira::spec_rest_path(ApiName::Api, "/attachment/"@ + id@),
            ) == Some(plan.url@)
                &&& crate::builder::string_pair_views(plan.headers@) == crate::spec_plan_headers(
                    self.spec_jira().spec_credentials(),
                )
                &&& plan.body is None
            },
            r matches Err(e) ==> e is ParseError,
    {
        let mut path = String::from_str("/attachment/");
        path.append(id);
        self.jira.delete(ApiName::Api, path.as_str())
    }
}

} // verus!
