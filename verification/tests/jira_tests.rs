use gouqi::errors::JiraError;
use gouqi::rep::Errors;
use gouqi::{fault_outcome, route_response, Credentials, Jira, Method, ResponseStep};

const JIRA_HOST: &str = "http://jira.com";

#[test]
fn jira_new_should_err_if_no_uri() {
    let credentials = Credentials::Basic("user".to_string(), "pwd".to_string());
    let jira = Jira::new("12345", credentials);
    assert!(jira.is_err());
    assert!(matches!(jira, Err(JiraError::ParseError(_))));
}

#[test]
fn jira_new_should_ok_with_uri() {
    let credentials = Credentials::Basic("user".to_string(), "pwd".to_string());
    let jira = Jira::new(JIRA_HOST, credentials);
    assert!(jira.is_ok());
}

#[test]
fn anonymous_adds_no_auth_header() {
    let headers = vec![("Content-Type".to_string(), "application/json".to_string())];
    let out = Credentials::Anonymous.apply(headers.clone());
    assert_eq!(out, headers);
}

#[test]
fn basic_adds_exactly_one_auth_header() {
    let headers = vec![("Content-Type".to_string(), "application/json".to_string())];
    let creds = Credentials::Basic("user".to_string(), "pwd".to_string());
    let out = creds.apply(headers.clone());
    assert_eq!(out.len(), 2);
    assert_eq!(out[0], headers[0]);
    assert_eq!(
        out[1],
        ("Authorization".to_string(), "Basic dXNlcjpwd2Q=".to_string())
    );
}

#[test]
fn bearer_adds_exactly_one_auth_header() {
    let headers: Vec<(String, String)> = Vec::new();
    let out = Credentials::Bearer("token123".to_string()).apply(headers);
    assert_eq!(out, vec![("Authorization".to_string(), "Bearer token123".to_string())]);
}

#[test]
fn request_builds_joined_url() {
    let jira = Jira::new(JIRA_HOST, Credentials::Anonymous).unwrap();
    let plan = jira.get(gouqi::ApiName::Agile, "/board/42").unwrap();
    assert_eq!(plan.url, "http://jira.com/rest/agile/latest/board/42");
    assert!(matches!(plan.method, Method::Get));
    assert!(plan.body.is_none());
    assert_eq!(
        plan.headers,
        vec![("Content-Type".to_string(), "application/json".to_string())]
    );
}

#[test]
fn session_plans_auth_request() {
    let jira = Jira::new(JIRA_HOST, Credentials::Anonymous).unwrap();
    let plan = jira.session().unwrap();
    assert_eq!(plan.url, "http://jira.com/rest/auth/latest/session");
}

#[test]
fn status_401_is_unauthorized_whatever_the_body() {
    let step = route_response(401, "not even json".to_string());
    assert!(matches!(step, ResponseStep::Fail(JiraError::Unauthorized)));
    let step = route_response(401, String::new());
    assert!(matches!(step, ResponseStep::Fail(JiraError::Unauthorized)));
}

#[test]
fn status_404_is_not_found() {
    let step = route_response(404, String::new());
    assert!(matches!(step, ResponseStep::Fail(JiraError::NotFound)));
}

#[test]
fn status_405_is_method_not_allowed() {
    let step = route_response(405, String::new());
    assert!(matches!(step, ResponseStep::Fail(JiraError::MethodNotAllowed)));
}

#[test]
fn status_400_routes_to_fault_with_the_body() {
    let body = r#"{"errorMessages":["bad query"],"errors":{}}"#.to_string();
    match route_response(400, body.clone()) {
        ResponseStep::FaultBody { code, body: b } => {
            assert_eq!(code, 400);
            assert_eq!(b, body);
        }
        other => panic!("unexpected routing: {:?}", other),
    }
    let errors = Errors {
        error_messages: vec!["bad query".to_string()],
        errors: Vec::new(),
    };
    match fault_outcome(400, Ok(errors)) {
        JiraError::Fault { code, errors } => {
            assert_eq!(code, 400);
            assert_eq!(errors.error_messages, vec!["bad query".to_string()]);
            assert!(errors.errors.is_empty());
        }
        other => panic!("unexpected error: {:?}", other),
    }
}

#[test]
fn status_200_with_empty_body_decodes_the_no_value_token() {
    match route_response(200, String::new()) {
        ResponseStep::Decode(text) => assert_eq!(text, "null"),
        other => panic!("unexpected routing: {:?}", other),
    }
}

#[test]
fn status_200_passes_the_body_through() {
    match route_response(200, "{\"name\":\"doug\"}".to_string()) {
        ResponseStep::Decode(text) => assert_eq!(text, "{\"name\":\"doug\"}"),
        other => panic!("unexpected routing: {:?}", other),
    }
}

#[test]
fn fault_parse_failure_surfaces_the_serde_error() {
    let parse_error = serde_json::from_str::<serde_json::Value>("not json").unwrap_err();
    assert!(matches!(fault_outcome(400, Err(parse_error)), JiraError::Serde(_)));
}

#[test]
fn fault_message_renders_status_and_full_body() {
    let error = JiraError::Fault {
        code: 400,
        errors: Errors {
            error_messages: vec!["bad query".to_string()],
            errors: vec![("project".to_string(), "missing".to_string())],
        },
    };
    assert_eq!(
        error.message(),
        "Jira Client Error (400): bad query; project: missing"
    );
}

#[test]
fn unauthorized_message() {
    assert_eq!(
        JiraError::Unauthorized.message(),
        "Could not connect to Jira: Unauthorized!"
    );
}

#[test]
fn trigger_outcome_swallows_decode_failures_only() {
    assert!(gouqi::transitions::trigger_outcome(Ok(())).is_ok());
    let parse_error = serde_json::from_str::<serde_json::Value>("oops").unwrap_err();
    assert!(gouqi::transitions::trigger_outcome(Err(JiraError::Serde(parse_error))).is_ok());
    assert!(matches!(
        gouqi::transitions::trigger_outcome(Err(JiraError::NotFound)),
        Err(JiraError::NotFound)
    ));
}

#[test]
fn io_failures_render_their_kind() {
    let io_error = std::io::Error::new(std::io::ErrorKind::UnexpectedEof, "closed");
    assert_eq!(JiraError::from(io_error).message(), "IO Error");
    assert_eq!(
        JiraError::NotFound.message(),
        "Could not connect to Jira: Not Found!"
    );
    assert_eq!(
        JiraError::MethodNotAllowed.message(),
        "Could not connect to Jira: Method Not Allowed!"
    );
}

#[test]
fn u64_rendering_is_decimal() {
    assert_eq!(gouqi::text::u64_string(0), "0");
    assert_eq!(gouqi::text::u64_string(7), "7");
    assert_eq!(gouqi::text::u64_string(1234567890), "1234567890");
    assert_eq!(gouqi::text::u64_string(u64::MAX), "18446744073709551615");
}
