use gouqi::attachments::Attachments;
use gouqi::backlog::Backlog;
use gouqi::boards::Board;
use gouqi::builder::SearchOptions;
use gouqi::components::Components;
use gouqi::issues::Issues;
use gouqi::resolution::Resolution;
use gouqi::sprints::Sprints;
use gouqi::worklogs::Worklogs;
use gouqi::{Credentials, Jira, Method};

const JIRA_HOST: &str = "http://jira.com";

fn client() -> Jira {
    Jira::new(JIRA_HOST, Credentials::Anonymous).unwrap()
}

fn board(id: u64) -> Board {
    Board {
        self_link: format!("http://jira.com/rest/agile/latest/board/{}", id),
        id,
        name: "TEST board".to_string(),
        board_type: "kanban".to_string(),
    }
}

#[test]
fn sprint_requests_use_the_agile_family() {
    let jira = client();
    let sprints = Sprints::new(&jira);
    let plan = sprints.get_request("72").unwrap();
    assert_eq!(plan.url, "http://jira.com/rest/agile/latest/sprint/72");

    let plan = sprints.move_issues_request(72, b"{}".to_vec()).unwrap();
    assert_eq!(plan.url, "http://jira.com/rest/agile/latest/sprint/72/issue");
    assert!(matches!(plan.method, Method::Post));
    assert_eq!(plan.body.unwrap(), b"{}".to_vec());

    let options = SearchOptions::builder().max_results(50).build();
    let plan = sprints.list_request(&board(1), &options).unwrap();
    assert_eq!(
        plan.url,
        "http://jira.com/rest/agile/latest/board/1/sprint?maxResults=50"
    );
}

#[test]
fn issue_requests_use_the_core_family() {
    let jira = client();
    let issues = Issues::new(&jira);
    let plan = issues.get_request("MYPROJ-1234").unwrap();
    assert_eq!(plan.url, "http://jira.com/rest/api/latest/issue/MYPROJ-1234");

    let plan = issues.create_request(b"{}".to_vec()).unwrap();
    assert_eq!(plan.url, "http://jira.com/rest/api/latest/issue");
    assert!(matches!(plan.method, Method::Post));

    let plan = issues.edit_request("MYPROJ-1234", b"{}".to_vec()).unwrap();
    assert_eq!(plan.url, "http://jira.com/rest/api/latest/issue/MYPROJ-1234");
    assert!(matches!(plan.method, Method::Put));

    let plan = issues.comment_request("MYPROJ-1234", b"{}".to_vec()).unwrap();
    assert_eq!(
        plan.url,
        "http://jira.com/rest/api/latest/issue/MYPROJ-1234/comment"
    );

    let options = SearchOptions::builder().build();
    let plan = issues.list_request(&board(7), &options).unwrap();
    assert_eq!(plan.url, "http://jira.com/rest/api/latest/board/7/issue?");
}

#[test]
fn worklog_listing_is_keyed_by_issue() {
    let jira = client();
    let options = SearchOptions::builder().start_at(10).build();
    let plan = Worklogs::new(&jira).list_request("10010", &options).unwrap();
    assert_eq!(
        plan.url,
        "http://jira.com/rest/api/latest/issue/10010/worklog?startAt=10"
    );
}

#[test]
fn component_requests_cover_fetch_create_and_listing() {
    let jira = client();
    let components = Components::new(&jira);
    let plan = components.get_request("301").unwrap();
    assert_eq!(plan.url, "http://jira.com/rest/api/latest/component/301");

    let plan = components.create_request(b"{}".to_vec()).unwrap();
    assert_eq!(plan.url, "http://jira.com/rest/api/latest/component");
    assert!(matches!(plan.method, Method::Post));

    let plan = components.list_request("MYPROJ").unwrap();
    assert_eq!(
        plan.url,
        "http://jira.com/rest/api/latest/project/MYPROJ/components"
    );
}

#[test]
fn attachment_requests_cover_fetch_and_delete() {
    let jira = client();
    let attachments = Attachments::new(&jira);
    let plan = attachments.get_request("2000").unwrap();
    assert_eq!(plan.url, "http://jira.com/rest/api/latest/attachment/2000");
    assert!(matches!(plan.method, Method::Get));

    let plan = attachments.delete_request("2000").unwrap();
    assert_eq!(plan.url, "http://jira.com/rest/api/latest/attachment/2000");
    assert!(matches!(plan.method, Method::Delete));
}

#[test]
fn backlog_moves_go_to_the_agile_family() {
    let jira = client();
    let plan = Backlog::new(&jira).put_request(b"{}".to_vec()).unwrap();
    assert_eq!(plan.url, "http://jira.com/rest/agile/latest/backlog/issue");
    assert!(matches!(plan.method, Method::Post));
}

#[test]
fn transition_requests_are_keyed_by_issue() {
    let jira = client();
    let transitions = jira.transitions("MYPROJ-1234");
    let plan = transitions.list_request().unwrap();
    assert_eq!(
        plan.url,
        "http://jira.com/rest/api/latest/issue/MYPROJ-1234/transitions?expand=transitions.fields"
    );
    let plan = transitions.trigger_request(b"{}".to_vec()).unwrap();
    assert_eq!(
        plan.url,
        "http://jira.com/rest/api/latest/issue/MYPROJ-1234/transitions"
    );
    assert!(matches!(plan.method, Method::Post));
}

#[test]
fn resolution_requests_use_the_core_family() {
    let jira = client();
    let plan = Resolution::new(&jira).get_request("1").unwrap();
    assert_eq!(plan.url, "http://jira.com/rest/api/latest/resolution/1");
}

#[test]
fn version_requests_cover_listing_create_and_move() {
    let jira = client();
    let versions = gouqi::versions::Versions::new(&jira);
    let plan = versions.project_versions_request("MYPROJ").unwrap();
    assert_eq!(
        plan.url,
        "http://jira.com/rest/api/latest/project/MYPROJ/versions"
    );
    let plan = versions.create_request(b"{}".to_vec()).unwrap();
    assert_eq!(plan.url, "http://jira.com/rest/api/latest/version");

    let version = gouqi::rep::Version {
        archived: false,
        id: "10".to_string(),
        name: "1.0".to_string(),
        project_id: 7,
        released: false,
        self_link: "http://jira.com/rest/api/latest/version/10".to_string(),
    };
    let plan = versions.move_after_request(&version, b"{}".to_vec()).unwrap();
    assert_eq!(plan.url, "http://jira.com/rest/api/latest/version/10/move");
}

#[test]
fn board_fetch_uses_the_agile_family() {
    let jira = client();
    let plan = gouqi::boards::Boards::new(&jira).get_request("1").unwrap();
    assert_eq!(plan.url, "http://jira.com/rest/agile/latest/board/1");
}

#[test]
fn planned_requests_carry_content_type_and_credential() {
    let credentials = Credentials::Basic("user".to_string(), "pwd".to_string());
    let jira = Jira::new(JIRA_HOST, credentials).unwrap();
    let plan = gouqi::boards::Boards::new(&jira).get_request("1").unwrap();
    assert_eq!(
        plan.headers,
        vec![
            ("Content-Type".to_string(), "application/json".to_string()),
            ("Authorization".to_string(), "Basic dXNlcjpwd2Q=".to_string()),
        ]
    );
    assert!(plan.body.is_none());

    let plan = Sprints::new(&jira).move_issues_request(72, b"{}".to_vec()).unwrap();
    assert_eq!(
        plan.headers,
        vec![
            ("Content-Type".to_string(), "application/json".to_string()),
            ("Authorization".to_string(), "Basic dXNlcjpwd2Q=".to_string()),
        ]
    );
    assert_eq!(plan.body.unwrap(), b"{}".to_vec());
}
