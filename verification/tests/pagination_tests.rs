use gouqi::boards::{Board, BoardResults, Boards};
use gouqi::builder::SearchOptions;
use gouqi::errors::JiraError;
use gouqi::pagination::{Paginator, Step};
use gouqi::rep::{Issue, SearchResults, Version};
use gouqi::sprints::{SprintResults, Sprints};
use gouqi::search::Search;
use gouqi::versions::Versions;
use gouqi::{Credentials, Jira, Method};

const JIRA_HOST: &str = "http://jira.com";

fn board(id: u64, name: &str) -> Board {
    Board {
        self_link: format!("http://jira.com/rest/agile/latest/board/{}", id),
        id,
        name: name.to_string(),
        board_type: "kanban".to_string(),
    }
}

fn board_page(start_at: u64, max_results: u64, is_last: bool, values: Vec<Board>) -> BoardResults {
    BoardResults { max_results, start_at, is_last, values }
}

#[test]
fn first_fetch_failure_fails_construction() {
    let jira = Jira::new(JIRA_HOST, Credentials::Anonymous).unwrap();
    let boards = Boards::new(&jira);
    let options = SearchOptions::builder().build();
    let made = boards.iter(&options, Err(JiraError::NotFound));
    assert!(matches!(made, Err(JiraError::NotFound)));
}

#[test]
fn round_trip_drains_all_fetched_items_then_ends() {
    let jira = Jira::new(JIRA_HOST, Credentials::Anonymous).unwrap();
    let boards = Boards::new(&jira);
    let options = SearchOptions::builder().build();
    let first = board_page(0, 2, false, vec![board(1, "one"), board(2, "two")]);
    let mut it = boards.iter(&options, Ok(first)).unwrap();

    let mut yielded = 0usize;
    // Drain the first page: removal comes from the end of the buffer.
    match it.pager.step() {
        Step::Yield(b) => {
            assert_eq!(b.id, 2);
            yielded += 1;
        }
        other => panic!("unexpected step: {:?}", describe(&other)),
    }
    match it.pager.step() {
        Step::Yield(b) => {
            assert_eq!(b.id, 1);
            yielded += 1;
        }
        other => panic!("unexpected step: {:?}", describe(&other)),
    }
    // Buffer empty and the flag still unset: the protocol asks for a fetch.
    let derived = match it.pager.step() {
        Step::Fetch(o) => o,
        other => panic!("unexpected step: {:?}", describe(&other)),
    };
    assert_eq!(derived.serialize().unwrap(), "maxResults=2&startAt=2");
    it.pager.feed(Ok(board_page(2, 2, true, vec![board(3, "three")])));
    match it.pager.step() {
        Step::Yield(b) => {
            assert_eq!(b.id, 3);
            yielded += 1;
        }
        other => panic!("unexpected step: {:?}", describe(&other)),
    }
    assert_eq!(yielded, 3);
    // All fetched items are consumed: the next move ends the sequence.
    assert!(matches!(it.pager.step(), Step::End));
    assert!(it.pager.next_item().is_none());
}

fn describe<T>(step: &Step<T>) -> &'static str {
    match step {
        Step::Yield(_) => "yield",
        Step::Fetch(_) => "fetch",
        Step::End => "end",
    }
}

#[test]
fn last_page_flag_stops_fetching_even_when_short() {
    let jira = Jira::new(JIRA_HOST, Credentials::Anonymous).unwrap();
    let boards = Boards::new(&jira);
    let options = SearchOptions::builder().build();
    // One buffered board, page size 50, flag set: short page, last page.
    let first = board_page(0, 50, true, vec![board(9, "only")]);
    let mut it = boards.iter(&options, Ok(first)).unwrap();
    assert!(matches!(it.pager.step(), Step::Yield(_)));
    assert!(!it.pager.needs_fetch());
    assert!(matches!(it.pager.step(), Step::End));
}

#[test]
fn count_policy_stops_when_total_is_reached() {
    let jira = Jira::new(JIRA_HOST, Credentials::Anonymous).unwrap();
    let search = Search::new(&jira);
    let options = SearchOptions::builder().build();
    // startAt=0, maxResults=50, total=50: the one page covers everything.
    let first = SearchResults {
        total: 50,
        max_results: 50,
        start_at: 0,
        expand: None,
        issues: Vec::new(),
    };
    let it = search.iter("assignee=doug", &options, Ok(first)).unwrap();
    assert!(!it.pager.needs_fetch());
}

#[test]
fn count_policy_fetches_once_more_for_one_extra_item() {
    let jira = Jira::new(JIRA_HOST, Credentials::Anonymous).unwrap();
    let search = Search::new(&jira);
    let options = SearchOptions::builder().build();
    // total=51: exactly one more fetch, starting at 50.
    let first = SearchResults {
        total: 51,
        max_results: 50,
        start_at: 0,
        expand: None,
        issues: Vec::new(),
    };
    let mut it = search.iter("assignee=doug", &options, Ok(first)).unwrap();
    assert!(it.pager.needs_fetch());
    let derived = it.pager.next_options();
    assert_eq!(derived.serialize().unwrap(), "maxResults=50&startAt=50");
    it.pager.feed(Ok(SearchResults {
        total: 51,
        max_results: 50,
        start_at: 50,
        expand: None,
        issues: vec![Issue {
            self_link: "http://jira.com/rest/api/latest/issue/51".to_string(),
            key: "MYPROJ-51".to_string(),
            id: "51".to_string(),
            fields: Vec::new(),
            changelog: None,
        }],
    }));
    match it.pager.step() {
        Step::Yield(issue) => assert_eq!(issue.key, "MYPROJ-51"),
        other => panic!("unexpected step: {:?}", describe(&other)),
    }
    assert!(!it.pager.needs_fetch());
    assert!(matches!(it.pager.step(), Step::End));
}

#[test]
fn empty_fetched_page_ends_the_sequence() {
    // The first board page is exhausted with the flag unset, so one derived
    // fetch occurs; it returns an empty page that still claims more pages.
    // The sequence ends there instead of fetching again.
    let first = board_page(0, 2, false, Vec::new());
    let mut pager = Paginator::new(Ok(first), SearchOptions::builder().build()).unwrap();
    assert!(matches!(pager.step(), Step::Fetch(_)));
    pager.feed(Ok(board_page(2, 2, false, Vec::new())));
    assert!(!pager.needs_fetch());
    assert!(matches!(pager.step(), Step::End));
}

#[test]
fn empty_fetched_sprint_page_ends_the_sequence() {
    let jira = Jira::new(JIRA_HOST, Credentials::Anonymous).unwrap();
    let sprints = Sprints::new(&jira);
    let options = SearchOptions::builder().build();
    let first = SprintResults { max_results: 2, start_at: 0, is_last: false, values: Vec::new() };
    let mut it = sprints.iter(&board(1, "one"), &options, Ok(first)).unwrap();
    assert!(matches!(it.pager.step(), Step::Fetch(_)));
    it.pager.feed(Ok(SprintResults {
        max_results: 2,
        start_at: 2,
        is_last: false,
        values: Vec::new(),
    }));
    assert!(matches!(it.pager.step(), Step::End));
}

#[test]
fn fetch_failure_during_advancement_ends_the_sequence() {
    let first = board_page(0, 2, false, Vec::new());
    let mut pager = Paginator::new(Ok(first), SearchOptions::builder().build()).unwrap();
    assert!(pager.needs_fetch());
    pager.feed(Err(JiraError::NotFound));
    assert!(!pager.needs_fetch());
    assert!(matches!(pager.step(), Step::End));
}

#[test]
fn released_version_plans_no_request() {
    let jira = Jira::new(JIRA_HOST, Credentials::Anonymous).unwrap();
    let versions = Versions::new(&jira);
    let released = Version {
        archived: false,
        id: "10".to_string(),
        name: "1.0".to_string(),
        project_id: 7,
        released: true,
        self_link: "http://jira.com/rest/api/latest/version/10".to_string(),
    };
    assert!(matches!(versions.release_request(&released, Vec::new()), Ok(None)));

    let unreleased = Version { released: false, ..released };
    match versions.release_request(&unreleased, b"{}".to_vec()) {
        Ok(Some(plan)) => {
            assert!(matches!(plan.method, Method::Put));
            assert_eq!(plan.url, "http://jira.com/rest/api/latest/version/10");
        }
        other => panic!("unexpected plan: {:?}", other.is_ok()),
    }
}

#[test]
fn list_request_carries_the_derived_query() {
    let jira = Jira::new(JIRA_HOST, Credentials::Anonymous).unwrap();
    let boards = Boards::new(&jira);
    let options = SearchOptions::builder().max_results(2).start_at(2).build();
    let plan = boards.list_request(&options).unwrap();
    assert_eq!(
        plan.url,
        "http://jira.com/rest/agile/latest/board?maxResults=2&startAt=2"
    );
}

#[test]
fn search_list_request_appends_the_query_pair() {
    let jira = Jira::new(JIRA_HOST, Credentials::Anonymous).unwrap();
    let search = Search::new(&jira);
    let options = SearchOptions::builder().build();
    let plan = search.list_request("assignee=doug", &options).unwrap();
    assert_eq!(
        plan.url,
        "http://jira.com/rest/api/latest/search?jql=assignee%3Ddoug"
    );
}
