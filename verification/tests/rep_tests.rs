use gouqi::fields::FieldValue;
use gouqi::rep::{DateTime, Issue, TransitionTriggerOptions};
use gouqi::{Credentials, Jira};

const JIRA_HOST: &str = "http://jira.com";

fn s(text: &str) -> FieldValue {
    FieldValue::Str(text.to_string())
}

fn entry(name: &str, value: FieldValue) -> (String, FieldValue) {
    (name.to_string(), value)
}

fn fred() -> FieldValue {
    FieldValue::Object(vec![
        entry("self", s("http://www.example.com/jira/rest/api/2/user?username=fred")),
        entry("name", s("fred")),
        entry("displayName", s("Fred F. User")),
        entry("active", FieldValue::Bool(false)),
    ])
}

fn test_issue() -> Issue {
    let comment = FieldValue::Object(vec![
        entry(
            "self",
            s("http://www.example.com/jira/rest/api/2/issue/10010/comment/10000"),
        ),
        entry("id", s("10000")),
        entry("author", fred()),
        entry(
            "body",
            s("Lorem ipsum dolor sit amet, consectetur adipiscing elit. Pellentesque eget \
               venenatis elit. Duis eu justo eget augue iaculis fermentum. Sed semper quam \
               laoreet nisi egestas at posuere augue semper."),
        ),
        entry("updateAuthor", fred()),
        entry("created", s("2017-02-08T17:08:41.328+0000")),
        entry("updated", s("2017-02-08T17:08:41.330+0000")),
        entry(
            "visibility",
            FieldValue::Object(vec![entry("type", s("role")), entry("value", s("Administrators"))]),
        ),
    ]);
    Issue {
        self_link: "https://jira.com/rest/agile/1.0/issue/1234".to_string(),
        id: "1234".to_string(),
        key: "MYPROJ-1234".to_string(),
        fields: vec![
            entry("comment", FieldValue::List(vec![comment])),
            entry("resolutiondate", s("2018-07-11T16:56:12.000+0000")),
            entry("created", s("2018-07-11T10:56:12.000Z")),
            entry("updated", s("2018-07-11T12:56:12.000+00:00")),
        ],
        changelog: None,
    }
}

fn utc(year: i32, month: u8, day: u8, hour: u8, minute: u8, second: u8, nanosecond: u32) -> DateTime {
    DateTime { year, month, day, hour, minute, second, nanosecond, offset_seconds: 0 }
}

#[test]
fn issue_getters() {
    let credentials = Credentials::Basic("user".to_string(), "pwd".to_string());
    let jira = Jira::new(JIRA_HOST, credentials).unwrap();
    let issue = test_issue();

    let expected_permalink = format!("{}/browse/{}", JIRA_HOST, issue.key);
    let expected_resolution_date = Some(utc(2018, 7, 11, 16, 56, 12, 0));
    let expected_created_date = Some(utc(2018, 7, 11, 10, 56, 12, 0));
    let expected_updated_date = Some(utc(2018, 7, 11, 12, 56, 12, 0));
    let empty_comments: Vec<gouqi::rep::Comment> = Vec::new();
    let expected_comment_updated_date = Some(utc(2017, 2, 8, 17, 8, 41, 328_000_000));

    assert_eq!(issue.permalink(&jira), expected_permalink);
    assert_eq!(issue.resolution_date(), expected_resolution_date);
    assert_eq!(issue.created(), expected_created_date);
    assert_eq!(issue.updated(), expected_updated_date);
    assert_ne!(issue.comment().len(), empty_comments.len());
    assert_eq!(issue.comment()[0].created, expected_comment_updated_date);
}

#[test]
fn comment_author_parses_as_user() {
    let issue = test_issue();
    let comments = issue.comment();
    assert_eq!(comments.len(), 1);
    let author = comments[0].author.as_ref().unwrap();
    assert_eq!(author.name, "fred");
    assert_eq!(author.display_name, "Fred F. User");
    assert!(!author.active);
    assert!(author.email_address.is_none());
    let visibility = comments[0].visibility.as_ref().unwrap();
    assert_eq!(visibility.visibility_type, "role");
    assert_eq!(visibility.value, "Administrators");
}

#[test]
fn assignee_requires_a_well_formed_user() {
    let mut issue = test_issue();
    issue.fields.push(entry("assignee", fred()));
    let user = issue.assignee().unwrap();
    assert_eq!(user.name, "fred");
    // A user whose required field holds the wrong shape does not parse.
    issue.fields.push(entry(
        "assignee",
        FieldValue::Object(vec![entry("name", FieldValue::Uint(1))]),
    ));
    assert!(issue.assignee().is_none());
}

#[test]
fn labels_read_a_list_of_strings() {
    let mut issue = test_issue();
    assert!(issue.labels().is_empty());
    issue.fields.push(entry(
        "labels",
        FieldValue::List(vec![s("urgent"), s("blocked")]),
    ));
    assert_eq!(issue.labels(), vec!["urgent".to_string(), "blocked".to_string()]);
}

#[test]
fn summary_reads_the_text_field() {
    let mut issue = test_issue();
    assert!(issue.summary().is_none());
    issue.fields.push(entry("summary", s("fix the build")));
    assert_eq!(issue.summary().unwrap(), "fix the build");
}

#[test]
fn timetracking_reads_optional_counts() {
    let mut issue = test_issue();
    issue.fields.push(entry(
        "timetracking",
        FieldValue::Object(vec![
            entry("originalEstimate", s("1d")),
            entry("originalEstimateSeconds", FieldValue::Uint(28800)),
        ]),
    ));
    let record = issue.timetracking().unwrap();
    assert_eq!(record.original_estimate.unwrap(), "1d");
    assert_eq!(record.original_estimate_seconds, Some(28800));
    assert!(record.time_spent.is_none());
}

#[test]
fn transition_trigger_builder_sets_resolution() {
    let trigger = TransitionTriggerOptions::builder("42")
        .resolution("Fixed")
        .build();
    assert_eq!(trigger.transition.id, "42");
    assert_eq!(trigger.fields.len(), 1);
    assert_eq!(trigger.fields[0].0, "resolution");
    match &trigger.fields[0].1 {
        FieldValue::Object(entries) => {
            assert_eq!(entries.len(), 1);
            assert_eq!(entries[0].0, "name");
            match &entries[0].1 {
                FieldValue::Str(name) => assert_eq!(name, "Fixed"),
                other => panic!("unexpected value: {:?}", other),
            }
        }
        other => panic!("unexpected value: {:?}", other),
    }
}

#[test]
fn try_permalink_matches_permalink() {
    let jira = Jira::new(JIRA_HOST, Credentials::Anonymous).unwrap();
    let issue = test_issue();
    assert_eq!(issue.try_permalink(&jira).unwrap(), issue.permalink(&jira));
}
