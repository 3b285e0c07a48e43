use statustracker::estimate::{classify, ClassifiedIssue, Results};
use statustracker::jira::{
    get_story_point_field_ids, issue_link, story_points, FieldDescriptor, IssueRecord,
};
use statustracker::util::{get_string_in_json, JsonValue};

fn object(pairs: Vec<(&str, JsonValue)>) -> JsonValue {
    JsonValue::Object(pairs.into_iter().map(|(k, v)| (k.to_string(), v)).collect())
}

fn status(category: &str) -> JsonValue {
    object(vec![
        ("name", JsonValue::String("Whatever".to_string())),
        ("statusCategory", object(vec![("name", JsonValue::String(category.to_string()))])),
    ])
}

fn issue(fields: Vec<(&str, JsonValue)>) -> IssueRecord {
    IssueRecord {
        id: "10001".to_string(),
        key: "PROJ-1".to_string(),
        fields: fields.into_iter().map(|(k, v)| (k.to_string(), v)).collect(),
    }
}

fn ids(items: &[&str]) -> Vec<String> {
    items.iter().map(|s| s.to_string()).collect()
}

#[test]
fn done_status_wins_over_points() {
    let i = issue(vec![("status", status("Done")), ("customfield_1", JsonValue::Number(5000))]);
    assert_eq!(classify(&i, &ids(&["customfield_1", "status"])), ClassifiedIssue::Complete);
}

#[test]
fn zero_points_is_unpointed() {
    let i = issue(vec![("status", status("In Progress")), ("customfield_1", JsonValue::Number(0))]);
    assert_eq!(
        classify(&i, &ids(&["customfield_1", "status"])),
        ClassifiedIssue::IncompleteAndUnpointed
    );
}

#[test]
fn fractional_points_are_kept() {
    let i = issue(vec![("status", status("To Do")), ("customfield_1", JsonValue::Number(3500))]);
    assert_eq!(
        classify(&i, &ids(&["customfield_1", "status"])),
        ClassifiedIssue::IncompleteAndPointed(3500)
    );
}

#[test]
fn missing_points_is_unpointed() {
    let i = issue(vec![("status", status("To Do")), ("customfield_1", JsonValue::Null)]);
    assert_eq!(classify(&i, &ids(&["customfield_1"])), ClassifiedIssue::IncompleteAndUnpointed);
    let bare = issue(vec![]);
    assert_eq!(classify(&bare, &ids(&[])), ClassifiedIssue::IncompleteAndUnpointed);
}

#[test]
fn story_points_takes_first_numeric_field() {
    let i = issue(vec![
        ("a", JsonValue::String("7".to_string())),
        ("b", JsonValue::Number(2000)),
        ("c", JsonValue::Number(9000)),
    ]);
    assert_eq!(story_points(&i, &ids(&["a", "b", "c"])), Some(2000));
    assert_eq!(story_points(&i, &ids(&["c", "b"])), Some(9000));
    assert_eq!(story_points(&i, &ids(&["a", "z"])), None);
}

#[test]
fn status_category_reads_nested_name() {
    let i = issue(vec![("status", status("Done"))]);
    assert_eq!(i.status_category(), Some("Done".to_string()));
    assert_eq!(issue(vec![]).status_category(), None);
}

#[test]
fn string_in_json_follows_path() {
    let v = object(vec![("a", object(vec![("b", JsonValue::String("deep".to_string()))]))]);
    assert_eq!(get_string_in_json(&v, &vec!["a", "b"]), Some("deep".to_string()));
    assert_eq!(get_string_in_json(&v, &vec![]), None);
    assert_eq!(get_string_in_json(&v, &vec!["a"]), None);
    assert_eq!(get_string_in_json(&v, &vec!["missing", "a", "b"]), Some("deep".to_string()));
    assert_eq!(get_string_in_json(&JsonValue::Bool(true), &vec!["a"]), None);
}

#[test]
fn field_ids_resolve_every_match_in_order() {
    let fields = vec![
        FieldDescriptor { id: "customfield_1".to_string(), name: "Story Points".to_string() },
        FieldDescriptor { id: "summary".to_string(), name: "Summary".to_string() },
        FieldDescriptor { id: "customfield_9".to_string(), name: "Story Points".to_string() },
        FieldDescriptor { id: "customfield_4".to_string(), name: "story points".to_string() },
    ];
    assert_eq!(
        get_story_point_field_ids(&fields, "Story Points"),
        ids(&["customfield_1", "customfield_9"])
    );
    assert!(get_story_point_field_ids(&fields, "Points").is_empty());
}

#[test]
fn issue_link_points_at_browse_page() {
    assert_eq!(
        issue_link("https://example.atlassian.net", "PROJ-7"),
        "https://example.atlassian.net/browse/PROJ-7"
    );
}

fn five_issues() -> Vec<ClassifiedIssue> {
    vec![
        ClassifiedIssue::Complete,
        ClassifiedIssue::IncompleteAndPointed(5000),
        ClassifiedIssue::IncompleteAndPointed(3000),
        ClassifiedIssue::IncompleteAndUnpointed,
        ClassifiedIssue::IncompleteAndUnpointed,
    ]
}

#[test]
fn tally_end_to_end() {
    let r = Results::tally(&five_issues(), 2000, 4000);
    assert_eq!(r.num_complete, 1);
    assert_eq!(r.num_incomplete_and_pointed, 2);
    assert_eq!(r.num_incomplete_and_unpointed, 2);
    assert_eq!(r.unfinished_estimated_story_points, 8000);
    assert_eq!(r.unfinished_unestimated_story_points, 4000);
    assert_eq!(r.unfinished_story_points, 12000);
    assert_eq!(r.default_story_points, 2000);
    assert_eq!(r.velocity_in_story_points, 4000);
    let sprints = r.unfinished_story_points as f64 / r.velocity_in_story_points as f64;
    assert_eq!(sprints, 3.0);
}

#[test]
fn tally_ignores_order() {
    let a = Results::tally(&five_issues(), 3000, 1000);
    let mut reversed = five_issues();
    reversed.reverse();
    let b = Results::tally(&reversed, 3000, 1000);
    assert_eq!(a.num_complete, b.num_complete);
    assert_eq!(a.num_incomplete_and_pointed, b.num_incomplete_and_pointed);
    assert_eq!(a.num_incomplete_and_unpointed, b.num_incomplete_and_unpointed);
    assert_eq!(a.unfinished_estimated_story_points, b.unfinished_estimated_story_points);
    assert_eq!(a.unfinished_story_points, b.unfinished_story_points);
}

#[test]
fn tally_of_nothing_is_zero() {
    let r = Results::tally(&vec![], 3000, 1000);
    assert_eq!(r.num_complete, 0);
    assert_eq!(r.unfinished_story_points, 0);
}

#[test]
fn tally_of_extreme_points_does_not_overflow() {
    let issues = vec![
        ClassifiedIssue::IncompleteAndPointed(i64::MAX),
        ClassifiedIssue::IncompleteAndPointed(i64::MAX),
        ClassifiedIssue::IncompleteAndUnpointed,
    ];
    let r = Results::tally(&issues, i64::MAX, 1);
    assert_eq!(r.unfinished_estimated_story_points, 2 * i64::MAX as i128);
    assert_eq!(r.unfinished_story_points, 3 * i64::MAX as i128);
}

#[test]
fn classify_all_keeps_order() {
    let issues = vec![
        issue(vec![("status", status("Done"))]),
        issue(vec![("p", JsonValue::Number(1500))]),
        issue(vec![]),
    ];
    assert_eq!(
        statustracker::estimate::classify_all(&issues, &ids(&["p"])),
        vec![
            ClassifiedIssue::Complete,
            ClassifiedIssue::IncompleteAndPointed(1500),
            ClassifiedIssue::IncompleteAndUnpointed
        ]
    );
}
