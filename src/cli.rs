//! The commands of the tool and the settings of each.
use vstd::prelude::*;

verus! {

/// Settings of the command that lists issues as CSV rows.
#[derive(Debug)]
pub struct CSV {
    pub jira_story_points_field: String,
    pub jira_label: Vec<String>,
    pub jira_project: Vec<String>,
    pub jira_issue_type: Vec<String>,
    pub jira_token: String,
    pub jira_url: String,
    pub jira_username: String,
}

/// Settings of the command that estimates the sprints left. Story points and
/// velocity are in thousandths of a point.
#[derive(Debug)]
pub struct Estimate {
    pub default_story_points: i64,
    pub jira_story_points_field: String,
    pub jira_label: Vec<String>,
    pub jira_project: Vec<String>,
    pub jira_issue_type: Vec<String>,
    pub jira_token: String,
    pub jira_url: String,
    pub jira_username: String,
    pub velocity_in_story_points: i64,
    pub verbose: bool,
}

/// Settings of the command that adds a label to issues.
#[derive(Debug)]
pub struct Tag {
    pub jira_key: Vec<String>,
    pub jira_label: String,
    pub jira_token: String,
    pub jira_url: String,
    pub jira_username: String,
}

/// The commands of the tool.
#[derive(Debug)]
pub enum StatusTracker {
    CSV(CSV),
    Estimate(Estimate),
    Tag(Tag),
}

} // verus!
