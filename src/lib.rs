//! Progress reports over an issue tracker: query construction, field
//! resolution, paginated retrieval, issue classification and estimate tallies.
pub mod jql;
pub mod jira;
pub mod util;
pub mod estimate;
pub mod paginate;
pub mod cli;
