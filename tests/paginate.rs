use statustracker::jira::IssueRecord;
use statustracker::paginate::{SearchState, SearchStep, PAGE_SIZE};

fn page(start: usize, n: usize) -> Vec<IssueRecord> {
    (start..start + n)
        .map(|i| IssueRecord { id: i.to_string(), key: format!("P-{}", i), fields: vec![] })
        .collect()
}

/// Runs the search against pages of the given sizes; returns the issues and
/// the number of requests made.
fn run(sizes: &[usize]) -> (Vec<IssueRecord>, usize) {
    let mut state = SearchState::new(PAGE_SIZE);
    let mut requests = 0;
    while let SearchStep::Fetch { start_at, max_results } = state.next_step() {
        assert_eq!(max_results, PAGE_SIZE);
        let n = sizes[requests];
        requests += 1;
        state.receive_page(page(start_at, n));
    }
    (state.into_issues(), requests)
}

#[test]
fn pages_of_100_100_37_give_237_after_three_requests() {
    let (issues, requests) = run(&[100, 100, 37]);
    assert_eq!(issues.len(), 237);
    assert_eq!(requests, 3);
    assert_eq!(issues[236].key, "P-236");
}

#[test]
fn full_pages_end_with_an_empty_page() {
    let (issues, requests) = run(&[100, 100, 100, 0]);
    assert_eq!(issues.len(), 300);
    assert_eq!(requests, 4);
}

#[test]
fn offset_advances_by_what_was_returned() {
    let mut state = SearchState::new(10);
    assert_eq!(state.next_step(), SearchStep::Fetch { start_at: 0, max_results: 10 });
    state.receive_page(page(0, 10));
    assert_eq!(state.next_step(), SearchStep::Fetch { start_at: 10, max_results: 10 });
    state.receive_page(page(10, 3));
    assert_eq!(state.next_step(), SearchStep::Finished);
    let issues = state.into_issues();
    assert_eq!(issues.len(), 13);
    assert_eq!(issues[12].id, "12");
}
