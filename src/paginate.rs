//! The decisions of a paginated search: which page to ask for next, how a
//! page is taken in, and when the search is over.
use vstd::prelude::*;
use crate::jira::IssueRecord;

verus! {

/// The number of issues asked for in each page.
pub const PAGE_SIZE: usize = 100;

/// What the search needs next.
#[derive(Debug, Clone, Copy, PartialEq, Eq, Structural)]
pub enum SearchStep {
    /// Ask for up to `max_results` issues starting at offset `start_at`.
    Fetch { start_at: usize, max_results: usize },
    /// Every page has been fetched.
    Finished,
}

/// The state of a paginated search: the issues taken in so far, the offset
/// of the next page, and whether the last page has come.
#[derive(Debug)]
pub struct SearchState {
    issues: Vec<IssueRecord>,
    start_at: usize,
    page_size: usize,
    done: bool,
}

impl SearchState {
    /// The issues taken in so far, in the order of their pages.
    pub closed spec fn fetched(self) -> Seq<IssueRecord> {
        self.issues@
    }

    /// The offset of the next page.
    pub closed spec fn offset(self) -> nat {
        self.start_at as nat
    }

    /// The number of issues asked for in each page.
    pub closed spec fn spec_page_size(self) -> nat {
        self.page_size as nat
    }

    /// Whether a short page has ended the search.
    pub closed spec fn is_done(self) -> bool {
        self.done
    }

    /// The offset counts the issues taken in, and pages are not empty requests.
    pub closed spec fn wf(self) -> bool {
        &&& self.start_at == self.issues.len()
        &&& self.page_size > 0
    }

    /// A search that has fetched nothing yet.
    pub fn new(page_size: usize) -> (r: SearchState)
        requires
            page_size > 0,
        ensures
            r.wf(),
            r.fetched() == Seq::<IssueRecord>::empty(),
            r.offset() == 0,
            r.spec_page_size() == page_size,
            !r.is_done(),
    {
        SearchState { issues: Vec::new(), start_at: 0, page_size, done: false }
    }

    /// The next request: the page at the current offset, or nothing once a
    /// short page has come.
    pub fn next_step(&self) -> (r: SearchStep)
        requires
            self.wf(),
        ensures
            self.is_done() ==> r == SearchStep::Finished,
            !self.is_done() ==> r == (SearchStep::Fetch {
                start_at: self.offset() as usize,
                max_results: self.spec_page_size() as usize,
            }),
    {
        if self.done {
            SearchStep::Finished
        } else {
            SearchStep::Fetch { start_at: self.start_at, max_results: self.page_size }
        }
    }

    /// Takes in the page that the last request returned: its issues are
    /// kept, the offset moves past them, and a page shorter than asked for
    /// is the last.
    pub fn receive_page(&mut self, page: Vec<IssueRecord>)
        requires
            old(self).wf(),
            !old(self).is_done(),
        ensures
            final(self).wf(),
            final(self).fetched() == old(self).fetched() + page@,
            final(self).offset() == old(self).offset() + page.len(),
            final(self).spec_page_size() == old(self).spec_page_size(),
            final(self).is_done() == (page.len() < old(self).spec_page_size()),
    {
        let mut page = page;
        let returned = page.len();
        self.done = returned < self.page_size;
        self.issues.append(&mut page);
        self.start_at = self.issues.len();
    }

    /// The issues of every page, in order.
    pub fn into_issues(self) -> (r: Vec<IssueRecord>)
        ensures
            r@ == self.fetched(),
    {
        self.issues
    }
}

} // verus!
