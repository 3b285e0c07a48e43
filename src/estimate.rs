//! Classification of issues by completion and the tally of what is left.
use vstd::prelude::*;
use crate::jira::{first_points, story_points, IssueRecord};
use crate::jql::texts;

verus! {

/// The completion state of an issue. Points are in thousandths of a point.
#[derive(Debug, Clone, Copy, PartialEq, Eq, Structural)]
pub enum ClassifiedIssue {
    Complete,
    IncompleteAndPointed(i64),
    IncompleteAndUnpointed,
}

/// How an issue classifies: a `"Done"` status category wins; otherwise the
/// first numeric points field decides, zero points counting as unpointed.
pub open spec fn classification(issue: IssueRecord, field_ids: Seq<Seq<char>>) -> ClassifiedIssue {
    if issue.spec_status_category() == Some("Done"@) {
        ClassifiedIssue::Complete
    } else {
        match first_points(issue, field_ids) {
            Some(p) => if p == 0 {
                ClassifiedIssue::IncompleteAndUnpointed
            } else {
                ClassifiedIssue::IncompleteAndPointed(p)
            },
            None => ClassifiedIssue::IncompleteAndUnpointed,
        }
    }
}

/// Classifies an issue from its status category and its points fields.
pub fn classify(issue: &IssueRecord, field_ids: &Vec<String>) -> (r: ClassifiedIssue)
    ensures
        r == classification(*issue, texts(field_ids@)),
{
    if let Some(status) = issue.status_category() {
        if status == String::from_str("Done") {
            return ClassifiedIssue::Complete;
        }
    }
    if let Some(points) = story_points(issue, field_ids) {
        if points == 0 {
            return ClassifiedIssue::IncompleteAndUnpointed;
        }
        return ClassifiedIssue::IncompleteAndPointed(points);
    }
    ClassifiedIssue::IncompleteAndUnpointed
}

/// Classifies each issue, keeping their order.
pub fn classify_all(issues: &Vec<IssueRecord>, field_ids: &Vec<String>) -> (r: Vec<ClassifiedIssue>)
    ensures
        r.len() == issues.len(),
        forall|j: int|
            0 <= j < issues.len() ==> r[j] == classification(#[trigger] issues[j], texts(field_ids@)),
{
    let mut out: Vec<ClassifiedIssue> = Vec::new();
    let mut i: usize = 0;
    while i < issues.len()
        invariant
            i <= issues.len(),
            out.len() == i,
            forall|j: int|
                0 <= j < i ==> out[j] == classification(#[trigger] issues[j], texts(field_ids@)),
        decreases issues.len() - i,
    {
        out.push(classify(&issues[i], field_ids));
        i = i + 1;
    }
    out
}

/// The sum of `f` over the issues.
pub open spec fn sum_by(s: Seq<ClassifiedIssue>, f: spec_fn(ClassifiedIssue) -> int) -> int
    decreases s.len(),
{
    if s.len() == 0 {
        0
    } else {
        sum_by(s.drop_last(), f) + f(s.last())
    }
}

/// One for a complete issue.
pub open spec fn complete_weight() -> spec_fn(ClassifiedIssue) -> int {
    |c: ClassifiedIssue| if c is Complete { 1int } else { 0int }
}

/// One for an incomplete issue with points.
pub open spec fn pointed_weight() -> spec_fn(ClassifiedIssue) -> int {
    |c: ClassifiedIssue| if c is IncompleteAndPointed { 1int } else { 0int }
}

/// One for an incomplete issue without points.
pub open spec fn unpointed_weight() -> spec_fn(ClassifiedIssue) -> int {
    |c: ClassifiedIssue| if c is IncompleteAndUnpointed { 1int } else { 0int }
}

/// The points of an incomplete issue with points.
pub open spec fn points_weight() -> spec_fn(ClassifiedIssue) -> int {
    |c: ClassifiedIssue|
        match c {
            ClassifiedIssue::IncompleteAndPointed(p) => p as int,
            _ => 0int,
        }
}

/// The summary of a set of classified issues. Points are in thousandths of
/// a point; sprints remaining are `unfinished_story_points` divided by
/// `velocity_in_story_points`.
#[derive(Debug)]
pub struct Results {
    pub default_story_points: i64,
    pub num_complete: usize,
    pub num_incomplete_and_pointed: usize,
    pub num_incomplete_and_unpointed: usize,
    pub unfinished_estimated_story_points: i128,
    pub unfinished_story_points: i128,
    pub unfinished_unestimated_story_points: i128,
    pub velocity_in_story_points: i64,
}

/// The limit of one issue's points, in either direction.
pub open spec fn points_bound() -> int {
    0x8000_0000_0000_0000int
}

impl Results {
    /// Counts the issues of each state, sums the points of those estimated,
    /// and charges `default_story_points` for each unestimated one. The
    /// velocity is carried for the final division, which is owed a positive
    /// velocity by its caller.
    pub fn tally(
        issues: &Vec<ClassifiedIssue>,
        default_story_points: i64,
        velocity_in_story_points: i64,
    ) -> (r: Results)
        ensures
            r.num_complete == sum_by(issues@, complete_weight()),
            r.num_incomplete_and_pointed == sum_by(issues@, pointed_weight()),
            r.num_incomplete_and_unpointed == sum_by(issues@, unpointed_weight()),
            r.unfinished_estimated_story_points == sum_by(issues@, points_weight()),
            r.unfinished_unestimated_story_points == r.num_incomplete_and_unpointed
                * default_story_points,
            r.unfinished_story_points == r.unfinished_estimated_story_points
                + r.unfinished_unestimated_story_points,
            r.default_story_points == default_story_points,
            r.velocity_in_story_points == velocity_in_story_points,
    {
        let mut num_complete: usize = 0;
        let mut num_pointed: usize = 0;
        let mut num_unpointed: usize = 0;
        let mut estimated: i128 = 0;
        let mut i: usize = 0;
        while i < issues.len()
            invariant
                i <= issues.len(),
                num_complete + num_pointed + num_unpointed == i,
                num_complete == sum_by(issues@.take(i as int), complete_weight()),
                num_pointed == sum_by(issues@.take(i as int), pointed_weight()),
                num_unpointed == sum_by(issues@.take(i as int), unpointed_weight()),
                estimated == sum_by(issues@.take(i as int), points_weight()),
                -(num_pointed * points_bound()) <= estimated <= num_pointed * points_bound(),
            decreases issues.len() - i,
        {
            proof {
                assert(issues@.take(i + 1).drop_last() =~= issues@.take(i as int));
            }
            match issues[i] {
                ClassifiedIssue::Complete => {
                    num_complete = num_complete + 1;
                },
                ClassifiedIssue::IncompleteAndPointed(points) => {
                    num_pointed = num_pointed + 1;
                    estimated = estimated + points as i128;
                },
                ClassifiedIssue::IncompleteAndUnpointed => {
                    num_unpointed = num_unpointed + 1;
                },
            }
            i = i + 1;
        }
        proof {
            assert(issues@.take(issues.len() as int) =~= issues@);
            let u = num_unpointed as int;
            let d = default_story_points as int;
            assert(-(u * points_bound()) <= u * d <= u * points_bound()) by (nonlinear_arith)
                requires
                    0 <= u,
                    -points_bound() <= d < points_bound(),
            ;
        }
        let unestimated = num_unpointed as i128 * default_story_points as i128;
        let total = estimated + unestimated;
        Results {
            default_story_points,
            num_complete,
            num_incomplete_and_pointed: num_pointed,
            num_incomplete_and_unpointed: num_unpointed,
            unfinished_estimated_story_points: estimated,
            unfinished_story_points: total,
            unfinished_unestimated_story_points: unestimated,
            velocity_in_story_points,
        }
    }
}

/// Taking one issue out of a sequence takes its weight out of the sum.
pub proof fn lemma_sum_by_remove(s: Seq<ClassifiedIssue>, k: int, f: spec_fn(ClassifiedIssue) -> int)
    requires
        0 <= k < s.len(),
    ensures
        sum_by(s, f) == sum_by(s.remove(k), f) + f(s[k]),
    decreases s.len(),
{
    if k == s.len() - 1 {
        assert(s.remove(k) =~= s.drop_last());
    } else {
        lemma_sum_by_remove(s.drop_last(), k, f);
        assert(s.remove(k).drop_last() =~= s.drop_last().remove(k));
        assert(s.remove(k).last() == s.last());
    }
}

/// A sum over issues depends only on which issues there are, not on their order.
pub proof fn lemma_sum_by_permutation(
    a: Seq<ClassifiedIssue>,
    b: Seq<ClassifiedIssue>,
    f: spec_fn(ClassifiedIssue) -> int,
)
    requires
        a.to_multiset() == b.to_multiset(),
    ensures
        sum_by(a, f) == sum_by(b, f),
    decreases a.len(),
{
    broadcast use vstd::seq_lib::group_to_multiset_ensures;

    if a.len() == 0 {
        assert(b.to_multiset().len() == 0);
        assert(b.len() == 0);
    } else {
        let x = a.last();
        assert(a.drop_last().push(x) =~= a);
        assert(a.to_multiset().count(x) > 0);
        assert(b.contains(x));
        let k = choose|k: int| 0 <= k < b.len() && b[k] == x;
        assert(b.remove(k).to_multiset() == b.to_multiset().remove(x));
        assert(a.drop_last().to_multiset() =~= a.to_multiset().remove(x));
        lemma_sum_by_permutation(a.drop_last(), b.remove(k), f);
        lemma_sum_by_remove(b, k, f);
    }
}

/// Tallying any reordering of the same classified issues gives the same
/// counts and the same sums.
pub proof fn lemma_tally_permutation(a: Seq<ClassifiedIssue>, b: Seq<ClassifiedIssue>)
    requires
        a.to_multiset() == b.to_multiset(),
    ensures
        sum_by(a, complete_weight()) == sum_by(b, complete_weight()),
        sum_by(a, pointed_weight()) == sum_by(b, pointed_weight()),
        sum_by(a, unpointed_weight()) == sum_by(b, unpointed_weight()),
        sum_by(a, points_weight()) == sum_by(b, points_weight()),
{
    lemma_sum_by_permutation(a, b, complete_weight());
    lemma_sum_by_permutation(a, b, pointed_weight());
    lemma_sum_by_permutation(a, b, unpointed_weight());
    lemma_sum_by_permutation(a, b, points_weight());
}

} // verus!
