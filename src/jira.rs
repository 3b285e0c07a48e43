//! Query construction and field resolution against the tracker's schema.
use vstd::prelude::*;
use crate::jql::{
    and_sep, join_texts, lemma_joined_clauses, membership_clause, membership_text, texts,
    JQLClause, JQLStatement,
};
use crate::util::{find_member, get_string_in_json, keys, member, string_at, JsonValue};

verus! {

/// Why a search could not be built.
#[derive(Debug, PartialEq, Eq, Structural)]
pub enum ValidationError {
    /// Neither a project nor a label narrows the search.
    TooBroad,
}

impl ValidationError {
    /// A message for the person who asked for the search.
    pub fn message(&self) -> String {
        match self {
            ValidationError::TooBroad => String::from_str(
                "This command will search all projects & labels.  To avoid crawling your entire JIRA instance, you must supply at least one project or a label to narrow the search.",
            ),
        }
    }
}

/// The membership filter on `field`, present only when there are values.
pub open spec fn optional_part(field: Seq<char>, values: Seq<Seq<char>>) -> Seq<Seq<char>> {
    if values.len() == 0 {
        Seq::empty()
    } else {
        seq![membership_text(field, values)]
    }
}

/// The filters of a search, in the order project, labels, issue type.
pub open spec fn search_parts(
    projects: Seq<Seq<char>>,
    labels: Seq<Seq<char>>,
    issue_types: Seq<Seq<char>>,
) -> Seq<Seq<char>> {
    optional_part("project"@, projects) + optional_part("labels"@, labels) + optional_part(
        "issuetype"@,
        issue_types,
    )
}

/// The text of a search: its filters joined by `" AND "` in parentheses.
pub open spec fn search_text(
    projects: Seq<Seq<char>>,
    labels: Seq<Seq<char>>,
    issue_types: Seq<Seq<char>>,
) -> Seq<char> {
    seq!['('] + join_texts(search_parts(projects, labels, issue_types), and_sep()) + seq![')']
}

/// Builds the conjunction of membership filters that selects the issues of
/// the given projects, labels and issue types. A search that names neither a
/// project nor a label is refused.
pub fn build_issue_search_jql(
    projects: &Vec<String>,
    labels: &Vec<String>,
    included_issue_types: &Vec<String>,
) -> (r: Result<JQLStatement, ValidationError>)
    ensures
        r is Err <==> projects.len() == 0 && labels.len() == 0,
        r is Err ==> r->Err_0 == ValidationError::TooBroad,
        r is Ok ==> r->Ok_0.rendered() == search_text(
            texts(projects@),
            texts(labels@),
            texts(included_issue_types@),
        ),
{
    if projects.len() == 0 && labels.len() == 0 {
        return Err(ValidationError::TooBroad);
    }
    let ghost p = optional_part("project"@, texts(projects@));
    let ghost l = optional_part("labels"@, texts(labels@));
    let ghost t = optional_part("issuetype"@, texts(included_issue_types@));
    let mut clauses: Vec<Box<JQLClause>> = Vec::new();
    if projects.len() > 0 {
        clauses.push(Box::new(membership_clause("project", projects)));
    }
    assert(clauses@.map_values(|c: Box<JQLClause>| (*c).rendered()) =~= p);
    if labels.len() > 0 {
        clauses.push(Box::new(membership_clause("labels", labels)));
    }
    assert(clauses@.map_values(|c: Box<JQLClause>| (*c).rendered()) =~= p + l);
    if included_issue_types.len() > 0 {
        clauses.push(Box::new(membership_clause("issuetype", included_issue_types)));
    }
    assert(clauses@.map_values(|c: Box<JQLClause>| (*c).rendered()) =~= p + l + t);
    proof {
        lemma_joined_clauses(clauses@);
    }
    Ok(JQLStatement { clause: JQLClause::And(clauses) })
}

/// A field of the tracker's schema: its identifier and its display name.
#[derive(Debug)]
pub struct FieldDescriptor {
    pub id: String,
    pub name: String,
}

/// The ids of the fields whose display name is `name`, in schema order.
pub open spec fn matching_ids(fields: Seq<FieldDescriptor>, name: Seq<char>) -> Seq<Seq<char>>
    decreases fields.len(),
{
    if fields.len() == 0 {
        Seq::empty()
    } else {
        let rest = matching_ids(fields.drop_last(), name);
        if fields.last().name@ == name {
            rest.push(fields.last().id@)
        } else {
            rest
        }
    }
}

/// Resolves a display name to every field id that carries it, in the order
/// of the schema. No match gives an empty list.
pub fn get_story_point_field_ids(fields: &Vec<FieldDescriptor>, field_name: &str) -> (r: Vec<
    String,
>)
    ensures
        texts(r@) == matching_ids(fields@, field_name@),
{
    let wanted = String::from_str(field_name);
    let mut field_ids: Vec<String> = Vec::new();
    let mut i: usize = 0;
    while i < fields.len()
        invariant
            i <= fields.len(),
            wanted@ == field_name@,
            texts(field_ids@) == matching_ids(fields@.take(i as int), field_name@),
        decreases fields.len() - i,
    {
        proof {
            assert(fields@.take(i + 1).drop_last() =~= fields@.take(i as int));
        }
        if fields[i].name == wanted {
            field_ids.push(fields[i].id.clone());
            assert(texts(field_ids@) =~= matching_ids(fields@.take(i as int), field_name@).push(
                fields@[i as int].id@,
            ));
        }
        i = i + 1;
    }
    proof {
        assert(fields@.take(fields.len() as int) =~= fields@);
    }
    field_ids
}

/// An issue as the search returns it: its id, its key and its fields by id.
#[derive(Debug)]
pub struct IssueRecord {
    pub id: String,
    pub key: String,
    pub fields: Vec<(String, JsonValue)>,
}

impl IssueRecord {
    /// The number held by field `field_id`, if that field holds a number.
    pub open spec fn spec_numeric_field(self, field_id: Seq<char>) -> Option<i64> {
        match member(self.fields@, field_id) {
            Some(JsonValue::Number(n)) => Some(n),
            _ => None,
        }
    }

    /// The display name of the status category: `fields.status.statusCategory.name`.
    pub open spec fn spec_status_category(self) -> Option<Seq<char>> {
        match member(self.fields@, "status"@) {
            Some(status) => string_at(status, seq!["statusCategory"@, "name"@]),
            None => None,
        }
    }

    /// Reads field `field_id` as a number; any other value counts as none.
    pub fn numeric_field(&self, field_id: &str) -> (r: Option<i64>)
        ensures
            r == self.spec_numeric_field(field_id@),
    {
        match find_member(&self.fields, field_id) {
            Some(JsonValue::Number(n)) => Some(*n),
            _ => None,
        }
    }

    /// Reads the display name of the issue's status category.
    pub fn status_category(&self) -> (r: Option<String>)
        ensures
            r is None <==> self.spec_status_category() is None,
            r matches Some(s) ==> self.spec_status_category() == Some(s@),
    {
        match find_member(&self.fields, "status") {
            Some(status) => {
                let path: Vec<&str> = vec!["statusCategory", "name"];
                assert(keys(path@) =~= seq!["statusCategory"@, "name"@]);
                get_string_in_json(status, &path)
            },
            None => None,
        }
    }
}

/// The first number among the fields `field_ids`, tried in order.
pub open spec fn first_points(issue: IssueRecord, field_ids: Seq<Seq<char>>) -> Option<i64>
    decreases field_ids.len(),
{
    if field_ids.len() == 0 {
        None
    } else {
        match issue.spec_numeric_field(field_ids[0]) {
            Some(p) => Some(p),
            None => first_points(issue, field_ids.drop_first()),
        }
    }
}

/// The story points of an issue: the first of the fields `field_ids` that
/// holds a number.
pub fn story_points(issue: &IssueRecord, field_ids: &Vec<String>) -> (r: Option<i64>)
    ensures
        r == first_points(*issue, texts(field_ids@)),
{
    let mut i: usize = 0;
    assert(texts(field_ids@).skip(0) =~= texts(field_ids@));
    while i < field_ids.len()
        invariant
            i <= field_ids.len(),
            first_points(*issue, texts(field_ids@)) == first_points(
                *issue,
                texts(field_ids@).skip(i as int),
            ),
        decreases field_ids.len() - i,
    {
        proof {
            assert(texts(field_ids@).skip(i as int).drop_first() =~= texts(field_ids@).skip(i + 1));
        }
        if let Some(points) = issue.numeric_field(field_ids[i].as_str()) {
            return Some(points);
        }
        i = i + 1;
    }
    None
}

/// The address of an issue's page in the tracker's web interface.
pub fn issue_link(jira_url: &str, key: &str) -> (r: String)
    ensures
        r@ == jira_url@ + "/browse/"@ + key@,
{
    let mut link = String::from_str(jira_url);
    link.append("/browse/");
    link.append(key);
    link
}

} // verus!
