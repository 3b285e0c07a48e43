//! A small filter-expression language for the tracker's search endpoint.
use vstd::prelude::*;
use vstd::string::StringExecFns;

verus! {

/// Characters that the tracker's query parser treats specially and that must
/// be preceded by a doubled backslash inside a quoted text value.
pub open spec fn is_reserved(c: char) -> bool {
    c == '+' || c == '-' || c == '&' || c == '|' || c == '!' || c == '(' || c == ')'
        || c == '{' || c == '}' || c == '[' || c == ']' || c == '^' || c == '~' || c == '*'
        || c == '?' || c == '\\' || c == ':'
}

/// The escaped form of a single character.
pub open spec fn escape_char(c: char) -> Seq<char> {
    if c == '"' {
        seq!['\\', c]
    } else if is_reserved(c) {
        seq!['\\', '\\', c]
    } else {
        seq![c]
    }
}

/// The escaped form of a text value: each character escaped in turn.
pub open spec fn escaped(s: Seq<char>) -> Seq<char>
    decreases s.len(),
{
    if s.len() == 0 {
        Seq::empty()
    } else {
        escaped(s.drop_last()) + escape_char(s.last())
    }
}

/// Reads an escaped text back: a doubled backslash gives the character after
/// it, a backslash before a double quote gives the quote.
pub open spec fn unescaped(t: Seq<char>) -> Seq<char>
    decreases t.len(),
{
    if t.len() >= 3 && t[0] == '\\' && t[1] == '\\' {
        seq![t[2]] + unescaped(t.skip(3))
    } else if t.len() >= 2 && t[0] == '\\' && t[1] == '"' {
        seq!['"'] + unescaped(t.skip(2))
    } else if t.len() >= 1 {
        seq![t[0]] + unescaped(t.skip(1))
    } else {
        Seq::empty()
    }
}

/// Escaping works character by character, so it distributes over concatenation.
pub proof fn lemma_escaped_append(a: Seq<char>, b: Seq<char>)
    ensures
        escaped(a + b) == escaped(a) + escaped(b),
    decreases b.len(),
{
    if b.len() == 0 {
        assert(a + b =~= a);
        assert(escaped(a) + escaped(b) =~= escaped(a));
    } else {
        lemma_escaped_append(a, b.drop_last());
        assert((a + b).drop_last() =~= a + b.drop_last());
        assert((a + b).last() == b.last());
        assert(escaped(a + b) =~= escaped(a) + escaped(b));
    }
}

/// Every value reads back from its escaped form.
pub proof fn lemma_unescaped_escaped(s: Seq<char>)
    ensures
        unescaped(escaped(s)) == s,
    decreases s.len(),
{
    if s.len() == 0 {
        assert(escaped(s) =~= Seq::<char>::empty());
    } else {
        let c = s[0];
        let rest = s.drop_first();
        lemma_escaped_append(seq![c], rest);
        assert(seq![c] + rest =~= s);
        assert(seq![c].drop_last() =~= Seq::<char>::empty());
        assert(seq![c].last() == c);
        assert(escaped(Seq::<char>::empty()) == Seq::<char>::empty());
        assert(escaped(seq![c]) =~= escape_char(c));
        lemma_unescaped_escaped(rest);
        let t = escaped(s);
        let k = escape_char(c).len() as int;
        assert(t.skip(k) =~= escaped(rest));
        assert(seq![c] + rest =~= s);
    }
}

/// Relies on `String`'s `FromIterator<char>`: the string holds the characters in order.
#[verifier::external_body]
fn string_from_chars(chars: &Vec<char>) -> (r: String)
    ensures
        r@ == chars@,
{
    chars.iter().collect()
}

/// Escapes a text value for use inside a quoted filter value.
pub fn escape_text_field(s: &str) -> (r: String)
    ensures
        r@ == escaped(s@),
{
    let mut escaped_chars: Vec<char> = Vec::new();
    for c in it: s.chars()
        invariant
            it.seq() == s@,
            escaped_chars@ == escaped(it.seq().take(it.index())),
    {
        proof {
            assert(it.seq().take(it.index() + 1).drop_last() == it.seq().take(it.index()));
        }
        if c == '"' {
            escaped_chars.push('\\');
        } else if c == '+' || c == '-' || c == '&' || c == '|' || c == '!' || c == '(' || c == ')'
            || c == '{' || c == '}' || c == '[' || c == ']' || c == '^' || c == '~' || c == '*'
            || c == '?' || c == '\\' || c == ':' {
            escaped_chars.push('\\');
            escaped_chars.push('\\');
        }
        escaped_chars.push(c);
    }
    proof {
        assert(s@.take(s@.len() as int) == s@);
    }
    string_from_chars(&escaped_chars)
}

/// A value usable inside a membership filter.
#[derive(Debug, Clone)]
pub enum JQLValue {
    String(String),
}

/// A node of a filter expression.
#[derive(Debug)]
pub enum JQLClause {
    And(Vec<Box<JQLClause>>),
    In(String, Vec<JQLValue>),
}

/// A complete query: a single root clause.
#[derive(Debug)]
pub struct JQLStatement {
    pub clause: JQLClause,
}

/// `" AND "`
pub open spec fn and_sep() -> Seq<char> {
    seq![' ', 'A', 'N', 'D', ' ']
}

/// `", "`
pub open spec fn comma_sep() -> Seq<char> {
    seq![',', ' ']
}

/// `" IN ("`
pub open spec fn in_open() -> Seq<char> {
    seq![' ', 'I', 'N', ' ', '(']
}

/// A text value wrapped in double quotes after escaping.
pub open spec fn quoted(s: Seq<char>) -> Seq<char> {
    seq!['"'] + escaped(s) + seq!['"']
}

impl JQLValue {
    /// The textual form of a value.
    pub open spec fn rendered(self) -> Seq<char> {
        match self {
            JQLValue::String(s) => quoted(s@),
        }
    }

    /// Renders the value: a text value is escaped and wrapped in double quotes.
    pub fn serialize_internal(&self) -> (r: String)
        ensures
            r@ == self.rendered(),
    {
        match self {
            JQLValue::String(contents) => {
                let mut out = String::new();
                out.append("\"");
                let body = escape_text_field(contents.as_str());
                out.append(body.as_str());
                out.append("\"");
                proof {
                    reveal_strlit("\"");
                }
                out
            },
        }
    }
}

/// Renders each value and joins them with `", "`.
fn serialize_values(values: &Vec<JQLValue>) -> (r: String)
    ensures
        r@ == joined_values(values@),
{
    let mut out = String::new();
    let mut i: usize = 0;
    while i < values.len()
        invariant
            i <= values.len(),
            out@ == joined_values(values@.take(i as int)),
        decreases values.len() - i,
    {
        let part = values[i].serialize_internal();
        proof {
            reveal_strlit(", ");
            assert(values@.take(i + 1).map_values(|v: JQLValue| v.rendered()).drop_last()
                =~= values@.take(i as int).map_values(|v: JQLValue| v.rendered()));
        }
        if i > 0 {
            out.append(", ");
        }
        out.append(part.as_str());
        i = i + 1;
    }
    proof {
        assert(values@.take(values.len() as int) == values@);
    }
    out
}

/// The parts joined with the separator between each neighbouring pair.
pub open spec fn join_texts(parts: Seq<Seq<char>>, sep: Seq<char>) -> Seq<char>
    decreases parts.len(),
{
    if parts.len() == 0 {
        Seq::empty()
    } else if parts.len() == 1 {
        parts[0]
    } else {
        join_texts(parts.drop_last(), sep) + sep + parts.last()
    }
}

/// The rendered values, separated by `", "`.
pub open spec fn joined_values(vs: Seq<JQLValue>) -> Seq<char> {
    join_texts(vs.map_values(|v: JQLValue| v.rendered()), comma_sep())
}

impl JQLClause {
    /// The textual form of a clause.
    pub open spec fn rendered(self) -> Seq<char>
        decreases self,
    {
        match self {
            JQLClause::And(cs) => seq!['('] + joined_clauses(cs@) + seq![')'],
            JQLClause::In(field, vs) => field@ + in_open() + joined_values(vs@) + seq![')'],
        }
    }

    /// Renders the clause: a conjunction as its parts joined by `" AND "` in
    /// parentheses, a membership filter as `field IN (values)`.
    pub fn serialize_internal(&self) -> (r: String)
        ensures
            r@ == self.rendered(),
        decreases self,
    {
        match self {
            JQLClause::And(clauses) => {
                let mut out = String::new();
                out.append("(");
                proof {
                    reveal_strlit("(");
                }
                let mut i: usize = 0;
                while i < clauses.len()
                    invariant
                        i <= clauses.len(),
                        *self == (JQLClause::And(*clauses)),
                        out@ == seq!['('] + joined_clauses(clauses@.take(i as int)),
                    decreases clauses.len() - i,
                {
                    proof {
                        reveal_strlit(" AND ");
                        assert(clauses@.take(i + 1).drop_last() == clauses@.take(i as int));
                        broadcast use vstd::std_specs::vec::axiom_vec_index_decreases;

                        assert(decreases_to!(*clauses => clauses[i as int]));
                        assert(decreases_to!(*self => self->And_0));
                        assert(decreases_to!(*self => *clauses[i as int]));
                    }
                    let part = clauses[i].serialize_internal();
                    if i > 0 {
                        out.append(" AND ");
                    }
                    out.append(part.as_str());
                    i = i + 1;
                }
                proof {
                    reveal_strlit(")");
                    assert(clauses@.take(clauses.len() as int) == clauses@);
                }
                out.append(")");
                out
            },
            JQLClause::In(field, values) => {
                let mut out = field.clone();
                out.append(" IN (");
                let joined = serialize_values(values);
                out.append(joined.as_str());
                out.append(")");
                proof {
                    reveal_strlit(" IN (");
                    reveal_strlit(")");
                }
                out
            },
        }
    }
}

/// The rendered clauses, separated by `" AND "`.
pub open spec fn joined_clauses(cs: Seq<Box<JQLClause>>) -> Seq<char>
    decreases cs,
{
    if cs.len() == 0 {
        Seq::empty()
    } else if cs.len() == 1 {
        (*cs[0]).rendered()
    } else {
        joined_clauses(cs.drop_last()) + and_sep() + (*cs.last()).rendered()
    }
}

/// A rendered text value is the value escaped, between double quotes, and
/// the text between the quotes reads back as the value.
pub proof fn lemma_value_round_trip(s: String)
    ensures
        JQLValue::String(s).rendered() == seq!['"'] + escaped(s@) + seq!['"'],
        unescaped(escaped(s@)) == s@,
{
    lemma_unescaped_escaped(s@);
}

/// A conjunction renders as its parts' texts joined by `" AND "`.
pub proof fn lemma_joined_clauses(cs: Seq<Box<JQLClause>>)
    ensures
        joined_clauses(cs) == join_texts(
            cs.map_values(|c: Box<JQLClause>| (*c).rendered()),
            and_sep(),
        ),
    decreases cs.len(),
{
    if cs.len() > 1 {
        lemma_joined_clauses(cs.drop_last());
        assert(cs.map_values(|c: Box<JQLClause>| (*c).rendered()).drop_last() =~= cs.drop_last().map_values(
            |c: Box<JQLClause>| (*c).rendered(),
        ));
    }
}

/// The text of a membership filter on `field` over text values.
pub open spec fn membership_text(field: Seq<char>, values: Seq<Seq<char>>) -> Seq<char> {
    field + in_open() + join_texts(values.map_values(|v: Seq<char>| quoted(v)), comma_sep()) + seq![
        ')',
    ]
}

/// The views of a sequence of strings.
pub open spec fn texts(v: Seq<String>) -> Seq<Seq<char>> {
    v.map_values(|s: String| s@)
}

/// Builds the membership filter `field IN (values)` over text values.
pub fn membership_clause(field: &str, values: &Vec<String>) -> (c: JQLClause)
    ensures
        c.rendered() == membership_text(field@, texts(values@)),
{
    let mut vs: Vec<JQLValue> = Vec::new();
    let mut i: usize = 0;
    while i < values.len()
        invariant
            i <= values.len(),
            vs@ == values@.take(i as int).map_values(|s: String| JQLValue::String(s)),
        decreases values.len() - i,
    {
        vs.push(JQLValue::String(values[i].clone()));
        proof {
            assert(vs@ =~= values@.take(i + 1).map_values(|s: String| JQLValue::String(s)));
        }
        i = i + 1;
    }
    proof {
        assert(values@.take(values.len() as int) == values@);
        assert(vs@.map_values(|v: JQLValue| v.rendered()) =~= texts(values@).map_values(
            |v: Seq<char>| quoted(v),
        ));
    }
    JQLClause::In(String::from_str(field), vs)
}

impl JQLStatement {
    /// The textual form of a query.
    pub open spec fn rendered(self) -> Seq<char> {
        self.clause.rendered()
    }

    /// Renders the query in the tracker's textual syntax.
    pub fn serialize_internal(&self) -> (r: String)
        ensures
            r@ == self.rendered(),
    {
        self.clause.serialize_internal()
    }
}

} // verus!
