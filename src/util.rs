//! A loosely-typed value as the tracker returns it, and lookups into it.
use vstd::prelude::*;

verus! {

/// A JSON-like value. Numbers are held in thousandths of a unit, so that
/// `3.5` is `Number(3500)`.
#[derive(Debug)]
pub enum JsonValue {
    Null,
    Bool(bool),
    Number(i64),
    String(String),
    Array(Vec<JsonValue>),
    Object(Vec<(String, JsonValue)>),
}

/// The value of the first member named `key`, if any.
pub open spec fn member(pairs: Seq<(String, JsonValue)>, key: Seq<char>) -> Option<JsonValue>
    decreases pairs.len(),
{
    if pairs.len() == 0 {
        None
    } else if pairs[0].0@ == key {
        Some(pairs[0].1)
    } else {
        member(pairs.drop_first(), key)
    }
}

/// Finds the value of the first member named `key`.
pub fn find_member<'a>(pairs: &'a Vec<(String, JsonValue)>, key: &str) -> (r: Option<&'a JsonValue>)
    ensures
        r matches Some(v) ==> member(pairs@, key@) == Some(*v),
        r is None ==> member(pairs@, key@) is None,
{
    let wanted = String::from_str(key);
    let mut i: usize = 0;
    assert(pairs@.skip(0) =~= pairs@);
    while i < pairs.len()
        invariant
            i <= pairs.len(),
            wanted@ == key@,
            member(pairs@, key@) == member(pairs@.skip(i as int), key@),
        decreases pairs.len() - i,
    {
        proof {
            assert(pairs@.skip(i as int).drop_first() =~= pairs@.skip(i + 1));
        }
        if pairs[i].0 == wanted {
            return Some(&pairs[i].1);
        }
        i = i + 1;
    }
    None
}

impl JsonValue {
    /// The value of member `key` of an object; nothing for any other value.
    pub open spec fn spec_get(self, key: Seq<char>) -> Option<JsonValue> {
        match self {
            JsonValue::Object(pairs) => member(pairs@, key),
            _ => None,
        }
    }

    /// Looks up member `key` of an object.
    pub fn get(&self, key: &str) -> (r: Option<&JsonValue>)
        ensures
            r matches Some(v) ==> self.spec_get(key@) == Some(*v),
            r is None ==> self.spec_get(key@) is None,
    {
        match self {
            JsonValue::Object(pairs) => find_member(pairs, key),
            _ => None,
        }
    }
}

/// Where the walk along all but the last key of `path` ends: each key that
/// names a member of the current object moves into it, and any other key
/// leaves the walk where it is.
pub open spec fn walk(v: JsonValue, path: Seq<Seq<char>>) -> JsonValue
    decreases path.len(),
{
    if path.len() == 0 {
        v
    } else {
        let cur = walk(v, path.drop_last());
        match cur.spec_get(path.last()) {
            Some(inner) => inner,
            None => cur,
        }
    }
}

/// The text at the end of `path`: the last key must name a text member of
/// the object that the walk along the other keys reached.
pub open spec fn string_at(v: JsonValue, path: Seq<Seq<char>>) -> Option<Seq<char>> {
    if path.len() == 0 {
        None
    } else {
        match walk(v, path.drop_last()).spec_get(path.last()) {
            Some(JsonValue::String(s)) => Some(s@),
            _ => None,
        }
    }
}

/// The views of a sequence of string slices.
pub open spec fn keys(path: Seq<&str>) -> Seq<Seq<char>> {
    path.map_values(|k: &str| k@)
}

/// Reads the text found by following `path` through nested objects.
pub fn get_string_in_json(value: &JsonValue, path: &Vec<&str>) -> (r: Option<String>)
    ensures
        r matches Some(s) ==> string_at(*value, keys(path@)) == Some(s@),
        r is None ==> string_at(*value, keys(path@)) is None,
{
    if path.len() == 0 {
        return None;
    }
    let mut current_value = value;
    let last = path.len() - 1;
    let mut i: usize = 0;
    while i < last
        invariant
            i <= last,
            last == path.len() - 1,
            *current_value == walk(*value, keys(path@).take(i as int)),
        decreases last - i,
    {
        proof {
            assert(keys(path@).take(i + 1).drop_last() =~= keys(path@).take(i as int));
        }
        if let Some(inner) = current_value.get(path[i]) {
            current_value = inner;
        }
        i = i + 1;
    }
    proof {
        assert(keys(path@).drop_last() =~= keys(path@).take(last as int));
    }
    if let Some(inner) = current_value.get(path[last]) {
        if let JsonValue::String(s) = inner {
            return Some(s.clone());
        }
    }
    None
}

} // verus!
