//! JSON documents as plain values.

use vstd::prelude::*;

use crate::text::same;

verus! {

/// A JSON document.
pub enum Json {
    /// `null`.
    Null,
    /// A truth value.
    Bool(bool),
    /// A number, with its value where that is a 64-bit signed integer.
    Number(Option<i64>),
    /// A string.
    Text(String),
    /// An array.
    Array(Vec<Json>),
    /// An object: its members, each name once.
    Object(Vec<(String, Json)>),
}

/// The document tree of `serde_json`, which only the two functions below handle.
#[verifier::external_type_specification]
#[verifier::external_body]
pub struct ExValue(serde_json::Value);

/// The document that `serde_json::from_str` reads from a text; `None` for a text that it refuses.
pub uninterp spec fn parsed_json(text: Seq<char>) -> Option<Json>;

/// Converts a `serde_json::Value` variant by variant; `Number::as_i64` gives a number's value.
/// Nothing is claimed here: [`parse_json`] names the whole of its result.
#[verifier::external_body]
fn json_value(value: serde_json::Value) -> (r: Json)
{
    match value {
        serde_json::Value::Null => Json::Null,
        serde_json::Value::Bool(value) => Json::Bool(value),
        serde_json::Value::Number(value) => Json::Number(value.as_i64()),
        serde_json::Value::String(value) => Json::Text(value),
        serde_json::Value::Array(items) => Json::Array(items.into_iter().map(json_value).collect()),
        serde_json::Value::Object(members) => Json::Object(
            members.into_iter().map(|member| (member.0, json_value(member.1))).collect(),
        ),
    }
}

/// Calls `serde_json::from_str`. The claim: what it reads depends on the text alone.
#[verifier::external_body]
pub(crate) fn parse_json(text: &str) -> (r: Option<Json>)
    ensures
        r == parsed_json(text@),
{
    serde_json::from_str::<serde_json::Value>(text).ok().map(json_value)
}

/// The bytes that `serde_json::to_vec` writes for an object with these members, all strings, in
/// this order.
pub uninterp spec fn object_json(members: Seq<(Seq<char>, Seq<char>)>) -> Seq<u8>;

/// The member names and values of a list of string pairs.
pub open spec fn pair_texts(pairs: Seq<(String, String)>) -> Seq<(Seq<char>, Seq<char>)> {
    pairs.map_values(|pair: (String, String)| (pair.0@, pair.1@))
}

/// Calls `serde_json::to_vec` on an object of strings. The claim: it succeeds, as every name is a
/// string and writing to a vector does not fail, and the bytes depend on the members alone.
#[verifier::external_body]
pub(crate) fn write_object(members: Vec<(String, String)>) -> (r: Result<Vec<u8>, String>)
    ensures
        r is Ok,
        r->Ok_0@ == object_json(pair_texts(members@)),
{
    let object: serde_json::Map<String, serde_json::Value> = members
        .into_iter()
        .map(|member| (member.0, serde_json::Value::String(member.1)))
        .collect();
    serde_json::to_vec(&object).map_err(|error| error.to_string())
}

/// The value of the first member called `name`.
pub open spec fn member_of(members: Seq<(String, Json)>, name: Seq<char>) -> Option<Json>
    decreases members.len(),
{
    if members.len() == 0 {
        None
    } else if members[0].0@ == name {
        Some(members[0].1)
    } else {
        member_of(members.skip(1), name)
    }
}

/// The member of an object; nothing of any other document.
pub open spec fn get(value: Json, name: Seq<char>) -> Option<Json> {
    match value {
        Json::Object(members) => member_of(members@, name),
        _ => None,
    }
}

/// What a path of member names leads to.
pub open spec fn at(value: Json, path: Seq<Seq<char>>) -> Option<Json>
    decreases path.len(),
{
    if path.len() == 0 {
        Some(value)
    } else {
        match get(value, path[0]) {
            Some(inner) => at(inner, path.skip(1)),
            None => None,
        }
    }
}

impl Json {
    /// Looks a member of an object up by name.
    pub fn get(&self, name: &str) -> (r: Option<&Json>)
        ensures
            r is Some == get(*self, name@) is Some,
            r is Some ==> *r->0 == get(*self, name@)->0,
    {
        let members = match self {
            Json::Object(members) => members,
            _ => return None,
        };
        let mut i: usize = 0;
        assert(members@.skip(0) == members@);
        while i < members.len()
            invariant
                i <= members@.len(),
                *self is Object,
                *members == self->Object_0,
                member_of(members@, name@) == member_of(members@.skip(i as int), name@),
            decreases members@.len() - i,
        {
            if same(members[i].0.as_str(), name) {
                return Some(&members[i].1);
            }
            assert(members@.skip(i as int).skip(1) == members@.skip(i + 1));
            i += 1;
        }
        None
    }
}

/// The names of a path.
pub open spec fn names(path: Seq<&str>) -> Seq<Seq<char>> {
    path.map_values(|name: &str| name@)
}

/// Follows a path of member names.
pub fn descend<'a>(value: &'a Json, path: &[&str]) -> (r: Option<&'a Json>)
    ensures
        r is Some == at(*value, names(path@)) is Some,
        r is Some ==> *r->0 == at(*value, names(path@))->0,
{
    let mut current = value;
    let mut i: usize = 0;
    assert(names(path@).skip(0) == names(path@));
    while i < path.len()
        invariant
            i <= path@.len(),
            at(*value, names(path@)) == at(*current, names(path@).skip(i as int)),
        decreases path@.len() - i,
    {
        assert(names(path@).skip(i as int)[0] == path@[i as int]@);
        assert(names(path@).skip(i as int).skip(1) == names(path@).skip(i + 1));
        match current.get(path[i]) {
            Some(inner) => {
                current = inner;
            },
            None => return None,
        }
        i += 1;
    }
    Some(current)
}

/// A member of an object is found by its name, where no other has it; a name that no member has
/// leads to nothing, and so does any name in a document that is no object.
pub proof fn law_members_are_found_by_name(members: Vec<(String, Json)>, i: int, name: Seq<char>)
    requires
        0 <= i < members@.len(),
        forall|j: int| 0 <= j < members@.len() && j != i ==> (#[trigger] members@[j]).0@
            != members@[i].0@,
    ensures
        get(Json::Object(members), members@[i].0@) == Some(members@[i].1),
        (forall|j: int| 0 <= j < members@.len() ==> (#[trigger] members@[j]).0@ != name) ==> get(
            Json::Object(members),
            name,
        ) is None,
        forall|other: Json| !(other is Object) ==> #[trigger] get(other, name) is None,
{
    lemma_member_found(members@, i);
    if forall|j: int| 0 <= j < members@.len() ==> (#[trigger] members@[j]).0@ != name {
        lemma_member_missing(members@, name);
    }
}

proof fn lemma_member_found(members: Seq<(String, Json)>, i: int)
    requires
        0 <= i < members.len(),
        forall|j: int| 0 <= j < members.len() && j != i ==> (#[trigger] members[j]).0@
            != members[i].0@,
    ensures
        member_of(members, members[i].0@) == Some(members[i].1),
    decreases members.len(),
{
    if i > 0 {
        let rest = members.skip(1);
        assert(members[0].0@ != members[i].0@);
        assert forall|j: int| 0 <= j < rest.len() && j != i - 1 implies (#[trigger] rest[j]).0@
            != rest[i - 1].0@ by {
            assert(members[j + 1].0@ != members[i].0@);
        }
        lemma_member_found(rest, i - 1);
    }
}

proof fn lemma_member_missing(members: Seq<(String, Json)>, name: Seq<char>)
    requires
        forall|j: int| 0 <= j < members.len() ==> (#[trigger] members[j]).0@ != name,
    ensures
        member_of(members, name) is None,
    decreases members.len(),
{
    if members.len() > 0 {
        let rest = members.skip(1);
        assert(members[0].0@ != name);
        assert forall|j: int| 0 <= j < rest.len() implies (#[trigger] rest[j]).0@ != name by {
            assert(members[j + 1].0@ != name);
        }
        lemma_member_missing(rest, name);
    }
}

/// A path of one, two or three names leads where looking the names up one after the other leads.
pub proof fn law_paths_descend_name_by_name(value: Json, first: &str, second: &str, third: &str)
    ensures
        at(value, names(seq![first])) == get(value, first@),
        at(value, names(seq![first, second])) == match get(value, first@) {
            Some(inner) => get(inner, second@),
            None => None,
        },
        at(value, names(seq![first, second, third])) == match get(value, first@) {
            Some(inner) => match get(inner, second@) {
                Some(innermost) => get(innermost, third@),
                None => None,
            },
            None => None,
        },
{
    reveal_with_fuel(at, 4);
    let one = names(seq![first]);
    let two = names(seq![first, second]);
    let three = names(seq![first, second, third]);
    assert(one.skip(1).len() == 0);
    assert(two.skip(1)[0] == second@ && two.skip(1).skip(1).len() == 0);
    assert(three.skip(1)[0] == second@ && three.skip(1).skip(1)[0] == third@);
    assert(three.skip(1).skip(1).skip(1).len() == 0);
}

} // verus!
