//! The PostgreSQL schema that one instance owns.

use vstd::prelude::*;

use crate::text::{chars_of, code_point, is_digit, same, starts_with};

verus! {

/// Whether `c` may begin the name of an owned schema.
pub open spec fn is_lower(c: char) -> bool {
    97 <= c as int <= 122
}

/// Whether a schema of this name can be owned: one to 63 lower-case letters, digits and
/// underscores, a letter first, and no name that PostgreSQL keeps for itself.
pub open spec fn valid_schema_name(name: Seq<char>) -> bool {
    &&& 1 <= name.len() <= 63
    &&& is_lower(name[0])
    &&& forall|i: int|
        0 < i < name.len() ==> (is_lower(#[trigger] name[i]) || is_digit(name[i]) || name[i] == '_')
    &&& name != "public"@
    &&& name != "information_schema"@
    &&& !"pg_"@.is_prefix_of(name)
}

/// The message that refuses a schema name.
pub open spec fn schema_name_error(name: Seq<char>) -> Seq<char> {
    "invalid owned schema name `"@ + name + "`"@
}

fn lower(c: char) -> (r: bool)
    ensures
        r == is_lower(c),
{
    let code: u32 = code_point(c);
    97 <= code && code <= 122
}

fn name_char(c: char) -> (r: bool)
    ensures
        r == (is_lower(c) || is_digit(c) || c == '_'),
{
    let code: u32 = code_point(c);
    lower(c) || (48 <= code && code <= 57) || code == 95
}

fn name_shaped(schema: &str) -> (r: bool)
    ensures
        r == (1 <= schema@.len() <= 63 && is_lower(schema@[0]) && forall|i: int|
            0 < i < schema@.len() ==> (is_lower(#[trigger] schema@[i]) || is_digit(schema@[i])
                || schema@[i] == '_')),
{
    let chars = chars_of(schema);
    if chars.len() < 1 || chars.len() > 63 || !lower(chars[0]) {
        return false;
    }
    let mut i: usize = 1;
    while i < chars.len()
        invariant
            1 <= i <= chars@.len(),
            chars@ == schema@,
            forall|j: int|
                0 < j < i ==> (is_lower(#[trigger] schema@[j]) || is_digit(schema@[j]) || schema@[j]
                    == '_'),
        decreases chars@.len() - i,
    {
        if !name_char(chars[i]) {
            assert(!(is_lower(schema@[i as int]) || is_digit(schema@[i as int]) || schema@[i as int]
                == '_'));
            return false;
        }
        i += 1;
    }
    true
}

/// Decides whether a schema of this name can be owned.
pub fn check_schema_name(schema: &str) -> (r: Result<(), String>)
    ensures
        r is Ok == valid_schema_name(schema@),
        r is Err ==> r->Err_0@ == schema_name_error(schema@),
{
    if name_shaped(schema) && !same(schema, "public") && !same(schema, "information_schema")
        && !starts_with(schema, "pg_") {
        Ok(())
    } else {
        let mut message = "invalid owned schema name `".to_owned();
        message.append(schema);
        message.append("`");
        Err(message)
    }
}

/// A schema name begins with a lower-case letter and grows by lower-case letters, digits and
/// underscores up to sixty-three characters, except to a name that PostgreSQL keeps for itself.
pub proof fn law_schema_names(name: Seq<char>, c: char)
    ensures
        valid_schema_name(seq![c]) == ('a' as int <= c as int <= 'z' as int),
        !valid_schema_name(Seq::empty()),
        !valid_schema_name("public"@) && !valid_schema_name("information_schema"@),
        !valid_schema_name("pg_"@ + name),
        valid_schema_name(name) ==> name.len() <= 63,
        valid_schema_name(name) && name.push(c) != "public"@ && name.push(c)
            != "information_schema"@ && name.push(c) != "pg_"@ ==> valid_schema_name(name.push(c))
            == (name.len() < 63 && ('a' as int <= c as int <= 'z' as int || '0' as int <= c as int
            <= '9' as int || c == '_')),
{
    reveal_strlit("public");
    reveal_strlit("information_schema");
    reveal_strlit("pg_");
    assert("public"@.len() == 6 && "information_schema"@.len() == 18 && "pg_"@.len() == 3);
    assert(seq![c][0] == c);
    assert(("pg_"@ + name).subrange(0, 3) == "pg_"@);
    let longer = name.push(c);
    assert(longer[name.len() as int] == c);
    if valid_schema_name(name) {
        assert(longer[0] == name[0]);
        assert forall|i: int| 0 < i < name.len() implies is_lower(#[trigger] longer[i]) || is_digit(
            longer[i],
        ) || longer[i] == '_' by {
            assert(longer[i] == name[i]);
        }
        if "pg_"@.is_prefix_of(longer) {
            if longer.len() == 3 {
                assert(longer == longer.subrange(0, 3));
            } else {
                assert(name.subrange(0, 3) == longer.subrange(0, 3));
            }
        }
    }
}

} // verus!
