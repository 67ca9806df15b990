//! Failures of the durable store.

use vstd::prelude::*;

verus! {

/// A failure of the durable store.
#[derive(Debug)]
pub enum StoreError {
    /// What is stored contradicts what the library writes.
    Invariant(String),
    /// The database refused an operation.
    Database(String),
}

/// The message of a store failure.
pub open spec fn store_error_text(error: StoreError) -> Seq<char> {
    match error {
        StoreError::Invariant(detail) => "Stripe Subscription storage invariant failed: "@
            + detail@,
        StoreError::Database(detail) => "Stripe Subscription PostgreSQL operation failed: "@
            + detail@,
    }
}

impl StoreError {
    /// Writes the message of a store failure.
    pub fn message(&self) -> (r: String)
        ensures
            r@ == store_error_text(*self),
    {
        match self {
            StoreError::Invariant(detail) => {
                let mut text = "Stripe Subscription storage invariant failed: ".to_owned();
                text.append(detail.as_str());
                text
            },
            StoreError::Database(detail) => {
                let mut text = "Stripe Subscription PostgreSQL operation failed: ".to_owned();
                text.append(detail.as_str());
                text
            },
        }
    }
}

/// What the database says of a counter or a time that would leave its range.
pub const OUT_OF_RANGE: &'static str = "error returned from database: bigint out of range";

/// Makes the failure of a counter or a time that would leave its range.
pub fn out_of_range() -> (r: StoreError)
    ensures
        r matches StoreError::Database(detail) && detail@ == OUT_OF_RANGE@,
{
    StoreError::Database(OUT_OF_RANGE.to_owned())
}

/// Writes `head`, a value in backquotes.
pub fn quoted(head: &str, value: &str) -> (r: String)
    ensures
        r@ == quoted_text(head@, value@),
{
    let mut text = head.to_owned();
    text.append(" `");
    text.append(value);
    text.append("`");
    text
}

/// `head` followed by a value in backquotes.
pub open spec fn quoted_text(head: Seq<char>, value: Seq<char>) -> Seq<char> {
    head + " `"@ + value + "`"@
}

/// The message of a store failure says what kind it is, and ends with its detail.
pub proof fn law_store_failures_are_told(detail: String)
    ensures
        store_error_text(StoreError::Invariant(detail))
            == "Stripe Subscription storage invariant failed: "@ + detail@,
        store_error_text(StoreError::Database(detail))
            == "Stripe Subscription PostgreSQL operation failed: "@ + detail@,
{
}

/// A quoted value stands between backquotes, behind the head and a space, and ends the text.
pub proof fn law_quoted_values_are_enclosed(head: Seq<char>, value: Seq<char>)
    ensures
        ({
            let text = quoted_text(head, value);
            let start = head.len() as int;
            &&& text.len() == start + value.len() + 3
            &&& text.take(start) == head
            &&& text[start] == ' ' && text[start + 1] == '`' && text[text.len() - 1] == '`'
            &&& text.subrange(start + 2, text.len() - 1) == value
        }),
{
    reveal_strlit(" `");
    reveal_strlit("`");
    let text = quoted_text(head, value);
    assert(" `"@.len() == 2 && "`"@.len() == 1);
    assert(" `"@[0] == ' ' && " `"@[1] == '`' && "`"@[0] == '`');
    assert(text.take(head.len() as int) == head);
    assert(text.subrange(head.len() as int + 2, text.len() - 1) == value);
}

} // verus!
