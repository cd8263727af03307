//! Listing stored games: the statement that selects them and how a row is shown.
use vstd::prelude::*;

verus! {

/// The statement that lists game names, filtered by a `WHERE` condition;
/// without a condition every game is listed.
pub open spec fn select_statement_spec(filter: Option<Seq<char>>) -> Seq<char> {
    "select name from boardgame where "@ + match filter {
        Some(f) => f,
        None => "true"@,
    }
}

/// The statement that lists game names, filtered by the given `WHERE`
/// condition (all games when there is none).
pub fn select_statement(filter: Option<String>) -> (q: String)
    ensures
        q@ == select_statement_spec(match filter {
            Some(f) => Some(f@),
            None => None,
        }),
{
    let mut q = String::from_str("select name from boardgame where ");
    match filter {
        Some(f) => q.append(f.as_str()),
        None => q.append("true"),
    }
    q
}

/// The listing statement ends with the given condition, unchanged and whatever
/// its length, after `select name from boardgame where `; without a condition
/// it ends with `true`.
pub proof fn law_select_keeps_condition(f: Seq<char>)
    ensures
        select_statement_spec(Some(f)) == "select name from boardgame where "@ + f,
        select_statement_spec(Some(f)).len() == "select name from boardgame where "@.len() + f.len(),
        select_statement_spec(None) == "select name from boardgame where "@ + "true"@,
{
}

/// The text shown for a listed game: its name, or `???` when it has none.
pub fn display_name(name: Option<String>) -> (s: String)
    ensures
        s@ == match name {
            Some(n) => n@,
            None => "???"@,
        },
{
    match name {
        Some(n) => n,
        None => String::from_str("???"),
    }
}

} // verus!
