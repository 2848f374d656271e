//! Pieces every form of the pages shares: required trimmed fields, the
//! message shown when a server call fails, and tab classes.

use vstd::prelude::*;
use vstd::string::*;
use crate::text::{trim, trim_spec};

verus! {

broadcast use vstd::string::group_string_axioms;

/// What a required field gives: its trimmed text, or `message` when that
/// is empty.
pub open spec fn required_spec(value: Seq<char>, message: Seq<char>) -> Result<
    Seq<char>,
    Seq<char>,
> {
    if trim_spec(value).len() == 0 {
        Err(message)
    } else {
        Ok(trim_spec(value))
    }
}

/// The view of a validation outcome.
pub open spec fn outcome_view(r: Result<String, &'static str>) -> Result<Seq<char>, Seq<char>> {
    match r {
        Ok(v) => Ok(v@),
        Err(m) => Err(m@),
    }
}

/// Reads a required field: its trimmed text, or `message` when empty.
pub fn require_text(value: &str, message: &'static str) -> (r: Result<String, &'static str>)
    ensures
        outcome_view(r) == required_spec(value@, message@),
        r is Err ==> r == Err::<String, &'static str>(message),
{
    let t = trim(value);
    if t.is_empty() {
        Err(message)
    } else {
        Ok(String::from_str(t))
    }
}

/// The view of an optional text.
pub open spec fn opt_view(o: Option<String>) -> Option<Seq<char>> {
    match o {
        Some(t) => Some(t@),
        None => None,
    }
}

/// What an optional field gives: nothing when its trimmed text is empty,
/// otherwise that trimmed text.
pub open spec fn optional_spec(value: Seq<char>) -> Option<Seq<char>> {
    if trim_spec(value).len() == 0 {
        None
    } else {
        Some(trim_spec(value))
    }
}

/// Reads an optional field: `None` when blank, else its trimmed text.
pub fn optional_text(value: &str) -> (r: Option<String>)
    ensures
        opt_view(r) == optional_spec(value@),
{
    let t = trim(value);
    if t.is_empty() {
        None
    } else {
        Some(String::from_str(t))
    }
}

/// A text that may be missing, shown as `fallback` when it is.
pub fn text_or<'a>(value: Option<&'a str>, fallback: &'a str) -> (r: &'a str)
    ensures
        value matches Some(v) ==> r@ == v@,
        value is None ==> r@ == fallback@,
{
    match value {
        Some(v) => v,
        None => fallback,
    }
}

/// The message shown when a server call fails: the page's prefix followed
/// by the error text (`format!("{prefix}{e}")`).
pub fn failure_message(prefix: &str, error: &str) -> (r: String)
    ensures
        r@ == prefix@ + error@,
{
    String::from_str(prefix).concat(error)
}

/// The class of a tab button.
pub fn tab_class(active: bool) -> (r: &'static str)
    ensures
        active ==> r@ == "tab tab-active"@,
        !active ==> r@ == "tab"@,
{
    if active {
        "tab tab-active"
    } else {
        "tab"
    }
}

} // verus!
