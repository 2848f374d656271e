//! The policy diff page: the comparison form and change badges.

use vstd::prelude::*;
use vstd::string::*;
use crate::text::{text_eq, trim, trim_spec, trimmed};

verus! {

broadcast use vstd::string::group_string_axioms;

/// The badge class of a change significance.
pub open spec fn significance_badge_spec(significance: Seq<char>) -> Seq<char> {
    if significance == "high"@ {
        "badge badge-error"@
    } else if significance == "medium"@ {
        "badge badge-warning"@
    } else if significance == "low"@ {
        "badge badge-info"@
    } else {
        "badge badge-ghost"@
    }
}

/// The badge class of a change significance.
pub fn significance_badge(significance: &str) -> (r: &'static str)
    ensures
        r@ == significance_badge_spec(significance@),
{
    if text_eq(significance, "high") {
        "badge badge-error"
    } else if text_eq(significance, "medium") {
        "badge badge-warning"
    } else if text_eq(significance, "low") {
        "badge badge-info"
    } else {
        "badge badge-ghost"
    }
}

/// What `significance_badge` gives tells the values apart: each result below is given
/// for exactly the values listed with it, and every other value gets
/// "badge badge-ghost".
pub proof fn significance_badge_by_value(x: Seq<char>)
    ensures
        significance_badge_spec(x) == "badge badge-error"@ <==> x == "high"@,
        significance_badge_spec(x) == "badge badge-warning"@ <==> x == "medium"@,
        significance_badge_spec(x) == "badge badge-info"@ <==> x == "low"@,
        significance_badge_spec(x) == "badge badge-ghost"@ <==> !(x == "high"@ || x == "medium"@ || x == "low"@),
{
    reveal_strlit("badge badge-error");
    reveal_strlit("badge badge-ghost");
    reveal_strlit("badge badge-info");
    reveal_strlit("badge badge-warning");
    reveal_strlit("high");
    reveal_strlit("medium");
    reveal_strlit("low");
    assert("badge badge-error"@[12] != "badge badge-ghost"@[12]);
    assert("badge badge-error"@.len() != "badge badge-info"@.len());
    assert("badge badge-error"@.len() != "badge badge-warning"@.len());
    assert("badge badge-ghost"@.len() != "badge badge-info"@.len());
    assert("badge badge-ghost"@.len() != "badge badge-warning"@.len());
    assert("badge badge-info"@.len() != "badge badge-warning"@.len());
    assert("high"@.len() != "medium"@.len());
    assert("high"@.len() != "low"@.len());
    assert("medium"@.len() != "low"@.len());
}

/// The badge class of a change type.
pub open spec fn change_type_badge_spec(change_type: Seq<char>) -> Seq<char> {
    if change_type == "added"@ {
        "badge badge-success"@
    } else if change_type == "removed"@ {
        "badge badge-error"@
    } else if change_type == "modified"@ {
        "badge badge-warning"@
    } else if change_type == "reworded"@ {
        "badge badge-info"@
    } else {
        "badge badge-ghost"@
    }
}

/// The badge class of a change type.
pub fn change_type_badge(change_type: &str) -> (r: &'static str)
    ensures
        r@ == change_type_badge_spec(change_type@),
{
    if text_eq(change_type, "added") {
        "badge badge-success"
    } else if text_eq(change_type, "removed") {
        "badge badge-error"
    } else if text_eq(change_type, "modified") {
        "badge badge-warning"
    } else if text_eq(change_type, "reworded") {
        "badge badge-info"
    } else {
        "badge badge-ghost"
    }
}

/// What `change_type_badge` gives tells the values apart: each result below is given
/// for exactly the values listed with it, and every other value gets
/// "badge badge-ghost".
pub proof fn change_type_badge_by_value(x: Seq<char>)
    ensures
        change_type_badge_spec(x) == "badge badge-success"@ <==> x == "added"@,
        change_type_badge_spec(x) == "badge badge-error"@ <==> x == "removed"@,
        change_type_badge_spec(x) == "badge badge-warning"@ <==> x == "modified"@,
        change_type_badge_spec(x) == "badge badge-info"@ <==> x == "reworded"@,
        change_type_badge_spec(x) == "badge badge-ghost"@ <==> !(x == "added"@ || x == "removed"@ || x == "modified"@ || x == "reworded"@),
{
    reveal_strlit("badge badge-error");
    reveal_strlit("badge badge-ghost");
    reveal_strlit("badge badge-info");
    reveal_strlit("badge badge-success");
    reveal_strlit("badge badge-warning");
    reveal_strlit("added");
    reveal_strlit("removed");
    reveal_strlit("modified");
    reveal_strlit("reworded");
    assert("badge badge-error"@[12] != "badge badge-ghost"@[12]);
    assert("badge badge-error"@.len() != "badge badge-info"@.len());
    assert("badge badge-error"@.len() != "badge badge-success"@.len());
    assert("badge badge-error"@.len() != "badge badge-warning"@.len());
    assert("badge badge-ghost"@.len() != "badge badge-info"@.len());
    assert("badge badge-ghost"@.len() != "badge badge-success"@.len());
    assert("badge badge-ghost"@.len() != "badge badge-warning"@.len());
    assert("badge badge-info"@.len() != "badge badge-success"@.len());
    assert("badge badge-info"@.len() != "badge badge-warning"@.len());
    assert("badge badge-success"@[12] != "badge badge-warning"@[12]);
    assert("added"@.len() != "removed"@.len());
    assert("added"@.len() != "modified"@.len());
    assert("added"@.len() != "reworded"@.len());
    assert("removed"@.len() != "modified"@.len());
    assert("removed"@.len() != "reworded"@.len());
    assert("modified"@[0] != "reworded"@[0]);
}

/// What two policy documents are compared with, in the order the diff
/// call takes them.
pub struct DiffRequest {
    pub a_text: String,
    pub a_title: String,
    pub b_text: String,
    pub b_title: String,
}

/// Reads the diff form: both trimmed texts are required; titles are
/// trimmed.
pub fn prepare_diff(a_title: &str, a_text: &str, b_title: &str, b_text: &str) -> (r: Result<
    DiffRequest,
    &'static str,
>)
    ensures
        (trim_spec(a_text@).len() == 0 || trim_spec(b_text@).len() == 0) ==> r == Err::<
            DiffRequest,
            &'static str,
        >("Both documents must have content."),
        (trim_spec(a_text@).len() > 0 && trim_spec(b_text@).len() > 0) ==> (r matches Ok(q)
            && q.a_text@ == trim_spec(a_text@) && q.a_title@ == trim_spec(a_title@) && q.b_text@
            == trim_spec(b_text@) && q.b_title@ == trim_spec(b_title@)),
{
    let at = trim(a_text);
    let bt = trim(b_text);
    if at.is_empty() || bt.is_empty() {
        return Err("Both documents must have content.");
    }
    Ok(DiffRequest {
        a_text: String::from_str(at),
        a_title: trimmed(a_title),
        b_text: String::from_str(bt),
        b_title: trimmed(b_title),
    })
}

} // verus!
