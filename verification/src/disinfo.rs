//! The disinformation watch page: analysis and counter-messaging forms
//! and risk badges.

use vstd::prelude::*;
use vstd::string::*;
use crate::text::{text_eq, trim, trim_spec, trimmed};

verus! {

broadcast use vstd::string::group_string_axioms;

/// The badge class of a disinformation risk level.
pub open spec fn risk_badge_spec(level: Seq<char>) -> Seq<char> {
    if level == "high"@ {
        "badge badge-error badge-lg"@
    } else if level == "medium"@ {
        "badge badge-warning badge-lg"@
    } else if level == "low"@ {
        "badge badge-success badge-lg"@
    } else {
        "badge badge-ghost badge-lg"@
    }
}

/// The badge class of a disinformation risk level.
pub fn risk_badge(level: &str) -> (r: &'static str)
    ensures
        r@ == risk_badge_spec(level@),
{
    if text_eq(level, "high") {
        "badge badge-error badge-lg"
    } else if text_eq(level, "medium") {
        "badge badge-warning badge-lg"
    } else if text_eq(level, "low") {
        "badge badge-success badge-lg"
    } else {
        "badge badge-ghost badge-lg"
    }
}

/// What `risk_badge` gives tells the values apart: each result below is given
/// for exactly the values listed with it, and every other value gets
/// "badge badge-ghost badge-lg".
pub proof fn risk_badge_by_value(x: Seq<char>)
    ensures
        risk_badge_spec(x) == "badge badge-error badge-lg"@ <==> x == "high"@,
        risk_badge_spec(x) == "badge badge-warning badge-lg"@ <==> x == "medium"@,
        risk_badge_spec(x) == "badge badge-success badge-lg"@ <==> x == "low"@,
        risk_badge_spec(x) == "badge badge-ghost badge-lg"@ <==> !(x == "high"@ || x == "medium"@ || x == "low"@),
{
    reveal_strlit("badge badge-error badge-lg");
    reveal_strlit("badge badge-ghost badge-lg");
    reveal_strlit("badge badge-success badge-lg");
    reveal_strlit("badge badge-warning badge-lg");
    reveal_strlit("high");
    reveal_strlit("medium");
    reveal_strlit("low");
    assert("badge badge-error badge-lg"@[12] != "badge badge-ghost badge-lg"@[12]);
    assert("badge badge-error badge-lg"@.len() != "badge badge-success badge-lg"@.len());
    assert("badge badge-error badge-lg"@.len() != "badge badge-warning badge-lg"@.len());
    assert("badge badge-ghost badge-lg"@.len() != "badge badge-success badge-lg"@.len());
    assert("badge badge-ghost badge-lg"@.len() != "badge badge-warning badge-lg"@.len());
    assert("badge badge-success badge-lg"@[12] != "badge badge-warning badge-lg"@[12]);
    assert("high"@.len() != "medium"@.len());
    assert("high"@.len() != "low"@.len());
    assert("medium"@.len() != "low"@.len());
}

/// Reads the analysis form: the trimmed content is required; the trimmed
/// source context goes along (possibly empty).
pub fn prepare_disinfo_analysis(content: &str, source_context: &str) -> (r: Result<
    (String, String),
    &'static str,
>)
    ensures
        trim_spec(content@).len() == 0 ==> r == Err::<(String, String), &'static str>(
            "Content is required for analysis.",
        ),
        trim_spec(content@).len() > 0 ==> (r matches Ok(q) && q.0@ == trim_spec(content@)
            && q.1@ == trim_spec(source_context@)),
{
    let t = trim(content);
    if t.is_empty() {
        return Err("Content is required for analysis.");
    }
    Ok((String::from_str(t), trimmed(source_context)))
}

/// What a counter-response is requested with: nothing without an analysis,
/// otherwise the analysed content and the trimmed audience.
pub fn prepare_counter_response(analysed_content: Option<&str>, audience: &str) -> (r: Option<
    (String, String),
>)
    ensures
        analysed_content is None ==> r is None,
        analysed_content matches Some(c) ==> (r matches Some(q) && q.0@ == c@ && q.1@
            == trim_spec(audience@)),
{
    match analysed_content {
        None => None,
        Some(c) => Some((String::from_str(c), trimmed(audience))),
    }
}

} // verus!
