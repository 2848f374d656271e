//! The regulatory monitor page: filter, brief and impact forms and urgency
//! badges.

use vstd::prelude::*;
use vstd::string::*;
use crate::numbers::{digits_spec, format_u64};
use crate::text::{copy_texts, text_eq, trim, trim_spec, trimmed};

verus! {

broadcast use vstd::string::group_string_axioms;

/// The badge class of a regulatory urgency.
pub open spec fn urgency_badge_spec(urgency: Seq<char>) -> Seq<char> {
    if urgency == "urgent"@ {
        "badge badge-error"@
    } else if urgency == "important"@ {
        "badge badge-warning"@
    } else if urgency == "routine"@ {
        "badge badge-info"@
    } else {
        "badge badge-ghost"@
    }
}

/// The badge class of a regulatory urgency.
pub fn urgency_badge(urgency: &str) -> (r: &'static str)
    ensures
        r@ == urgency_badge_spec(urgency@),
{
    if text_eq(urgency, "urgent") {
        "badge badge-error"
    } else if text_eq(urgency, "important") {
        "badge badge-warning"
    } else if text_eq(urgency, "routine") {
        "badge badge-info"
    } else {
        "badge badge-ghost"
    }
}

/// What `urgency_badge` gives tells the values apart: each result below is given
/// for exactly the values listed with it, and every other value gets
/// "badge badge-ghost".
pub proof fn urgency_badge_by_value(x: Seq<char>)
    ensures
        urgency_badge_spec(x) == "badge badge-error"@ <==> x == "urgent"@,
        urgency_badge_spec(x) == "badge badge-warning"@ <==> x == "important"@,
        urgency_badge_spec(x) == "badge badge-info"@ <==> x == "routine"@,
        urgency_badge_spec(x) == "badge badge-ghost"@ <==> !(x == "urgent"@ || x == "important"@ || x == "routine"@),
{
    reveal_strlit("badge badge-error");
    reveal_strlit("badge badge-ghost");
    reveal_strlit("badge badge-info");
    reveal_strlit("badge badge-warning");
    reveal_strlit("urgent");
    reveal_strlit("important");
    reveal_strlit("routine");
    assert("badge badge-error"@[12] != "badge badge-ghost"@[12]);
    assert("badge badge-error"@.len() != "badge badge-info"@.len());
    assert("badge badge-error"@.len() != "badge badge-warning"@.len());
    assert("badge badge-ghost"@.len() != "badge badge-info"@.len());
    assert("badge badge-ghost"@.len() != "badge badge-warning"@.len());
    assert("badge badge-info"@.len() != "badge badge-warning"@.len());
    assert("urgent"@.len() != "important"@.len());
    assert("urgent"@.len() != "routine"@.len());
    assert("important"@.len() != "routine"@.len());
}

/// The urgency filter passed to the update list: none for `"all"`.
pub fn urgency_filter(filter: &str) -> (r: Option<String>)
    ensures
        filter@ == "all"@ ==> r is None,
        filter@ != "all"@ ==> (r matches Some(f) && f@ == filter@),
{
    if text_eq(filter, "all") {
        None
    } else {
        Some(String::from_str(filter))
    }
}

/// Reads the brief request: at least one update must be selected.
pub fn prepare_brief(selected_ids: &Vec<String>) -> (r: Result<Vec<String>, &'static str>)
    ensures
        selected_ids.len() == 0 ==> r == Err::<Vec<String>, &'static str>(
            "Select at least one update for the brief.",
        ),
        selected_ids.len() > 0 ==> (r matches Ok(ids) && ids.deep_view() == selected_ids.deep_view()),
{
    if selected_ids.len() == 0 {
        return Err("Select at least one update for the brief.");
    }
    Ok(copy_texts(selected_ids))
}

/// Reads the impact form: the trimmed update text is required; the trimmed
/// context goes along.
pub fn prepare_impact(text: &str, context: &str) -> (r: Result<(String, String), &'static str>)
    ensures
        trim_spec(text@).len() == 0 ==> r == Err::<(String, String), &'static str>(
            "Regulatory update text is required.",
        ),
        trim_spec(text@).len() > 0 ==> (r matches Ok(q) && q.0@ == trim_spec(text@) && q.1@
            == trim_spec(context@)),
{
    let t = trim(text);
    if t.is_empty() {
        return Err("Regulatory update text is required.");
    }
    Ok((String::from_str(t), trimmed(context)))
}

/// The label of the brief button.
pub fn brief_button_label(selected: usize) -> (r: String)
    ensures
        r@ == "Generate Brief ("@ + digits_spec(selected as nat) + " selected)"@,
{
    let n = format_u64(selected as u64);
    String::from_str("Generate Brief (").concat(n.as_str()).concat(" selected)")
}

} // verus!
