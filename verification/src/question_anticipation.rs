//! The question anticipation page: the event form, likelihood badges and
//! the expanded answers.

use vstd::prelude::*;
use vstd::string::*;
use crate::selection::{lemma_toggle_found, lemma_toggle_missing, same, toggle_spec};
use crate::text::{text_eq, trim, trim_spec};

verus! {

broadcast use vstd::string::group_string_axioms;

/// The badge class of a question likelihood.
pub open spec fn likelihood_badge_class_spec(likelihood: Seq<char>) -> Seq<char> {
    if likelihood == "high"@ {
        "badge badge-error"@
    } else if likelihood == "medium"@ {
        "badge badge-warning"@
    } else if likelihood == "low"@ {
        "badge badge-info"@
    } else {
        "badge"@
    }
}

/// The badge class of a question likelihood.
pub fn likelihood_badge_class(likelihood: &str) -> (r: &'static str)
    ensures
        r@ == likelihood_badge_class_spec(likelihood@),
{
    if text_eq(likelihood, "high") {
        "badge badge-error"
    } else if text_eq(likelihood, "medium") {
        "badge badge-warning"
    } else if text_eq(likelihood, "low") {
        "badge badge-info"
    } else {
        "badge"
    }
}

/// What `likelihood_badge_class` gives tells the values apart: each result below is given
/// for exactly the values listed with it, and every other value gets
/// "badge".
pub proof fn likelihood_badge_class_by_value(x: Seq<char>)
    ensures
        likelihood_badge_class_spec(x) == "badge badge-error"@ <==> x == "high"@,
        likelihood_badge_class_spec(x) == "badge badge-warning"@ <==> x == "medium"@,
        likelihood_badge_class_spec(x) == "badge badge-info"@ <==> x == "low"@,
        likelihood_badge_class_spec(x) == "badge"@ <==> !(x == "high"@ || x == "medium"@ || x == "low"@),
{
    reveal_strlit("badge");
    reveal_strlit("badge badge-error");
    reveal_strlit("badge badge-info");
    reveal_strlit("badge badge-warning");
    reveal_strlit("high");
    reveal_strlit("medium");
    reveal_strlit("low");
    assert("badge"@.len() != "badge badge-error"@.len());
    assert("badge"@.len() != "badge badge-info"@.len());
    assert("badge"@.len() != "badge badge-warning"@.len());
    assert("badge badge-error"@.len() != "badge badge-info"@.len());
    assert("badge badge-error"@.len() != "badge badge-warning"@.len());
    assert("badge badge-info"@.len() != "badge badge-warning"@.len());
    assert("high"@.len() != "medium"@.len());
    assert("high"@.len() != "low"@.len());
    assert("medium"@.len() != "low"@.len());
}

/// What questions are anticipated from: the trimmed context, the event
/// type and the hot topics as entered.
pub struct QuestionRequest {
    pub context: String,
    pub event_type: String,
    pub hot_topics: String,
}

/// Reads the event form: the trimmed context is required.
pub fn prepare_questions(context: &str, event_type: &str, hot_topics: &str) -> (r: Result<
    QuestionRequest,
    &'static str,
>)
    ensures
        trim_spec(context@).len() == 0 ==> r == Err::<QuestionRequest, &'static str>(
            "Please provide context for the event.",
        ),
        trim_spec(context@).len() > 0 ==> (r matches Ok(q) && q.context@ == trim_spec(context@)
            && q.event_type@ == event_type@ && q.hot_topics@ == hot_topics@),
{
    let c = trim(context);
    if c.is_empty() {
        return Err("Please provide context for the event.");
    }
    Ok(QuestionRequest {
        context: String::from_str(c),
        event_type: String::from_str(event_type),
        hot_topics: String::from_str(hot_topics),
    })
}

/// Opens or closes the answer of question `idx`.
pub fn toggle_expanded(expanded: &mut Vec<usize>, idx: usize)
    ensures
        final(expanded)@ == toggle_spec(old(expanded)@, same::<usize>(), idx),
{
    let ghost l = expanded@;
    let mut i: usize = 0;
    while i < expanded.len()
        invariant
            expanded@ == l,
            l == old(expanded)@,
            i <= expanded.len(),
            forall|j: int| 0 <= j < i ==> l[j] != idx,
        decreases expanded.len() - i,
    {
        if expanded[i] == idx {
            proof {
                let key = same::<usize>();
                assert forall|j: int| 0 <= j < i implies key(#[trigger] l[j]) != key(idx) by {}
                lemma_toggle_found(l, key, idx, i as int);
            }
            expanded.remove(i);
            return;
        }
        i += 1;
    }
    proof {
        let key = same::<usize>();
        assert forall|j: int| 0 <= j < l.len() implies key(#[trigger] l[j]) != key(idx) by {}
        lemma_toggle_missing(l, key, idx);
    }
    expanded.push(idx);
}

} // verus!
