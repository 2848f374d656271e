//! The call intelligence page: the transcript form and sentiment badges.

use vstd::prelude::*;
use crate::forms::{outcome_view, require_text, required_spec};
use crate::text::text_eq;

verus! {

broadcast use vstd::string::group_string_axioms;

/// The badge class of a call sentiment.
pub open spec fn sentiment_badge_class_spec(sentiment: Seq<char>) -> Seq<char> {
    if sentiment == "positive"@ {
        "badge badge-success"@
    } else if sentiment == "negative"@ {
        "badge badge-error"@
    } else if sentiment == "mixed"@ {
        "badge badge-warning"@
    } else {
        "badge badge-info"@
    }
}

/// The badge class of a call sentiment.
pub fn sentiment_badge_class(sentiment: &str) -> (r: &'static str)
    ensures
        r@ == sentiment_badge_class_spec(sentiment@),
{
    if text_eq(sentiment, "positive") {
        "badge badge-success"
    } else if text_eq(sentiment, "negative") {
        "badge badge-error"
    } else if text_eq(sentiment, "mixed") {
        "badge badge-warning"
    } else {
        "badge badge-info"
    }
}

/// What `sentiment_badge_class` gives tells the values apart: each result below is given
/// for exactly the values listed with it, and every other value gets
/// "badge badge-info".
pub proof fn sentiment_badge_class_by_value(x: Seq<char>)
    ensures
        sentiment_badge_class_spec(x) == "badge badge-success"@ <==> x == "positive"@,
        sentiment_badge_class_spec(x) == "badge badge-error"@ <==> x == "negative"@,
        sentiment_badge_class_spec(x) == "badge badge-warning"@ <==> x == "mixed"@,
        sentiment_badge_class_spec(x) == "badge badge-info"@ <==> !(x == "positive"@ || x == "negative"@ || x == "mixed"@),
{
    reveal_strlit("badge badge-error");
    reveal_strlit("badge badge-info");
    reveal_strlit("badge badge-success");
    reveal_strlit("badge badge-warning");
    reveal_strlit("positive");
    reveal_strlit("negative");
    reveal_strlit("mixed");
    assert("badge badge-error"@.len() != "badge badge-info"@.len());
    assert("badge badge-error"@.len() != "badge badge-success"@.len());
    assert("badge badge-error"@.len() != "badge badge-warning"@.len());
    assert("badge badge-info"@.len() != "badge badge-success"@.len());
    assert("badge badge-info"@.len() != "badge badge-warning"@.len());
    assert("badge badge-success"@[12] != "badge badge-warning"@[12]);
    assert("positive"@[0] != "negative"@[0]);
    assert("positive"@.len() != "mixed"@.len());
    assert("negative"@.len() != "mixed"@.len());
}

/// Reads the call form: the trimmed transcript is required.
pub fn prepare_call_analysis(transcript: &str) -> (r: Result<String, &'static str>)
    ensures
        outcome_view(r) == required_spec(
            transcript@,
            "Please enter a call transcript to analyze."@,
        ),
{
    require_text(transcript, "Please enter a call transcript to analyze.")
}

} // verus!
