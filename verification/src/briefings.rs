//! The candidate briefing page: the briefing form and section styling.

use vstd::prelude::*;
use vstd::string::*;
use crate::text::{items_spec, line_items, lines_spec, text_eq, trim_spec, trimmed};

verus! {

broadcast use vstd::string::group_string_axioms;

/// The badge class of a briefing section priority.
pub open spec fn priority_badge_class_spec(priority: Seq<char>) -> Seq<char> {
    if priority == "high"@ {
        "badge badge-error badge-sm"@
    } else if priority == "medium"@ {
        "badge badge-warning badge-sm"@
    } else if priority == "low"@ {
        "badge badge-info badge-sm"@
    } else {
        "badge badge-ghost badge-sm"@
    }
}

/// Each priority has its own badge colour: the error badge marks exactly a
/// high priority, the warning badge exactly a medium one and the info badge
/// exactly a low one.
pub proof fn priority_colours_are_distinct(x: Seq<char>)
    ensures
        priority_badge_class_spec(x) == "badge badge-error badge-sm"@ <==> x == "high"@,
        priority_badge_class_spec(x) == "badge badge-warning badge-sm"@ <==> x == "medium"@,
        priority_badge_class_spec(x) == "badge badge-info badge-sm"@ <==> x == "low"@,
{
    reveal_strlit("badge badge-error badge-sm");
    reveal_strlit("badge badge-ghost badge-sm");
    reveal_strlit("badge badge-info badge-sm");
    reveal_strlit("badge badge-warning badge-sm");
    assert("badge badge-error badge-sm"@[12] != "badge badge-ghost badge-sm"@[12]);
    assert("badge badge-error badge-sm"@.len() != "badge badge-info badge-sm"@.len());
    assert("badge badge-error badge-sm"@.len() != "badge badge-warning badge-sm"@.len());
    assert("badge badge-ghost badge-sm"@.len() != "badge badge-info badge-sm"@.len());
    assert("badge badge-ghost badge-sm"@.len() != "badge badge-warning badge-sm"@.len());
    assert("badge badge-info badge-sm"@.len() != "badge badge-warning badge-sm"@.len());
    reveal_strlit("high");
    reveal_strlit("medium");
    reveal_strlit("low");
    assert("high"@.len() != "medium"@.len());
    assert("high"@.len() != "low"@.len());
    assert("medium"@.len() != "low"@.len());
}

/// The badge class of a briefing section priority.
pub fn priority_badge_class(priority: &str) -> (r: &'static str)
    ensures
        r@ == priority_badge_class_spec(priority@),
{
    if text_eq(priority, "high") {
        "badge badge-error badge-sm"
    } else if text_eq(priority, "medium") {
        "badge badge-warning badge-sm"
    } else if text_eq(priority, "low") {
        "badge badge-info badge-sm"
    } else {
        "badge badge-ghost badge-sm"
    }
}

/// The short label of a briefing section priority (others as they are).
pub open spec fn priority_label_spec(priority: Seq<char>) -> Seq<char> {
    if priority == "high"@ {
        "HIGH"@
    } else if priority == "medium"@ {
        "MED"@
    } else if priority == "low"@ {
        "LOW"@
    } else {
        priority
    }
}

/// The short label of a briefing section priority (others as they are).
pub fn priority_label<'a>(priority: &'a str) -> (r: &'a str)
    ensures
        r@ == priority_label_spec(priority@),
{
    if text_eq(priority, "high") {
        "HIGH"
    } else if text_eq(priority, "medium") {
        "MED"
    } else if text_eq(priority, "low") {
        "LOW"
    } else {
        priority
    }
}

/// The panel class of a briefing section by priority.
pub open spec fn priority_panel_class_spec(priority: Seq<char>) -> Seq<char> {
    if priority == "high"@ {
        "collapse collapse-arrow bg-error/5 border border-error/20 rounded-lg"@
    } else if priority == "medium"@ {
        "collapse collapse-arrow bg-warning/5 border border-warning/20 rounded-lg"@
    } else {
        "collapse collapse-arrow bg-base-100 border border-base-300 rounded-lg"@
    }
}

/// The panel class of a briefing section by priority.
pub fn priority_panel_class(priority: &str) -> (r: &'static str)
    ensures
        r@ == priority_panel_class_spec(priority@),
{
    if text_eq(priority, "high") {
        "collapse collapse-arrow bg-error/5 border border-error/20 rounded-lg"
    } else if text_eq(priority, "medium") {
        "collapse collapse-arrow bg-warning/5 border border-warning/20 rounded-lg"
    } else {
        "collapse collapse-arrow bg-base-100 border border-base-300 rounded-lg"
    }
}

/// What `priority_panel_class` gives tells the values apart: each result below is given
/// for exactly the values listed with it, and every other value gets
/// "collapse collapse-arrow bg-base-100 border border-base-300 rounded-lg".
pub proof fn priority_panel_class_by_value(x: Seq<char>)
    ensures
        priority_panel_class_spec(x) == "collapse collapse-arrow bg-error/5 border border-error/20 rounded-lg"@ <==> x == "high"@,
        priority_panel_class_spec(x) == "collapse collapse-arrow bg-warning/5 border border-warning/20 rounded-lg"@ <==> x == "medium"@,
        priority_panel_class_spec(x) == "collapse collapse-arrow bg-base-100 border border-base-300 rounded-lg"@ <==> !(x == "high"@ || x == "medium"@),
{
    reveal_strlit("collapse collapse-arrow bg-base-100 border border-base-300 rounded-lg");
    reveal_strlit("collapse collapse-arrow bg-error/5 border border-error/20 rounded-lg");
    reveal_strlit("collapse collapse-arrow bg-warning/5 border border-warning/20 rounded-lg");
    reveal_strlit("high");
    reveal_strlit("medium");
    assert("collapse collapse-arrow bg-base-100 border border-base-300 rounded-lg"@.len() != "collapse collapse-arrow bg-error/5 border border-error/20 rounded-lg"@.len());
    assert("collapse collapse-arrow bg-base-100 border border-base-300 rounded-lg"@.len() != "collapse collapse-arrow bg-warning/5 border border-warning/20 rounded-lg"@.len());
    assert("collapse collapse-arrow bg-error/5 border border-error/20 rounded-lg"@.len() != "collapse collapse-arrow bg-warning/5 border border-warning/20 rounded-lg"@.len());
    assert("high"@.len() != "medium"@.len());
}

/// High priority sections start expanded.
pub fn starts_expanded(priority: &str) -> (r: bool)
    ensures
        r == (priority@ == "high"@),
{
    text_eq(priority, "high")
}

/// What a briefing is generated from.
pub struct BriefingRequest {
    pub event_type: String,
    pub topics: Vec<String>,
    pub audience: String,
    pub context: String,
}

/// Reads the briefing form: the event type as chosen, the non-empty
/// trimmed topic lines, and the trimmed audience and context.
pub fn prepare_briefing(event_type: &str, topics_text: &str, audience: &str, context: &str) -> (r:
    BriefingRequest)
    ensures
        r.event_type@ == event_type@,
        r.topics.deep_view() == items_spec(lines_spec(topics_text@)),
        r.audience@ == trim_spec(audience@),
        r.context@ == trim_spec(context@),
{
    BriefingRequest {
        event_type: String::from_str(event_type),
        topics: line_items(topics_text),
        audience: trimmed(audience),
        context: trimmed(context),
    }
}

} // verus!
