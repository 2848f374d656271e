//! The coalition tension page: the segment selection, the analysis form
//! and tension badges.

use vstd::prelude::*;
use vstd::string::*;
use crate::selection::{has_key, lemma_toggle_found, lemma_toggle_missing, toggle_spec};
use crate::text::{text_eq, trim, trim_spec};

verus! {

broadcast use vstd::string::group_string_axioms;

/// A constituent group of the coalition.
pub struct CoalitionSegment {
    pub name: String,
    pub description: String,
    pub key_priorities: Vec<String>,
}

/// Segments are told apart by their names.
pub open spec fn segment_name() -> spec_fn(CoalitionSegment) -> Seq<char> {
    |s: CoalitionSegment| s.name@
}

/// Whether a segment of that name is selected.
pub fn segment_selected(selected: &Vec<CoalitionSegment>, name: &str) -> (r: bool)
    ensures
        r == has_key(selected@, segment_name(), name@),
{
    let mut i: usize = 0;
    while i < selected.len()
        invariant
            i <= selected.len(),
            forall|j: int| 0 <= j < i ==> (#[trigger] selected@[j]).name@ != name@,
        decreases selected.len() - i,
    {
        if text_eq(selected[i].name.as_str(), name) {
            proof {
                assert(segment_name()(selected@[i as int]) == name@);
            }
            return true;
        }
        i += 1;
    }
    proof {
        if has_key(selected@, segment_name(), name@) {
            let j = choose|j: int|
                0 <= j < selected@.len() && segment_name()(#[trigger] selected@[j]) == name@;
            assert(selected@[j].name@ != name@);
        }
    }
    false
}

/// Clicks a segment's checkbox: the selected segment of that name leaves
/// the selection, or the segment joins it.
pub fn toggle_segment(selected: &mut Vec<CoalitionSegment>, segment: CoalitionSegment)
    ensures
        final(selected)@ == toggle_spec(old(selected)@, segment_name(), segment),
{
    let ghost l = selected@;
    let ghost key = segment_name();
    let mut i: usize = 0;
    while i < selected.len()
        invariant
            selected@ == l,
            l == old(selected)@,
            key == segment_name(),
            i <= selected.len(),
            forall|j: int| 0 <= j < i ==> key(#[trigger] l[j]) != key(segment),
        decreases selected.len() - i,
    {
        if text_eq(selected[i].name.as_str(), segment.name.as_str()) {
            proof {
                lemma_toggle_found(l, key, segment, i as int);
            }
            selected.remove(i);
            return;
        }
        i += 1;
    }
    proof {
        lemma_toggle_missing(l, key, segment);
    }
    selected.push(segment);
}

/// Reads the tension analysis form: the trimmed policy text is required,
/// then at least two selected segments.
pub fn prepare_tension_analysis(text: &str, selected_count: usize) -> (r: Result<String, &'static str>)
    ensures
        trim_spec(text@).len() == 0 ==> r == Err::<String, &'static str>(
            "Please enter policy text to analyze.",
        ),
        trim_spec(text@).len() > 0 && selected_count < 2 ==> r == Err::<String, &'static str>(
            "Please select at least two coalition segments.",
        ),
        trim_spec(text@).len() > 0 && selected_count >= 2 ==> (r matches Ok(t) && t@ == trim_spec(
            text@,
        )),
{
    let t = trim(text);
    if t.is_empty() {
        return Err("Please enter policy text to analyze.");
    }
    if selected_count < 2 {
        return Err("Please select at least two coalition segments.");
    }
    Ok(String::from_str(t))
}

/// The badge class of a tension severity.
pub open spec fn tension_badge_spec(severity: Seq<char>) -> Seq<char> {
    if severity == "critical"@ {
        "badge badge-error"@
    } else if severity == "high"@ {
        "badge badge-warning"@
    } else if severity == "medium"@ {
        "badge badge-info"@
    } else if severity == "low"@ {
        "badge badge-success"@
    } else {
        "badge badge-ghost"@
    }
}

/// The badge class of a tension severity.
pub fn tension_badge(severity: &str) -> (r: &'static str)
    ensures
        r@ == tension_badge_spec(severity@),
{
    if text_eq(severity, "critical") {
        "badge badge-error"
    } else if text_eq(severity, "high") {
        "badge badge-warning"
    } else if text_eq(severity, "medium") {
        "badge badge-info"
    } else if text_eq(severity, "low") {
        "badge badge-success"
    } else {
        "badge badge-ghost"
    }
}

/// What `tension_badge` gives tells the values apart: each result below is given
/// for exactly the values listed with it, and every other value gets
/// "badge badge-ghost".
pub proof fn tension_badge_by_value(x: Seq<char>)
    ensures
        tension_badge_spec(x) == "badge badge-error"@ <==> x == "critical"@,
        tension_badge_spec(x) == "badge badge-warning"@ <==> x == "high"@,
        tension_badge_spec(x) == "badge badge-info"@ <==> x == "medium"@,
        tension_badge_spec(x) == "badge badge-success"@ <==> x == "low"@,
        tension_badge_spec(x) == "badge badge-ghost"@ <==> !(x == "critical"@ || x == "high"@ || x == "medium"@ || x == "low"@),
{
    reveal_strlit("badge badge-error");
    reveal_strlit("badge badge-ghost");
    reveal_strlit("badge badge-info");
    reveal_strlit("badge badge-success");
    reveal_strlit("badge badge-warning");
    reveal_strlit("critical");
    reveal_strlit("high");
    reveal_strlit("medium");
    reveal_strlit("low");
    assert("badge badge-error"@[12] != "badge badge-ghost"@[12]);
    assert("badge badge-error"@.len() != "badge badge-info"@.len());
    assert("badge badge-error"@.len() != "badge badge-success"@.len());
    assert("badge badge-error"@.len() != "badge badge-warning"@.len());
    assert("badge badge-ghost"@.len() != "badge badge-info"@.len());
    assert("badge badge-ghost"@.len() != "badge badge-success"@.len());
    assert("badge badge-ghost"@.len() != "badge badge-warning"@.len());
    assert("badge badge-info"@.len() != "badge badge-success"@.len());
    assert("badge badge-info"@.len() != "badge badge-warning"@.len());
    assert("badge badge-success"@[12] != "badge badge-warning"@[12]);
    assert("critical"@.len() != "high"@.len());
    assert("critical"@.len() != "medium"@.len());
    assert("critical"@.len() != "low"@.len());
    assert("high"@.len() != "medium"@.len());
    assert("high"@.len() != "low"@.len());
    assert("medium"@.len() != "low"@.len());
}

} // verus!
