//! The dashboard: the colours of its stat tiles.

use vstd::prelude::*;
use crate::text::text_eq;

verus! {

broadcast use vstd::string::group_string_axioms;

/// The background gradient of a dashboard stat of that colour (indigo for unknown colours).
pub open spec fn stat_gradient_spec(color: Seq<char>) -> Seq<char> {
    if color == "indigo"@ {
        "linear-gradient(135deg, rgba(99,102,241,0.15), rgba(99,102,241,0.05))"@
    } else if color == "rose"@ {
        "linear-gradient(135deg, rgba(244,63,94,0.15), rgba(244,63,94,0.05))"@
    } else if color == "purple"@ {
        "linear-gradient(135deg, rgba(168,85,247,0.15), rgba(168,85,247,0.05))"@
    } else if color == "emerald"@ {
        "linear-gradient(135deg, rgba(16,185,129,0.15), rgba(16,185,129,0.05))"@
    } else {
        "linear-gradient(135deg, rgba(99,102,241,0.15), rgba(99,102,241,0.05))"@
    }
}

/// The background gradient of a dashboard stat of that colour (indigo for unknown colours).
pub fn stat_gradient(color: &str) -> (r: &'static str)
    ensures
        r@ == stat_gradient_spec(color@),
{
    if text_eq(color, "indigo") {
        "linear-gradient(135deg, rgba(99,102,241,0.15), rgba(99,102,241,0.05))"
    } else if text_eq(color, "rose") {
        "linear-gradient(135deg, rgba(244,63,94,0.15), rgba(244,63,94,0.05))"
    } else if text_eq(color, "purple") {
        "linear-gradient(135deg, rgba(168,85,247,0.15), rgba(168,85,247,0.05))"
    } else if text_eq(color, "emerald") {
        "linear-gradient(135deg, rgba(16,185,129,0.15), rgba(16,185,129,0.05))"
    } else {
        "linear-gradient(135deg, rgba(99,102,241,0.15), rgba(99,102,241,0.05))"
    }
}

/// What `stat_gradient` gives tells the values apart: each result below is given
/// for exactly the values listed with it.
pub proof fn stat_gradient_by_value(x: Seq<char>)
    ensures
        stat_gradient_spec(x) == "linear-gradient(135deg, rgba(244,63,94,0.15), rgba(244,63,94,0.05))"@ <==> x == "rose"@,
        stat_gradient_spec(x) == "linear-gradient(135deg, rgba(168,85,247,0.15), rgba(168,85,247,0.05))"@ <==> x == "purple"@,
        stat_gradient_spec(x) == "linear-gradient(135deg, rgba(16,185,129,0.15), rgba(16,185,129,0.05))"@ <==> x == "emerald"@,
{
    reveal_strlit("linear-gradient(135deg, rgba(16,185,129,0.15), rgba(16,185,129,0.05))");
    reveal_strlit("linear-gradient(135deg, rgba(168,85,247,0.15), rgba(168,85,247,0.05))");
    reveal_strlit("linear-gradient(135deg, rgba(244,63,94,0.15), rgba(244,63,94,0.05))");
    reveal_strlit("linear-gradient(135deg, rgba(99,102,241,0.15), rgba(99,102,241,0.05))");
    reveal_strlit("indigo");
    reveal_strlit("rose");
    reveal_strlit("purple");
    reveal_strlit("emerald");
    assert("linear-gradient(135deg, rgba(16,185,129,0.15), rgba(16,185,129,0.05))"@[31] != "linear-gradient(135deg, rgba(168,85,247,0.15), rgba(168,85,247,0.05))"@[31]);
    assert("linear-gradient(135deg, rgba(16,185,129,0.15), rgba(16,185,129,0.05))"@.len() != "linear-gradient(135deg, rgba(244,63,94,0.15), rgba(244,63,94,0.05))"@.len());
    assert("linear-gradient(135deg, rgba(16,185,129,0.15), rgba(16,185,129,0.05))"@[29] != "linear-gradient(135deg, rgba(99,102,241,0.15), rgba(99,102,241,0.05))"@[29]);
    assert("linear-gradient(135deg, rgba(168,85,247,0.15), rgba(168,85,247,0.05))"@.len() != "linear-gradient(135deg, rgba(244,63,94,0.15), rgba(244,63,94,0.05))"@.len());
    assert("linear-gradient(135deg, rgba(168,85,247,0.15), rgba(168,85,247,0.05))"@[29] != "linear-gradient(135deg, rgba(99,102,241,0.15), rgba(99,102,241,0.05))"@[29]);
    assert("linear-gradient(135deg, rgba(244,63,94,0.15), rgba(244,63,94,0.05))"@.len() != "linear-gradient(135deg, rgba(99,102,241,0.15), rgba(99,102,241,0.05))"@.len());
    assert("indigo"@.len() != "rose"@.len());
    assert("indigo"@[0] != "purple"@[0]);
    assert("indigo"@.len() != "emerald"@.len());
    assert("rose"@.len() != "purple"@.len());
    assert("rose"@.len() != "emerald"@.len());
    assert("purple"@.len() != "emerald"@.len());
}

/// The text colour of a dashboard stat of that colour (indigo for unknown colours).
pub open spec fn stat_text_color_spec(color: Seq<char>) -> Seq<char> {
    if color == "indigo"@ {
        "#818cf8"@
    } else if color == "rose"@ {
        "#fb7185"@
    } else if color == "purple"@ {
        "#c084fc"@
    } else if color == "emerald"@ {
        "#6ee7b7"@
    } else {
        "#818cf8"@
    }
}

/// The text colour of a dashboard stat of that colour (indigo for unknown colours).
pub fn stat_text_color(color: &str) -> (r: &'static str)
    ensures
        r@ == stat_text_color_spec(color@),
{
    if text_eq(color, "indigo") {
        "#818cf8"
    } else if text_eq(color, "rose") {
        "#fb7185"
    } else if text_eq(color, "purple") {
        "#c084fc"
    } else if text_eq(color, "emerald") {
        "#6ee7b7"
    } else {
        "#818cf8"
    }
}

/// What `stat_text_color` gives tells the values apart: each result below is given
/// for exactly the values listed with it.
pub proof fn stat_text_color_by_value(x: Seq<char>)
    ensures
        stat_text_color_spec(x) == "#fb7185"@ <==> x == "rose"@,
        stat_text_color_spec(x) == "#c084fc"@ <==> x == "purple"@,
        stat_text_color_spec(x) == "#6ee7b7"@ <==> x == "emerald"@,
{
    reveal_strlit("#6ee7b7");
    reveal_strlit("#818cf8");
    reveal_strlit("#c084fc");
    reveal_strlit("#fb7185");
    reveal_strlit("indigo");
    reveal_strlit("rose");
    reveal_strlit("purple");
    reveal_strlit("emerald");
    assert("#6ee7b7"@[1] != "#818cf8"@[1]);
    assert("#6ee7b7"@[1] != "#c084fc"@[1]);
    assert("#6ee7b7"@[1] != "#fb7185"@[1]);
    assert("#818cf8"@[1] != "#c084fc"@[1]);
    assert("#818cf8"@[1] != "#fb7185"@[1]);
    assert("#c084fc"@[1] != "#fb7185"@[1]);
    assert("indigo"@.len() != "rose"@.len());
    assert("indigo"@[0] != "purple"@[0]);
    assert("indigo"@.len() != "emerald"@.len());
    assert("rose"@.len() != "purple"@.len());
    assert("rose"@.len() != "emerald"@.len());
    assert("purple"@.len() != "emerald"@.len());
}

} // verus!
