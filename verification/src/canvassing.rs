//! The canvassing page: section badges and labels, the script form and
//! the copy notice.

use vstd::prelude::*;
use vstd::string::*;
use crate::forms::failure_message;
use crate::text::{items_spec, line_items, lines_spec, text_eq, trim, trim_spec, trimmed};

verus! {

broadcast use vstd::string::group_string_axioms;

/// The badge class of a script section type.
pub open spec fn section_badge_class_spec(section_type: Seq<char>) -> Seq<char> {
    if section_type == "opening"@ {
        "badge badge-primary badge-sm"@
    } else if section_type == "issue_discussion"@ {
        "badge badge-info badge-sm"@
    } else if section_type == "objection_handling"@ {
        "badge badge-warning badge-sm"@
    } else if section_type == "closing"@ {
        "badge badge-success badge-sm"@
    } else {
        "badge badge-ghost badge-sm"@
    }
}

/// The badge class of a script section type.
pub fn section_badge_class(section_type: &str) -> (r: &'static str)
    ensures
        r@ == section_badge_class_spec(section_type@),
{
    if text_eq(section_type, "opening") {
        "badge badge-primary badge-sm"
    } else if text_eq(section_type, "issue_discussion") {
        "badge badge-info badge-sm"
    } else if text_eq(section_type, "objection_handling") {
        "badge badge-warning badge-sm"
    } else if text_eq(section_type, "closing") {
        "badge badge-success badge-sm"
    } else {
        "badge badge-ghost badge-sm"
    }
}

/// What `section_badge_class` gives tells the values apart: each result below is given
/// for exactly the values listed with it, and every other value gets
/// "badge badge-ghost badge-sm".
pub proof fn section_badge_class_by_value(x: Seq<char>)
    ensures
        section_badge_class_spec(x) == "badge badge-primary badge-sm"@ <==> x == "opening"@,
        section_badge_class_spec(x) == "badge badge-info badge-sm"@ <==> x == "issue_discussion"@,
        section_badge_class_spec(x) == "badge badge-warning badge-sm"@ <==> x == "objection_handling"@,
        section_badge_class_spec(x) == "badge badge-success badge-sm"@ <==> x == "closing"@,
        section_badge_class_spec(x) == "badge badge-ghost badge-sm"@ <==> !(x == "opening"@ || x == "issue_discussion"@ || x == "objection_handling"@ || x == "closing"@),
{
    reveal_strlit("badge badge-ghost badge-sm");
    reveal_strlit("badge badge-info badge-sm");
    reveal_strlit("badge badge-primary badge-sm");
    reveal_strlit("badge badge-success badge-sm");
    reveal_strlit("badge badge-warning badge-sm");
    reveal_strlit("opening");
    reveal_strlit("issue_discussion");
    reveal_strlit("objection_handling");
    reveal_strlit("closing");
    assert("badge badge-ghost badge-sm"@.len() != "badge badge-info badge-sm"@.len());
    assert("badge badge-ghost badge-sm"@.len() != "badge badge-primary badge-sm"@.len());
    assert("badge badge-ghost badge-sm"@.len() != "badge badge-success badge-sm"@.len());
    assert("badge badge-ghost badge-sm"@.len() != "badge badge-warning badge-sm"@.len());
    assert("badge badge-info badge-sm"@.len() != "badge badge-primary badge-sm"@.len());
    assert("badge badge-info badge-sm"@.len() != "badge badge-success badge-sm"@.len());
    assert("badge badge-info badge-sm"@.len() != "badge badge-warning badge-sm"@.len());
    assert("badge badge-primary badge-sm"@[12] != "badge badge-success badge-sm"@[12]);
    assert("badge badge-primary badge-sm"@[12] != "badge badge-warning badge-sm"@[12]);
    assert("badge badge-success badge-sm"@[12] != "badge badge-warning badge-sm"@[12]);
    assert("opening"@.len() != "issue_discussion"@.len());
    assert("opening"@.len() != "objection_handling"@.len());
    assert("opening"@[0] != "closing"@[0]);
    assert("issue_discussion"@.len() != "objection_handling"@.len());
    assert("issue_discussion"@.len() != "closing"@.len());
    assert("objection_handling"@.len() != "closing"@.len());
}

/// The label of a script section type.
pub open spec fn section_type_label_spec(section_type: Seq<char>) -> Seq<char> {
    if section_type == "opening"@ {
        "Opening"@
    } else if section_type == "issue_discussion"@ {
        "Issue Discussion"@
    } else if section_type == "objection_handling"@ {
        "Objection Handling"@
    } else if section_type == "closing"@ {
        "Closing"@
    } else {
        "Section"@
    }
}

/// The label of a script section type.
pub fn section_type_label(section_type: &str) -> (r: &'static str)
    ensures
        r@ == section_type_label_spec(section_type@),
{
    if text_eq(section_type, "opening") {
        "Opening"
    } else if text_eq(section_type, "issue_discussion") {
        "Issue Discussion"
    } else if text_eq(section_type, "objection_handling") {
        "Objection Handling"
    } else if text_eq(section_type, "closing") {
        "Closing"
    } else {
        "Section"
    }
}

/// What `section_type_label` gives tells the values apart: each result below is given
/// for exactly the values listed with it, and every other value gets
/// "Section".
pub proof fn section_type_label_by_value(x: Seq<char>)
    ensures
        section_type_label_spec(x) == "Opening"@ <==> x == "opening"@,
        section_type_label_spec(x) == "Issue Discussion"@ <==> x == "issue_discussion"@,
        section_type_label_spec(x) == "Objection Handling"@ <==> x == "objection_handling"@,
        section_type_label_spec(x) == "Closing"@ <==> x == "closing"@,
        section_type_label_spec(x) == "Section"@ <==> !(x == "opening"@ || x == "issue_discussion"@ || x == "objection_handling"@ || x == "closing"@),
{
    reveal_strlit("Closing");
    reveal_strlit("Issue Discussion");
    reveal_strlit("Objection Handling");
    reveal_strlit("Opening");
    reveal_strlit("Section");
    reveal_strlit("opening");
    reveal_strlit("issue_discussion");
    reveal_strlit("objection_handling");
    reveal_strlit("closing");
    assert("Closing"@.len() != "Issue Discussion"@.len());
    assert("Closing"@.len() != "Objection Handling"@.len());
    assert("Closing"@[0] != "Opening"@[0]);
    assert("Closing"@[0] != "Section"@[0]);
    assert("Issue Discussion"@.len() != "Objection Handling"@.len());
    assert("Issue Discussion"@.len() != "Opening"@.len());
    assert("Issue Discussion"@.len() != "Section"@.len());
    assert("Objection Handling"@.len() != "Opening"@.len());
    assert("Objection Handling"@.len() != "Section"@.len());
    assert("Opening"@[0] != "Section"@[0]);
    assert("opening"@.len() != "issue_discussion"@.len());
    assert("opening"@.len() != "objection_handling"@.len());
    assert("opening"@[0] != "closing"@[0]);
    assert("issue_discussion"@.len() != "objection_handling"@.len());
    assert("issue_discussion"@.len() != "closing"@.len());
    assert("objection_handling"@.len() != "closing"@.len());
}

/// What a canvassing script is generated from.
pub struct ScriptRequest {
    pub segment: String,
    pub issues: Vec<String>,
    pub candidate: String,
    pub asks: Vec<String>,
}

/// Reads the script form: the trimmed candidate name is required, then at
/// least one non-blank local issue line; the voter segment is trimmed and
/// the key asks are the non-blank trimmed lines (possibly none).
pub fn prepare_script(segment: &str, issues: &str, candidate: &str, asks: &str) -> (r: Result<
    ScriptRequest,
    &'static str,
>)
    ensures
        trim_spec(candidate@).len() == 0 ==> r == Err::<ScriptRequest, &'static str>(
            "Candidate name is required.",
        ),
        trim_spec(candidate@).len() > 0 && items_spec(lines_spec(issues@)).len() == 0 ==> r
            == Err::<ScriptRequest, &'static str>("At least one local issue is required."),
        trim_spec(candidate@).len() > 0 && items_spec(lines_spec(issues@)).len() > 0 ==> (
        r matches Ok(q) && q.segment@ == trim_spec(segment@) && q.candidate@ == trim_spec(
            candidate@,
        ) && q.issues.deep_view() == items_spec(lines_spec(issues@)) && q.asks.deep_view()
            == items_spec(lines_spec(asks@))),
{
    let name = trim(candidate);
    let issue_list = line_items(issues);
    let ask_list = line_items(asks);
    if name.is_empty() {
        return Err("Candidate name is required.");
    }
    if issue_list.len() == 0 {
        return Err("At least one local issue is required.");
    }
    Ok(ScriptRequest {
        segment: trimmed(segment),
        issues: issue_list,
        candidate: String::from_str(name),
        asks: ask_list,
    })
}

/// The notice beside the copy button once the exported script text came
/// back (`Ok`) or the export failed (`Err`).
pub fn copy_status(exported: Result<(), &str>) -> (r: String)
    ensures
        exported is Ok ==> r@ == "Copied to clipboard!"@,
        exported matches Err(e) ==> r@ == "Copy failed: "@ + e@,
{
    match exported {
        Ok(()) => String::from_str("Copied to clipboard!"),
        Err(e) => failure_message("Copy failed: ", e),
    }
}

} // verus!
