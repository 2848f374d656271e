//! The meeting summarizer page: the meeting form and action item badges.

use vstd::prelude::*;
use vstd::string::*;
use crate::text::{items_spec, line_items, lines_spec, text_eq, trim, trim_spec};

verus! {

broadcast use vstd::string::group_string_axioms;

/// The badge class of an action item status.
pub open spec fn action_status_class_spec(status: Seq<char>) -> Seq<char> {
    if status == "completed"@ {
        "badge badge-success badge-sm"@
    } else if status == "in_progress"@ {
        "badge badge-info badge-sm"@
    } else if status == "blocked"@ {
        "badge badge-error badge-sm"@
    } else {
        "badge badge-warning badge-sm"@
    }
}

/// The badge class of an action item status.
pub fn action_status_class(status: &str) -> (r: &'static str)
    ensures
        r@ == action_status_class_spec(status@),
{
    if text_eq(status, "completed") {
        "badge badge-success badge-sm"
    } else if text_eq(status, "in_progress") {
        "badge badge-info badge-sm"
    } else if text_eq(status, "blocked") {
        "badge badge-error badge-sm"
    } else {
        "badge badge-warning badge-sm"
    }
}

/// What `action_status_class` gives tells the values apart: each result below is given
/// for exactly the values listed with it, and every other value gets
/// "badge badge-warning badge-sm".
pub proof fn action_status_class_by_value(x: Seq<char>)
    ensures
        action_status_class_spec(x) == "badge badge-success badge-sm"@ <==> x == "completed"@,
        action_status_class_spec(x) == "badge badge-info badge-sm"@ <==> x == "in_progress"@,
        action_status_class_spec(x) == "badge badge-error badge-sm"@ <==> x == "blocked"@,
        action_status_class_spec(x) == "badge badge-warning badge-sm"@ <==> !(x == "completed"@ || x == "in_progress"@ || x == "blocked"@),
{
    reveal_strlit("badge badge-error badge-sm");
    reveal_strlit("badge badge-info badge-sm");
    reveal_strlit("badge badge-success badge-sm");
    reveal_strlit("badge badge-warning badge-sm");
    reveal_strlit("completed");
    reveal_strlit("in_progress");
    reveal_strlit("blocked");
    assert("badge badge-error badge-sm"@.len() != "badge badge-info badge-sm"@.len());
    assert("badge badge-error badge-sm"@.len() != "badge badge-success badge-sm"@.len());
    assert("badge badge-error badge-sm"@.len() != "badge badge-warning badge-sm"@.len());
    assert("badge badge-info badge-sm"@.len() != "badge badge-success badge-sm"@.len());
    assert("badge badge-info badge-sm"@.len() != "badge badge-warning badge-sm"@.len());
    assert("badge badge-success badge-sm"@[12] != "badge badge-warning badge-sm"@[12]);
    assert("completed"@.len() != "in_progress"@.len());
    assert("completed"@.len() != "blocked"@.len());
    assert("in_progress"@.len() != "blocked"@.len());
}

/// The label of an action item status.
pub open spec fn action_status_label_spec(status: Seq<char>) -> Seq<char> {
    if status == "completed"@ {
        "Completed"@
    } else if status == "in_progress"@ {
        "In Progress"@
    } else if status == "blocked"@ {
        "Blocked"@
    } else {
        "Pending"@
    }
}

/// The label of an action item status.
pub fn action_status_label(status: &str) -> (r: &'static str)
    ensures
        r@ == action_status_label_spec(status@),
{
    if text_eq(status, "completed") {
        "Completed"
    } else if text_eq(status, "in_progress") {
        "In Progress"
    } else if text_eq(status, "blocked") {
        "Blocked"
    } else {
        "Pending"
    }
}

/// What `action_status_label` gives tells the values apart: each result below is given
/// for exactly the values listed with it, and every other value gets
/// "Pending".
pub proof fn action_status_label_by_value(x: Seq<char>)
    ensures
        action_status_label_spec(x) == "Completed"@ <==> x == "completed"@,
        action_status_label_spec(x) == "In Progress"@ <==> x == "in_progress"@,
        action_status_label_spec(x) == "Blocked"@ <==> x == "blocked"@,
        action_status_label_spec(x) == "Pending"@ <==> !(x == "completed"@ || x == "in_progress"@ || x == "blocked"@),
{
    reveal_strlit("Blocked");
    reveal_strlit("Completed");
    reveal_strlit("In Progress");
    reveal_strlit("Pending");
    reveal_strlit("completed");
    reveal_strlit("in_progress");
    reveal_strlit("blocked");
    assert("Blocked"@.len() != "Completed"@.len());
    assert("Blocked"@.len() != "In Progress"@.len());
    assert("Blocked"@[0] != "Pending"@[0]);
    assert("Completed"@.len() != "In Progress"@.len());
    assert("Completed"@.len() != "Pending"@.len());
    assert("In Progress"@.len() != "Pending"@.len());
    assert("completed"@.len() != "in_progress"@.len());
    assert("completed"@.len() != "blocked"@.len());
    assert("in_progress"@.len() != "blocked"@.len());
}

/// What a meeting summary is requested with.
pub struct SummaryRequest {
    pub title: String,
    pub transcript: String,
    pub attendees: Vec<String>,
}

/// Reads the meeting form: the trimmed title, then the trimmed transcript,
/// are required; attendees are the non-empty trimmed lines.
pub fn prepare_summary(title: &str, transcript: &str, attendees_text: &str) -> (r: Result<
    SummaryRequest,
    &'static str,
>)
    ensures
        trim_spec(title@).len() == 0 ==> r == Err::<SummaryRequest, &'static str>(
            "Meeting title is required.",
        ),
        trim_spec(title@).len() > 0 && trim_spec(transcript@).len() == 0 ==> r == Err::<
            SummaryRequest,
            &'static str,
        >("Meeting transcript is required."),
        trim_spec(title@).len() > 0 && trim_spec(transcript@).len() > 0 ==> (r matches Ok(q)
            && q.title@ == trim_spec(title@) && q.transcript@ == trim_spec(transcript@)
            && q.attendees.deep_view() == items_spec(lines_spec(attendees_text@))),
{
    let t = trim(title);
    let tr = trim(transcript);
    if t.is_empty() {
        return Err("Meeting title is required.");
    }
    if tr.is_empty() {
        return Err("Meeting transcript is required.");
    }
    Ok(SummaryRequest {
        title: String::from_str(t),
        transcript: String::from_str(tr),
        attendees: line_items(attendees_text),
    })
}

} // verus!
