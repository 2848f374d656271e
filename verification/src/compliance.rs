//! The compliance page: report and check forms and verdict badges.

use vstd::prelude::*;
use vstd::string::*;
use crate::forms::{outcome_view, require_text, required_spec};
use crate::text::{text_eq, trim, trim_spec};

verus! {

broadcast use vstd::string::group_string_axioms;

/// The badge class of a compliance report status.
pub open spec fn report_status_class_spec(status: Seq<char>) -> Seq<char> {
    if status == "compliant"@ {
        "badge badge-success"@
    } else if status == "non_compliant"@ {
        "badge badge-error"@
    } else {
        "badge badge-warning"@
    }
}

/// The badge class of a compliance report status.
pub fn report_status_class(status: &str) -> (r: &'static str)
    ensures
        r@ == report_status_class_spec(status@),
{
    if text_eq(status, "compliant") {
        "badge badge-success"
    } else if text_eq(status, "non_compliant") {
        "badge badge-error"
    } else {
        "badge badge-warning"
    }
}

/// What `report_status_class` gives tells the values apart: each result below is given
/// for exactly the values listed with it, and every other value gets
/// "badge badge-warning".
pub proof fn report_status_class_by_value(x: Seq<char>)
    ensures
        report_status_class_spec(x) == "badge badge-success"@ <==> x == "compliant"@,
        report_status_class_spec(x) == "badge badge-error"@ <==> x == "non_compliant"@,
        report_status_class_spec(x) == "badge badge-warning"@ <==> !(x == "compliant"@ || x == "non_compliant"@),
{
    reveal_strlit("badge badge-error");
    reveal_strlit("badge badge-success");
    reveal_strlit("badge badge-warning");
    reveal_strlit("compliant");
    reveal_strlit("non_compliant");
    assert("badge badge-error"@.len() != "badge badge-success"@.len());
    assert("badge badge-error"@.len() != "badge badge-warning"@.len());
    assert("badge badge-success"@[12] != "badge badge-warning"@[12]);
    assert("compliant"@.len() != "non_compliant"@.len());
}

/// The label of a compliance report status.
pub open spec fn report_status_label_spec(status: Seq<char>) -> Seq<char> {
    if status == "compliant"@ {
        "Compliant"@
    } else if status == "non_compliant"@ {
        "Non-Compliant"@
    } else {
        "Needs Review"@
    }
}

/// The label of a compliance report status.
pub fn report_status_label(status: &str) -> (r: &'static str)
    ensures
        r@ == report_status_label_spec(status@),
{
    if text_eq(status, "compliant") {
        "Compliant"
    } else if text_eq(status, "non_compliant") {
        "Non-Compliant"
    } else {
        "Needs Review"
    }
}

/// What `report_status_label` gives tells the values apart: each result below is given
/// for exactly the values listed with it, and every other value gets
/// "Needs Review".
pub proof fn report_status_label_by_value(x: Seq<char>)
    ensures
        report_status_label_spec(x) == "Compliant"@ <==> x == "compliant"@,
        report_status_label_spec(x) == "Non-Compliant"@ <==> x == "non_compliant"@,
        report_status_label_spec(x) == "Needs Review"@ <==> !(x == "compliant"@ || x == "non_compliant"@),
{
    reveal_strlit("Compliant");
    reveal_strlit("Needs Review");
    reveal_strlit("Non-Compliant");
    reveal_strlit("compliant");
    reveal_strlit("non_compliant");
    assert("Compliant"@.len() != "Needs Review"@.len());
    assert("Compliant"@.len() != "Non-Compliant"@.len());
    assert("Needs Review"@.len() != "Non-Compliant"@.len());
    assert("compliant"@.len() != "non_compliant"@.len());
}

/// The badge of a compliance verdict, in the given size suffix
/// (`"badge-sm"` for report sections, `"badge-lg"` for checks).
pub fn verdict_badge(compliant: bool, large: bool) -> (r: (&'static str, &'static str))
    ensures
        compliant && !large ==> r.0@ == "badge badge-success badge-sm"@,
        !compliant && !large ==> r.0@ == "badge badge-error badge-sm"@,
        compliant && large ==> r.0@ == "badge badge-success badge-lg"@,
        !compliant && large ==> r.0@ == "badge badge-error badge-lg"@,
        compliant ==> r.1@ == "Compliant"@,
        !compliant ==> r.1@ == "Non-Compliant"@,
{
    if compliant {
        (if large {
            "badge badge-success badge-lg"
        } else {
            "badge badge-success badge-sm"
        }, "Compliant")
    } else {
        (if large {
            "badge badge-error badge-lg"
        } else {
            "badge badge-error badge-sm"
        }, "Non-Compliant")
    }
}

/// What a compliance report is generated from.
pub struct ReportRequest {
    pub report_type: String,
    pub period: String,
    pub data: String,
}

/// Reads the report form: the trimmed period, then the trimmed campaign
/// data, are required.
pub fn prepare_report(report_type: &str, period: &str, data: &str) -> (r: Result<
    ReportRequest,
    &'static str,
>)
    ensures
        trim_spec(period@).len() == 0 ==> r == Err::<ReportRequest, &'static str>(
            "Reporting period is required.",
        ),
        trim_spec(period@).len() > 0 && trim_spec(data@).len() == 0 ==> r == Err::<
            ReportRequest,
            &'static str,
        >("Campaign data is required."),
        trim_spec(period@).len() > 0 && trim_spec(data@).len() > 0 ==> (r matches Ok(q)
            && q.report_type@ == report_type@ && q.period@ == trim_spec(period@) && q.data@
            == trim_spec(data@)),
{
    let p = trim(period);
    let d = trim(data);
    if p.is_empty() {
        return Err("Reporting period is required.");
    }
    if d.is_empty() {
        return Err("Campaign data is required.");
    }
    Ok(ReportRequest {
        report_type: String::from_str(report_type),
        period: String::from_str(p),
        data: String::from_str(d),
    })
}

/// Reads the compliance check form: the trimmed action is required.
pub fn prepare_check(action: &str) -> (r: Result<String, &'static str>)
    ensures
        outcome_view(r) == required_spec(action@, "Action description is required."@),
{
    require_text(action, "Action description is required.")
}

} // verus!
