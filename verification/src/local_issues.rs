//! The hyper-local issues page: severity badges, the analysis form and
//! the issue whose talking points are open.

use vstd::prelude::*;
use vstd::string::*;
use crate::forms::{opt_view, optional_spec, optional_text};
use crate::text::{text_eq, trim, trim_spec};

verus! {

broadcast use vstd::string::group_string_axioms;

/// The lowercase form of a text, as `str::to_lowercase` gives it (Unicode
/// case mapping, which the standard library documents by reference to the
/// Unicode tables).
pub uninterp spec fn lowercase(s: Seq<char>) -> Seq<char>;

/// `str::to_lowercase`. The contract only names its result: the lowercase
/// form of the argument, which depends on the argument alone.
#[verifier::external_body]
fn to_lower(s: &str) -> (r: String)
    ensures
        r@ == lowercase(s@),
{
    s.to_lowercase()
}

/// The badge class of an issue severity already in lowercase.
pub open spec fn severity_badge_lowered_spec(severity: Seq<char>) -> Seq<char> {
    if severity == "critical"@ {
        "badge badge-error"@
    } else if severity == "high"@ {
        "badge badge-warning"@
    } else if severity == "moderate"@ {
        "badge badge-info"@
    } else if severity == "low"@ {
        "badge badge-ghost"@
    } else {
        "badge badge-ghost"@
    }
}

/// The badge class of an issue severity already in lowercase.
pub fn severity_badge_lowered(severity: &str) -> (r: &'static str)
    ensures
        r@ == severity_badge_lowered_spec(severity@),
{
    if text_eq(severity, "critical") {
        "badge badge-error"
    } else if text_eq(severity, "high") {
        "badge badge-warning"
    } else if text_eq(severity, "moderate") {
        "badge badge-info"
    } else if text_eq(severity, "low") {
        "badge badge-ghost"
    } else {
        "badge badge-ghost"
    }
}

/// What `severity_badge_lowered` gives tells the values apart: each result below is given
/// for exactly the values listed with it.
pub proof fn severity_badge_lowered_by_value(x: Seq<char>)
    ensures
        severity_badge_lowered_spec(x) == "badge badge-error"@ <==> x == "critical"@,
        severity_badge_lowered_spec(x) == "badge badge-warning"@ <==> x == "high"@,
        severity_badge_lowered_spec(x) == "badge badge-info"@ <==> x == "moderate"@,
{
    reveal_strlit("badge badge-error");
    reveal_strlit("badge badge-ghost");
    reveal_strlit("badge badge-info");
    reveal_strlit("badge badge-warning");
    reveal_strlit("critical");
    reveal_strlit("high");
    reveal_strlit("moderate");
    reveal_strlit("low");
    assert("badge badge-error"@[12] != "badge badge-ghost"@[12]);
    assert("badge badge-error"@.len() != "badge badge-info"@.len());
    assert("badge badge-error"@.len() != "badge badge-warning"@.len());
    assert("badge badge-ghost"@.len() != "badge badge-info"@.len());
    assert("badge badge-ghost"@.len() != "badge badge-warning"@.len());
    assert("badge badge-info"@.len() != "badge badge-warning"@.len());
    assert("critical"@.len() != "high"@.len());
    assert("critical"@[0] != "moderate"@[0]);
    assert("critical"@.len() != "low"@.len());
    assert("high"@.len() != "moderate"@.len());
    assert("high"@.len() != "low"@.len());
    assert("moderate"@.len() != "low"@.len());
}

/// The badge class of an issue severity, whatever its case.
pub fn severity_badge_class(severity: &str) -> (r: &'static str)
    ensures
        r@ == severity_badge_lowered_spec(lowercase(severity@)),
{
    let lowered = to_lower(severity);
    severity_badge_lowered(lowered.as_str())
}

/// Two severities with the same lowercase form get the same badge, so
/// the badge does not depend on how a severity is capitalised.
pub proof fn same_lowercase_same_badge(a: Seq<char>, b: Seq<char>)
    requires
        lowercase(a) == lowercase(b),
    ensures
        severity_badge_lowered_spec(lowercase(a)) == severity_badge_lowered_spec(lowercase(b)),
{
}

/// What a local issue analysis is requested with: the trimmed area
/// description, and the optional trimmed demographics and recent news.
pub fn prepare_local_analysis(area: &str, demographics: &str, news: &str) -> (r: Result<
    (String, Option<String>, Option<String>),
    &'static str,
>)
    ensures
        trim_spec(area@).len() == 0 ==> r == Err::<
            (String, Option<String>, Option<String>),
            &'static str,
        >("Area description is required."),
        trim_spec(area@).len() > 0 ==> (r matches Ok(q) && q.0@ == trim_spec(area@) && opt_view(
            q.1,
        ) == optional_spec(demographics@) && opt_view(q.2) == optional_spec(news@)),
{
    let a = trim(area);
    if a.is_empty() {
        return Err("Area description is required.");
    }
    Ok((String::from_str(a), optional_text(demographics), optional_text(news)))
}

/// What clicking an issue's "talking points" button asks for.
pub enum ExpandAction {
    /// No report is shown: nothing happens.
    Nothing,
    /// The issue was open: it closes and its talking points are dropped.
    Collapse,
    /// The issue opens: talking points for it in the report's area are
    /// requested.
    Load { issue: String, area: String },
}

/// The open issue after clicking the issue `title` while a report is
/// shown: none if `title` was open, else `title`.
pub open spec fn click_spec(expanded: Option<Seq<char>>, title: Seq<char>) -> Option<Seq<char>> {
    if expanded == Some(title) {
        None
    } else {
        Some(title)
    }
}

/// Clicks the talking-points button of the issue `title`: with a report of
/// area `report_area` shown, an open issue closes, any other opens (in
/// place of the one open before).
pub fn click_issue(report_area: Option<&str>, expanded: &mut Option<String>, title: &str) -> (r:
    ExpandAction)
    ensures
        report_area is None ==> r is Nothing && *final(expanded) == *old(expanded),
        report_area is Some ==> opt_view(*final(expanded)) == click_spec(
            opt_view(*old(expanded)),
            title@,
        ),
        report_area is Some && opt_view(*old(expanded)) == Some(title@) ==> r is Collapse,
        report_area is Some && opt_view(*old(expanded)) != Some(title@) ==> (
        r matches ExpandAction::Load { issue, area } && issue@ == title@ && area@
            == report_area.unwrap()@),
{
    let area = match report_area {
        Some(a) => a,
        None => return ExpandAction::Nothing,
    };
    let open = match expanded {
        Some(e) => text_eq(e.as_str(), title),
        None => false,
    };
    if open {
        *expanded = None;
        return ExpandAction::Collapse;
    }
    *expanded = Some(String::from_str(title));
    ExpandAction::Load { issue: String::from_str(title), area: String::from_str(area) }
}

/// Clicking the same issue twice while a report is shown gives back the
/// state before the clicks when no issue or that issue was open; when
/// another issue was open, no issue is open after the second click.
pub proof fn clicking_twice(before: Option<Seq<char>>, title: Seq<char>)
    ensures
        before is None || before == Some(title) ==> click_spec(click_spec(before, title), title)
            == before,
        before is Some && before != Some(title) ==> click_spec(click_spec(before, title), title)
            is None,
{
}
} // verus!
