//! The faction mapper page: the analysis form and the consensus form.

use vstd::prelude::*;
use vstd::string::*;
use crate::forms::{outcome_view, require_text, required_spec};
use crate::text::{trim, trim_spec, trimmed};

verus! {

broadcast use vstd::string::group_string_axioms;

/// Reads the analysis form: the trimmed party context is required; the
/// trimmed known figures go along (possibly empty).
pub fn prepare_faction_analysis(context: &str, figures: &str) -> (r: Result<
    (String, String),
    &'static str,
>)
    ensures
        trim_spec(context@).len() == 0 ==> r == Err::<(String, String), &'static str>(
            "Party context is required.",
        ),
        trim_spec(context@).len() > 0 ==> (r matches Ok(q) && q.0@ == trim_spec(context@)
            && q.1@ == trim_spec(figures@)),
{
    let c = trim(context);
    if c.is_empty() {
        return Err("Party context is required.");
    }
    Ok((String::from_str(c), trimmed(figures)))
}

/// Reads the consensus form: nothing happens before an analysis exists;
/// then the trimmed policy proposal is required.
pub fn prepare_consensus(has_analysis: bool, proposal: &str) -> (r: Option<
    Result<String, &'static str>,
>)
    ensures
        !has_analysis ==> r is None,
        has_analysis ==> (r matches Some(o) && outcome_view(o) == required_spec(
            proposal@,
            "Policy proposal is required for consensus mapping."@,
        )),
{
    if !has_analysis {
        return None;
    }
    Some(require_text(proposal, "Policy proposal is required for consensus mapping."))
}

} // verus!
