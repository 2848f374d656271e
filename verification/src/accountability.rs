//! The manifesto accountability page: commitment extraction and evidence
//! forms, the commitment table and its badges.

use vstd::prelude::*;
use vstd::string::*;
use vstd::utf8::*;
use crate::numbers::{decimal_spec, digits_spec, format_i64, format_u64};
use crate::text::{text_eq, trim, trim_spec};

verus! {

broadcast use vstd::string::group_string_axioms;

/// The badge class of an evidence classification.
pub open spec fn evidence_badge_class_spec(classification: Option<Seq<char>>) -> Seq<char> {
    match classification {
        Some(v) => {
            if v == "fulfilled"@ {
                "badge badge-success"@
            } else if v == "broken"@ {
                "badge badge-error"@
            } else if v == "partial"@ {
                "badge badge-warning"@
            } else if v == "unrelated"@ {
                "badge badge-ghost"@
            } else {
                "badge badge-ghost"@
            }
        },
        None => "badge badge-ghost"@,
    }
}

/// The badge class of an evidence classification.
pub fn evidence_badge_class(classification: Option<&str>) -> (r: &'static str)
    ensures
        r@ == evidence_badge_class_spec(
            match classification {
                Some(v) => Some(v@),
                None => None,
            },
        ),
{
    match classification {
        Some(v) => {
            if text_eq(v, "fulfilled") {
                "badge badge-success"
            } else if text_eq(v, "broken") {
                "badge badge-error"
            } else if text_eq(v, "partial") {
                "badge badge-warning"
            } else if text_eq(v, "unrelated") {
                "badge badge-ghost"
            } else {
                "badge badge-ghost"
            }
        },
        None => "badge badge-ghost",
    }
}

/// What `evidence_badge_class` gives tells the values apart: each result below is given
/// for exactly the values listed with it, and every other value, or none, gets
/// "badge badge-ghost".
pub proof fn evidence_badge_class_by_value(x: Option<Seq<char>>)
    ensures
        evidence_badge_class_spec(x) == "badge badge-success"@ <==> x == Some("fulfilled"@),
        evidence_badge_class_spec(x) == "badge badge-error"@ <==> x == Some("broken"@),
        evidence_badge_class_spec(x) == "badge badge-warning"@ <==> x == Some("partial"@),
        evidence_badge_class_spec(x) == "badge badge-ghost"@ <==> !(x == Some("fulfilled"@) || x == Some("broken"@) || x == Some("partial"@)),
{
    reveal_strlit("badge badge-error");
    reveal_strlit("badge badge-ghost");
    reveal_strlit("badge badge-success");
    reveal_strlit("badge badge-warning");
    reveal_strlit("fulfilled");
    reveal_strlit("broken");
    reveal_strlit("partial");
    reveal_strlit("unrelated");
    assert("badge badge-error"@[12] != "badge badge-ghost"@[12]);
    assert("badge badge-error"@.len() != "badge badge-success"@.len());
    assert("badge badge-error"@.len() != "badge badge-warning"@.len());
    assert("badge badge-ghost"@.len() != "badge badge-success"@.len());
    assert("badge badge-ghost"@.len() != "badge badge-warning"@.len());
    assert("badge badge-success"@[12] != "badge badge-warning"@[12]);
    assert("fulfilled"@.len() != "broken"@.len());
    assert("fulfilled"@.len() != "partial"@.len());
    assert("fulfilled"@[0] != "unrelated"@[0]);
    assert("broken"@.len() != "partial"@.len());
    assert("broken"@.len() != "unrelated"@.len());
    assert("partial"@.len() != "unrelated"@.len());
}

/// The label of an evidence classification.
pub open spec fn evidence_label_spec(classification: Option<Seq<char>>) -> Seq<char> {
    match classification {
        Some(v) => {
            if v == "fulfilled"@ {
                "Fulfilled"@
            } else if v == "broken"@ {
                "Broken"@
            } else if v == "partial"@ {
                "Partial"@
            } else if v == "unrelated"@ {
                "Unrelated"@
            } else {
                "Unknown"@
            }
        },
        None => "Unknown"@,
    }
}

/// The label of an evidence classification.
pub fn evidence_label(classification: Option<&str>) -> (r: &'static str)
    ensures
        r@ == evidence_label_spec(
            match classification {
                Some(v) => Some(v@),
                None => None,
            },
        ),
{
    match classification {
        Some(v) => {
            if text_eq(v, "fulfilled") {
                "Fulfilled"
            } else if text_eq(v, "broken") {
                "Broken"
            } else if text_eq(v, "partial") {
                "Partial"
            } else if text_eq(v, "unrelated") {
                "Unrelated"
            } else {
                "Unknown"
            }
        },
        None => "Unknown",
    }
}

/// What `evidence_label` gives tells the values apart: each result below is given
/// for exactly the values listed with it, and every other value, or none, gets
/// "Unknown".
pub proof fn evidence_label_by_value(x: Option<Seq<char>>)
    ensures
        evidence_label_spec(x) == "Fulfilled"@ <==> x == Some("fulfilled"@),
        evidence_label_spec(x) == "Broken"@ <==> x == Some("broken"@),
        evidence_label_spec(x) == "Partial"@ <==> x == Some("partial"@),
        evidence_label_spec(x) == "Unrelated"@ <==> x == Some("unrelated"@),
        evidence_label_spec(x) == "Unknown"@ <==> !(x == Some("fulfilled"@) || x == Some("broken"@) || x == Some("partial"@) || x == Some("unrelated"@)),
{
    reveal_strlit("Broken");
    reveal_strlit("Fulfilled");
    reveal_strlit("Partial");
    reveal_strlit("Unknown");
    reveal_strlit("Unrelated");
    reveal_strlit("fulfilled");
    reveal_strlit("broken");
    reveal_strlit("partial");
    reveal_strlit("unrelated");
    assert("Broken"@.len() != "Fulfilled"@.len());
    assert("Broken"@.len() != "Partial"@.len());
    assert("Broken"@.len() != "Unknown"@.len());
    assert("Broken"@.len() != "Unrelated"@.len());
    assert("Fulfilled"@.len() != "Partial"@.len());
    assert("Fulfilled"@.len() != "Unknown"@.len());
    assert("Fulfilled"@[0] != "Unrelated"@[0]);
    assert("Partial"@[0] != "Unknown"@[0]);
    assert("Partial"@.len() != "Unrelated"@.len());
    assert("Unknown"@.len() != "Unrelated"@.len());
    assert("fulfilled"@.len() != "broken"@.len());
    assert("fulfilled"@.len() != "partial"@.len());
    assert("fulfilled"@[0] != "unrelated"@[0]);
    assert("broken"@.len() != "partial"@.len());
    assert("broken"@.len() != "unrelated"@.len());
    assert("partial"@.len() != "unrelated"@.len());
}

/// The badge class of a commitment strength.
pub open spec fn strength_badge_class_spec(strength: Option<Seq<char>>) -> Seq<char> {
    match strength {
        Some(v) => {
            if v == "strong"@ {
                "badge badge-primary badge-sm"@
            } else if v == "moderate"@ {
                "badge badge-info badge-sm"@
            } else if v == "weak"@ {
                "badge badge-ghost badge-sm"@
            } else {
                "badge badge-ghost badge-sm"@
            }
        },
        None => "badge badge-ghost badge-sm"@,
    }
}

/// The badge class of a commitment strength.
pub fn strength_badge_class(strength: Option<&str>) -> (r: &'static str)
    ensures
        r@ == strength_badge_class_spec(
            match strength {
                Some(v) => Some(v@),
                None => None,
            },
        ),
{
    match strength {
        Some(v) => {
            if text_eq(v, "strong") {
                "badge badge-primary badge-sm"
            } else if text_eq(v, "moderate") {
                "badge badge-info badge-sm"
            } else if text_eq(v, "weak") {
                "badge badge-ghost badge-sm"
            } else {
                "badge badge-ghost badge-sm"
            }
        },
        None => "badge badge-ghost badge-sm",
    }
}

/// What `strength_badge_class` gives tells the values apart: each result below is given
/// for exactly the values listed with it, and every other value, or none, gets
/// "badge badge-ghost badge-sm".
pub proof fn strength_badge_class_by_value(x: Option<Seq<char>>)
    ensures
        strength_badge_class_spec(x) == "badge badge-primary badge-sm"@ <==> x == Some("strong"@),
        strength_badge_class_spec(x) == "badge badge-info badge-sm"@ <==> x == Some("moderate"@),
        strength_badge_class_spec(x) == "badge badge-ghost badge-sm"@ <==> !(x == Some("strong"@) || x == Some("moderate"@)),
{
    reveal_strlit("badge badge-ghost badge-sm");
    reveal_strlit("badge badge-info badge-sm");
    reveal_strlit("badge badge-primary badge-sm");
    reveal_strlit("strong");
    reveal_strlit("moderate");
    reveal_strlit("weak");
    assert("badge badge-ghost badge-sm"@.len() != "badge badge-info badge-sm"@.len());
    assert("badge badge-ghost badge-sm"@.len() != "badge badge-primary badge-sm"@.len());
    assert("badge badge-info badge-sm"@.len() != "badge badge-primary badge-sm"@.len());
    assert("strong"@.len() != "moderate"@.len());
    assert("strong"@.len() != "weak"@.len());
    assert("moderate"@.len() != "weak"@.len());
}

/// The label of a commitment strength.
pub open spec fn strength_label_spec(strength: Option<Seq<char>>) -> Seq<char> {
    match strength {
        Some(v) => {
            if v == "strong"@ {
                "Strong"@
            } else if v == "moderate"@ {
                "Moderate"@
            } else if v == "weak"@ {
                "Weak"@
            } else {
                "N/A"@
            }
        },
        None => "N/A"@,
    }
}

/// The label of a commitment strength.
pub fn strength_label(strength: Option<&str>) -> (r: &'static str)
    ensures
        r@ == strength_label_spec(
            match strength {
                Some(v) => Some(v@),
                None => None,
            },
        ),
{
    match strength {
        Some(v) => {
            if text_eq(v, "strong") {
                "Strong"
            } else if text_eq(v, "moderate") {
                "Moderate"
            } else if text_eq(v, "weak") {
                "Weak"
            } else {
                "N/A"
            }
        },
        None => "N/A",
    }
}

/// What `strength_label` gives tells the values apart: each result below is given
/// for exactly the values listed with it, and every other value, or none, gets
/// "N/A".
pub proof fn strength_label_by_value(x: Option<Seq<char>>)
    ensures
        strength_label_spec(x) == "Strong"@ <==> x == Some("strong"@),
        strength_label_spec(x) == "Moderate"@ <==> x == Some("moderate"@),
        strength_label_spec(x) == "Weak"@ <==> x == Some("weak"@),
        strength_label_spec(x) == "N/A"@ <==> !(x == Some("strong"@) || x == Some("moderate"@) || x == Some("weak"@)),
{
    reveal_strlit("Moderate");
    reveal_strlit("N/A");
    reveal_strlit("Strong");
    reveal_strlit("Weak");
    reveal_strlit("strong");
    reveal_strlit("moderate");
    reveal_strlit("weak");
    assert("Moderate"@.len() != "N/A"@.len());
    assert("Moderate"@.len() != "Strong"@.len());
    assert("Moderate"@.len() != "Weak"@.len());
    assert("N/A"@.len() != "Strong"@.len());
    assert("N/A"@.len() != "Weak"@.len());
    assert("Strong"@.len() != "Weak"@.len());
    assert("strong"@.len() != "moderate"@.len());
    assert("strong"@.len() != "weak"@.len());
    assert("moderate"@.len() != "weak"@.len());
}

/// The badge class of a commitment status.
pub open spec fn status_badge_class_spec(status: Seq<char>) -> Seq<char> {
    if status == "fulfilled"@ {
        "badge badge-success badge-sm"@
    } else if status == "broken"@ {
        "badge badge-error badge-sm"@
    } else if status == "partial"@ {
        "badge badge-warning badge-sm"@
    } else if status == "active"@ {
        "badge badge-info badge-sm"@
    } else {
        "badge badge-ghost badge-sm"@
    }
}

/// Each known commitment status has its own badge colour: the success badge
/// marks exactly a fulfilled commitment, the error badge exactly a broken
/// one, the warning badge exactly a partial one and the info badge exactly
/// an active one.
pub proof fn status_colours_are_distinct(x: Seq<char>)
    ensures
        status_badge_class_spec(x) == "badge badge-success badge-sm"@ <==> x == "fulfilled"@,
        status_badge_class_spec(x) == "badge badge-error badge-sm"@ <==> x == "broken"@,
        status_badge_class_spec(x) == "badge badge-warning badge-sm"@ <==> x == "partial"@,
        status_badge_class_spec(x) == "badge badge-info badge-sm"@ <==> x == "active"@,
{
    reveal_strlit("badge badge-error badge-sm");
    reveal_strlit("badge badge-ghost badge-sm");
    reveal_strlit("badge badge-info badge-sm");
    reveal_strlit("badge badge-success badge-sm");
    reveal_strlit("badge badge-warning badge-sm");
    assert("badge badge-error badge-sm"@[12] != "badge badge-ghost badge-sm"@[12]);
    assert("badge badge-error badge-sm"@.len() != "badge badge-info badge-sm"@.len());
    assert("badge badge-error badge-sm"@.len() != "badge badge-success badge-sm"@.len());
    assert("badge badge-error badge-sm"@.len() != "badge badge-warning badge-sm"@.len());
    assert("badge badge-ghost badge-sm"@.len() != "badge badge-info badge-sm"@.len());
    assert("badge badge-ghost badge-sm"@.len() != "badge badge-success badge-sm"@.len());
    assert("badge badge-ghost badge-sm"@.len() != "badge badge-warning badge-sm"@.len());
    assert("badge badge-info badge-sm"@.len() != "badge badge-success badge-sm"@.len());
    assert("badge badge-info badge-sm"@.len() != "badge badge-warning badge-sm"@.len());
    assert("badge badge-success badge-sm"@[12] != "badge badge-warning badge-sm"@[12]);
    reveal_strlit("fulfilled");
    reveal_strlit("broken");
    reveal_strlit("partial");
    reveal_strlit("active");
    assert("fulfilled"@.len() != "broken"@.len());
    assert("fulfilled"@.len() != "partial"@.len());
    assert("fulfilled"@.len() != "active"@.len());
    assert("broken"@.len() != "partial"@.len());
    assert("broken"@[0] != "active"@[0]);
    assert("partial"@.len() != "active"@.len());
}

/// The badge class of a commitment status.
pub fn status_badge_class(status: &str) -> (r: &'static str)
    ensures
        r@ == status_badge_class_spec(status@),
{
    if text_eq(status, "fulfilled") {
        "badge badge-success badge-sm"
    } else if text_eq(status, "broken") {
        "badge badge-error badge-sm"
    } else if text_eq(status, "partial") {
        "badge badge-warning badge-sm"
    } else if text_eq(status, "active") {
        "badge badge-info badge-sm"
    } else {
        "badge badge-ghost badge-sm"
    }
}

/// The label of a commitment status (an unknown status is shown as it is).
pub open spec fn status_label_spec(status: Seq<char>) -> Seq<char> {
    if status == "fulfilled"@ {
        "Fulfilled"@
    } else if status == "broken"@ {
        "Broken"@
    } else if status == "partial"@ {
        "Partial"@
    } else if status == "active"@ {
        "Active"@
    } else {
        status
    }
}

/// The label of a commitment status (an unknown status is shown as it is).
pub fn status_label<'a>(status: &'a str) -> (r: &'a str)
    ensures
        r@ == status_label_spec(status@),
{
    if text_eq(status, "fulfilled") {
        "Fulfilled"
    } else if text_eq(status, "broken") {
        "Broken"
    } else if text_eq(status, "partial") {
        "Partial"
    } else if text_eq(status, "active") {
        "Active"
    } else {
        status
    }
}

/// The text to extract commitments from, with its document title.
pub struct ExtractionRequest {
    pub text: String,
    pub title: String,
}

/// Reads the extraction form: both the trimmed title and the trimmed text
/// are required.
pub fn prepare_extraction(title: &str, text: &str) -> (r: Result<ExtractionRequest, &'static str>)
    ensures
        (trim_spec(title@).len() == 0 || trim_spec(text@).len() == 0) ==> r == Err::<
            ExtractionRequest,
            &'static str,
        >("Both title and text are required."),
        (trim_spec(title@).len() > 0 && trim_spec(text@).len() > 0) ==> (r matches Ok(req)
            && req.title@ == trim_spec(title@) && req.text@ == trim_spec(text@)),
{
    let t = trim(title);
    let x = trim(text);
    if t.is_empty() || x.is_empty() {
        return Err("Both title and text are required.");
    }
    Ok(ExtractionRequest { text: String::from_str(x), title: String::from_str(t) })
}

/// Reads the evidence form: the trimmed evidence text is required.
pub fn prepare_evidence(text: &str) -> (r: Result<String, &'static str>)
    ensures
        trim_spec(text@).len() == 0 ==> r == Err::<String, &'static str>(
            "Evidence text is required.",
        ),
        trim_spec(text@).len() > 0 ==> (r matches Ok(t) && t@ == trim_spec(text@)),
{
    let t = trim(text);
    if t.is_empty() {
        Err("Evidence text is required.")
    } else {
        Ok(String::from_str(t))
    }
}

/// A commitment cut for the table: its first 80 bytes with `"..."` when
/// it is longer; the cut must fall on a character boundary (slicing
/// panics elsewhere).
pub fn commitment_preview(text: &str) -> (r: String)
    requires
        text.spec_bytes().len() > 80 ==> is_char_boundary(text.spec_bytes(), 80),
    ensures
        text.spec_bytes().len() <= 80 ==> r@ == text@,
        text.spec_bytes().len() > 80 ==> r@ == decode_utf8(text.spec_bytes().subrange(0, 80))
            + "..."@,
{
    if text.as_bytes().len() <= 80 {
        return String::from_str(text);
    }
    let (head, _tail) = text.split_at(80);
    proof {
        encode_utf8_decode_utf8(head@);
        assert(head.spec_bytes() =~= text.spec_bytes().subrange(0, 80));
    }
    String::from_str(head).concat("...")
}

/// The confirmation shown after evidence is classified, from its
/// classification (`"unknown"` when missing) and confidence percentage.
pub fn classification_message(classification: Option<&str>, confidence_pct: i32) -> (r: String)
    ensures
        r@ == "Classified as \""@ + match classification {
            Some(c) => c@,
            None => "unknown"@,
        } + "\" with "@ + decimal_spec(confidence_pct as int) + "% confidence."@,
{
    let c = match classification {
        Some(c) => c,
        None => "unknown",
    };
    let pct = format_i64(confidence_pct as i64);
    String::from_str("Classified as \"").concat(c).concat("\" with ").concat(pct.as_str()).concat(
        "% confidence.",
    )
}

/// The confirmation shown after an extraction.
pub fn extraction_message(count: usize) -> (r: String)
    ensures
        r@ == "Successfully extracted "@ + digits_spec(count as nat) + " commitments."@,
{
    let n = format_u64(count as u64);
    String::from_str("Successfully extracted ").concat(n.as_str()).concat(" commitments.")
}

} // verus!
