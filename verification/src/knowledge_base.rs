//! The knowledge base page: the question form and its history, and the
//! document form.

use vstd::prelude::*;
use vstd::string::*;
use crate::forms::{outcome_view, require_text, required_spec};
use crate::text::{trim, trim_spec};

verus! {

broadcast use vstd::string::group_string_axioms;

/// Reads the question field: the trimmed question is required.
pub fn prepare_question(question: &str) -> (r: Result<String, &'static str>)
    ensures
        outcome_view(r) == required_spec(question@, "Please enter a question."@),
{
    require_text(question, "Please enter a question.")
}

/// Puts a new answer at the top of the question history.
pub fn record_answer<T>(history: &mut Vec<T>, answer: T)
    ensures
        final(history)@ == seq![answer] + old(history)@,
{
    history.insert(0, answer);
    proof {
        assert(history@ =~= seq![answer] + old(history)@);
    }
}

/// Reads the document form: the trimmed title, then the trimmed content,
/// are required.
pub fn prepare_document(title: &str, content: &str) -> (r: Result<(String, String), &'static str>)
    ensures
        trim_spec(title@).len() == 0 ==> r == Err::<(String, String), &'static str>(
            "Document title is required.",
        ),
        trim_spec(title@).len() > 0 && trim_spec(content@).len() == 0 ==> r == Err::<
            (String, String),
            &'static str,
        >("Document content is required."),
        trim_spec(title@).len() > 0 && trim_spec(content@).len() > 0 ==> (r matches Ok(q)
            && q.0@ == trim_spec(title@) && q.1@ == trim_spec(content@)),
{
    let t = trim(title);
    if t.is_empty() {
        return Err("Document title is required.");
    }
    let c = trim(content);
    if c.is_empty() {
        return Err("Document content is required.");
    }
    Ok((String::from_str(t), String::from_str(c)))
}

/// The notice shown once a document is ingested.
pub fn ingested_message(doc_id: &str) -> (r: String)
    ensures
        r@ == "Document ingested (ID: "@ + doc_id@ + ")"@,
{
    String::from_str("Document ingested (ID: ").concat(doc_id).concat(")")
}

} // verus!
