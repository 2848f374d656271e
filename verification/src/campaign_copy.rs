//! The campaign copy page: format labels, the generation form and the
//! regeneration of one piece.

use vstd::prelude::*;
use vstd::string::*;
use crate::forms::{opt_view, optional_spec, optional_text};
use crate::text::{copy_texts, items_spec, line_items, lines_spec, text_eq, trim, trim_spec};

verus! {

broadcast use vstd::string::group_string_axioms;

/// The human-readable label of a copy format key (other keys are shown as they are).
pub open spec fn format_label_spec(format: Seq<char>) -> Seq<char> {
    if format == "email"@ {
        "Email"@
    } else if format == "social_post"@ {
        "Social Post"@
    } else if format == "press_release"@ {
        "Press Release"@
    } else if format == "speech"@ {
        "Speech"@
    } else if format == "blog_post"@ {
        "Blog Post"@
    } else {
        format
    }
}

/// The human-readable label of a copy format key (other keys are shown as they are).
pub fn format_label<'a>(format: &'a str) -> (r: &'a str)
    ensures
        r@ == format_label_spec(format@),
{
    if text_eq(format, "email") {
        "Email"
    } else if text_eq(format, "social_post") {
        "Social Post"
    } else if text_eq(format, "press_release") {
        "Press Release"
    } else if text_eq(format, "speech") {
        "Speech"
    } else if text_eq(format, "blog_post") {
        "Blog Post"
    } else {
        format
    }
}

/// What a copy generation is requested with (audience and tone are passed
/// on as chosen).
pub struct CopyRequest {
    pub topic: String,
    pub key_messages: Vec<String>,
    pub formats: Vec<String>,
}

/// Reads the generation form: the trimmed topic is required, then at least
/// one non-blank key message line, then at least one chosen format.
pub fn prepare_copy(topic: &str, key_messages: &str, formats: &Vec<String>) -> (r: Result<
    CopyRequest,
    &'static str,
>)
    ensures
        trim_spec(topic@).len() == 0 ==> r == Err::<CopyRequest, &'static str>(
            "Topic is required.",
        ),
        trim_spec(topic@).len() > 0 && items_spec(lines_spec(key_messages@)).len() == 0 ==> r
            == Err::<CopyRequest, &'static str>("At least one key message is required."),
        trim_spec(topic@).len() > 0 && items_spec(lines_spec(key_messages@)).len() > 0
            && formats.len() == 0 ==> r == Err::<CopyRequest, &'static str>(
            "Select at least one format.",
        ),
        trim_spec(topic@).len() > 0 && items_spec(lines_spec(key_messages@)).len() > 0
            && formats.len() > 0 ==> (r matches Ok(q) && q.topic@ == trim_spec(topic@)
            && q.key_messages.deep_view() == items_spec(lines_spec(key_messages@))
            && q.formats.deep_view() == formats.deep_view()),
{
    let t = trim(topic);
    if t.is_empty() {
        return Err("Topic is required.");
    }
    let msgs = line_items(key_messages);
    if msgs.len() == 0 {
        return Err("At least one key message is required.");
    }
    if formats.len() == 0 {
        return Err("Select at least one format.");
    }
    Ok(CopyRequest { topic: String::from_str(t), key_messages: msgs, formats: copy_texts(formats) })
}

/// One generated piece of copy.
pub struct GeneratedCopy {
    pub format: String,
    pub content: String,
}

/// What regenerating the piece under tab `tab` is requested with: its
/// format and the optional trimmed feedback; nothing when no piece is there.
pub fn prepare_regeneration(results: &Vec<GeneratedCopy>, tab: usize, feedback: &str) -> (r: Option<
    (String, Option<String>),
>)
    ensures
        tab >= results.len() ==> r is None,
        tab < results.len() ==> (r matches Some(q) && q.0@ == results@[tab as int].format@
            && opt_view(q.1) == optional_spec(feedback@)),
{
    if tab >= results.len() {
        return None;
    }
    let f = String::from_str(results[tab].format.as_str());
    Some((f, optional_text(feedback)))
}

/// Puts a regenerated piece in place of the one under tab `tab` (nothing
/// changes when there is none).
pub fn replace_result<T>(results: &mut Vec<T>, tab: usize, fresh: T)
    ensures
        tab < old(results).len() ==> final(results)@ == old(results)@.update(tab as int, fresh),
        tab >= old(results).len() ==> final(results)@ == old(results)@,
{
    if tab < results.len() {
        results.set(tab, fresh);
    }
}

} // verus!
