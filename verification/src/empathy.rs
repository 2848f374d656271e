//! The audience empathy page: sentiment badges and labels, the persona
//! selection and the simulation form.

use vstd::prelude::*;
use vstd::string::*;
use crate::selection::contains_text;
use crate::text::{copy_texts, text_eq, trim, trim_spec};

verus! {

broadcast use vstd::string::group_string_axioms;

/// The badge class of a persona's sentiment.
pub open spec fn sentiment_badge_class_spec(sentiment: Seq<char>) -> Seq<char> {
    if sentiment == "positive"@ {
        "badge badge-success"@
    } else if sentiment == "negative"@ {
        "badge badge-error"@
    } else if sentiment == "mixed"@ {
        "badge badge-warning"@
    } else {
        "badge badge-ghost"@
    }
}

/// The badge class of a persona's sentiment.
pub fn sentiment_badge_class(sentiment: &str) -> (r: &'static str)
    ensures
        r@ == sentiment_badge_class_spec(sentiment@),
{
    if text_eq(sentiment, "positive") {
        "badge badge-success"
    } else if text_eq(sentiment, "negative") {
        "badge badge-error"
    } else if text_eq(sentiment, "mixed") {
        "badge badge-warning"
    } else {
        "badge badge-ghost"
    }
}

/// What `sentiment_badge_class` gives tells the values apart: each result below is given
/// for exactly the values listed with it, and every other value gets
/// "badge badge-ghost".
pub proof fn sentiment_badge_class_by_value(x: Seq<char>)
    ensures
        sentiment_badge_class_spec(x) == "badge badge-success"@ <==> x == "positive"@,
        sentiment_badge_class_spec(x) == "badge badge-error"@ <==> x == "negative"@,
        sentiment_badge_class_spec(x) == "badge badge-warning"@ <==> x == "mixed"@,
        sentiment_badge_class_spec(x) == "badge badge-ghost"@ <==> !(x == "positive"@ || x == "negative"@ || x == "mixed"@),
{
    reveal_strlit("badge badge-error");
    reveal_strlit("badge badge-ghost");
    reveal_strlit("badge badge-success");
    reveal_strlit("badge badge-warning");
    reveal_strlit("positive");
    reveal_strlit("negative");
    reveal_strlit("mixed");
    assert("badge badge-error"@[12] != "badge badge-ghost"@[12]);
    assert("badge badge-error"@.len() != "badge badge-success"@.len());
    assert("badge badge-error"@.len() != "badge badge-warning"@.len());
    assert("badge badge-ghost"@.len() != "badge badge-success"@.len());
    assert("badge badge-ghost"@.len() != "badge badge-warning"@.len());
    assert("badge badge-success"@[12] != "badge badge-warning"@[12]);
    assert("positive"@[0] != "negative"@[0]);
    assert("positive"@.len() != "mixed"@.len());
    assert("negative"@.len() != "mixed"@.len());
}

/// The label of a persona's sentiment (other values are shown as they are).
pub open spec fn sentiment_label_spec(sentiment: Seq<char>) -> Seq<char> {
    if sentiment == "positive"@ {
        "Positive"@
    } else if sentiment == "negative"@ {
        "Negative"@
    } else if sentiment == "mixed"@ {
        "Mixed"@
    } else if sentiment == "neutral"@ {
        "Neutral"@
    } else {
        sentiment
    }
}

/// The label of a persona's sentiment (other values are shown as they are).
pub fn sentiment_label<'a>(sentiment: &'a str) -> (r: &'a str)
    ensures
        r@ == sentiment_label_spec(sentiment@),
{
    if text_eq(sentiment, "positive") {
        "Positive"
    } else if text_eq(sentiment, "negative") {
        "Negative"
    } else if text_eq(sentiment, "mixed") {
        "Mixed"
    } else if text_eq(sentiment, "neutral") {
        "Neutral"
    } else {
        sentiment
    }
}

/// The selection after the select-all button: empty when it held as many
/// ids as there are personas, otherwise every persona's id in the listed
/// order.
pub open spec fn select_all_spec(selected: Seq<Seq<char>>, all: Seq<Seq<char>>) -> Seq<Seq<char>> {
    if selected.len() == all.len() {
        Seq::<Seq<char>>::empty()
    } else {
        all
    }
}

/// The select-all button: with every persona selected it clears the
/// selection, otherwise it selects every persona, in the listed order.
pub fn select_all_personas(selected: &mut Vec<String>, all_ids: &Vec<String>)
    ensures
        final(selected).deep_view() == select_all_spec(old(selected).deep_view(), all_ids.deep_view()),
{
    if selected.len() == all_ids.len() {
        *selected = Vec::new();
        proof {
            assert(selected.deep_view() =~= Seq::<Seq<char>>::empty());
        }
    } else {
        *selected = copy_texts(all_ids);
    }
}

/// Pressing select-all twice from a partial selection (of a non-empty
/// persona list) selects everything and then clears the selection again.
pub proof fn select_all_twice_clears(selected: Seq<Seq<char>>, all: Seq<Seq<char>>)
    requires
        selected.len() != all.len(),
    ensures
        select_all_spec(selected, all) == all,
        select_all_spec(select_all_spec(selected, all), all).len() == 0,
{
}

/// The positions in `all` of the personas whose ids are selected, in the
/// listed order.
pub open spec fn chosen_positions(all: Seq<Seq<char>>, selected: Seq<Seq<char>>) -> Seq<int>
    decreases all.len(),
{
    if all.len() == 0 {
        Seq::<int>::empty()
    } else {
        let r = chosen_positions(all.drop_last(), selected);
        if selected.contains(all.last()) {
            r.push(all.len() - 1)
        } else {
            r
        }
    }
}

/// The positions of the selected personas among all personas (given by
/// their ids), in the listed order.
pub fn selected_positions(all_ids: &Vec<String>, selected: &Vec<String>) -> (r: Vec<usize>)
    ensures
        r@.map_values(|i: usize| i as int) == chosen_positions(all_ids.deep_view(), selected.deep_view()),
{
    let ghost a = all_ids.deep_view();
    let mut out: Vec<usize> = Vec::new();
    let mut i: usize = 0;
    while i < all_ids.len()
        invariant
            a == all_ids.deep_view(),
            i <= all_ids.len(),
            out@.map_values(|k: usize| k as int) == chosen_positions(a.take(i as int), selected.deep_view()),
        decreases all_ids.len() - i,
    {
        proof {
            assert(a.take(i + 1).drop_last() =~= a.take(i as int));
            assert(a.take(i + 1).last() == a[i as int]);
            assert(a[i as int] == all_ids@[i as int]@);
        }
        if contains_text(selected, all_ids[i].as_str()) {
            let ghost before = out@;
            out.push(i);
            proof {
                assert(out@.map_values(|k: usize| k as int) =~= before.map_values(|k: usize| k as int).push(i as int));
            }
        }
        i += 1;
    }
    proof {
        assert(a.take(all_ids.len() as int) =~= a);
    }
    out
}

/// Reads the simulation form: the trimmed policy text is required, then a
/// non-empty persona selection; the personas simulated are the selected
/// ones, by their positions in the listed order.
pub fn prepare_simulation(text: &str, all_ids: &Vec<String>, selected: &Vec<String>) -> (r: Result<
    (String, Vec<usize>),
    &'static str,
>)
    ensures
        trim_spec(text@).len() == 0 ==> r == Err::<(String, Vec<usize>), &'static str>(
            "Please enter policy text to simulate.",
        ),
        trim_spec(text@).len() > 0 && selected.len() == 0 ==> r == Err::<
            (String, Vec<usize>),
            &'static str,
        >("Please select at least one persona."),
        trim_spec(text@).len() > 0 && selected.len() > 0 ==> (r matches Ok(q) && q.0@ == trim_spec(
            text@,
        ) && q.1@.map_values(|i: usize| i as int) == chosen_positions(
            all_ids.deep_view(),
            selected.deep_view(),
        )),
{
    let t = trim(text);
    if t.is_empty() {
        return Err("Please enter policy text to simulate.");
    }
    if selected.len() == 0 {
        return Err("Please select at least one persona.");
    }
    Ok((String::from_str(t), selected_positions(all_ids, selected)))
}

} // verus!
