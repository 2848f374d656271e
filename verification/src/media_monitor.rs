//! The media monitor page: article and comparison forms and tone badges.

use vstd::prelude::*;
use vstd::string::*;
use crate::text::{text_eq, trim, trim_is_idempotent, trim_spec, trimmed};

verus! {

broadcast use vstd::string::group_string_axioms;

/// The badge class of a coverage tone.
pub open spec fn tone_badge_spec(tone: Seq<char>) -> Seq<char> {
    if tone == "positive"@ {
        "badge badge-success"@
    } else if tone == "negative"@ {
        "badge badge-error"@
    } else if tone == "neutral"@ {
        "badge badge-info"@
    } else if tone == "mixed"@ {
        "badge badge-warning"@
    } else if tone == "alarmist"@ {
        "badge badge-error"@
    } else if tone == "dismissive"@ {
        "badge badge-warning"@
    } else {
        "badge badge-ghost"@
    }
}

/// The badge class of a coverage tone.
pub fn tone_badge(tone: &str) -> (r: &'static str)
    ensures
        r@ == tone_badge_spec(tone@),
{
    if text_eq(tone, "positive") {
        "badge badge-success"
    } else if text_eq(tone, "negative") {
        "badge badge-error"
    } else if text_eq(tone, "neutral") {
        "badge badge-info"
    } else if text_eq(tone, "mixed") {
        "badge badge-warning"
    } else if text_eq(tone, "alarmist") {
        "badge badge-error"
    } else if text_eq(tone, "dismissive") {
        "badge badge-warning"
    } else {
        "badge badge-ghost"
    }
}

/// What `tone_badge` gives tells the values apart: each result below is given
/// for exactly the values listed with it, and every other value gets
/// "badge badge-ghost".
pub proof fn tone_badge_by_value(x: Seq<char>)
    ensures
        tone_badge_spec(x) == "badge badge-success"@ <==> x == "positive"@,
        tone_badge_spec(x) == "badge badge-error"@ <==> (x == "negative"@ || x == "alarmist"@),
        tone_badge_spec(x) == "badge badge-info"@ <==> x == "neutral"@,
        tone_badge_spec(x) == "badge badge-warning"@ <==> (x == "mixed"@ || x == "dismissive"@),
        tone_badge_spec(x) == "badge badge-ghost"@ <==> !(x == "positive"@ || x == "negative"@ || x == "neutral"@ || x == "mixed"@ || x == "alarmist"@ || x == "dismissive"@),
{
    reveal_strlit("badge badge-error");
    reveal_strlit("badge badge-ghost");
    reveal_strlit("badge badge-info");
    reveal_strlit("badge badge-success");
    reveal_strlit("badge badge-warning");
    reveal_strlit("positive");
    reveal_strlit("negative");
    reveal_strlit("neutral");
    reveal_strlit("mixed");
    reveal_strlit("alarmist");
    reveal_strlit("dismissive");
    assert("badge badge-error"@[12] != "badge badge-ghost"@[12]);
    assert("badge badge-error"@.len() != "badge badge-info"@.len());
    assert("badge badge-error"@.len() != "badge badge-success"@.len());
    assert("badge badge-error"@.len() != "badge badge-warning"@.len());
    assert("badge badge-ghost"@.len() != "badge badge-info"@.len());
    assert("badge badge-ghost"@.len() != "badge badge-success"@.len());
    assert("badge badge-ghost"@.len() != "badge badge-warning"@.len());
    assert("badge badge-info"@.len() != "badge badge-success"@.len());
    assert("badge badge-info"@.len() != "badge badge-warning"@.len());
    assert("badge badge-success"@[12] != "badge badge-warning"@[12]);
    assert("positive"@[0] != "negative"@[0]);
    assert("positive"@.len() != "neutral"@.len());
    assert("positive"@.len() != "mixed"@.len());
    assert("positive"@[0] != "alarmist"@[0]);
    assert("positive"@.len() != "dismissive"@.len());
    assert("negative"@.len() != "neutral"@.len());
    assert("negative"@.len() != "mixed"@.len());
    assert("negative"@[0] != "alarmist"@[0]);
    assert("negative"@.len() != "dismissive"@.len());
    assert("neutral"@.len() != "mixed"@.len());
    assert("neutral"@.len() != "alarmist"@.len());
    assert("neutral"@.len() != "dismissive"@.len());
    assert("mixed"@.len() != "alarmist"@.len());
    assert("mixed"@.len() != "dismissive"@.len());
    assert("alarmist"@.len() != "dismissive"@.len());
}

/// Reads the article form: the trimmed article text is required; the
/// trimmed source name goes along.
pub fn prepare_article(text: &str, source: &str) -> (r: Result<(String, String), &'static str>)
    ensures
        trim_spec(text@).len() == 0 ==> r == Err::<(String, String), &'static str>(
            "Article text is required.",
        ),
        trim_spec(text@).len() > 0 ==> (r matches Ok(q) && q.0@ == trim_spec(text@) && q.1@
            == trim_spec(source@)),
{
    let t = trim(text);
    if t.is_empty() {
        return Err("Article text is required.");
    }
    Ok((String::from_str(t), trimmed(source)))
}

/// The `(source, text)` article slots that have both a source and a text,
/// trimmed, in order.
pub open spec fn filled_articles(slots: Seq<(Seq<char>, Seq<char>)>) -> Seq<(Seq<char>, Seq<char>)>
    decreases slots.len(),
{
    if slots.len() == 0 {
        Seq::empty()
    } else {
        let r = filled_articles(slots.drop_last());
        let (s, t) = slots.last();
        if trim_spec(s).len() > 0 && trim_spec(t).len() > 0 {
            r.push((trim_spec(s), trim_spec(t)))
        } else {
            r
        }
    }
}

/// The number of slots that have both a non-blank source and a non-blank
/// text.
pub open spec fn complete_slots(slots: Seq<(Seq<char>, Seq<char>)>) -> nat
    decreases slots.len(),
{
    if slots.len() == 0 {
        0
    } else {
        let (s, t) = slots.last();
        complete_slots(slots.drop_last()) + if trim_spec(s).len() > 0 && trim_spec(t).len() > 0 {
            1nat
        } else {
            0nat
        }
    }
}

/// Only complete slots become articles: there is one article per slot with
/// both a non-blank source and a non-blank text, and every article's source
/// and text are non-empty and trimmed.
pub proof fn articles_are_complete_slots(slots: Seq<(Seq<char>, Seq<char>)>)
    ensures
        filled_articles(slots).len() == complete_slots(slots),
        forall|i: int|
            0 <= i < filled_articles(slots).len() ==> {
                let a = #[trigger] filled_articles(slots)[i];
                &&& a.0.len() > 0
                &&& a.1.len() > 0
                &&& trim_spec(a.0) == a.0
                &&& trim_spec(a.1) == a.1
            },
    decreases slots.len(),
{
    if slots.len() > 0 {
        let d = slots.drop_last();
        articles_are_complete_slots(d);
        let (s, t) = slots.last();
        trim_is_idempotent(s);
        trim_is_idempotent(t);
        let r = filled_articles(d);
        if trim_spec(s).len() > 0 && trim_spec(t).len() > 0 {
            assert forall|i: int| 0 <= i < r.len() implies #[trigger] r.push((trim_spec(s), trim_spec(t)))[i] == r[i] by {}
        }
    }
}

/// The view of a list of article slots.
pub open spec fn slots_view(slots: Seq<(String, String)>) -> Seq<(Seq<char>, Seq<char>)> {
    slots.map_values(|p: (String, String)| (p.0@, p.1@))
}

/// What a coverage comparison is requested with.
pub struct ComparisonRequest {
    pub topic: String,
    pub articles: Vec<(String, String)>,
}

/// Reads the comparison form: the trimmed topic is required, then at least
/// two slots with both a source and a text.
pub fn prepare_comparison(topic: &str, slots: &Vec<(String, String)>) -> (r: Result<
    ComparisonRequest,
    &'static str,
>)
    ensures
        trim_spec(topic@).len() == 0 ==> r == Err::<ComparisonRequest, &'static str>(
            "Topic is required for comparison.",
        ),
        trim_spec(topic@).len() > 0 && complete_slots(slots_view(slots@)) < 2 ==> r
            == Err::<ComparisonRequest, &'static str>(
            "At least two articles with sources are needed for comparison.",
        ),
        trim_spec(topic@).len() > 0 && filled_articles(slots_view(slots@)).len() < 2 ==> r
            == Err::<ComparisonRequest, &'static str>(
            "At least two articles with sources are needed for comparison.",
        ),
        trim_spec(topic@).len() > 0 && filled_articles(slots_view(slots@)).len() >= 2 ==> (r matches Ok(q)
            && q.topic@ == trim_spec(topic@) && slots_view(q.articles@) == filled_articles(
            slots_view(slots@),
        )),
{
    let ghost sv = slots_view(slots@);
    let mut articles: Vec<(String, String)> = Vec::new();
    let mut i: usize = 0;
    while i < slots.len()
        invariant
            sv == slots_view(slots@),
            i <= slots.len(),
            slots_view(articles@) == filled_articles(sv.take(i as int)),
        decreases slots.len() - i,
    {
        proof {
            assert(sv.take(i + 1).drop_last() =~= sv.take(i as int));
            assert(sv[i as int] == (slots@[i as int].0@, slots@[i as int].1@));
        }
        let s = trim(slots[i].0.as_str());
        let t = trim(slots[i].1.as_str());
        if !s.is_empty() && !t.is_empty() {
            let ghost before = articles@;
            articles.push((String::from_str(s), String::from_str(t)));
            proof {
                assert(slots_view(articles@) =~= slots_view(before).push((s@, t@)));
            }
        }
        i += 1;
    }
    proof {
        assert(sv.take(slots.len() as int) =~= sv);
        articles_are_complete_slots(sv);
    }
    let tp = trim(topic);
    if tp.is_empty() {
        return Err("Topic is required for comparison.");
    }
    if articles.len() < 2 {
        return Err("At least two articles with sources are needed for comparison.");
    }
    Ok(ComparisonRequest { topic: String::from_str(tp), articles })
}

/// Adds an empty article slot to the comparison form.
pub fn add_article_slot(slots: &mut Vec<(String, String)>)
    ensures
        slots_view(final(slots)@) == slots_view(old(slots)@).push(
            (Seq::<char>::empty(), Seq::<char>::empty()),
        ),
{
    let ghost before = slots@;
    slots.push((String::new(), String::new()));
    proof {
        assert(slots_view(slots@) =~= slots_view(before).push(
            (Seq::<char>::empty(), Seq::<char>::empty()),
        ));
    }
}

} // verus!
