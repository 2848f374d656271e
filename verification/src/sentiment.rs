//! The sentiment monitor page: filters and paging of the feed, totals and
//! bar labels of the topic summaries, and the cells of posts and spikes.

use vstd::prelude::*;
use vstd::string::*;
use crate::numbers::{decimal_spec, format_i64};
use crate::text::{join_spec, join_texts, text_eq};

verus! {

broadcast use vstd::string::group_string_axioms;

/// Posts shown on one page of the feed.
pub const POSTS_PER_PAGE: i64 = 20;

/// The class of a time window button.
pub fn window_button_class(selected: &str, window: &str) -> (r: String)
    ensures
        selected@ == window@ ==> r@ == "join-item btn btn-sm btn-active"@,
        selected@ != window@ ==> r@ == "join-item btn btn-sm"@,
{
    let base = String::from_str("join-item btn btn-sm");
    if text_eq(selected, window) {
        let r = base.concat(" btn-active");
        proof {
            reveal_strlit("join-item btn btn-sm");
            reveal_strlit(" btn-active");
            reveal_strlit("join-item btn btn-sm btn-active");
            assert(r@ =~= "join-item btn btn-sm btn-active"@);
        }
        r
    } else {
        base
    }
}

/// The feed offset of page `page` (pages count from one).
pub fn feed_offset(page: usize) -> (r: i64)
    requires
        (page - 1) * POSTS_PER_PAGE <= i64::MAX,
    ensures
        r == (page - 1) * POSTS_PER_PAGE,
{
    (page as i64 - 1) * POSTS_PER_PAGE
}

/// Whether the pager is shown: a full page came back, so more posts are
/// likely.
pub fn shows_pager(posts_on_page: usize) -> (r: bool)
    ensures
        r == (posts_on_page == POSTS_PER_PAGE),
{
    posts_on_page == 20
}

/// The post counts of one topic over the chosen window.
pub struct SentimentSummary {
    pub topic: String,
    pub positive_count: i64,
    pub negative_count: i64,
    pub neutral_count: i64,
    pub total_count: i64,
}

/// The sum of `f` over `items`.
pub open spec fn total_of(items: Seq<SentimentSummary>, f: spec_fn(SentimentSummary) -> i64) -> int
    decreases items.len(),
{
    if items.len() == 0 {
        0
    } else {
        total_of(items.drop_last(), f) + f(items.last())
    }
}

/// Every running sum of `f` over `items` fits in an `i64`.
pub open spec fn totals_fit(items: Seq<SentimentSummary>, f: spec_fn(SentimentSummary) -> i64) -> bool {
    forall|k: int| 0 <= k <= items.len() ==> i64::MIN <= #[trigger] total_of(items.take(k), f) <= i64::MAX
}

/// The positive count of a summary.
pub open spec fn positive_of() -> spec_fn(SentimentSummary) -> i64 {
    |s: SentimentSummary| s.positive_count
}

/// The negative count of a summary.
pub open spec fn negative_of() -> spec_fn(SentimentSummary) -> i64 {
    |s: SentimentSummary| s.negative_count
}

/// The neutral count of a summary.
pub open spec fn neutral_of() -> spec_fn(SentimentSummary) -> i64 {
    |s: SentimentSummary| s.neutral_count
}

/// The post count of a summary.
pub open spec fn posts_of() -> spec_fn(SentimentSummary) -> i64 {
    |s: SentimentSummary| s.total_count
}

/// The sum of one count over all topics.
fn sum_counts(items: &Vec<SentimentSummary>, which: u8) -> (r: i64)
    requires
        which < 4,
        totals_fit(items@, count_field(which)),
    ensures
        r == total_of(items@, count_field(which)),
{
    let ghost f = count_field(which);
    let mut acc: i64 = 0;
    let mut i: usize = 0;
    while i < items.len()
        invariant
            f == count_field(which),
            which < 4,
            i <= items.len(),
            totals_fit(items@, f),
            acc == total_of(items@.take(i as int), f),
        decreases items.len() - i,
    {
        proof {
            assert(items@.take(i + 1).drop_last() =~= items@.take(i as int));
            assert(items@.take(i + 1).last() == items@[i as int]);
            assert(i64::MIN <= total_of(items@.take(i + 1), f) <= i64::MAX);
        }
        let s = &items[i];
        let v = if which == 0 {
            s.positive_count
        } else if which == 1 {
            s.negative_count
        } else if which == 2 {
            s.neutral_count
        } else {
            s.total_count
        };
        acc = acc + v;
        i += 1;
    }
    proof {
        assert(items@.take(items.len() as int) =~= items@);
    }
    acc
}

/// The count picked by `which`: positive, negative, neutral, or all posts.
pub open spec fn count_field(which: u8) -> spec_fn(SentimentSummary) -> i64 {
    if which == 0 {
        positive_of()
    } else if which == 1 {
        negative_of()
    } else if which == 2 {
        neutral_of()
    } else {
        posts_of()
    }
}

/// The totals over all topics shown on the summary cards.
pub struct SentimentTotals {
    pub positive: i64,
    pub negative: i64,
    pub neutral: i64,
    pub posts: i64,
}

/// The totals over all topics (summing panics on overflow, so every
/// running sum must fit).
pub fn summary_totals(items: &Vec<SentimentSummary>) -> (r: SentimentTotals)
    requires
        totals_fit(items@, positive_of()),
        totals_fit(items@, negative_of()),
        totals_fit(items@, neutral_of()),
        totals_fit(items@, posts_of()),
    ensures
        r.positive == total_of(items@, positive_of()),
        r.negative == total_of(items@, negative_of()),
        r.neutral == total_of(items@, neutral_of()),
        r.posts == total_of(items@, posts_of()),
{
    SentimentTotals {
        positive: sum_counts(items, 0),
        negative: sum_counts(items, 1),
        neutral: sum_counts(items, 2),
        posts: sum_counts(items, 3),
    }
}

/// The bar label of a topic: its name with its positive and negative
/// counts.
pub open spec fn chart_label_spec(s: SentimentSummary) -> Seq<char> {
    s.topic@ + " (+"@ + decimal_spec(s.positive_count as int) + "/-"@ + decimal_spec(
        s.negative_count as int,
    ) + ")"@
}

/// The bar labels of the first fifteen topics, in order.
pub fn chart_labels(items: &Vec<SentimentSummary>) -> (r: Vec<String>)
    ensures
        r.deep_view().len() == if items.len() < 15 { items.len() } else { 15 },
        forall|i: int| 0 <= i < r.deep_view().len() ==> #[trigger] r.deep_view()[i] == chart_label_spec(items@[i]),
{
    let n: usize = if items.len() < 15 { items.len() } else { 15 };
    let mut out: Vec<String> = Vec::new();
    let mut i: usize = 0;
    while i < n
        invariant
            n <= items.len(),
            n == if items.len() < 15 { items.len() } else { 15 },
            i <= n,
            out.deep_view().len() == i,
            forall|j: int| 0 <= j < i ==> #[trigger] out.deep_view()[j] == chart_label_spec(items@[j]),
        decreases n - i,
    {
        let s = &items[i];
        let label = String::from_str(s.topic.as_str()).concat(" (+").concat(format_i64(s.positive_count).as_str()).concat(
            "/-",
        ).concat(format_i64(s.negative_count).as_str()).concat(")");
        let ghost before = out.deep_view();
        out.push(label);
        proof {
            assert(out.deep_view() =~= before.push(label@));
        }
        i += 1;
    }
    out
}

/// The badge class of a post's sentiment (none when not yet classified).
pub open spec fn post_badge_class_spec(sentiment: Option<Seq<char>>) -> Seq<char> {
    match sentiment {
        Some(v) => {
            if v == "positive"@ {
                "badge badge-success badge-sm"@
            } else if v == "negative"@ {
                "badge badge-error badge-sm"@
            } else if v == "neutral"@ {
                "badge badge-info badge-sm"@
            } else {
                "badge badge-ghost badge-sm"@
            }
        },
        None => "badge badge-ghost badge-sm"@,
    }
}

/// A post's badge colour follows its sentiment: the success badge marks
/// exactly a positive post, the error badge exactly a negative one and the
/// info badge exactly a neutral one.
pub proof fn post_colours_follow_sentiment(x: Option<Seq<char>>)
    ensures
        post_badge_class_spec(x) == "badge badge-success badge-sm"@ <==> x == Some("positive"@),
        post_badge_class_spec(x) == "badge badge-error badge-sm"@ <==> x == Some("negative"@),
        post_badge_class_spec(x) == "badge badge-info badge-sm"@ <==> x == Some("neutral"@),
{
    reveal_strlit("badge badge-error badge-sm");
    reveal_strlit("badge badge-ghost badge-sm");
    reveal_strlit("badge badge-info badge-sm");
    reveal_strlit("badge badge-success badge-sm");
    assert("badge badge-error badge-sm"@[12] != "badge badge-ghost badge-sm"@[12]);
    assert("badge badge-error badge-sm"@.len() != "badge badge-info badge-sm"@.len());
    assert("badge badge-error badge-sm"@.len() != "badge badge-success badge-sm"@.len());
    assert("badge badge-ghost badge-sm"@.len() != "badge badge-info badge-sm"@.len());
    assert("badge badge-ghost badge-sm"@.len() != "badge badge-success badge-sm"@.len());
    assert("badge badge-info badge-sm"@.len() != "badge badge-success badge-sm"@.len());
    reveal_strlit("positive");
    reveal_strlit("negative");
    reveal_strlit("neutral");
    assert("positive"@[0] != "negative"@[0]);
    assert("positive"@.len() != "neutral"@.len());
    assert("negative"@.len() != "neutral"@.len());
}

/// The badge class of a post's sentiment (none when not yet classified).
pub fn post_badge_class(sentiment: Option<&str>) -> (r: &'static str)
    ensures
        r@ == post_badge_class_spec(
            match sentiment {
                Some(v) => Some(v@),
                None => None,
            },
        ),
{
    match sentiment {
        Some(v) => {
            if text_eq(v, "positive") {
                "badge badge-success badge-sm"
            } else if text_eq(v, "negative") {
                "badge badge-error badge-sm"
            } else if text_eq(v, "neutral") {
                "badge badge-info badge-sm"
            } else {
                "badge badge-ghost badge-sm"
            }
        },
        None => "badge badge-ghost badge-sm",
    }
}

/// The badge class of a sentiment spike.
pub open spec fn spike_badge_class_spec(sentiment: Seq<char>) -> Seq<char> {
    if sentiment == "positive"@ {
        "badge badge-success badge-sm"@
    } else if sentiment == "negative"@ {
        "badge badge-error badge-sm"@
    } else {
        "badge badge-info badge-sm"@
    }
}

/// The badge class of a sentiment spike.
pub fn spike_badge_class(sentiment: &str) -> (r: &'static str)
    ensures
        r@ == spike_badge_class_spec(sentiment@),
{
    if text_eq(sentiment, "positive") {
        "badge badge-success badge-sm"
    } else if text_eq(sentiment, "negative") {
        "badge badge-error badge-sm"
    } else {
        "badge badge-info badge-sm"
    }
}

/// What `spike_badge_class` gives tells the values apart: each result below is given
/// for exactly the values listed with it, and every other value gets
/// "badge badge-info badge-sm".
pub proof fn spike_badge_class_by_value(x: Seq<char>)
    ensures
        spike_badge_class_spec(x) == "badge badge-success badge-sm"@ <==> x == "positive"@,
        spike_badge_class_spec(x) == "badge badge-error badge-sm"@ <==> x == "negative"@,
        spike_badge_class_spec(x) == "badge badge-info badge-sm"@ <==> !(x == "positive"@ || x == "negative"@),
{
    reveal_strlit("badge badge-error badge-sm");
    reveal_strlit("badge badge-info badge-sm");
    reveal_strlit("badge badge-success badge-sm");
    reveal_strlit("positive");
    reveal_strlit("negative");
    assert("badge badge-error badge-sm"@.len() != "badge badge-info badge-sm"@.len());
    assert("badge badge-error badge-sm"@.len() != "badge badge-success badge-sm"@.len());
    assert("badge badge-info badge-sm"@.len() != "badge badge-success badge-sm"@.len());
    assert("positive"@[0] != "negative"@[0]);
}

/// The topics cell of a post: its topics joined by ", ", or "--" when it
/// has none.
pub fn topics_cell(topics: &Vec<String>) -> (r: String)
    ensures
        topics.len() == 0 ==> r@ == "--"@,
        topics.len() > 0 ==> r@ == join_spec(topics.deep_view(), ", "@),
{
    if topics.len() == 0 {
        String::from_str("--")
    } else {
        join_texts(topics, ", ")
    }
}

} // verus!
