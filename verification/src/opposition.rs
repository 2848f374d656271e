//! Opposition research: the opponent form and the splitting of a
//! generated debate briefing into its `## ` sections.

use vstd::prelude::*;
use vstd::string::*;
use crate::text::{
    chars_of, piece_start, piece_starts_within, split_char, split_spec, trim, trim_spec, trimmed,
};
use crate::numbers::{digits_spec, format_u64};

verus! {

broadcast use vstd::string::group_string_axioms;

/// A line opens a section when its trimmed text starts with `"## "`.
pub open spec fn is_section_header(line: Seq<char>) -> bool {
    let t = trim_spec(line);
    t.len() >= 3 && t[0] == '#' && t[1] == '#' && t[2] == ' '
}

/// `t` with every leading `"## "` removed (`trim_start_matches("## ")`).
pub open spec fn strip_markers(t: Seq<char>) -> Seq<char>
    decreases t.len(),
{
    if t.len() >= 3 && t[0] == '#' && t[1] == '#' && t[2] == ' ' {
        strip_markers(t.subrange(3, t.len() as int))
    } else {
        t
    }
}

/// The title a header line gives its section.
pub open spec fn header_title(line: Seq<char>) -> Seq<char> {
    trim_spec(strip_markers(trim_spec(line)))
}

/// The trimmed text of `c` between two character offsets.
pub open spec fn body_text(c: Seq<char>, start: int, end: int) -> Seq<char> {
    trim_spec(c.subrange(start, end))
}

/// The section list once the open section (title and body start offset),
/// if any, is closed at character offset `end`: it is kept when its body
/// is not empty.
pub open spec fn close_section(
    c: Seq<char>,
    sections: Seq<(Seq<char>, Seq<char>)>,
    open: Option<(Seq<char>, nat)>,
    end: int,
) -> Seq<(Seq<char>, Seq<char>)> {
    match open {
        Some((title, start)) => {
            let body = body_text(c, start as int, end);
            if body.len() > 0 {
                sections.push((title, body))
            } else {
                sections
            }
        },
        None => sections,
    }
}

/// The offset where the line after line `k` of `c` starts, or the end of
/// `c` when line `k` is the last one.
pub open spec fn next_line_start(c: Seq<char>, k: int) -> nat {
    let s = piece_start(split_spec(c, '\n'), k + 1);
    if s <= c.len() {
        s
    } else {
        c.len()
    }
}

/// The sections closed and the section left open after the first `k`
/// lines of `c`, the lines being the pieces between its `'\n'` characters
/// (a `'\r'` before a `'\n'` stays at the end of its line, where trimming
/// removes it): each header line closes the open section where the header
/// line starts and opens a new one whose body starts at the next line.
pub open spec fn scan_lines(c: Seq<char>, k: int) -> (
    Seq<(Seq<char>, Seq<char>)>,
    Option<(Seq<char>, nat)>,
)
    decreases k,
{
    if k <= 0 {
        (Seq::empty(), None)
    } else {
        let prev = scan_lines(c, k - 1);
        let ls = split_spec(c, '\n');
        if is_section_header(ls[k - 1]) {
            (
                close_section(c, prev.0, prev.1, piece_start(ls, k - 1) as int),
                Some((header_title(ls[k - 1]), next_line_start(c, k - 1))),
            )
        } else {
            prev
        }
    }
}

/// The `(title, body)` sections of a briefing: the text under each `## `
/// header line up to the next header line (or the end), trimmed, with
/// empty bodies left out.
pub open spec fn briefing_sections_spec(c: Seq<char>) -> Seq<(Seq<char>, Seq<char>)> {
    let st = scan_lines(c, split_spec(c, '\n').len() as int);
    close_section(c, st.0, st.1, c.len() as int)
}

fn is_header_text(t: &str) -> (r: bool)
    ensures
        r == (t@.len() >= 3 && t@[0] == '#' && t@[1] == '#' && t@[2] == ' '),
{
    let n = t.unicode_len();
    n >= 3 && t.get_char(0) == '#' && t.get_char(1) == '#' && t.get_char(2) == ' '
}

fn title_of(t: &str) -> (r: &str)
    ensures
        r@ == trim_spec(strip_markers(t@)),
{
    let cs = chars_of(t);
    let n = cs.len();
    let mut j: usize = 0;
    proof {
        assert(t@.subrange(0, n as int) =~= t@);
    }
    while j < n && n - j >= 3 && cs[j] == '#' && cs[j + 1] == '#' && cs[j + 2] == ' '
        invariant
            cs@ == t@,
            n == cs.len(),
            j <= n,
            strip_markers(t@) == strip_markers(t@.subrange(j as int, n as int)),
        decreases n - j,
    {
        proof {
            let u = t@.subrange(j as int, n as int);
            assert(u.subrange(3, u.len() as int) =~= t@.subrange(j + 3, n as int));
        }
        j += 3;
    }
    let rest = t.substring_char(j, n);
    trim(rest)
}

/// Splits `content` into `(title, body)` pairs at its `## ` header lines,
/// as the opponent page shows a generated debate briefing.
pub fn parse_briefing_sections(content: &str) -> (r: Vec<(&str, &str)>)
    ensures
        r@.map_values(|p: (&str, &str)| (p.0@, p.1@)) == briefing_sections_spec(content@),
{
    let ghost c = content@;
    let ps = split_char(content, '\n');
    let ghost l = split_spec(c, '\n');
    let n = ps.len();
    proof {
        assert(ps@.map_values(|t: &str| t@).len() == n);
    }
    let total = content.unicode_len();
    let mut out: Vec<(&str, &str)> = Vec::new();
    let mut open_title: Option<&str> = None;
    let mut open_start: usize = 0;
    let mut off: u128 = 0;
    let mut i: usize = 0;
    while i < n
        invariant
            c == content@,
            l == split_spec(c, '\n'),
            ps@.map_values(|t: &str| t@) == l,
            n == ps.len(),
            i <= n,
            total == c.len(),
            off == piece_start(l, i as int),
            open_start <= total,
            open_title is Some ==> open_start <= off,
            out@.map_values(|p: (&str, &str)| (p.0@, p.1@)) == scan_lines(c, i as int).0,
            match scan_lines(c, i as int).1 {
                Some((t, st)) => open_title matches Some(ot) && ot@ == t && open_start == st,
                None => open_title is None,
            },
        decreases n - i,
    {
        let line = ps[i];
        proof {
            assert(ps@.map_values(|t: &str| t@)[i as int] == line@);
            piece_starts_within(c, '\n', i as int);
            piece_starts_within(c, '\n', i + 1);
        }
        let t = trim(line);
        let next_off: u128 = off + (line.unicode_len() as u128) + 1;
        proof {
            assert(next_off == piece_start(l, i + 1));
        }
        if is_header_text(t) {
            match open_title {
                Some(title) => {
                    let body = trim(content.substring_char(open_start, off as usize));
                    if !body.is_empty() {
                        let ghost before = out@;
                        out.push((title, body));
                        proof {
                            assert(out@.map_values(|p: (&str, &str)| (p.0@, p.1@))
                                =~= before.map_values(|p: (&str, &str)| (p.0@, p.1@)).push(
                                (title@, body@),
                            ));
                        }
                    }
                },
                None => {},
            }
            open_title = Some(title_of(t));
            open_start = if next_off <= total as u128 {
                next_off as usize
            } else {
                total
            };
        }
        off = next_off;
        i += 1;
    }
    match open_title {
        Some(title) => {
            let body = trim(content.substring_char(open_start, total));
            if !body.is_empty() {
                let ghost before = out@;
                out.push((title, body));
                proof {
                    assert(out@.map_values(|p: (&str, &str)| (p.0@, p.1@)) =~= before.map_values(
                        |p: (&str, &str)| (p.0@, p.1@),
                    ).push((title@, body@)));
                }
            }
        },
        None => {},
    }
    out
}

/// The number of lines among the first `k` lines of `c` whose trimmed text
/// begins with the three characters `#`, `#` and a space.
pub open spec fn double_hash_lines(c: Seq<char>, k: int) -> nat
    decreases k,
{
    if k <= 0 {
        0
    } else {
        double_hash_lines(c, k - 1) + if trim_spec(split_spec(c, '\n')[k - 1]).take(3) == seq![
            '#',
            '#',
            ' ',
        ] {
            1nat
        } else {
            0nat
        }
    }
}

proof fn lemma_scan_count(c: Seq<char>, k: int)
    requires
        0 <= k <= split_spec(c, '\n').len(),
    ensures
        scan_lines(c, k).0.len() + (if scan_lines(c, k).1 is Some {
            1nat
        } else {
            0nat
        }) <= double_hash_lines(c, k),
    decreases k,
{
    if k > 0 {
        lemma_scan_count(c, k - 1);
        let l = split_spec(c, '\n')[k - 1];
        if is_section_header(l) {
            assert(trim_spec(l).take(3) =~= seq!['#', '#', ' ']);
        }
    }
}

/// Only `## ` lines open sections: a briefing has at most as many sections
/// as it has lines whose trimmed text begins with `## ` (a `### ` line
/// stays inside the section above it).
pub proof fn sections_come_from_double_hash_lines(c: Seq<char>)
    ensures
        briefing_sections_spec(c).len() <= double_hash_lines(c, split_spec(c, '\n').len() as int),
{
    lemma_scan_count(c, split_spec(c, '\n').len() as int);
}

/// All bodies in the list are non-empty and trimmed.
pub open spec fn bodies_trimmed(sections: Seq<(Seq<char>, Seq<char>)>) -> bool {
    forall|i: int|
        0 <= i < sections.len() ==> #[trigger] sections[i].1.len() > 0 && trim_spec(
            sections[i].1,
        ) == sections[i].1
}

proof fn lemma_close_keeps_trimmed(
    c: Seq<char>,
    sections: Seq<(Seq<char>, Seq<char>)>,
    open: Option<(Seq<char>, nat)>,
    end: int,
)
    requires
        bodies_trimmed(sections),
    ensures
        bodies_trimmed(close_section(c, sections, open, end)),
{
    if let Some((t, st)) = open {
        let b = body_text(c, st as int, end);
        crate::text::trim_is_idempotent(c.subrange(st as int, end));
        if b.len() > 0 {
            let r = sections.push((t, b));
            assert forall|i: int| 0 <= i < r.len() implies #[trigger] r[i].1.len() > 0 && trim_spec(
                r[i].1,
            ) == r[i].1 by {
                if i < sections.len() {
                    assert(r[i] == sections[i]);
                }
            }
        }
    }
}

proof fn lemma_scan_trimmed(c: Seq<char>, k: int)
    ensures
        bodies_trimmed(scan_lines(c, k).0),
    decreases k,
{
    if k > 0 {
        lemma_scan_trimmed(c, k - 1);
        let prev = scan_lines(c, k - 1);
        let ls = split_spec(c, '\n');
        if is_section_header(ls[k - 1]) {
            lemma_close_keeps_trimmed(c, prev.0, prev.1, piece_start(ls, k - 1) as int);
        }
    }
}

/// Every section of a briefing has a non-empty, trimmed body.
pub proof fn briefing_bodies_are_trimmed(c: Seq<char>)
    ensures
        bodies_trimmed(briefing_sections_spec(c)),
{
    let n = split_spec(c, '\n').len() as int;
    lemma_scan_trimmed(c, n);
    let st = scan_lines(c, n);
    lemma_close_keeps_trimmed(c, st.0, st.1, c.len() as int);
}

proof fn lemma_scan_without_headers(c: Seq<char>, k: int)
    requires
        k <= split_spec(c, '\n').len(),
        forall|i: int| 0 <= i < split_spec(c, '\n').len() ==> !is_section_header(#[trigger] split_spec(c, '\n')[i]),
    ensures
        scan_lines(c, k).0.len() == 0,
        scan_lines(c, k).1 is None,
    decreases k,
{
    if k > 0 {
        lemma_scan_without_headers(c, k - 1);
        assert(!is_section_header(split_spec(c, '\n')[k - 1]));
    }
}

/// A briefing without any `## ` header line has no sections (the page then
/// shows it as one block).
pub proof fn no_header_no_sections(c: Seq<char>)
    requires
        forall|i: int| 0 <= i < split_spec(c, '\n').len() ==> !is_section_header(#[trigger] split_spec(c, '\n')[i]),
    ensures
        briefing_sections_spec(c).len() == 0,
{
    lemma_scan_without_headers(c, split_spec(c, '\n').len() as int);
}

/// What a new opponent is created with: the trimmed name and the trimmed
/// party, district, bio and policy positions (possibly empty).
pub struct OpponentRequest {
    pub name: String,
    pub party: String,
    pub district: String,
    pub bio: String,
    pub positions: String,
}

/// Reads the add-opponent form: the trimmed name is required.
pub fn prepare_opponent(name: &str, party: &str, district: &str, bio: &str, positions: &str) -> (r:
    Result<OpponentRequest, &'static str>)
    ensures
        trim_spec(name@).len() == 0 ==> r == Err::<OpponentRequest, &'static str>(
            "Name is required.",
        ),
        trim_spec(name@).len() > 0 ==> (r matches Ok(q) && q.name@ == trim_spec(name@) && q.party@
            == trim_spec(party@) && q.district@ == trim_spec(district@) && q.bio@ == trim_spec(
            bio@,
        ) && q.positions@ == trim_spec(positions@)),
{
    let n = trim(name);
    if n.is_empty() {
        return Err("Name is required.");
    }
    Ok(OpponentRequest {
        name: String::from_str(n),
        party: trimmed(party),
        district: trimmed(district),
        bio: trimmed(bio),
        positions: trimmed(positions),
    })
}

/// An opponent's recorded policy positions: a table of topics with the
/// text of each position, a free text, or anything else.
pub enum Positions {
    Table(Vec<(String, String)>),
    Text(String),
    Other,
}

/// The number of positions an opponent card counts: the topics of a
/// table, none otherwise.
pub fn position_count(p: &Positions) -> (r: usize)
    ensures
        p matches Positions::Table(t) ==> r == t.len(),
        !(p is Table) ==> r == 0,
{
    match p {
        Positions::Table(t) => t.len(),
        _ => 0,
    }
}

/// The badge text of an opponent card.
pub fn position_count_label(count: usize) -> (r: String)
    ensures
        r@ == digits_spec(count as nat) + " policy positions"@,
{
    format_u64(count as u64).concat(" policy positions")
}

/// How the positions are shown on the opponent page.
pub enum PositionsShown {
    /// A non-empty table, shown row by row.
    Rows,
    /// A non-empty free text, shown as it is.
    Prose,
    /// "No policy positions recorded."
    Nothing,
}

/// How the positions are shown: a non-empty table as rows, a non-empty
/// text as prose, anything else as the empty notice.
pub fn positions_shown(p: &Positions) -> (r: PositionsShown)
    ensures
        (p matches Positions::Table(t) && t.len() > 0) ==> r is Rows,
        (p matches Positions::Text(s) && s@.len() > 0) ==> r is Prose,
        !((p matches Positions::Table(t) && t.len() > 0) || (p matches Positions::Text(s)
            && s@.len() > 0)) ==> r is Nothing,
{
    match p {
        Positions::Table(t) => {
            if t.len() > 0 {
                PositionsShown::Rows
            } else {
                PositionsShown::Nothing
            }
        },
        Positions::Text(s) => {
            if s.as_str().is_empty() {
                PositionsShown::Nothing
            } else {
                PositionsShown::Prose
            }
        },
        Positions::Other => PositionsShown::Nothing,
    }
}

} // verus!
