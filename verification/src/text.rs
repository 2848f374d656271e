//! Text primitives with the exact behaviour of the `str` operations the
//! pages rely on: Unicode whitespace trimming, line and separator
//! splitting, equality and character collection.

use vstd::prelude::*;
use vstd::string::*;
use vstd::utf8::*;

verus! {

broadcast use vstd::string::group_string_axioms;

/// The Unicode `White_Space` property, which is what `char::is_whitespace`
/// (and therefore `str::trim`) tests.
pub open spec fn is_white(c: char) -> bool {
    let u = c as u32;
    ||| 0x9 <= u <= 0xD
    ||| u == 0x20
    ||| u == 0x85
    ||| u == 0xA0
    ||| u == 0x1680
    ||| 0x2000 <= u <= 0x200A
    ||| u == 0x2028
    ||| u == 0x2029
    ||| u == 0x202F
    ||| u == 0x205F
    ||| u == 0x3000
}

/// Executable test of [`is_white`].
pub fn char_is_white(c: char) -> (r: bool)
    ensures
        r == is_white(c),
{
    let u = c as u32;
    (0x9 <= u && u <= 0xD) || u == 0x20 || u == 0x85 || u == 0xA0 || u == 0x1680 || (0x2000 <= u
        && u <= 0x200A) || u == 0x2028 || u == 0x2029 || u == 0x202F || u == 0x205F || u == 0x3000
}

/// The characters of `s`, in order.
pub fn chars_of(s: &str) -> (v: Vec<char>)
    ensures
        v@ == s@,
{
    let mut v: Vec<char> = Vec::new();
    for c in it: s.chars()
        invariant
            v@ == it.seq().take(it.index() as int),
            it.seq() == s@,
    {
        v.push(c);
    }
    v
}

/// Two strings hold the same characters.
pub fn text_eq(a: &str, b: &str) -> (r: bool)
    ensures
        r == (a@ == b@),
{
    let x = chars_of(a);
    let y = chars_of(b);
    if x.len() != y.len() {
        return false;
    }
    let mut i: usize = 0;
    while i < x.len()
        invariant
            x@ == a@,
            y@ == b@,
            x.len() == y.len(),
            i <= x.len(),
            forall|j: int| 0 <= j < i ==> x@[j] == y@[j],
        decreases x.len() - i,
    {
        if x[i] != y[i] {
            return false;
        }
        i += 1;
    }
    assert(a@ =~= b@);
    true
}

/// `s` without its leading whitespace (`str::trim_start`).
pub open spec fn trim_start_spec(s: Seq<char>) -> Seq<char>
    decreases s.len(),
{
    if s.len() > 0 && is_white(s[0]) {
        trim_start_spec(s.drop_first())
    } else {
        s
    }
}

/// `s` without its trailing whitespace (`str::trim_end`).
pub open spec fn trim_end_spec(s: Seq<char>) -> Seq<char>
    decreases s.len(),
{
    if s.len() > 0 && is_white(s.last()) {
        trim_end_spec(s.drop_last())
    } else {
        s
    }
}

/// `s` without leading and trailing whitespace (`str::trim`).
pub open spec fn trim_spec(s: Seq<char>) -> Seq<char> {
    trim_end_spec(trim_start_spec(s))
}

proof fn lemma_trim_start_step(s: Seq<char>, i: int)
    requires
        0 <= i < s.len(),
        is_white(s[i]),
    ensures
        trim_start_spec(s.subrange(i, s.len() as int)) == trim_start_spec(
            s.subrange(i + 1, s.len() as int),
        ),
{
    assert(s.subrange(i, s.len() as int).drop_first() =~= s.subrange(i + 1, s.len() as int));
}

proof fn lemma_trim_end_step(s: Seq<char>, i: int, j: int)
    requires
        0 <= i < j <= s.len(),
        is_white(s[j - 1]),
    ensures
        trim_end_spec(s.subrange(i, j)) == trim_end_spec(s.subrange(i, j - 1)),
{
    assert(s.subrange(i, j).drop_last() =~= s.subrange(i, j - 1));
}

/// `s` with leading and trailing Unicode whitespace removed, as `str::trim`
/// does it.
pub fn trim(s: &str) -> (r: &str)
    ensures
        r@ == trim_spec(s@),
{
    let v = chars_of(s);
    let n = v.len();
    let mut i: usize = 0;
    proof {
        assert(s@.subrange(0, n as int) =~= s@);
    }
    while i < n && char_is_white(v[i])
        invariant
            v@ == s@,
            n == v.len(),
            i <= n,
            trim_start_spec(s@) == trim_start_spec(s@.subrange(i as int, n as int)),
        decreases n - i,
    {
        proof {
            lemma_trim_start_step(s@, i as int);
        }
        i += 1;
    }
    proof {
        assert(s@.subrange(0, n as int) =~= s@);
    }
    let mut j: usize = n;
    while j > i && char_is_white(v[j - 1])
        invariant
            v@ == s@,
            n == v.len(),
            i <= j <= n,
            trim_start_spec(s@) == s@.subrange(i as int, n as int),
            trim_end_spec(s@.subrange(i as int, n as int)) == trim_end_spec(
                s@.subrange(i as int, j as int),
            ),
        decreases j - i,
    {
        proof {
            lemma_trim_end_step(s@, i as int, j as int);
        }
        j -= 1;
    }
    s.substring_char(i, j)
}

/// The pieces of `s` between occurrences of `sep`, as `str::split` with a
/// `char` pattern gives them (the empty string gives one empty piece).
pub open spec fn split_spec(s: Seq<char>, sep: char) -> Seq<Seq<char>>
    decreases s.len(),
{
    if s.len() == 0 {
        seq![Seq::<char>::empty()]
    } else {
        let p = split_spec(s.drop_last(), sep);
        if s.last() == sep {
            p.push(Seq::<char>::empty())
        } else {
            p.update(p.len() - 1, p.last().push(s.last()))
        }
    }
}

proof fn lemma_split_nonempty(s: Seq<char>, sep: char)
    ensures
        split_spec(s, sep).len() >= 1,
    decreases s.len(),
{
    if s.len() > 0 {
        lemma_split_nonempty(s.drop_last(), sep);
    }
}

/// The pieces of `s` between occurrences of `sep`.
pub fn split_char(s: &str, sep: char) -> (r: Vec<&str>)
    ensures
        r@.map_values(|t: &str| t@) == split_spec(s@, sep),
{
    let v = chars_of(s);
    let n = v.len();
    let mut out: Vec<&str> = Vec::new();
    let mut start: usize = 0;
    let mut i: usize = 0;
    proof {
        assert(s@.take(0) =~= Seq::<char>::empty());
        assert(out@.map_values(|t: &str| t@).push(s@.subrange(0, 0)) =~= seq![
            Seq::<char>::empty(),
        ]);
    }
    while i < n
        invariant
            v@ == s@,
            n == v.len(),
            start <= i <= n,
            out@.map_values(|t: &str| t@).push(s@.subrange(start as int, i as int)) == split_spec(
                s@.take(i as int),
                sep,
            ),
        decreases n - i,
    {
        proof {
            let t = s@.take(i as int + 1);
            assert(t.drop_last() =~= s@.take(i as int));
            lemma_split_nonempty(s@.take(i as int), sep);
        }
        if v[i] == sep {
            out.push(s.substring_char(start, i));
            proof {
                assert(out@.map_values(|t: &str| t@) =~= split_spec(s@.take(i as int), sep));
            }
            start = i + 1;
            proof {
                assert(s@.subrange(start as int, start as int) =~= Seq::<char>::empty());
            }
        } else {
            proof {
                assert(s@.subrange(start as int, i + 1) =~= s@.subrange(start as int, i as int).push(
                    s@[i as int],
                ));
                assert(out@.map_values(|t: &str| t@).push(s@.subrange(start as int, i + 1))
                    =~= split_spec(s@.take(i as int), sep).update(
                    split_spec(s@.take(i as int), sep).len() - 1,
                    split_spec(s@.take(i as int), sep).last().push(s@[i as int]),
                ));
            }
        }
        i += 1;
    }
    out.push(s.substring_char(start, n));
    proof {
        assert(s@.take(n as int) =~= s@);
    }
    out
}

/// Where piece `k` of `p` starts in the text it was split from: the
/// lengths of the pieces before it, each followed by its one-character
/// separator.
pub open spec fn piece_start(p: Seq<Seq<char>>, k: int) -> nat
    decreases k,
{
    if k <= 0 {
        0
    } else {
        piece_start(p, k - 1) + p[k - 1].len() + 1
    }
}

proof fn lemma_piece_start_prefix(p: Seq<Seq<char>>, q: Seq<Seq<char>>, k: int)
    requires
        0 <= k <= p.len(),
        k <= q.len(),
        forall|i: int| 0 <= i < k ==> p[i] == q[i],
    ensures
        piece_start(p, k) == piece_start(q, k),
    decreases k,
{
    if k > 0 {
        lemma_piece_start_prefix(p, q, k - 1);
    }
}

/// Piece starts never decrease.
pub proof fn piece_start_monotone(p: Seq<Seq<char>>, i: int, j: int)
    requires
        0 <= i <= j,
    ensures
        piece_start(p, i) <= piece_start(p, j),
    decreases j - i,
{
    if i < j {
        piece_start_monotone(p, i, j - 1);
    }
}

proof fn lemma_piece_start_total(s: Seq<char>, sep: char)
    ensures
        piece_start(split_spec(s, sep), split_spec(s, sep).len() as int) == s.len() + 1,
    decreases s.len(),
{
    let p = split_spec(s, sep);
    if s.len() == 0 {
        assert(piece_start(p, 0) == 0);
    } else {
        let t = s.drop_last();
        let q = split_spec(t, sep);
        lemma_piece_start_total(t, sep);
        lemma_split_nonempty(t, sep);
        if s.last() == sep {
            lemma_piece_start_prefix(p, q, q.len() as int);
        } else {
            lemma_piece_start_prefix(p, q, q.len() - 1);
        }
    }
}

/// The pieces of `s` start within `s`, and the start past the last piece
/// is one beyond its end.
pub proof fn piece_starts_within(s: Seq<char>, sep: char, k: int)
    requires
        0 <= k <= split_spec(s, sep).len(),
    ensures
        split_spec(s, sep).len() >= 1,
        piece_start(split_spec(s, sep), k) <= s.len() + 1,
        k < split_spec(s, sep).len() ==> piece_start(split_spec(s, sep), k) <= s.len(),
{
    let p = split_spec(s, sep);
    lemma_split_nonempty(s, sep);
    lemma_piece_start_total(s, sep);
    piece_start_monotone(p, k, p.len() as int);
    if k < p.len() {
        piece_start_monotone(p, k, p.len() - 1);
    }
}

/// Piece `k` of splitting `s` at `sep` sits in `s` at its start offset,
/// followed by the separator unless it is the last piece.
pub open spec fn sits_at_start(s: Seq<char>, sep: char, k: int) -> bool {
    let p = split_spec(s, sep);
    let a = piece_start(p, k) as int;
    &&& a + p[k].len() <= s.len()
    &&& s.subrange(a, a + p[k].len()) == p[k]
    &&& k + 1 < p.len() ==> s[a + p[k].len()] == sep
}

/// Each piece of a split sits in the text at its start offset, and every
/// piece but the last is followed there by the separator: the offsets
/// count each separator as the one character it is.
pub proof fn pieces_sit_at_their_starts(s: Seq<char>, sep: char, k: int)
    requires
        0 <= k < split_spec(s, sep).len(),
    ensures
        sits_at_start(s, sep, k),
    decreases s.len(),
{
    let p = split_spec(s, sep);
    if s.len() == 0 {
        assert(s.subrange(0, 0) =~= p[0]);
    } else {
        let t = s.drop_last();
        let c = s.last();
        let q = split_spec(t, sep);
        lemma_split_nonempty(t, sep);
        lemma_piece_start_total(t, sep);
        assert(t.push(c) =~= s);
        assert forall|i: int| 0 <= i < t.len() implies s[i] == t[i] by {}
        if c == sep {
            assert(p == q.push(Seq::<char>::empty()));
            if k < q.len() {
                lemma_piece_start_prefix(p, q, k);
                pieces_sit_at_their_starts(t, sep, k);
                let a = piece_start(q, k) as int;
                assert(p[k] == q[k]);
                assert(piece_start(q, k + 1) == a + q[k].len() + 1);
                piece_start_monotone(q, k + 1, q.len() as int);
                assert(s.subrange(a, a + q[k].len()) =~= t.subrange(a, a + q[k].len()));
                if k + 1 < q.len() {
                    piece_start_monotone(q, k + 1, q.len() - 1);
                    assert(a + q[k].len() < t.len());
                    assert(s[a + q[k].len()] == t[a + q[k].len()]);
                } else {
                    assert(a + q[k].len() == t.len());
                }
            } else {
                lemma_piece_start_prefix(p, q, q.len() as int);
                assert(piece_start(p, k) == s.len());
                assert(s.subrange(s.len() as int, s.len() as int) =~= p[k]);
            }
        } else {
            assert(p == q.update(q.len() - 1, q.last().push(c)));
            lemma_piece_start_prefix(p, q, k);
            pieces_sit_at_their_starts(t, sep, k);
            let a = piece_start(q, k) as int;
            if k < q.len() - 1 {
                assert(p[k] == q[k]);
                assert(piece_start(q, k + 1) == a + q[k].len() + 1);
                piece_start_monotone(q, k + 1, q.len() as int);
                assert(s.subrange(a, a + q[k].len()) =~= t.subrange(a, a + q[k].len()));
                piece_start_monotone(q, k + 1, q.len() - 1);
                assert(a + q[k].len() < t.len());
                assert(s[a + q[k].len()] == t[a + q[k].len()]);
            } else {
                assert(a + q[k].len() == t.len());
                assert(p[k] == q[k].push(c));
                assert(s.subrange(a, a + q[k].len() + 1) =~= t.subrange(a, a + q[k].len()).push(c));
            }
        }
    }
}

/// `s` without one trailing carriage return.
pub open spec fn strip_cr_spec(s: Seq<char>) -> Seq<char> {
    if s.len() > 0 && s.last() == '\r' {
        s.drop_last()
    } else {
        s
    }
}

/// The lines of `s` as `str::lines` yields them: split at `'\n'`, each line
/// that ended in `'\n'` loses one `'\r'` before it, and a final `'\n'` does
/// not start an empty last line.
pub open spec fn lines_spec(s: Seq<char>) -> Seq<Seq<char>> {
    let p = split_spec(s, '\n');
    if s.len() == 0 {
        Seq::<Seq<char>>::empty()
    } else if s.last() == '\n' {
        p.drop_last().map_values(|l: Seq<char>| strip_cr_spec(l))
    } else {
        p.drop_last().map_values(|l: Seq<char>| strip_cr_spec(l)).push(p.last())
    }
}

proof fn lemma_split_last_empty(s: Seq<char>, sep: char)
    requires
        s.len() > 0,
    ensures
        (split_spec(s, sep).last().len() == 0) == (s.last() == sep),
{
    lemma_split_nonempty(s.drop_last(), sep);
}

fn strip_cr(s: &str) -> (r: &str)
    ensures
        r@ == strip_cr_spec(s@),
{
    let n = s.unicode_len();
    if n > 0 && s.get_char(n - 1) == '\r' {
        s.substring_char(0, n - 1)
    } else {
        proof {
            assert(s@.subrange(0, n as int) =~= s@);
        }
        s.substring_char(0, n)
    }
}

/// The lines of `s`, as `str::lines` yields them.
pub fn lines(s: &str) -> (r: Vec<&str>)
    ensures
        r@.map_values(|t: &str| t@) == lines_spec(s@),
{
    let pieces = split_char(s, '\n');
    let ghost p = split_spec(s@, '\n');
    proof {
        lemma_split_nonempty(s@, '\n');
    }
    let mut out: Vec<&str> = Vec::new();
    if s.is_empty() {
        proof {
            assert(out@.map_values(|t: &str| t@) =~= lines_spec(s@));
        }
        return out;
    }
    let k = pieces.len();
    proof {
        assert(pieces@.map_values(|t: &str| t@).len() == k);
        lemma_split_last_empty(s@, '\n');
    }
    let mut i: usize = 0;
    while i + 1 < k
        invariant
            pieces@.map_values(|t: &str| t@) == p,
            k == pieces.len(),
            k >= 1,
            i + 1 <= k,
            out@.map_values(|t: &str| t@) == p.take(i as int).map_values(
                |l: Seq<char>| strip_cr_spec(l),
            ),
        decreases k - i,
    {
        let t = strip_cr(pieces[i]);
        proof {
            assert(pieces@.map_values(|t: &str| t@)[i as int] == pieces@[i as int]@);
            assert(t@ == strip_cr_spec(p[i as int]));
        }
        let ghost before = out@;
        out.push(t);
        proof {
            assert(out@ == before.push(t));
            assert(out@.map_values(|t: &str| t@) =~= before.map_values(|t: &str| t@).push(t@));
            assert(p.take(i + 1) =~= p.take(i as int).push(p[i as int]));
            assert(out@.map_values(|t: &str| t@) =~= p.take(i + 1).map_values(
                |l: Seq<char>| strip_cr_spec(l),
            ));
        }
        i += 1;
    }
    proof {
        assert(p.take(i as int) =~= p.drop_last());
        assert(pieces@.map_values(|t: &str| t@)[k - 1] == pieces@[k - 1]@);
    }
    if pieces[k - 1].is_empty() {
        out
    } else {
        out.push(pieces[k - 1]);
        proof {
            assert(out@.map_values(|t: &str| t@) =~= lines_spec(s@));
        }
        out
    }
}

/// The trimmed, non-empty pieces among `pieces`, in order.
pub open spec fn items_spec(pieces: Seq<Seq<char>>) -> Seq<Seq<char>>
    decreases pieces.len(),
{
    if pieces.len() == 0 {
        Seq::<Seq<char>>::empty()
    } else {
        let r = items_spec(pieces.drop_last());
        let t = trim_spec(pieces.last());
        if t.len() > 0 {
            r.push(t)
        } else {
            r
        }
    }
}

/// The trimmed, non-empty pieces among `pieces`, as owned strings.
pub fn non_empty_items(pieces: &Vec<&str>) -> (r: Vec<String>)
    ensures
        r.deep_view() == items_spec(pieces@.map_values(|t: &str| t@)),
{
    let ghost p = pieces@.map_values(|t: &str| t@);
    let mut out: Vec<String> = Vec::new();
    let mut i: usize = 0;
    while i < pieces.len()
        invariant
            p == pieces@.map_values(|t: &str| t@),
            i <= pieces.len(),
            out.deep_view() == items_spec(p.take(i as int)),
        decreases pieces.len() - i,
    {
        proof {
            assert(p.take(i + 1).drop_last() =~= p.take(i as int));
            assert(p[i as int] == pieces@[i as int]@);
        }
        let t = trim(pieces[i]);
        if !t.is_empty() {
            out.push(String::from_str(t));
            proof {
                assert(out.deep_view() =~= items_spec(p.take(i as int)).push(trim_spec(p[i as int])));
            }
        }
        i += 1;
    }
    proof {
        assert(p.take(pieces.len() as int) =~= p);
    }
    out
}

/// The trimmed, non-empty lines of `s`: how every "one per line" field of
/// the pages is read.
pub fn line_items(s: &str) -> (r: Vec<String>)
    ensures
        r.deep_view() == items_spec(lines_spec(s@)),
{
    non_empty_items(&lines(s))
}

/// The trimmed, non-empty comma-separated entries of `s`: how every
/// "comma-separated" field of the pages is read.
pub fn comma_items(s: &str) -> (r: Vec<String>)
    ensures
        r.deep_view() == items_spec(split_spec(s@, ',')),
{
    non_empty_items(&split_char(s, ','))
}

/// `None` for the empty string, otherwise a copy of it: how optional
/// fields and filters are passed on.
pub fn non_empty(s: &str) -> (r: Option<String>)
    ensures
        s@.len() == 0 ==> r is None,
        s@.len() > 0 ==> (r matches Some(t) && t@ == s@),
{
    if s.is_empty() {
        None
    } else {
        Some(String::from_str(s))
    }
}

/// The texts of `items` with `sep` between each two of them.
pub open spec fn join_spec(items: Seq<Seq<char>>, sep: Seq<char>) -> Seq<char>
    decreases items.len(),
{
    if items.len() == 0 {
        Seq::<char>::empty()
    } else if items.len() == 1 {
        items[0]
    } else {
        join_spec(items.drop_last(), sep) + sep + items.last()
    }
}

/// The texts of `items` with `sep` between each two of them (`join`).
pub fn join_texts(items: &Vec<String>, sep: &str) -> (r: String)
    ensures
        r@ == join_spec(items.deep_view(), sep@),
{
    let ghost d = items.deep_view();
    let mut out = String::new();
    let mut i: usize = 0;
    while i < items.len()
        invariant
            d == items.deep_view(),
            i <= items.len(),
            out@ == join_spec(d.take(i as int), sep@),
        decreases items.len() - i,
    {
        proof {
            assert(d.take(i + 1).drop_last() =~= d.take(i as int));
            assert(d[i as int] == items@[i as int]@);
        }
        if i == 0 {
            out = String::from_str(items[i].as_str());
            proof {
                assert(d.take(1).len() == 1);
            }
        } else {
            out = out.concat(sep);
            out = out.concat(items[i].as_str());
        }
        i += 1;
    }
    proof {
        assert(d.take(items.len() as int) =~= d);
    }
    out
}

/// A copy of a list of texts.
pub fn copy_texts(v: &Vec<String>) -> (r: Vec<String>)
    ensures
        r.deep_view() == v.deep_view(),
{
    let mut out: Vec<String> = Vec::new();
    let mut i: usize = 0;
    while i < v.len()
        invariant
            i <= v.len(),
            out.deep_view() == v.deep_view().take(i as int),
        decreases v.len() - i,
    {
        let ghost before = out.deep_view();
        let t = String::from_str(v[i].as_str());
        out.push(t);
        proof {
            assert(v.deep_view()[i as int] == v@[i as int]@);
            assert(out.deep_view() =~= before.push(t@));
            assert(v.deep_view().take(i + 1) =~= v.deep_view().take(i as int).push(
                v.deep_view()[i as int],
            ));
        }
        i += 1;
    }
    proof {
        assert(v.deep_view().take(v.len() as int) =~= v.deep_view());
    }
    out
}

/// The trimmed text of `s`, as an owned string.
pub fn trimmed(s: &str) -> (r: String)
    ensures
        r@ == trim_spec(s@),
{
    String::from_str(trim(s))
}

proof fn lemma_trim_start_shape(s: Seq<char>)
    ensures
        trim_start_spec(s).len() <= s.len(),
        trim_start_spec(s).len() == 0 || !is_white(trim_start_spec(s)[0]),
        trim_start_spec(s) =~= s.subrange(s.len() - trim_start_spec(s).len(), s.len() as int),
    decreases s.len(),
{
    if s.len() > 0 && is_white(s[0]) {
        let d = s.drop_first();
        lemma_trim_start_shape(d);
        let t = trim_start_spec(d).len();
        assert(d.subrange(d.len() - t, d.len() as int) =~= s.subrange(s.len() - t, s.len() as int));
    }
}

proof fn lemma_trim_end_shape(s: Seq<char>)
    ensures
        trim_end_spec(s).len() <= s.len(),
        trim_end_spec(s).len() == 0 || !is_white(trim_end_spec(s).last()),
        trim_end_spec(s) =~= s.subrange(0, trim_end_spec(s).len() as int),
    decreases s.len(),
{
    if s.len() > 0 && is_white(s.last()) {
        let d = s.drop_last();
        lemma_trim_end_shape(d);
        let t = trim_end_spec(d).len();
        assert(d.subrange(0, t as int) =~= s.subrange(0, t as int));
    }
}

/// A trimmed text is empty, or begins and ends with a non-whitespace
/// character.
pub proof fn trimmed_has_no_outer_whitespace(s: Seq<char>)
    ensures
        trim_spec(s).len() == 0 || (!is_white(trim_spec(s)[0]) && !is_white(
            trim_spec(s).last(),
        )),
{
    let a = trim_start_spec(s);
    lemma_trim_start_shape(s);
    lemma_trim_end_shape(a);
    let b = trim_end_spec(a);
    if b.len() > 0 {
        assert(b[0] == a.subrange(0, b.len() as int)[0]);
    }
}

/// Trimming a trimmed text changes nothing.
pub proof fn trim_is_idempotent(s: Seq<char>)
    ensures
        trim_spec(trim_spec(s)) == trim_spec(s),
{
    trimmed_has_no_outer_whitespace(s);
    let t = trim_spec(s);
    assert(trim_start_spec(t) == t);
    assert(trim_end_spec(t) == t);
}

/// Every item read from a field is non-empty and already trimmed.
pub proof fn items_are_trimmed_and_non_empty(pieces: Seq<Seq<char>>)
    ensures
        forall|i: int|
            0 <= i < items_spec(pieces).len() ==> #[trigger] items_spec(pieces)[i].len() > 0
                && trim_spec(items_spec(pieces)[i]) == items_spec(pieces)[i],
    decreases pieces.len(),
{
    if pieces.len() > 0 {
        let q = pieces.drop_last();
        items_are_trimmed_and_non_empty(q);
        trim_is_idempotent(pieces.last());
        assert forall|i: int| 0 <= i < items_spec(pieces).len() implies #[trigger] items_spec(
            pieces,
        )[i].len() > 0 && trim_spec(items_spec(pieces)[i]) == items_spec(pieces)[i] by {
            if i < items_spec(q).len() {
                assert(items_spec(pieces)[i] == items_spec(q)[i]);
            }
        }
    }
}

/// Every item read from a field is the trimmed text of one of the pieces.
pub proof fn items_come_from_pieces(pieces: Seq<Seq<char>>)
    ensures
        forall|i: int|
            0 <= i < items_spec(pieces).len() ==> exists|j: int|
                0 <= j < pieces.len() && #[trigger] items_spec(pieces)[i] == trim_spec(
                    #[trigger] pieces[j],
                ),
    decreases pieces.len(),
{
    if pieces.len() > 0 {
        let q = pieces.drop_last();
        items_come_from_pieces(q);
        assert forall|i: int| 0 <= i < items_spec(pieces).len() implies exists|j: int|
            0 <= j < pieces.len() && #[trigger] items_spec(pieces)[i] == trim_spec(
                #[trigger] pieces[j],
            ) by {
            if i < items_spec(q).len() {
                let j = choose|j: int|
                    0 <= j < q.len() && #[trigger] items_spec(q)[i] == trim_spec(#[trigger] q[j]);
                assert(pieces[j] == q[j]);
            } else {
                assert(items_spec(pieces)[i] == trim_spec(pieces[pieces.len() - 1]));
            }
        }
    }
}

/// Appends one character (`String::push`).
#[verifier::external_body]
pub(crate) fn push_char(s: &mut String, c: char)
    ensures
        final(s)@ == old(s)@.push(c),
{
    s.push(c);
}

/// The largest character boundary of `bytes` not above `max`.
pub open spec fn boundary_at_most(bytes: Seq<u8>, max: int) -> int
    decreases max,
{
    if max <= 0 {
        0
    } else if is_char_boundary(bytes, max) {
        max
    } else {
        boundary_at_most(bytes, max - 1)
    }
}

/// `text` cut to at most `max_len` bytes, at the last character boundary
/// not above the limit, with `"..."` appended when it is longer than
/// that, as the pages shorten long texts for table cells.
pub fn truncate_text(text: &str, max_len: usize) -> (r: String)
    ensures
        text.spec_bytes().len() <= max_len ==> r@ == text@,
        text.spec_bytes().len() > max_len ==> r@ == decode_utf8(
            text.spec_bytes().subrange(0, boundary_at_most(text.spec_bytes(), max_len as int)),
        ) + "..."@,
{
    if text.as_bytes().len() <= max_len {
        return String::from_str(text);
    }
    let ghost bytes = text.spec_bytes();
    let mut k: usize = max_len;
    while k > 0 && !char_boundary(text, k as u128)
        invariant
            bytes == text.spec_bytes(),
            k <= max_len,
            boundary_at_most(bytes, max_len as int) == boundary_at_most(bytes, k as int),
        decreases k,
    {
        k -= 1;
    }
    proof {
        encode_utf8_valid_utf8(text@);
        is_char_boundary_start_end_of_seq(bytes);
        assert(boundary_at_most(bytes, k as int) == k);
        assert(is_char_boundary(bytes, k as int));
    }
    let (head, _tail) = text.split_at(k);
    proof {
        encode_utf8_decode_utf8(head@);
        assert(head.spec_bytes() =~= bytes.subrange(0, k as int));
    }
    String::from_str(head).concat("...")
}

/// Whether byte offset `i` of `s` falls on a character boundary
/// (`str::is_char_boundary`; offsets past the end are not).
fn char_boundary(s: &str, i: u128) -> (r: bool)
    ensures
        r == is_char_boundary(s.spec_bytes(), i as int),
{
    let b = s.as_bytes();
    proof {
        encode_utf8_valid_utf8(s@);
    }
    let n = b.len();
    if i > n as u128 {
        false
    } else if i == n as u128 {
        proof {
            is_char_boundary_start_end_of_seq(s.spec_bytes());
        }
        true
    } else {
        let x = b[i as usize];
        proof {
            is_char_boundary_iff_not_is_continuation_byte(s.spec_bytes(), i as int);
        }
        !(0x80u8 <= x && x <= 0xbfu8)
    }
}

} // verus!
