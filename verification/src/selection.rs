//! Multi-select state of the pages (chosen formats, personas, segments,
//! regulatory updates, expanded questions): clicking an entry adds it when
//! absent and removes it when present.

use vstd::prelude::*;
use crate::text::text_eq;

verus! {

broadcast use vstd::string::group_string_axioms;

/// The first position in `l` whose key is `k`, or -1.
pub open spec fn first_match<T, K>(l: Seq<T>, key: spec_fn(T) -> K, k: K) -> int
    decreases l.len(),
{
    if l.len() == 0 {
        -1
    } else if key(l[0]) == k {
        0
    } else {
        let p = first_match(l.drop_first(), key, k);
        if p < 0 {
            -1
        } else {
            p + 1
        }
    }
}

/// The selection after clicking `x`: the first entry with `x`'s key is
/// removed if there is one, otherwise `x` is appended.
pub open spec fn toggle_spec<T, K>(l: Seq<T>, key: spec_fn(T) -> K, x: T) -> Seq<T> {
    let p = first_match(l, key, key(x));
    if p >= 0 {
        l.remove(p)
    } else {
        l.push(x)
    }
}

/// Some entry of `l` has key `k`.
pub open spec fn has_key<T, K>(l: Seq<T>, key: spec_fn(T) -> K, k: K) -> bool {
    exists|i: int| 0 <= i < l.len() && key(#[trigger] l[i]) == k
}

/// No two entries of `l` share a key.
pub open spec fn keys_unique<T, K>(l: Seq<T>, key: spec_fn(T) -> K) -> bool {
    forall|i: int, j: int|
        0 <= i < l.len() && 0 <= j < l.len() && i != j ==> key(#[trigger] l[i]) != key(
            #[trigger] l[j],
        )
}

/// What `first_match` gives: -1, or a position whose key is `k` before
/// which no key is `k`.
pub proof fn lemma_first_match<T, K>(l: Seq<T>, key: spec_fn(T) -> K, k: K)
    ensures
        -1 <= first_match(l, key, k) < l.len(),
        first_match(l, key, k) >= 0 ==> key(l[first_match(l, key, k)]) == k,
        first_match(l, key, k) >= 0 ==> forall|j: int|
            0 <= j < first_match(l, key, k) ==> key(#[trigger] l[j]) != k,
        first_match(l, key, k) < 0 ==> forall|j: int| 0 <= j < l.len() ==> key(#[trigger] l[j]) != k,
    decreases l.len(),
{
    if l.len() > 0 && key(l[0]) != k {
        let d = l.drop_first();
        lemma_first_match(d, key, k);
        let p = first_match(d, key, k);
        if p >= 0 {
            assert forall|j: int| 0 <= j < p + 1 implies key(#[trigger] l[j]) != k by {
                if j > 0 {
                    assert(l[j] == d[j - 1]);
                }
            }
            assert(l[p + 1] == d[p]);
        } else {
            assert forall|j: int| 0 <= j < l.len() implies key(#[trigger] l[j]) != k by {
                if j > 0 {
                    assert(l[j] == d[j - 1]);
                }
            }
        }
    }
}

/// With unique keys, clicking an entry flips whether its key is selected,
/// leaves every other key's membership as it was, and keeps keys unique.
pub proof fn toggle_flips_membership<T, K>(l: Seq<T>, key: spec_fn(T) -> K, x: T, k: K)
    requires
        keys_unique(l, key),
    ensures
        has_key(toggle_spec(l, key, x), key, key(x)) == !has_key(l, key, key(x)),
        k != key(x) ==> has_key(toggle_spec(l, key, x), key, k) == has_key(l, key, k),
        keys_unique(toggle_spec(l, key, x), key),
{
    lemma_first_match(l, key, key(x));
    let p = first_match(l, key, key(x));
    let r = toggle_spec(l, key, x);
    if p >= 0 {
        assert(has_key(l, key, key(x)));
        assert forall|i: int| 0 <= i < r.len() implies #[trigger] r[i] == (if i < p {
            l[i]
        } else {
            l[i + 1]
        }) by {}
        if has_key(r, key, key(x)) {
            let i = choose|i: int| 0 <= i < r.len() && key(#[trigger] r[i]) == key(x);
            if i < p {
                assert(key(l[i]) == key(x));
            } else {
                assert(key(l[i + 1]) == key(l[p]));
            }
        }
        if k != key(x) {
            if has_key(l, key, k) {
                let i = choose|i: int| 0 <= i < l.len() && key(#[trigger] l[i]) == k;
                if i < p {
                    assert(key(r[i]) == k);
                } else {
                    assert(i != p);
                    assert(key(r[i - 1]) == k);
                }
            }
            if has_key(r, key, k) {
                let i = choose|i: int| 0 <= i < r.len() && key(#[trigger] r[i]) == k;
                if i < p {
                    assert(key(l[i]) == k);
                } else {
                    assert(key(l[i + 1]) == k);
                }
            }
        }
        assert forall|i: int, j: int|
            0 <= i < r.len() && 0 <= j < r.len() && i != j implies key(#[trigger] r[i]) != key(
            #[trigger] r[j],
        ) by {
            let a = if i < p {
                i
            } else {
                i + 1
            };
            let b = if j < p {
                j
            } else {
                j + 1
            };
            assert(r[i] == l[a] && r[j] == l[b]);
        }
    } else {
        assert(r[l.len() as int] == x);
        if k != key(x) {
            if has_key(r, key, k) {
                let i = choose|i: int| 0 <= i < r.len() && key(#[trigger] r[i]) == k;
                assert(i < l.len());
                assert(key(l[i]) == k);
            }
            if has_key(l, key, k) {
                let i = choose|i: int| 0 <= i < l.len() && key(#[trigger] l[i]) == k;
                assert(key(r[i]) == k);
            }
        }
        assert forall|i: int, j: int|
            0 <= i < r.len() && 0 <= j < r.len() && i != j implies key(#[trigger] r[i]) != key(
            #[trigger] r[j],
        ) by {
            if i < l.len() && j < l.len() {
                assert(r[i] == l[i] && r[j] == l[j]);
            } else if i < l.len() {
                assert(r[i] == l[i]);
            } else if j < l.len() {
                assert(r[j] == l[j]);
            }
        }
    }
}

/// Clicking an entry that was not selected, then clicking it again, gives
/// back the selection as it was.
pub proof fn toggle_twice_restores<T, K>(l: Seq<T>, key: spec_fn(T) -> K, x: T)
    requires
        !has_key(l, key, key(x)),
    ensures
        toggle_spec(toggle_spec(l, key, x), key, x) == l,
{
    lemma_first_match(l, key, key(x));
    if first_match(l, key, key(x)) >= 0 {
        assert(key(l[first_match(l, key, key(x))]) == key(x));
    }
    let r = l.push(x);
    lemma_first_match(r, key, key(x));
    let q = first_match(r, key, key(x));
    if q < 0 {
        assert(key(r[l.len() as int]) == key(x));
    }
    if q < l.len() {
        assert(key(l[q]) == key(x));
    }
    assert(r.remove(l.len() as int) =~= l);
}

/// `i` is the first position whose key is `x`'s: clicking `x` removes it.
pub proof fn lemma_toggle_found<T, K>(l: Seq<T>, key: spec_fn(T) -> K, x: T, i: int)
    requires
        0 <= i < l.len(),
        key(l[i]) == key(x),
        forall|j: int| 0 <= j < i ==> key(#[trigger] l[j]) != key(x),
    ensures
        first_match(l, key, key(x)) == i,
        toggle_spec(l, key, x) == l.remove(i),
{
    lemma_first_match(l, key, key(x));
}

/// No position has `x`'s key: clicking `x` appends it.
pub proof fn lemma_toggle_missing<T, K>(l: Seq<T>, key: spec_fn(T) -> K, x: T)
    requires
        forall|j: int| 0 <= j < l.len() ==> key(#[trigger] l[j]) != key(x),
    ensures
        toggle_spec(l, key, x) == l.push(x),
{
    lemma_first_match(l, key, key(x));
}

/// Entries of `l` with key `k` sit at one position at most.
pub open spec fn key_at_most_once<T, K>(l: Seq<T>, key: spec_fn(T) -> K, k: K) -> bool {
    forall|i: int, j: int|
        0 <= i < l.len() && 0 <= j < l.len() && key(#[trigger] l[i]) == k && key(#[trigger] l[j])
            == k ==> i == j
}

/// Clicking an entry twice keeps the set of selected keys when that key
/// was selected at most once (other keys may repeat); when it was not
/// selected at all, the list itself comes back.
pub proof fn toggle_twice_keeps_keys<T, K>(l: Seq<T>, key: spec_fn(T) -> K, x: T, k: K)
    requires
        key_at_most_once(l, key, key(x)),
    ensures
        has_key(toggle_spec(toggle_spec(l, key, x), key, x), key, k) == has_key(l, key, k),
        !has_key(l, key, key(x)) ==> toggle_spec(toggle_spec(l, key, x), key, x) == l,
{
    lemma_first_match(l, key, key(x));
    let p = first_match(l, key, key(x));
    if p < 0 {
        assert(!has_key(l, key, key(x))) by {
            if has_key(l, key, key(x)) {
                let i = choose|i: int| 0 <= i < l.len() && key(#[trigger] l[i]) == key(x);
                assert(key(l[i]) != key(x));
            }
        }
        toggle_twice_restores(l, key, x);
    } else {
        let r1 = l.remove(p);
        assert(toggle_spec(l, key, x) == r1);
        assert forall|i: int| 0 <= i < r1.len() implies #[trigger] r1[i] == (if i < p {
            l[i]
        } else {
            l[i + 1]
        }) by {}
        assert forall|j: int| 0 <= j < r1.len() implies key(#[trigger] r1[j]) != key(x) by {
            let a = if j < p {
                j
            } else {
                j + 1
            };
            assert(r1[j] == l[a]);
            if key(l[a]) == key(x) {
                assert(a == p);
            }
        }
        lemma_toggle_missing(r1, key, x);
        let r2 = r1.push(x);
        assert(r2[r1.len() as int] == x);
        if k == key(x) {
            assert(key(l[p]) == key(x));
            assert(key(r2[r1.len() as int]) == k);
        } else {
            if has_key(l, key, k) {
                let i = choose|i: int| 0 <= i < l.len() && key(#[trigger] l[i]) == k;
                assert(i != p);
                if i < p {
                    assert(r2[i] == r1[i]);
                    assert(key(r2[i]) == k);
                } else {
                    assert(r2[i - 1] == r1[i - 1]);
                    assert(key(r2[i - 1]) == k);
                }
            }
            if has_key(r2, key, k) {
                let i = choose|i: int| 0 <= i < r2.len() && key(#[trigger] r2[i]) == k;
                assert(i < r1.len());
                assert(r2[i] == r1[i]);
                if i < p {
                    assert(key(l[i]) == k);
                } else {
                    assert(key(l[i + 1]) == k);
                }
            }
        }
    }
}

/// The identity key, for lists of plain values.
pub open spec fn same<T>() -> spec_fn(T) -> T {
    |t: T| t
}

/// Clicks a text entry (a format, persona or update id) in the selection.
pub fn toggle_text(list: &mut Vec<String>, item: String)
    ensures
        final(list).deep_view() == toggle_spec(old(list).deep_view(), same::<Seq<char>>(), item@),
{
    let ghost l = list.deep_view();
    let ghost key = same::<Seq<char>>();
    let mut i: usize = 0;
    while i < list.len()
        invariant
            list.deep_view() == l,
            l == old(list).deep_view(),
            key == same::<Seq<char>>(),
            i <= list.len(),
            forall|j: int| 0 <= j < i ==> l[j] != item@,
        decreases list.len() - i,
    {
        if text_eq(list[i].as_str(), item.as_str()) {
            proof {
                assert forall|j: int| 0 <= j < i implies key(#[trigger] l[j]) != key(item@) by {}
                lemma_toggle_found(l, key, item@, i as int);
            }
            list.remove(i);
            proof {
                assert(list.deep_view() =~= l.remove(i as int));
            }
            return;
        }
        i += 1;
    }
    proof {
        assert forall|j: int| 0 <= j < l.len() implies key(#[trigger] l[j]) != key(item@) by {}
        lemma_toggle_missing(l, key, item@);
    }
    list.push(item);
    proof {
        assert(list.deep_view() =~= l.push(item@));
    }
}

/// Whether `item` is among the selected texts.
pub fn contains_text(list: &Vec<String>, item: &str) -> (r: bool)
    ensures
        r == list.deep_view().contains(item@),
{
    let mut i: usize = 0;
    while i < list.len()
        invariant
            i <= list.len(),
            forall|j: int| 0 <= j < i ==> list.deep_view()[j] != item@,
        decreases list.len() - i,
    {
        if text_eq(list[i].as_str(), item) {
            proof {
                assert(list.deep_view()[i as int] == item@);
            }
            return true;
        }
        i += 1;
    }
    false
}

} // verus!
