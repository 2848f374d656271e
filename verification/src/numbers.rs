//! Decimal formatting and parsing of integers, as `Display` and
//! `str::parse` do them for the integer types the pages print and read.

use vstd::prelude::*;
use crate::text::push_char;

verus! {

/// The ASCII digit for `d` (which is below ten).
pub open spec fn digit_char(d: nat) -> char {
    ((d + 48) as u32) as char
}

/// The decimal digits of `n`, most significant first, without leading
/// zeros (`"0"` for zero).
pub open spec fn digits_spec(n: nat) -> Seq<char>
    decreases n,
{
    if n < 10 {
        seq![digit_char(n)]
    } else {
        digits_spec(n / 10).push(digit_char(n % 10))
    }
}

/// The decimal text of `i`, as `Display` writes integers.
pub open spec fn decimal_spec(i: int) -> Seq<char> {
    if i < 0 {
        seq!['-'] + digits_spec((-i) as nat)
    } else {
        digits_spec(i as nat)
    }
}

fn digit_of(d: u64) -> (c: char)
    requires
        d < 10,
    ensures
        c == digit_char(d as nat),
{
    let b: u8 = (d as u8) + 48;
    b as char
}

/// Appends the characters of `cs` to `s`.
fn push_all(s: &mut String, cs: &Vec<char>)
    ensures
        final(s)@ == old(s)@ + cs@,
{
    let mut i: usize = 0;
    while i < cs.len()
        invariant
            i <= cs.len(),
            s@ == old(s)@ + cs@.take(i as int),
        decreases cs.len() - i,
    {
        push_char(s, cs[i]);
        proof {
            assert(cs@.take(i + 1) =~= cs@.take(i as int).push(cs@[i as int]));
        }
        i += 1;
    }
    proof {
        assert(cs@.take(cs.len() as int) =~= cs@);
    }
}

/// The digits of `n`, as characters.
fn digit_chars(n: u64) -> (v: Vec<char>)
    ensures
        v@ == digits_spec(n as nat),
{
    let mut acc: Vec<char> = Vec::new();
    let mut m = n;
    proof {
        assert(digits_spec(n as nat) =~= digits_spec(m as nat) + acc@);
    }
    while m >= 10
        invariant
            digits_spec(n as nat) == digits_spec(m as nat) + acc@,
        decreases m,
    {
        let c = digit_of(m % 10);
        let ghost before = acc@;
        acc.insert(0, c);
        proof {
            assert(digits_spec(m as nat) == digits_spec((m / 10) as nat).push(c));
            assert(acc@ =~= seq![c] + before);
            assert(digits_spec((m / 10) as nat).push(c) + before =~= digits_spec((m / 10) as nat)
                + acc@);
        }
        m = m / 10;
    }
    let c = digit_of(m);
    let ghost before = acc@;
    acc.insert(0, c);
    proof {
        assert(acc@ =~= seq![c] + before);
        assert(digits_spec(m as nat) =~= seq![c]);
    }
    acc
}

/// The decimal text of `n`, as `n.to_string()` gives it.
pub fn format_u64(n: u64) -> (r: String)
    ensures
        r@ == digits_spec(n as nat),
{
    let mut s = String::new();
    push_all(&mut s, &digit_chars(n));
    proof {
        assert(s@ =~= digits_spec(n as nat));
    }
    s
}

/// The decimal text of `n`, as `n.to_string()` gives it.
pub fn format_i64(n: i64) -> (r: String)
    ensures
        r@ == decimal_spec(n as int),
{
    let mut s = String::new();
    if n < 0 {
        push_char(&mut s, '-');
        let mag: u64 = if n == i64::MIN {
            9223372036854775808u64
        } else {
            (-n) as u64
        };
        push_all(&mut s, &digit_chars(mag));
    } else {
        push_all(&mut s, &digit_chars(n as u64));
    }
    proof {
        assert(s@ =~= decimal_spec(n as int));
    }
    s
}

/// `c` is an ASCII decimal digit.
pub open spec fn is_digit(c: char) -> bool {
    '0' <= c && c <= '9'
}

/// The value of a digit character.
pub open spec fn digit_value(c: char) -> nat {
    ((c as u32) - 48) as nat
}

/// The number a run of digits denotes.
pub open spec fn digits_value(ds: Seq<char>) -> nat
    decreases ds.len(),
{
    if ds.len() == 0 {
        0
    } else {
        digits_value(ds.drop_last()) * 10 + digit_value(ds.last())
    }
}

/// `s` without one leading sign character.
pub open spec fn unsigned_part(s: Seq<char>) -> Seq<char> {
    if s.len() > 0 && (s[0] == '-' || s[0] == '+') {
        s.drop_first()
    } else {
        s
    }
}

/// Every character of `ds` is an ASCII digit.
pub open spec fn all_digits(ds: Seq<char>) -> bool {
    forall|i: int| 0 <= i < ds.len() ==> is_digit(#[trigger] ds[i])
}

/// What `s.parse::<i32>()` gives: an optional sign, then one or more ASCII
/// digits whose value fits in an `i32`; anything else is an error.
pub open spec fn parse_i32_spec(s: Seq<char>) -> Option<int> {
    let ds = unsigned_part(s);
    if s.len() == 0 || ds.len() == 0 || !all_digits(ds) {
        None
    } else {
        let v = digits_value(ds) as int;
        let x = if s[0] == '-' {
            -v
        } else {
            v
        };
        if i32::MIN <= x <= i32::MAX {
            Some(x)
        } else {
            None
        }
    }
}

proof fn lemma_digits_value_monotone(ds: Seq<char>, k: int)
    requires
        0 <= k <= ds.len(),
    ensures
        digits_value(ds.take(k)) <= digits_value(ds),
    decreases ds.len() - k,
{
    if k < ds.len() {
        lemma_digits_value_monotone(ds, k + 1);
        assert(ds.take(k + 1).drop_last() =~= ds.take(k));
    } else {
        assert(ds.take(k) =~= ds);
    }
}

/// `s.parse::<i32>()`, with the error turned into `None`.
pub fn parse_i32(s: &str) -> (r: Option<i32>)
    ensures
        r matches Some(v) ==> parse_i32_spec(s@) == Some(v as int),
        r is None ==> parse_i32_spec(s@) is None,
{
    let cs = crate::text::chars_of(s);
    let n = cs.len();
    if n == 0 {
        return None;
    }
    let neg = cs[0] == '-';
    let start: usize = if cs[0] == '-' || cs[0] == '+' {
        1
    } else {
        0
    };
    let ghost ds = unsigned_part(s@);
    proof {
        assert(ds =~= s@.subrange(start as int, n as int));
    }
    if start == n {
        return None;
    }
    let limit: i64 = 2147483648;
    let mut acc: i64 = 0;
    let mut i: usize = start;
    while i < n
        invariant
            cs@ == s@,
            n == cs.len(),
            start <= i <= n,
            ds == s@.subrange(start as int, n as int),
            ds == unsigned_part(s@),
            neg == (s@[0] == '-'),
            s@.len() > 0,
            acc as int == digits_value(ds.take(i - start)),
            0 <= acc <= limit,
            limit == 2147483648,
            forall|j: int| 0 <= j < i - start ==> is_digit(#[trigger] ds[j]),
        decreases n - i,
    {
        let c = cs[i];
        if !('0' <= c && c <= '9') {
            proof {
                assert(!is_digit(ds[i - start]));
                assert(parse_i32_spec(s@) is None);
            }
            return None;
        }
        proof {
            assert(ds.take(i - start + 1).drop_last() =~= ds.take(i - start));
            assert(ds.take(i - start + 1).last() == c);
        }
        let d = (c as u32 - 48) as i64;
        acc = acc * 10 + d;
        if acc > limit {
            proof {
                lemma_digits_value_monotone(ds, i - start + 1);
                if all_digits(ds) {
                    assert(digits_value(ds) > limit);
                }
            }
            return None;
        }
        i += 1;
    }
    proof {
        assert(ds.take(n - start) =~= ds);
        assert forall|j: int| 0 <= j < ds.len() implies is_digit(#[trigger] ds[j]) by {}
    }
    if neg {
        if acc == limit {
            Some(-2147483648i32)
        } else {
            Some(-(acc as i32))
        }
    } else {
        if acc == limit {
            None
        } else {
            Some(acc as i32)
        }
    }
}

proof fn lemma_digit_char_value(k: nat)
    requires
        k < 10,
    ensures
        digit_value(digit_char(k)) == k,
        is_digit(digit_char(k)),
{
    let u = (k + 48) as u32;
    vstd::utf8::char_u32_cast(u as char, u);
}

proof fn lemma_digits_spec(m: nat)
    ensures
        digits_spec(m).len() >= 1,
        all_digits(digits_spec(m)),
        digits_value(digits_spec(m)) == m,
    decreases m,
{
    if m >= 10 {
        lemma_digits_spec(m / 10);
        let p = digits_spec(m / 10);
        let d = digits_spec(m);
        assert(d.drop_last() =~= p);
        let k = (m % 10) as nat;
        lemma_digit_char_value(k);
        assert(digit_value(d.last()) == k);
        assert(digits_value(d) == digits_value(p) * 10 + k);
        assert(m == (m / 10) * 10 + k);
        assert forall|i: int| 0 <= i < d.len() implies is_digit(#[trigger] d[i]) by {
            if i < p.len() {
                assert(d[i] == p[i]);
            }
        }
    } else {
        assert(digits_spec(m).drop_last() =~= Seq::<char>::empty());
        lemma_digit_char_value(m);
        assert(digits_value(Seq::<char>::empty()) == 0);
        assert(digits_value(digits_spec(m)) == m);
    }
}

/// Reading back the decimal text of an `i32` gives the same number.
pub proof fn parse_reads_back_decimal(n: i32)
    ensures
        parse_i32_spec(decimal_spec(n as int)) == Some(n as int),
{
    let t = decimal_spec(n as int);
    if n < 0 {
        lemma_digits_spec((-n) as nat);
        assert(t.drop_first() =~= digits_spec((-n) as nat));
    } else {
        lemma_digits_spec(n as nat);
        assert(is_digit(t[0]));
    }
}

} // verus!
