//! The JavaScript the pages hand to the browser to copy generated text to
//! the clipboard, with the text escaped so that it stays one string
//! literal.

use vstd::prelude::*;
use crate::text::push_char;

verus! {

broadcast use vstd::string::group_string_axioms;

/// How one character is written inside a JavaScript template literal:
/// backslash, backtick and dollar sign get a backslash before them.
pub open spec fn template_char_escape(c: char) -> Seq<char> {
    if c == '\\' || c == '`' || c == '$' {
        seq!['\\', c]
    } else {
        seq![c]
    }
}

/// `s` escaped for a JavaScript template literal, as the canvassing page
/// does it with `replace('\\', "\\\\")`, then `` '`' ``, then `'$'`.
pub open spec fn template_escape(s: Seq<char>) -> Seq<char>
    decreases s.len(),
{
    if s.len() == 0 {
        Seq::<char>::empty()
    } else {
        template_char_escape(s[0]) + template_escape(s.drop_first())
    }
}

/// Reads an escaped template literal back: a backslash takes the next
/// character literally.
pub open spec fn template_unescape(s: Seq<char>) -> Seq<char>
    decreases s.len(),
{
    if s.len() == 0 {
        Seq::<char>::empty()
    } else if s[0] == '\\' && s.len() >= 2 {
        seq![s[1]] + template_unescape(s.subrange(2, s.len() as int))
    } else {
        seq![s[0]] + template_unescape(s.drop_first())
    }
}

proof fn lemma_template_escape_concat(a: Seq<char>, b: Seq<char>)
    ensures
        template_escape(a + b) == template_escape(a) + template_escape(b),
    decreases a.len(),
{
    if a.len() == 0 {
        assert(a + b =~= b);
    } else {
        assert((a + b).drop_first() =~= a.drop_first() + b);
        lemma_template_escape_concat(a.drop_first(), b);
        assert(template_char_escape(a[0]) + (template_escape(a.drop_first()) + template_escape(b))
            =~= (template_char_escape(a[0]) + template_escape(a.drop_first())) + template_escape(
            b,
        ));
    }
}

/// Reading back an escaped text gives the same text: the escaping
/// loses nothing and lets no character out of the literal.
pub proof fn template_escape_round_trip(s: Seq<char>)
    ensures
        template_unescape(template_escape(s)) == s,
    decreases s.len(),
{
    if s.len() > 0 {
        template_escape_round_trip(s.drop_first());
        let e = template_escape(s);
        let rest = template_escape(s.drop_first());
        if s[0] == '\\' || s[0] == '`' || s[0] == '$' {
            assert(e.subrange(2, e.len() as int) =~= rest);
        } else {
            assert(e.drop_first() =~= rest);
        }
        assert(seq![s[0]] + s.drop_first() =~= s);
    }
}

/// `s` escaped for a JavaScript template literal.
pub fn escape_template(s: &str) -> (r: String)
    ensures
        r@ == template_escape(s@),
{
    let cs = crate::text::chars_of(s);
    let mut out = String::new();
    let mut i: usize = 0;
    while i < cs.len()
        invariant
            cs@ == s@,
            i <= cs.len(),
            out@ == template_escape(s@.take(i as int)),
        decreases cs.len() - i,
    {
        let c = cs[i];
        proof {
            assert(s@.take(i + 1) =~= s@.take(i as int) + seq![c]);
            lemma_template_escape_concat(s@.take(i as int), seq![c]);
            assert(seq![c].drop_first() =~= Seq::<char>::empty());
            assert(template_escape(Seq::<char>::empty()) == Seq::<char>::empty());
            assert(template_char_escape(c) + Seq::<char>::empty() =~= template_char_escape(c));
            assert(template_escape(seq![c]) =~= template_char_escape(c));
        }
        if c == '\\' || c == '`' || c == '$' {
            push_char(&mut out, '\\');
        }
        push_char(&mut out, c);
        proof {
            assert(out@ =~= template_escape(s@.take(i + 1)));
        }
        i += 1;
    }
    proof {
        assert(s@.take(cs.len() as int) =~= s@);
    }
    out
}

/// The script that copies a whole canvassing script to the clipboard.
pub fn template_copy_command(text: &str) -> (r: String)
    ensures
        r@ == "navigator.clipboard.writeText(`"@ + template_escape(text@)
            + "`).then(() => {}).catch(() => {});"@,
{
    let escaped = escape_template(text);
    String::from_str("navigator.clipboard.writeText(`").concat(escaped.as_str()).concat(
        "`).then(() => {}).catch(() => {});",
    )
}

/// The lowercase hexadecimal digit for `d` (below sixteen).
pub open spec fn hex_digit(d: u32) -> char {
    if d < 10 {
        (48 + d) as char
    } else {
        (87 + d) as char
    }
}

/// How `serde_json` writes one character inside a JSON string: quote and
/// backslash get a backslash, the five common control characters their
/// short escapes, the other control characters below U+0020 a `\u00XX`
/// escape with lowercase hex digits, and everything else itself.
pub open spec fn json_char_escape(c: char) -> Seq<char> {
    let u = c as u32;
    if c == '"' {
        seq!['\\', '"']
    } else if c == '\\' {
        seq!['\\', '\\']
    } else if u == 8 {
        seq!['\\', 'b']
    } else if c == '\t' {
        seq!['\\', 't']
    } else if c == '\n' {
        seq!['\\', 'n']
    } else if u == 12 {
        seq!['\\', 'f']
    } else if c == '\r' {
        seq!['\\', 'r']
    } else if u < 0x20 {
        seq!['\\', 'u', '0', '0', hex_digit(u / 16), hex_digit(u % 16)]
    } else {
        seq![c]
    }
}

/// The escaped characters of `s`.
pub open spec fn json_escape(s: Seq<char>) -> Seq<char>
    decreases s.len(),
{
    if s.len() == 0 {
        Seq::<char>::empty()
    } else {
        json_char_escape(s[0]) + json_escape(s.drop_first())
    }
}

/// The value of a hexadecimal digit.
pub open spec fn hex_value(c: char) -> int {
    if '0' <= c && c <= '9' {
        c as int - 48
    } else if 'a' <= c && c <= 'f' {
        c as int - 87
    } else if 'A' <= c && c <= 'F' {
        c as int - 55
    } else {
        0
    }
}

/// Reads the inside of a JSON string literal back: a backslash with `b`,
/// `f`, `n`, `r` or `t` gives that control character, with `u` and four
/// hexadecimal digits the character of that code, and with any other
/// character that character itself.
pub open spec fn json_unescape(s: Seq<char>) -> Seq<char>
    decreases s.len(),
{
    if s.len() == 0 {
        Seq::<char>::empty()
    } else if s[0] == '\\' && s.len() >= 2 {
        let c = s[1];
        if c == 'u' && s.len() >= 6 {
            let code = hex_value(s[2]) * 4096 + hex_value(s[3]) * 256 + hex_value(s[4]) * 16
                + hex_value(s[5]);
            seq![code as char] + json_unescape(s.subrange(6, s.len() as int))
        } else {
            let d = if c == 'b' {
                8 as char
            } else if c == 'f' {
                12 as char
            } else if c == 'n' {
                '\n'
            } else if c == 'r' {
                '\r'
            } else if c == 't' {
                '\t'
            } else {
                c
            };
            seq![d] + json_unescape(s.subrange(2, s.len() as int))
        }
    } else {
        seq![s[0]] + json_unescape(s.drop_first())
    }
}

proof fn lemma_json_char_round_trip(c: char, rest: Seq<char>)
    ensures
        json_unescape(json_char_escape(c) + rest) == seq![c] + json_unescape(rest),
{
    let e = json_char_escape(c);
    let s = e + rest;
    let u = c as u32;
    if c == '"' || c == '\\' || u == 8 || c == '\t' || c == '\n' || u == 12 || c == '\r' {
        assert(s.subrange(2, s.len() as int) =~= rest);
        if u == 8 {
            assert((8 as char) == c);
        }
        if u == 12 {
            assert((12 as char) == c);
        }
    } else if u < 0x20 {
        assert(s.subrange(6, s.len() as int) =~= rest);
        let hi = u / 16;
        let lo = u % 16;
        assert(hi < 2);
        assert(hex_value(hex_digit(hi)) == hi);
        assert(hex_value(hex_digit(lo)) == lo) by {
            if lo < 10 {
                assert(hex_digit(lo) == (48 + lo) as char);
            } else {
                assert(hex_digit(lo) == (87 + lo) as char);
            }
        }
        assert(hex_value('0') == 0);
        let code = hex_value(s[2]) * 4096 + hex_value(s[3]) * 256 + hex_value(s[4]) * 16
            + hex_value(s[5]);
        assert(code == hi * 16 + lo);
        assert(code == u);
        assert((code as char) == c);
    } else {
        assert(s.drop_first() =~= rest);
    }
}

/// Reading back a JSON-escaped text gives the same text: what the copy
/// script hands to the clipboard is exactly the generated text.
pub proof fn json_escape_round_trip(s: Seq<char>)
    ensures
        json_unescape(json_escape(s)) == s,
    decreases s.len(),
{
    if s.len() > 0 {
        json_escape_round_trip(s.drop_first());
        lemma_json_char_round_trip(s[0], json_escape(s.drop_first()));
        assert(seq![s[0]] + s.drop_first() =~= s);
    }
}

/// `s` as a JSON string literal, as `serde_json::to_string` writes a `str`.
pub open spec fn json_string_spec(s: Seq<char>) -> Seq<char> {
    seq!['"'] + json_escape(s) + seq!['"']
}

/// `serde_json::to_string` on a string. Its source writes the string into a
/// `Vec<u8>` (which cannot fail) between two quotes, escaping each byte by
/// the table that [`json_char_escape`] restates; the contract claims that
/// result and that no error comes back.
#[verifier::external_body]
fn json_string_literal(s: &str) -> (r: Option<String>)
    ensures
        r is Some,
        r.unwrap()@ == json_string_spec(s@),
{
    serde_json::to_string(s).ok()
}

/// The script that copies one generated piece of campaign copy to the
/// clipboard: the text goes in as a JSON string literal (an empty argument
/// if serialisation failed).
pub fn json_copy_command(content: &str) -> (r: String)
    ensures
        r@ == "navigator.clipboard.writeText("@ + json_string_spec(content@)
            + ").catch(err => console.error('Copy failed:', err))"@,
{
    let literal = match json_string_literal(content) {
        Some(j) => j,
        None => String::new(),
    };
    String::from_str("navigator.clipboard.writeText(").concat(literal.as_str()).concat(
        ").catch(err => console.error('Copy failed:', err))",
    )
}

} // verus!
