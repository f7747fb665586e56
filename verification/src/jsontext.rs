//! JSON string-literal encoding for the command envelope.
//!
//! A field value is written between double quotes with `"` and `\`
//! backslash-escaped and control characters written as `\u00XX` with two
//! lowercase hex digits; every other character stands for itself. The
//! decoder accepts exactly these forms, and decoding an encoded value is
//! proved to give the value back unchanged.

use crate::textutil::push_char;
use vstd::prelude::*;
use vstd::utf8::char_is_scalar;
use vstd::utf8::char_u32_cast;

verus! {

/// The code point of a character, as a plain integer.
pub open spec fn char_code(c: char) -> int {
    (c as u32) as int
}

/// The lowercase hex digit for a value below sixteen.
pub open spec fn hex_digit(v: int) -> char
    recommends
        0 <= v < 16,
{
    if v < 10 {
        ((48 + v) as char)
    } else {
        ((87 + v) as char)
    }
}

/// Whether `c` is a lowercase hex digit.
pub open spec fn is_hex_lower(c: char) -> bool {
    ('0' <= c && c <= '9') || ('a' <= c && c <= 'f')
}

/// The value of a lowercase hex digit.
pub open spec fn hex_val(c: char) -> int
    recommends
        is_hex_lower(c),
{
    if '0' <= c && c <= '9' {
        char_code(c) - 48
    } else {
        char_code(c) - 87
    }
}

pub proof fn lemma_hex_digit_inverse(v: int)
    requires
        0 <= v < 16,
    ensures
        is_hex_lower(hex_digit(v)),
        hex_val(hex_digit(v)) == v,
{
    let c = hex_digit(v);
    char_is_scalar(c);
    char_u32_cast(c, c as u32);
}

/// How one character is written inside a JSON string literal.
pub open spec fn esc_char(c: char) -> Seq<char> {
    if c == '"' {
        seq!['\\', '"']
    } else if c == '\\' {
        seq!['\\', '\\']
    } else if char_code(c) < 32 {
        seq!['\\', 'u', '0', '0', hex_digit(char_code(c) / 16), hex_digit(char_code(c) % 16)]
    } else {
        seq![c]
    }
}

/// How a whole value is written inside a JSON string literal
/// (without the surrounding quotes).
pub open spec fn escape_chars(s: Seq<char>) -> Seq<char>
    decreases s.len(),
{
    if s.len() == 0 {
        Seq::empty()
    } else {
        esc_char(s[0]) + escape_chars(s.drop_first())
    }
}

pub proof fn lemma_escape_append(a: Seq<char>, b: Seq<char>)
    ensures
        escape_chars(a + b) == escape_chars(a) + escape_chars(b),
    decreases a.len(),
{
    if a.len() == 0 {
        assert(a + b =~= b);
        assert(escape_chars(a) + escape_chars(b) =~= escape_chars(b));
    } else {
        lemma_escape_append(a.drop_first(), b);
        assert((a + b).drop_first() =~= a.drop_first() + b);
        assert((a + b)[0] == a[0]);
        assert(escape_chars(a + b) == esc_char(a[0]) + (escape_chars(a.drop_first())
            + escape_chars(b)));
        assert(esc_char(a[0]) + (escape_chars(a.drop_first()) + escape_chars(b)) =~= (esc_char(
            a[0],
        ) + escape_chars(a.drop_first())) + escape_chars(b));
    }
}

/// Reads an encoded value from the front of `t` (which starts just after
/// the opening quote) up to and including the closing quote. Returns the
/// decoded value and the text after the closing quote, or `None` when no
/// well-formed literal starts there.
pub open spec fn unescape_prefix(t: Seq<char>) -> Option<(Seq<char>, Seq<char>)>
    decreases t.len(),
{
    if t.len() == 0 {
        None
    } else if t[0] == '"' {
        Some((Seq::empty(), t.drop_first()))
    } else if t[0] == '\\' {
        if t.len() >= 2 && (t[1] == '"' || t[1] == '\\') {
            match unescape_prefix(t.skip(2)) {
                Some(p) => Some((seq![t[1]] + p.0, p.1)),
                None => None,
            }
        } else if t.len() >= 6 && t[1] == 'u' && t[2] == '0' && t[3] == '0' && is_hex_lower(t[4])
            && is_hex_lower(t[5]) {
            match unescape_prefix(t.skip(6)) {
                Some(p) => Some(
                    (seq![(((16 * hex_val(t[4]) + hex_val(t[5])) as u32) as char)] + p.0, p.1),
                ),
                None => None,
            }
        } else {
            None
        }
    } else {
        match unescape_prefix(t.drop_first()) {
            Some(p) => Some((seq![t[0]] + p.0, p.1)),
            None => None,
        }
    }
}

/// Decoding an encoded value (followed by its closing quote and anything
/// after it) gives the value back exactly, with the trailing text intact.
pub proof fn lemma_unescape_escape(s: Seq<char>, rest: Seq<char>)
    ensures
        unescape_prefix(escape_chars(s) + seq!['"'] + rest) == Some((s, rest)),
    decreases s.len(),
{
    let t = escape_chars(s) + seq!['"'] + rest;
    if s.len() == 0 {
        assert(t =~= seq!['"'] + rest);
        assert(t[0] == '"');
        assert(t.drop_first() =~= rest);
    } else {
        let c = s[0];
        let tail = s.drop_first();
        lemma_unescape_escape(tail, rest);
        let t2 = escape_chars(tail) + seq!['"'] + rest;
        assert(escape_chars(s) == esc_char(c) + escape_chars(tail));
        assert(t =~= esc_char(c) + t2);
        assert(seq![c] + tail =~= s);
        if c == '"' {
            assert(t[0] == '\\' && t[1] == '"');
            assert(t.skip(2) =~= t2);
        } else if c == '\\' {
            assert(t[0] == '\\' && t[1] == '\\');
            assert(t.skip(2) =~= t2);
        } else if char_code(c) < 32 {
            let u = c as u32;
            char_is_scalar(c);
            let hi = char_code(c) / 16;
            let lo = char_code(c) % 16;
            lemma_hex_digit_inverse(hi);
            lemma_hex_digit_inverse(lo);
            assert(t[0] == '\\' && t[1] == 'u' && t[2] == '0' && t[3] == '0');
            assert(t[4] == hex_digit(hi) && t[5] == hex_digit(lo));
            assert(t.skip(6) =~= t2);
            assert(16 * hex_val(t[4]) + hex_val(t[5]) == char_code(c));
            assert(((16 * hex_val(t[4]) + hex_val(t[5])) as u32) == u);
            char_u32_cast(c, u);
        } else {
            assert(t[0] == c);
            assert(t.drop_first() =~= t2);
        }
    }
}

/// The lowercase hex digit for a value below sixteen.
pub fn hex_digit_char(v: u8) -> (c: char)
    requires
        v < 16,
    ensures
        c == hex_digit(v as int),
{
    if v < 10 {
        (48 + v) as char
    } else {
        (87 + v) as char
    }
}

/// The value of a lowercase hex digit.
pub fn hex_val_of(c: char) -> (v: u8)
    requires
        is_hex_lower(c),
    ensures
        v == hex_val(c),
        v < 16,
{
    proof {
        char_is_scalar(c);
    }
    let u = c as u32;
    if u >= 97 {
        (u - 87) as u8
    } else {
        (u - 48) as u8
    }
}

/// Whether `c` is a lowercase hex digit.
pub fn is_hex_char(c: char) -> (r: bool)
    ensures
        r == is_hex_lower(c),
{
    ('0' <= c && c <= '9') || ('a' <= c && c <= 'f')
}

/// Appends the encoding of `s` (without quotes) to `out`.
pub fn append_escaped(out: &mut String, s: &Vec<char>)
    ensures
        final(out)@ == old(out)@ + escape_chars(s@),
{
    let ghost orig = out@;
    let mut i: usize = 0;
    while i < s.len()
        invariant
            i <= s@.len(),
            out@ == orig + escape_chars(s@.subrange(0, i as int)),
        decreases s@.len() - i,
    {
        let c = s[i];
        proof {
            assert(s@.subrange(0, i + 1 as int) =~= s@.subrange(0, i as int) + seq![c]);
            lemma_escape_append(s@.subrange(0, i as int), seq![c]);
            assert(escape_chars(seq![c]) == esc_char(c) + escape_chars(seq![c].drop_first()));
            assert(seq![c].drop_first() =~= Seq::<char>::empty());
            assert(esc_char(c) + escape_chars(seq![c].drop_first()) =~= esc_char(c));
        }
        if c == '"' {
            push_char(out, '\\');
            push_char(out, '"');
            proof {
                assert(out@ =~= orig + escape_chars(s@.subrange(0, i + 1 as int)));
            }
        } else if c == '\\' {
            push_char(out, '\\');
            push_char(out, '\\');
            proof {
                assert(out@ =~= orig + escape_chars(s@.subrange(0, i + 1 as int)));
            }
        } else if (c as u32) < 32 {
            let u: u32 = c as u32;
            let b: u8 = u as u8;
            push_char(out, '\\');
            push_char(out, 'u');
            push_char(out, '0');
            push_char(out, '0');
            push_char(out, hex_digit_char(b / 16));
            push_char(out, hex_digit_char(b % 16));
            proof {
                assert(b == char_code(c));
                assert(out@ =~= orig + escape_chars(s@.subrange(0, i + 1 as int)));
            }
        } else {
            push_char(out, c);
            proof {
                assert(out@ =~= orig + escape_chars(s@.subrange(0, i + 1 as int)));
            }
        }
        i = i + 1;
    }
    proof {
        assert(s@.subrange(0, s@.len() as int) =~= s@);
    }
}

/// Reads an encoded value from `v` starting at `start` (just after the
/// opening quote), through its closing quote. Returns the decoded
/// characters and the position after the closing quote.
pub fn unescape_prefix_at(v: &Vec<char>, start: usize) -> (r: Option<(Vec<char>, usize)>)
    requires
        start <= v@.len(),
    ensures
        match r {
            Some(p) => start < p.1 <= v@.len() && unescape_prefix(v@.skip(start as int)) == Some(
                (p.0@, v@.skip(p.1 as int)),
            ),
            None => unescape_prefix(v@.skip(start as int)) is None,
        },
    decreases v@.len() - start,
{
    let ghost t = v@.skip(start as int);
    if start == v.len() {
        proof {
            assert(t.len() == 0);
        }
        return None;
    }
    let c = v[start];
    proof {
        assert(t[0] == c);
    }
    if c == '"' {
        proof {
            assert(t.drop_first() =~= v@.skip(start + 1 as int));
        }
        return Some((Vec::new(), start + 1));
    }
    if c == '\\' {
        if v.len() - start >= 2 && (v[start + 1] == '"' || v[start + 1] == '\\') {
            let e = v[start + 1];
            proof {
                assert(t[1] == e);
                assert(t.skip(2) =~= v@.skip(start + 2 as int));
            }
            match unescape_prefix_at(v, start + 2) {
                Some((mut s, end)) => {
                    s.insert(0, e);
                    proof {
                        assert(s@ =~= seq![e] + s@.skip(1));
                    }
                    Some((s, end))
                },
                None => None,
            }
        } else if v.len() - start >= 6 && v[start + 1] == 'u' && v[start + 2] == '0' && v[start
            + 3] == '0' && is_hex_char(v[start + 4]) && is_hex_char(v[start + 5]) {
            let h1 = hex_val_of(v[start + 4]);
            let h2 = hex_val_of(v[start + 5]);
            let hv: u8 = 16 * h1 + h2;
            let dc = hv as char;
            proof {
                assert(t[1] == 'u' && t[2] == '0' && t[3] == '0');
                assert(t[4] == v@[start + 4] && t[5] == v@[start + 5]);
                assert(t.skip(6) =~= v@.skip(start + 6 as int));
                assert(hv == 16 * hex_val(t[4]) + hex_val(t[5]));
                assert(dc == (((16 * hex_val(t[4]) + hex_val(t[5])) as u32) as char));
            }
            match unescape_prefix_at(v, start + 6) {
                Some((mut s, end)) => {
                    s.insert(0, dc);
                    proof {
                        assert(s@ =~= seq![dc] + s@.skip(1));
                    }
                    Some((s, end))
                },
                None => None,
            }
        } else {
            proof {
                if t.len() >= 2 && (t[1] == '"' || t[1] == '\\') {
                    assert(v@[start + 1] == t[1]);
                }
                if t.len() >= 6 && t[1] == 'u' && t[2] == '0' && t[3] == '0' && is_hex_lower(t[4])
                    && is_hex_lower(t[5]) {
                    assert(v@[start + 1] == t[1] && v@[start + 2] == t[2] && v@[start + 3] == t[3]
                        && v@[start + 4] == t[4] && v@[start + 5] == t[5]);
                }
            }
            None
        }
    } else {
        proof {
            assert(t.drop_first() =~= v@.skip(start + 1 as int));
        }
        match unescape_prefix_at(v, start + 1) {
            Some((mut s, end)) => {
                s.insert(0, c);
                proof {
                    assert(s@ =~= seq![c] + s@.skip(1));
                }
                Some((s, end))
            },
            None => None,
        }
    }
}

} // verus!
