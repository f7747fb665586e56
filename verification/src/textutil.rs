//! Small verified text helpers shared by the bridge modules: turning a
//! string into its character vector, building strings character by
//! character, joining path lists, and decimal formatting of exit codes.

use vstd::prelude::*;

verus! {

/// Relies on `alloc::string::String::push`: appends exactly the one
/// character to the end of the string.
#[verifier::external_body]
pub fn push_char(s: &mut String, c: char)
    ensures
        final(s)@ == old(s)@.push(c),
{
    s.push(c);
}

/// The characters of `s`, as a vector, in order.
pub fn chars_of(s: &str) -> (r: Vec<char>)
    ensures
        r@ == s@,
{
    let n = s.unicode_len();
    let mut r: Vec<char> = Vec::new();
    let mut i: usize = 0;
    while i < n
        invariant
            n == s@.len(),
            i <= n,
            r@ == s@.subrange(0, i as int),
        decreases n - i,
    {
        r.push(s.get_char(i));
        i = i + 1;
        proof {
            assert(r@ =~= s@.subrange(0, i as int));
        }
    }
    proof {
        assert(r@ =~= s@);
    }
    r
}

/// A string holding exactly the characters of `v`, in order.
pub fn string_of_chars(v: &Vec<char>) -> (r: String)
    ensures
        r@ == v@,
{
    let mut r = String::new();
    let mut i: usize = 0;
    while i < v.len()
        invariant
            i <= v@.len(),
            r@ == v@.subrange(0, i as int),
        decreases v@.len() - i,
    {
        push_char(&mut r, v[i]);
        i = i + 1;
        proof {
            assert(r@ =~= v@.subrange(0, i as int));
        }
    }
    proof {
        assert(r@ =~= v@);
    }
    r
}

/// `a` followed by `b`, as a fresh string.
pub fn concat_str(a: &str, b: &str) -> (r: String)
    ensures
        r@ == a@ + b@,
{
    let mut r = a.to_owned();
    r.append(b);
    r
}

/// Moves every string of `src` onto the end of `dst`, in order.
pub fn append_all(dst: &mut Vec<String>, src: &Vec<String>)
    ensures
        final(dst).deep_view() == old(dst).deep_view() + src.deep_view(),
{
    let mut i: usize = 0;
    while i < src.len()
        invariant
            i <= src@.len(),
            dst.deep_view() == old(dst).deep_view() + src.deep_view().take(i as int),
        decreases src@.len() - i,
    {
        let ghost prev = dst.deep_view();
        let c = src[i].clone();
        proof {
            assert(c@ == src@[i as int]@);
        }
        dst.push(c);
        i = i + 1;
        proof {
            assert(dst.deep_view() =~= prev.push(src@[i - 1]@));
            assert(src.deep_view().take(i as int) =~= src.deep_view().take(i - 1 as int).push(
                src@[i - 1]@,
            ));
            assert(dst.deep_view() =~= old(dst).deep_view() + src.deep_view().take(i as int));
        }
    }
    proof {
        assert(src.deep_view().take(src@.len() as int) =~= src.deep_view());
    }
}

/// A string holding the characters of `v` from `from` (inclusive) to
/// `to` (exclusive).
pub fn string_of_char_range(v: &Vec<char>, from: usize, to: usize) -> (r: String)
    requires
        from <= to <= v@.len(),
    ensures
        r@ == v@.subrange(from as int, to as int),
{
    let mut r = String::new();
    let mut i: usize = from;
    while i < to
        invariant
            from <= i <= to <= v@.len(),
            r@ == v@.subrange(from as int, i as int),
        decreases to - i,
    {
        push_char(&mut r, v[i]);
        i = i + 1;
        proof {
            assert(r@ =~= v@.subrange(from as int, i as int));
        }
    }
    r
}

/// The decimal digits of `n`, most significant first.
pub open spec fn dec_digits(n: nat) -> Seq<char>
    decreases n,
{
    if n < 10 {
        seq![((48 + n) as char)]
    } else {
        dec_digits(n / 10).push(((48 + n % 10) as char))
    }
}

/// The decimal text of `i`, with a leading minus sign when negative.
pub open spec fn int_text(i: int) -> Seq<char> {
    if i < 0 {
        seq!['-'] + dec_digits((-i) as nat)
    } else {
        dec_digits(i as nat)
    }
}

/// The decimal text of `n`.
pub fn u64_dec(n: u64) -> (r: String)
    ensures
        r@ == dec_digits(n as nat),
    decreases n,
{
    if n < 10 {
        let mut s = String::new();
        push_char(&mut s, (48 + (n as u8)) as char);
        proof {
            assert(s@ =~= seq![((48 + (n as nat)) as char)]);
        }
        s
    } else {
        let mut s = u64_dec(n / 10);
        push_char(&mut s, (48 + ((n % 10) as u8)) as char);
        s
    }
}

/// The decimal text of `i`.
pub fn i32_text(i: i32) -> (r: String)
    ensures
        r@ == int_text(i as int),
{
    let n: i64 = i as i64;
    if n < 0 {
        let mut s = ("-").to_owned();
        let d = u64_dec((-n) as u64);
        s.append(d.as_str());
        proof {
            reveal_strlit("-");
            assert(s@ =~= seq!['-'] + dec_digits((-(i as int)) as nat));
        }
        s
    } else {
        u64_dec(n as u64)
    }
}

/// Whether `c` ends a line: both line feeds and carriage returns are
/// treated as line breaks, so the final line of CRLF output is found
/// the same way as with bare line feeds.
pub open spec fn is_line_sep(c: char) -> bool {
    c == '\n' || c == '\r'
}

/// The run of non-break characters at the very end of `s`.
pub open spec fn tail_line(s: Seq<char>) -> Seq<char>
    decreases s.len(),
{
    if s.len() == 0 {
        Seq::empty()
    } else if is_line_sep(s[s.len() - 1]) {
        Seq::empty()
    } else {
        tail_line(s.drop_last()).push(s[s.len() - 1])
    }
}

/// The last line of `s` that holds at least one character, ignoring
/// trailing line breaks; `None` when every character is a line break or
/// `s` is empty.
pub open spec fn last_nonempty_line(s: Seq<char>) -> Option<Seq<char>>
    decreases s.len(),
{
    if s.len() == 0 {
        None
    } else if is_line_sep(s[s.len() - 1]) {
        last_nonempty_line(s.drop_last())
    } else {
        Some(tail_line(s))
    }
}

/// Whether `c` ends a line.
pub fn is_line_sep_char(c: char) -> (r: bool)
    ensures
        r == is_line_sep(c),
{
    c == '\n' || c == '\r'
}

/// The last non-empty line of `s`, as `last_nonempty_line` describes.
pub fn find_last_nonempty_line(s: &str) -> (r: Option<String>)
    ensures
        match r {
            Some(line) => last_nonempty_line(s@) == Some(line@),
            None => last_nonempty_line(s@) is None,
        },
{
    let v = chars_of(s);
    let mut end = v.len();
    proof {
        assert(v@.subrange(0, end as int) =~= v@);
    }
    while end > 0 && is_line_sep_char(v[end - 1])
        invariant
            end <= v@.len(),
            v@ == s@,
            last_nonempty_line(s@) == last_nonempty_line(v@.subrange(0, end as int)),
        decreases end,
    {
        proof {
            assert(v@.subrange(0, end as int).drop_last() =~= v@.subrange(0, end - 1 as int));
        }
        end = end - 1;
    }
    if end == 0 {
        proof {
            assert(v@.subrange(0, 0) =~= Seq::<char>::empty());
        }
        return None;
    }
    let ghost u = v@.subrange(0, end as int);
    let mut st = end;
    proof {
        assert(tail_line(u) =~= tail_line(v@.subrange(0, st as int)) + v@.subrange(
            st as int,
            end as int,
        ));
    }
    while st > 0 && !is_line_sep_char(v[st - 1])
        invariant
            st <= end <= v@.len(),
            u == v@.subrange(0, end as int),
            !is_line_sep(u[u.len() - 1]),
            u.len() == end,
            tail_line(u) == tail_line(v@.subrange(0, st as int)) + v@.subrange(
                st as int,
                end as int,
            ),
        decreases st,
    {
        proof {
            let w = v@.subrange(0, st as int);
            assert(w.drop_last() =~= v@.subrange(0, st - 1 as int));
            assert(w[w.len() - 1] == v@[st - 1]);
            assert(tail_line(w) == tail_line(v@.subrange(0, st - 1 as int)).push(v@[st - 1]));
            assert(tail_line(v@.subrange(0, st - 1 as int)).push(v@[st - 1]) + v@.subrange(
                st as int,
                end as int,
            ) =~= tail_line(v@.subrange(0, st - 1 as int)) + v@.subrange(st - 1 as int, end as int));
        }
        st = st - 1;
    }
    proof {
        if st == 0 {
            assert(v@.subrange(0, 0) =~= Seq::<char>::empty());
            assert(tail_line(Seq::<char>::empty()) + v@.subrange(0, end as int) =~= v@.subrange(
                0,
                end as int,
            ));
        } else {
            let w = v@.subrange(0, st as int);
            assert(w[w.len() - 1] == v@[st - 1]);
            assert(tail_line(w) =~= Seq::<char>::empty());
            assert(tail_line(w) + v@.subrange(st as int, end as int) =~= v@.subrange(
                st as int,
                end as int,
            ));
        }
        assert(tail_line(u) == v@.subrange(st as int, end as int));
    }
    Some(string_of_char_range(&v, st, end))
}

/// Whether `c` is blank space: the space, tab, line-feed and
/// carriage-return characters.
pub open spec fn is_space(c: char) -> bool {
    c == ' ' || c == '\t' || c == '\n' || c == '\r'
}

/// `s` without its leading blank space.
pub open spec fn trim_front(s: Seq<char>) -> Seq<char>
    decreases s.len(),
{
    if s.len() > 0 && is_space(s[0]) {
        trim_front(s.drop_first())
    } else {
        s
    }
}

/// `s` without its trailing blank space.
pub open spec fn trim_back(s: Seq<char>) -> Seq<char>
    decreases s.len(),
{
    if s.len() > 0 && is_space(s[s.len() - 1]) {
        trim_back(s.drop_last())
    } else {
        s
    }
}

/// `s` without leading or trailing blank space.
pub open spec fn trim_model(s: Seq<char>) -> Seq<char> {
    trim_back(trim_front(s))
}

/// Whether `c` is blank space.
pub fn is_space_char(c: char) -> (r: bool)
    ensures
        r == is_space(c),
{
    c == ' ' || c == '\t' || c == '\n' || c == '\r'
}

/// `s` without leading or trailing blank space, as a fresh string.
pub fn trim_spaces(s: &str) -> (r: String)
    ensures
        r@ == trim_model(s@),
{
    let v = chars_of(s);
    let n = v.len();
    let mut st: usize = 0;
    proof {
        assert(v@.skip(0) =~= v@);
    }
    while st < n && is_space_char(v[st])
        invariant
            st <= n,
            n == v@.len(),
            v@ == s@,
            trim_front(s@) == trim_front(v@.skip(st as int)),
        decreases n - st,
    {
        proof {
            assert(v@.skip(st as int)[0] == v@[st as int]);
            assert(v@.skip(st as int).drop_first() =~= v@.skip(st + 1 as int));
        }
        st = st + 1;
    }
    proof {
        if st < n {
            assert(v@.skip(st as int)[0] == v@[st as int]);
        }
        assert(trim_front(s@) == v@.skip(st as int));
    }
    let mut en: usize = n;
    proof {
        assert(v@.skip(st as int) =~= v@.subrange(st as int, en as int));
    }
    while en > st && is_space_char(v[en - 1])
        invariant
            st <= en <= n,
            n == v@.len(),
            v@ == s@,
            trim_front(s@) == v@.skip(st as int),
            trim_back(v@.skip(st as int)) == trim_back(v@.subrange(st as int, en as int)),
        decreases en,
    {
        proof {
            let w = v@.subrange(st as int, en as int);
            assert(w[w.len() - 1] == v@[en - 1]);
            assert(w.drop_last() =~= v@.subrange(st as int, en - 1 as int));
        }
        en = en - 1;
    }
    proof {
        let w = v@.subrange(st as int, en as int);
        if en > st {
            assert(w[w.len() - 1] == v@[en - 1]);
        }
        assert(trim_back(w) == w);
    }
    string_of_char_range(&v, st, en)
}

} // verus!
