//! Character-level utilities shared by the search, extraction and
//! orchestration modules: conversion between strings and character
//! vectors, substring search, and whitespace normalisation.

use vstd::prelude::*;

verus! {

/// Relies on std's `String::push`: appends the given character to the end
/// of the string.
#[verifier::external_body]
pub(crate) fn push_char(s: &mut String, c: char)
    ensures
        final(s)@ == old(s)@.push(c),
{
    s.push(c)
}

/// Collects the characters of a string slice into a vector.
pub fn chars_of(s: &str) -> (r: Vec<char>)
    ensures
        r@ == s@,
{
    let n = s.unicode_len();
    let mut r: Vec<char> = Vec::new();
    let mut i: usize = 0;
    while i < n
        invariant
            n == s@.len(),
            i <= n,
            r@ == s@.take(i as int),
        decreases n - i,
    {
        r.push(s.get_char(i));
        i += 1;
        assert(r@ =~= s@.take(i as int));
    }
    assert(s@.take(n as int) =~= s@);
    r
}

/// The characters with the Unicode `White_Space` property, which is what
/// `str::split_whitespace` splits on.
pub open spec fn is_ws(c: char) -> bool {
    let u = c as u32;
    ||| u == 0x20
    ||| (0x09 <= u && u <= 0x0D)
    ||| u == 0x85
    ||| u == 0xA0
    ||| u == 0x1680
    ||| (0x2000 <= u && u <= 0x200A)
    ||| u == 0x2028
    ||| u == 0x2029
    ||| u == 0x202F
    ||| u == 0x205F
    ||| u == 0x3000
}

/// Decides the Unicode `White_Space` property.
pub fn is_ws_char(c: char) -> (r: bool)
    ensures
        r == is_ws(c),
{
    let u = c as u32;
    u == 0x20 || (0x09 <= u && u <= 0x0D) || u == 0x85 || u == 0xA0 || u == 0x1680 || (0x2000 <= u
        && u <= 0x200A) || u == 0x2028 || u == 0x2029 || u == 0x202F || u == 0x205F || u == 0x3000
}

/// `needle` occurs in `hay` starting at position `i`.
pub open spec fn contains_at(hay: Seq<char>, needle: Seq<char>, i: int) -> bool {
    0 <= i && i + needle.len() <= hay.len() && hay.subrange(i, i + needle.len()) == needle
}

/// `needle` occurs somewhere in `hay`.
pub open spec fn contains_seq(hay: Seq<char>, needle: Seq<char>) -> bool {
    exists|i: int| contains_at(hay, needle, i)
}

/// Substring search over character vectors.
pub fn contains_chars(hay: &Vec<char>, needle: &Vec<char>) -> (r: bool)
    ensures
        r == contains_seq(hay@, needle@),
{
    let nl = needle.len();
    let hl = hay.len();
    if nl > hl {
        assert(forall|i: int| !contains_at(hay@, needle@, i));
        return false;
    }
    if nl == 0 {
        proof {
            assert(hay@.subrange(0, 0) =~= needle@);
            assert(contains_at(hay@, needle@, 0));
        }
        return true;
    }
    let mut i: usize = 0;
    while i <= hl - nl
        invariant
            nl == needle@.len(),
            hl == hay@.len(),
            0 < nl <= hl,
            i <= hl - nl + 1,
            forall|j: int| 0 <= j < i ==> !contains_at(hay@, needle@, j),
        decreases hl - nl + 1 - i,
    {
        let mut k: usize = 0;
        let mut ok = true;
        while k < nl
            invariant
                nl == needle@.len(),
                hl == hay@.len(),
                i + nl <= hl,
                k <= nl,
                ok ==> forall|m: int| 0 <= m < k ==> hay@[i + m] == needle@[m],
                !ok ==> !contains_at(hay@, needle@, i as int),
            decreases nl - k,
        {
            if hay[i + k] != needle[k] {
                proof {
                    if contains_at(hay@, needle@, i as int) {
                        assert(hay@.subrange(i as int, i + nl)[k as int] == needle@[k as int]);
                    }
                }
                ok = false;
                k = nl;
            } else {
                k = k + 1;
            }
        }
        if ok {
            proof {
                assert(hay@.subrange(i as int, i + nl) =~= needle@);
                assert(contains_at(hay@, needle@, i as int));
            }
            return true;
        }
        i = i + 1;
    }
    proof {
        assert forall|j: int| !contains_at(hay@, needle@, j) by {
            if 0 <= j && j + nl <= hl {
                assert(j < i);
            }
        }
    }
    false
}

/// Substring search over string slices.
pub fn contains_str(hay: &str, needle: &str) -> (r: bool)
    ensures
        r == contains_seq(hay@, needle@),
{
    let h = chars_of(hay);
    let n = chars_of(needle);
    contains_chars(&h, &n)
}

/// The lower-case form of a character sequence, as `str::to_lowercase`
/// computes it.
pub uninterp spec fn lower_of(s: Seq<char>) -> Seq<char>;

/// Relies on std's `str::to_lowercase`: the result is a function of the
/// characters alone, and an empty string stays empty.
#[verifier::external_body]
pub fn lowercase(s: &str) -> (r: String)
    ensures
        r@ == lower_of(s@),
        s@.len() == 0 ==> r@.len() == 0,
{
    s.to_lowercase()
}

/// Character-wise string equality.
pub fn str_eq(a: &str, b: &str) -> (r: bool)
    ensures
        r == (a@ == b@),
{
    let an = a.unicode_len();
    let bn = b.unicode_len();
    if an != bn {
        return false;
    }
    let mut i: usize = 0;
    while i < an
        invariant
            an == a@.len(),
            an == b@.len(),
            i <= an,
            forall|j: int| 0 <= j < i ==> a@[j] == b@[j],
        decreases an - i,
    {
        if a.get_char(i) != b.get_char(i) {
            return false;
        }
        i = i + 1;
    }
    proof {
        assert(a@ =~= b@);
    }
    true
}

/// One step of whitespace normalisation: `acc` extended by the
/// normalised form of `s` from position `i` on.  Runs of whitespace
/// between words collapse to a single space; leading and trailing
/// whitespace disappears.
pub open spec fn clean_from(s: Seq<char>, i: int, acc: Seq<char>) -> Seq<char>
    decreases s.len() - i,
{
    if i < 0 || i >= s.len() {
        acc
    } else if is_ws(s[i]) {
        clean_from(s, i + 1, acc)
    } else {
        let sep = acc.len() > 0 && (i == 0 || is_ws(s[i - 1]));
        clean_from(s, i + 1, if sep { acc + seq![' ', s[i]] } else { acc.push(s[i]) })
    }
}

/// The whitespace-normalised form of `s`: its words joined by single
/// spaces.
pub open spec fn clean_spec(s: Seq<char>) -> Seq<char> {
    clean_from(s, 0, Seq::empty())
}

/// Whitespace normalisation over a character vector.
pub fn clean_chars(v: &Vec<char>) -> (r: Vec<char>)
    ensures
        r@ == clean_spec(v@),
{
    let mut out: Vec<char> = Vec::new();
    let mut i: usize = 0;
    while i < v.len()
        invariant
            i <= v@.len(),
            clean_spec(v@) == clean_from(v@, i as int, out@),
        decreases v@.len() - i,
    {
        let c = v[i];
        if !is_ws_char(c) {
            if out.len() > 0 && (i == 0 || is_ws_char(v[i - 1])) {
                let ghost pre = out@;
                out.push(' ');
                out.push(c);
                proof {
                    assert(out@ =~= pre + seq![' ', v@[i as int]]);
                }
            } else {
                out.push(c);
            }
        }
        i = i + 1;
    }
    out
}

/// Collapses all whitespace in `text` to single spaces and trims the
/// ends, as the extraction pipeline requires of every text block.
pub fn clean_text(text: &str) -> (r: String)
    ensures
        r@ == clean_spec(text@),
{
    let v = chars_of(text);
    let cleaned = clean_chars(&v);
    string_from_chars(&cleaned)
}

/// The parts joined by the separator.
pub open spec fn join_sep(parts: Seq<Seq<char>>, sep: Seq<char>) -> Seq<char>
    decreases parts.len(),
{
    if parts.len() == 0 {
        Seq::empty()
    } else if parts.len() == 1 {
        parts[0]
    } else {
        join_sep(parts.drop_last(), sep) + sep + parts.last()
    }
}

/// Joins strings with a separator.
pub fn join_strings(parts: &Vec<String>, sep: &str) -> (r: String)
    ensures
        r@ == join_sep(parts.deep_view(), sep@),
{
    let mut out = String::new();
    let mut i: usize = 0;
    while i < parts.len()
        invariant
            i <= parts@.len(),
            parts.deep_view().len() == parts@.len(),
            out@ == join_sep(parts.deep_view().take(i as int), sep@),
        decreases parts@.len() - i,
    {
        if i > 0 {
            out.append(sep);
        }
        out.append(parts[i].as_str());
        i = i + 1;
        proof {
            let dv = parts.deep_view();
            assert(dv.take(i as int).drop_last() =~= dv.take(i - 1));
            assert(dv.take(i as int).last() == dv[i - 1]);
        }
    }
    proof {
        assert(parts.deep_view().take(parts@.len() as int) =~= parts.deep_view());
    }
    out
}

/// One step of splitting `s` into whitespace-separated words: the words
/// gathered so far in `acc`, the currently open word in `cur`.
pub open spec fn words_acc(s: Seq<char>, i: int, cur: Seq<char>, acc: Seq<Seq<char>>) -> Seq<
    Seq<char>,
>
    decreases s.len() - i,
{
    if i < 0 || i >= s.len() {
        if cur.len() > 0 {
            acc.push(cur)
        } else {
            acc
        }
    } else if is_ws(s[i]) {
        words_acc(
            s,
            i + 1,
            Seq::empty(),
            if cur.len() > 0 {
                acc.push(cur)
            } else {
                acc
            },
        )
    } else {
        words_acc(s, i + 1, cur.push(s[i]), acc)
    }
}

/// The whitespace-separated words of `s`.
pub open spec fn words(s: Seq<char>) -> Seq<Seq<char>> {
    words_acc(s, 0, Seq::empty(), Seq::empty())
}

/// Splits a string into whitespace-separated words.
pub fn split_words(s: &str) -> (r: Vec<String>)
    ensures
        r.deep_view() == words(s@),
{
    let v = chars_of(s);
    let mut acc: Vec<String> = Vec::new();
    let mut cur = String::new();
    proof {
        assert(acc.deep_view() =~= Seq::<Seq<char>>::empty());
    }
    let mut i: usize = 0;
    while i < v.len()
        invariant
            v@ == s@,
            i <= v@.len(),
            words(s@) == words_acc(s@, i as int, cur@, acc.deep_view()),
        decreases v@.len() - i,
    {
        let c = v[i];
        if is_ws_char(c) {
            if !cur.as_str().is_empty() {
                let ghost pre_acc = acc.deep_view();
                let ghost pre_cur = cur@;
                acc.push(cur);
                proof {
                    assert(acc.deep_view() =~= pre_acc.push(pre_cur));
                }
                cur = String::new();
            } else {
                proof {
                    assert(cur@ =~= Seq::<char>::empty());
                }
            }
        } else {
            push_char(&mut cur, c);
        }
        i = i + 1;
    }
    if !cur.as_str().is_empty() {
        let ghost pre_acc = acc.deep_view();
        let ghost pre_cur = cur@;
        acc.push(cur);
        proof {
            assert(acc.deep_view() =~= pre_acc.push(pre_cur));
        }
    }
    acc
}

/// The first index of `'>'` in `s`, or `-1` when there is none.
pub open spec fn first_gt(s: Seq<char>) -> int
    decreases s.len(),
{
    if s.len() == 0 {
        -1
    } else if s[0] == '>' {
        0
    } else {
        let r = first_gt(s.drop_first());
        if r == -1 {
            -1
        } else {
            r + 1
        }
    }
}

proof fn lemma_first_gt_at(s: Seq<char>, k: int)
    requires
        0 <= k < s.len(),
        s[k] == '>',
        forall|m: int| 0 <= m < k ==> s[m] != '>',
    ensures
        first_gt(s) == k,
    decreases k,
{
    if k > 0 {
        lemma_first_gt_at(s.drop_first(), k - 1);
    }
}

proof fn lemma_first_gt_none(s: Seq<char>)
    requires
        forall|m: int| 0 <= m < s.len() ==> s[m] != '>',
    ensures
        first_gt(s) == -1,
    decreases s.len(),
{
    if s.len() > 0 {
        lemma_first_gt_none(s.drop_first());
    }
}

/// `s` with every markup tag removed: a tag opens at `'<'` and runs to
/// the next `'>'`; an unclosed `'<'` leaves the rest untouched.
pub open spec fn strip_tags_spec(s: Seq<char>) -> Seq<char>
    decreases s.len(),
{
    if s.len() == 0 {
        Seq::empty()
    } else if s[0] == '<' {
        let j = first_gt(s.drop_first());
        if j < 0 || j + 2 > s.len() {
            s
        } else {
            strip_tags_spec(s.skip(j + 2))
        }
    } else {
        seq![s[0]] + strip_tags_spec(s.drop_first())
    }
}

/// Removes markup tags from a character vector.
pub fn strip_tags_chars(v: &Vec<char>) -> (r: Vec<char>)
    ensures
        r@ == strip_tags_spec(v@),
{
    let mut out: Vec<char> = Vec::new();
    proof {
        assert(v@.skip(0) =~= v@);
        assert(out@ + strip_tags_spec(v@) =~= strip_tags_spec(v@));
    }
    let mut i: usize = 0;
    while i < v.len()
        invariant
            i <= v@.len(),
            strip_tags_spec(v@) == out@ + strip_tags_spec(v@.skip(i as int)),
        decreases v@.len() - i,
    {
        let ghost rest = v@.skip(i as int);
        if v[i] == '<' {
            let mut j = i + 1;
            while j < v.len() && v[j] != '>'
                invariant
                    i + 1 <= j <= v@.len(),
                    i < v@.len(),
                    forall|m: int| i + 1 <= m < j ==> v@[m] != '>',
                decreases v@.len() - j,
            {
                j = j + 1;
            }
            proof {
                assert(rest.drop_first() =~= v@.skip(i + 1));
            }
            let ghost tail = v@.skip(i + 1);
            if j < v.len() {
                proof {
                    assert forall|m: int| 0 <= m < j - i - 1 implies tail[m] != '>' by {
                        assert(tail[m] == v@[i + 1 + m]);
                    }
                    assert(tail[j - i - 1] == v@[j as int]);
                    lemma_first_gt_at(tail, j - i - 1);
                    assert(first_gt(rest.drop_first()) == j - i - 1);
                    assert(rest.skip(j - i + 1) =~= v@.skip(j + 1));
                    assert(strip_tags_spec(rest) == strip_tags_spec(v@.skip(j + 1)));
                }
                i = j + 1;
            } else {
                proof {
                    assert forall|m: int| 0 <= m < tail.len() implies tail[m] != '>' by {
                        assert(tail[m] == v@[i + 1 + m]);
                    }
                    lemma_first_gt_none(tail);
                    assert(strip_tags_spec(rest) == rest);
                }
                let ghost pre_out = out@;
                let mut k = i;
                while k < v.len()
                    invariant
                        i <= k <= v@.len(),
                        rest == v@.skip(i as int),
                        strip_tags_spec(v@) == pre_out + rest,
                        out@ == pre_out + v@.subrange(i as int, k as int),
                    decreases v@.len() - k,
                {
                    out.push(v[k]);
                    k = k + 1;
                    assert(out@ =~= pre_out + v@.subrange(i as int, k as int));
                }
                proof {
                    assert(v@.subrange(i as int, v@.len() as int) =~= rest);
                    assert(strip_tags_spec(v@.skip(v@.len() as int)) =~= Seq::<char>::empty());
                    assert(strip_tags_spec(v@) =~= out@ + strip_tags_spec(
                        v@.skip(v@.len() as int),
                    ));
                }
                i = v.len();
            }
        } else {
            out.push(v[i]);
            proof {
                assert(rest[0] == v@[i as int]);
                assert(rest.drop_first() =~= v@.skip(i + 1));
                assert(strip_tags_spec(rest) == seq![v@[i as int]] + strip_tags_spec(
                    v@.skip(i + 1),
                ));
            }
            i = i + 1;
        }
    }
    proof {
        assert(strip_tags_spec(v@.skip(v@.len() as int)) =~= Seq::<char>::empty());
        assert(out@ =~= out@ + strip_tags_spec(v@.skip(v@.len() as int)));
    }
    out
}

/// Removes markup tags from a string.
pub fn strip_html_tags(html: &str) -> (r: String)
    ensures
        r@ == strip_tags_spec(html@),
{
    let v = chars_of(html);
    let stripped = strip_tags_chars(&v);
    string_from_chars(&stripped)
}

/// Builds a string from a vector of characters.
pub fn string_from_chars(v: &Vec<char>) -> (r: String)
    ensures
        r@ == v@,
{
    let mut r = String::new();
    let mut i: usize = 0;
    while i < v.len()
        invariant
            i <= v@.len(),
            r@ == v@.take(i as int),
        decreases v@.len() - i,
    {
        push_char(&mut r, v[i]);
        i += 1;
        assert(r@ =~= v@.take(i as int));
    }
    assert(v@.take(v@.len() as int) =~= v@);
    r
}

} // verus!
