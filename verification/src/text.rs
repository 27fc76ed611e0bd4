//! Small helpers over sequences: the characters of a string, the first
//! position at which something holds, suffixes, splitting and trimming.

use crate::trusted::{is_whitespace, white_space};
use vstd::prelude::*;

verus! {

/// Position of the first element of `s` for which `p` holds, or the length
/// of `s` where it holds for none.
pub open spec fn first_match<A>(s: Seq<A>, p: spec_fn(A) -> bool) -> int
    decreases s.len(),
{
    if s.len() == 0 {
        0
    } else if p(s[0]) {
        0
    } else {
        1 + first_match(s.drop_first(), p)
    }
}

/// The first match lies within the sequence or at its end; `p` holds for no
/// element before it and, where it lies within, for the element at it.
pub proof fn lemma_first_match<A>(s: Seq<A>, p: spec_fn(A) -> bool)
    ensures
        0 <= first_match(s, p) <= s.len(),
        forall|i: int| 0 <= i < first_match(s, p) ==> !p(s[i]),
        first_match(s, p) < s.len() ==> p(s[first_match(s, p)]),
    decreases s.len(),
{
    if s.len() == 0 {
    } else if p(s[0]) {
    } else {
        let t = s.drop_first();
        lemma_first_match(t, p);
        assert forall|i: int| 0 <= i < first_match(s, p) implies !p(s[i]) by {
            if i > 0 {
                assert(s[i] == t[i - 1]);
            }
        }
        if first_match(s, p) < s.len() {
            assert(s[first_match(s, p)] == t[first_match(t, p)]);
        }
    }
}

/// A position `k` at which `p` holds, or the end, with no match before it, is
/// the first match.
pub proof fn lemma_first_match_at<A>(s: Seq<A>, p: spec_fn(A) -> bool, k: int)
    requires
        0 <= k <= s.len(),
        k < s.len() ==> p(s[k]),
        forall|i: int| 0 <= i < k ==> !p(s[i]),
    ensures
        first_match(s, p) == k,
{
    lemma_first_match(s, p);
    let f = first_match(s, p);
    if f < k {
        assert(p(s[f]));
    } else if f > k {
        assert(!p(s[k]));
    }
}

/// Whether `s` ends with `suffix`.
pub open spec fn ends_with(s: Seq<char>, suffix: Seq<char>) -> bool {
    s.len() >= suffix.len() && s.subrange(s.len() - suffix.len(), s.len() as int) == suffix
}

/// Position just behind the last `c` in `s`; zero where `s` holds no `c`.
pub open spec fn after_last(s: Seq<char>, c: char) -> int
    decreases s.len(),
{
    if s.len() == 0 {
        0
    } else if s.last() == c {
        s.len() as int
    } else {
        after_last(s.drop_last(), c)
    }
}

/// The position behind the last `c` lies within `s` or at its end, and no
/// `c` follows it.
pub proof fn lemma_after_last(s: Seq<char>, c: char)
    ensures
        0 <= after_last(s, c) <= s.len(),
        forall|i: int| after_last(s, c) <= i < s.len() ==> s[i] != c,
        after_last(s, c) > 0 ==> s[after_last(s, c) - 1] == c,
    decreases s.len(),
{
    if s.len() == 0 {
    } else if s.last() == c {
    } else {
        let t = s.drop_last();
        lemma_after_last(t, c);
        assert forall|i: int| after_last(s, c) <= i < s.len() implies s[i] != c by {
            if i < t.len() {
                assert(s[i] == t[i]);
            }
        }
        if after_last(s, c) > 0 {
            assert(s[after_last(s, c) - 1] == t[after_last(t, c) - 1]);
        }
    }
}

/// The characters of a string, in order.
pub fn chars_of(s: &str) -> (v: Vec<char>)
    ensures
        v@ == s@,
{
    let mut v: Vec<char> = Vec::new();
    for c in it: s.chars()
        invariant
            v@ == it.seq().take(it.index() as int),
            it.seq() == s@,
    {
        v.push(c);
    }
    v
}

/// Whether the characters end with the given suffix.
pub fn has_suffix(v: &Vec<char>, suffix: &str) -> (r: bool)
    ensures
        r == ends_with(v@, suffix@),
{
    let tail = chars_of(suffix);
    let n = v.len();
    let m = tail.len();
    if m > n {
        return false;
    }
    let start = n - m;
    let mut i: usize = 0;
    while i < m
        invariant
            i <= m <= n,
            start == n - m,
            n == v@.len(),
            m == tail@.len(),
            tail@ == suffix@,
            forall|j: int| 0 <= j < i ==> v@[start + j] == tail@[j],
        decreases m - i,
    {
        if v[start + i] != tail[i] {
            proof {
                let cut = v@.subrange(n - m, n as int);
                assert(cut[i as int] == v@[start + i]);
                assert(cut[i as int] != tail@[i as int]);
                assert(cut != tail@);
            }
            return false;
        }
        i = i + 1;
    }
    assert(v@.subrange(n - m, n as int) =~= tail@);
    true
}

/// Position just behind the last `c` among the characters.
pub fn position_after_last(v: &Vec<char>, c: char) -> (k: usize)
    ensures
        k == after_last(v@, c),
{
    let mut i: usize = v.len();
    assert(v@.subrange(0, i as int) =~= v@);
    while i > 0
        invariant
            i <= v@.len(),
            after_last(v@, c) == after_last(v@.subrange(0, i as int), c),
        decreases i,
    {
        let ghost cur = v@.subrange(0, i as int);
        if v[i - 1] == c {
            assert(cur.last() == c);
            return i;
        }
        assert(cur.drop_last() =~= v@.subrange(0, i - 1));
        i = i - 1;
    }
    0
}

/// Picks the space character.
pub open spec fn is_space() -> spec_fn(char) -> bool {
    |c: char| c == ' '
}

/// The text cut at its first `n - 1` spaces into at most `n` parts; the last
/// part keeps every further space. No part is asked for gives none.
pub open spec fn split_n(s: Seq<char>, n: nat) -> Seq<Seq<char>>
    decreases n,
{
    if n == 0 {
        Seq::empty()
    } else if n == 1 {
        seq![s]
    } else {
        let k = first_match(s, is_space());
        if 0 <= k < s.len() {
            seq![s.subrange(0, k)] + split_n(s.subrange(k + 1, s.len() as int), (n - 1) as nat)
        } else {
            seq![s]
        }
    }
}

/// The text without the white space at its end.
pub open spec fn trimmed_end(s: Seq<char>) -> Seq<char>
    decreases s.len(),
{
    if s.len() > 0 && white_space(s.last()) {
        trimmed_end(s.drop_last())
    } else {
        s
    }
}

/// The text without one newline at its end, if it ends with one.
pub open spec fn without_newline(s: Seq<char>) -> Seq<char> {
    if s.len() > 0 && s.last() == '\n' {
        s.drop_last()
    } else {
        s
    }
}

/// The texts that a vector of strings holds.
pub open spec fn texts(parts: Seq<String>) -> Seq<Seq<char>> {
    parts.map_values(|p: String| p@)
}

/// Cuts a text at its first `n - 1` spaces into at most `n` parts.
pub fn splitn(line: &str, n: usize) -> (parts: Vec<String>)
    ensures
        texts(parts@) == split_n(line@, n as nat),
{
    let mut parts: Vec<String> = Vec::new();
    if n == 0 {
        assert(texts(parts@) =~= Seq::<Seq<char>>::empty());
        return parts;
    }
    let chars = chars_of(line);
    let len = chars.len();
    let mut start: usize = 0;
    let mut i: usize = 0;
    assert(line@.subrange(0, len as int) =~= line@);
    assert(texts(parts@) + split_n(line@, n as nat) =~= split_n(line@, n as nat));
    while i < len && parts.len() + 1 < n
        invariant
            chars@ == line@,
            len == line@.len(),
            start <= i <= len,
            parts@.len() < n,
            forall|j: int| start <= j < i ==> line@[j] != ' ',
            split_n(line@, n as nat) == texts(parts@) + split_n(
                line@.subrange(start as int, len as int),
                (n - parts@.len()) as nat,
            ),
        decreases len - i,
    {
        if chars[i] == ' ' {
            let ghost rest = line@.subrange(start as int, len as int);
            let ghost done = texts(parts@);
            let part = line.substring_char(start, i).to_owned();
            proof {
                assert forall|j: int| 0 <= j < i - start implies !(is_space())(rest[j]) by {
                    assert(rest[j] == line@[start + j]);
                }
                assert((is_space())(rest[i - start]));
                lemma_first_match_at(rest, is_space(), i - start);
                assert(rest.subrange(0, i - start) =~= line@.subrange(start as int, i as int));
                assert(rest.subrange(i - start + 1, rest.len() as int) =~= line@.subrange(
                    i + 1,
                    len as int,
                ));
                assert(texts(parts@.push(part)) =~= done + seq![part@]);
                assert(done + (seq![part@] + split_n(
                    line@.subrange(i + 1, len as int),
                    (n - parts@.len() - 1) as nat,
                )) =~= (done + seq![part@]) + split_n(
                    line@.subrange(i + 1, len as int),
                    (n - parts@.len() - 1) as nat,
                ));
            }
            parts.push(part);
            start = i + 1;
        }
        i = i + 1;
    }
    let ghost rest = line@.subrange(start as int, len as int);
    let ghost done = texts(parts@);
    let last = line.substring_char(start, len).to_owned();
    proof {
        if parts@.len() + 1 < n {
            assert forall|j: int| 0 <= j < rest.len() implies !(is_space())(rest[j]) by {
                assert(rest[j] == line@[start + j]);
            }
            lemma_first_match_at(rest, is_space(), rest.len() as int);
        }
        assert(split_n(rest, (n - parts@.len()) as nat) =~= seq![rest]);
        assert(texts(parts@.push(last)) =~= done + seq![rest]);
    }
    parts.push(last);
    parts
}

/// The text without the white space at its end.
pub fn trim_end(text: &str) -> (r: String)
    ensures
        r@ == trimmed_end(text@),
{
    let chars = chars_of(text);
    let mut end: usize = chars.len();
    assert(text@.subrange(0, end as int) =~= text@);
    while end > 0 && is_whitespace(chars[end - 1])
        invariant
            chars@ == text@,
            end <= text@.len(),
            trimmed_end(text@) == trimmed_end(text@.subrange(0, end as int)),
        decreases end,
    {
        let ghost cur = text@.subrange(0, end as int);
        assert(cur.last() == text@[end - 1]);
        assert(cur.drop_last() =~= text@.subrange(0, end - 1));
        end = end - 1;
    }
    proof {
        let cur = text@.subrange(0, end as int);
        if end > 0 {
            assert(cur.last() == text@[end - 1]);
        }
    }
    text.substring_char(0, end).to_owned()
}

/// The text without one newline at its end, if it ends with one.
pub fn strip_newline(text: &str) -> (r: String)
    ensures
        r@ == without_newline(text@),
{
    let chars = chars_of(text);
    let len = chars.len();
    if len > 0 && chars[len - 1] == '\n' {
        assert(text@.drop_last() =~= text@.subrange(0, len - 1));
        text.substring_char(0, len - 1).to_owned()
    } else {
        assert(text@.subrange(0, len as int) =~= text@);
        text.substring_char(0, len).to_owned()
    }
}

} // verus!
