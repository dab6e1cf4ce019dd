//! Small verified string utilities: substring containment, prefix tests,
//! locating the last occurrence of a character, and comma-joining.

use vstd::prelude::*;
use vstd::string::StrSliceExecFns;
use vstd::string::StringExecFns;

verus! {

/// The needle occurs in the haystack starting at character index `i`.
pub open spec fn match_at(hay: Seq<char>, needle: Seq<char>, i: int) -> bool {
    0 <= i && i + needle.len() <= hay.len() && hay.subrange(i, i + needle.len() as int) == needle
}

/// The needle occurs somewhere in the haystack.
pub open spec fn contains_seq(hay: Seq<char>, needle: Seq<char>) -> bool {
    exists|i: int| match_at(hay, needle, i)
}

/// `p` is a prefix of `s`.
pub open spec fn prefix_of(s: Seq<char>, p: Seq<char>) -> bool {
    p.len() <= s.len() && s.subrange(0, p.len() as int) == p
}

fn match_at_exec(hay: &str, needle: &str, i: usize, hay_len: usize, needle_len: usize) -> (b: bool)
    requires
        hay_len == hay@.len(),
        needle_len == needle@.len(),
        i + needle_len <= hay_len,
    ensures
        b == match_at(hay@, needle@, i as int),
{
    let mut j: usize = 0;
    while j < needle_len
        invariant
            hay_len == hay@.len(),
            needle_len == needle@.len(),
            i + needle_len <= hay_len,
            0 <= j <= needle_len,
            forall|k: int| 0 <= k < j ==> hay@[i + k] == needle@[k],
        decreases needle_len - j,
    {
        if hay.get_char(i + j) != needle.get_char(j) {
            assert(hay@.subrange(i as int, i + needle@.len() as int) != needle@) by {
                assert(hay@.subrange(i as int, i + needle@.len() as int)[j as int] == hay@[i + j]);
            }
            return false;
        }
        j += 1;
    }
    assert(hay@.subrange(i as int, i + needle@.len() as int) =~= needle@);
    true
}

/// True exactly when `needle` occurs as a contiguous substring of `hay`.
pub fn contains_sub(hay: &str, needle: &str) -> (b: bool)
    ensures
        b == contains_seq(hay@, needle@),
{
    let hay_len: usize = hay.unicode_len();
    let needle_len: usize = needle.unicode_len();
    if needle_len > hay_len {
        assert(forall|i: int| !match_at(hay@, needle@, i));
        return false;
    }
    let bound: usize = hay_len - needle_len;
    let mut i: usize = 0;
    loop
        invariant
            hay_len == hay@.len(),
            needle_len == needle@.len(),
            needle_len <= hay_len,
            bound == hay_len - needle_len,
            0 <= i <= bound,
            forall|k: int| 0 <= k < i ==> !match_at(hay@, needle@, k),
        decreases bound - i,
    {
        if match_at_exec(hay, needle, i, hay_len, needle_len) {
            return true;
        }
        if i == bound {
            assert(forall|k: int| match_at(hay@, needle@, k) ==> 0 <= k <= bound);
            return false;
        }
        i += 1;
    }
}

/// True exactly when `p` is a prefix of `s`.
pub fn starts_with_sub(s: &str, p: &str) -> (b: bool)
    ensures
        b == prefix_of(s@, p@),
{
    let s_len: usize = s.unicode_len();
    let p_len: usize = p.unicode_len();
    if p_len > s_len {
        return false;
    }
    match_at_exec(s, p, 0, s_len, p_len)
}

/// True exactly when the two strings hold the same characters.
pub fn str_eq(a: &str, b: &str) -> (r: bool)
    ensures
        r == (a@ == b@),
{
    let a_len: usize = a.unicode_len();
    let b_len: usize = b.unicode_len();
    if a_len != b_len {
        return false;
    }
    let mut i: usize = 0;
    while i < a_len
        invariant
            a_len == a@.len(),
            b_len == b@.len(),
            a_len == b_len,
            0 <= i <= a_len,
            forall|k: int| 0 <= k < i ==> a@[k] == b@[k],
        decreases a_len - i,
    {
        if a.get_char(i) != b.get_char(i) {
            return false;
        }
        i += 1;
    }
    assert(a@ =~= b@);
    true
}

/// Character index of the last occurrence of `c` in `s`, if any.
pub fn find_last(s: &str, c: char) -> (r: Option<usize>)
    ensures
        match r {
            Some(i) => i < s@.len() && s@[i as int] == c
                && forall|j: int| i < j < s@.len() ==> s@[j] != c,
            None => forall|j: int| 0 <= j < s@.len() ==> s@[j] != c,
        },
{
    let len: usize = s.unicode_len();
    let mut i: usize = len;
    while i > 0
        invariant
            len == s@.len(),
            0 <= i <= len,
            forall|j: int| i <= j < len ==> s@[j] != c,
        decreases i,
    {
        i = i - 1;
        if s.get_char(i) == c {
            return Some(i);
        }
    }
    None
}

/// The character sequences of a sequence of strings.
pub open spec fn views_of(items: Seq<String>) -> Seq<Seq<char>> {
    items.map_values(|s: String| s@)
}

/// The items joined with `", "` between neighbours.
pub open spec fn join_comma_spec(items: Seq<Seq<char>>) -> Seq<char>
    decreases items.len(),
{
    if items.len() == 0 {
        Seq::empty()
    } else if items.len() == 1 {
        items[0]
    } else {
        join_comma_spec(items.drop_last()) + ", "@ + items.last()
    }
}

/// Joins the strings with `", "` between neighbours.
pub fn join_comma(items: &Vec<String>) -> (r: String)
    ensures
        r@ == join_comma_spec(views_of(items@)),
{
    let mut acc: String = String::new();
    let mut i: usize = 0;
    while i < items.len()
        invariant
            0 <= i <= items@.len(),
            acc@ == join_comma_spec(views_of(items@.take(i as int))),
        decreases items@.len() - i,
    {
        if i > 0 {
            acc.append(", ");
        }
        acc.append(items[i].as_str());
        assert(acc@ == join_comma_spec(views_of(items@.take(i + 1)))) by {
            let pre = views_of(items@.take(i as int));
            let cur = views_of(items@.take(i + 1));
            assert(cur.drop_last() =~= pre);
            assert(cur.last() == items@[i as int]@);
            if i == 0 {
                assert(cur.len() == 1);
                reveal_strlit(", ");
                assert(join_comma_spec(pre) == Seq::<char>::empty());
                assert(acc@ =~= cur[0]);
            }
        }
        i += 1;
    }
    assert(items@.take(items@.len() as int) =~= items@);
    acc
}

} // verus!
