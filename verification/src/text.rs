//! Character-level scanning used by the update-check parser: finding the
//! first line break, finding the first `": "` separator, and trimming blanks.

use vstd::prelude::*;
use vstd::string::StrSliceExecFns;

verus! {

/// Blank characters that may surround a version token inside a line.
/// A line feed is not among them: it separates lines.
pub open spec fn is_blank(c: char) -> bool {
    c == ' ' || c == '\t' || c == '\r'
}

/// Index of the first line feed in `s`, or `s.len()` if there is none.
pub open spec fn first_newline(s: Seq<char>) -> int
    decreases s.len(),
{
    if s.len() == 0 {
        0
    } else if s[0] == '\n' {
        0
    } else {
        1 + first_newline(s.drop_first())
    }
}

/// A `": "` separator stands at index `i` of `s`.
pub open spec fn sep_at(s: Seq<char>, i: int) -> bool {
    s[i] == ':' && s[i + 1] == ' '
}

/// Index of the first `": "` separator in `s`, or `s.len()` if there is none.
pub open spec fn first_sep(s: Seq<char>) -> int
    decreases s.len(),
{
    if s.len() < 2 {
        s.len() as int
    } else if sep_at(s, 0) {
        0
    } else {
        1 + first_sep(s.drop_first())
    }
}

/// `s` without its leading blanks.
pub open spec fn trim_start(s: Seq<char>) -> Seq<char>
    decreases s.len(),
{
    if s.len() > 0 && is_blank(s[0]) {
        trim_start(s.drop_first())
    } else {
        s
    }
}

/// `s` without its trailing blanks.
pub open spec fn trim_end(s: Seq<char>) -> Seq<char>
    decreases s.len(),
{
    if s.len() > 0 && is_blank(s[s.len() - 1]) {
        trim_end(s.drop_last())
    } else {
        s
    }
}

/// `s` without its leading and trailing blanks.
pub open spec fn trim(s: Seq<char>) -> Seq<char> {
    trim_end(trim_start(s))
}

pub proof fn lemma_first_newline_bounds(s: Seq<char>)
    ensures
        0 <= first_newline(s) <= s.len(),
        first_newline(s) < s.len() ==> s[first_newline(s)] == '\n',
        forall|j: int| 0 <= j < first_newline(s) ==> s[j] != '\n',
    decreases s.len(),
{
    if s.len() == 0 || s[0] == '\n' {
    } else {
        lemma_first_newline_bounds(s.drop_first());
        assert forall|j: int| 0 <= j < first_newline(s) implies s[j] != '\n' by {
            if j > 0 {
                assert(s.drop_first()[j - 1] == s[j]);
            }
        }
        if first_newline(s) < s.len() {
            assert(s.drop_first()[first_newline(s) - 1] == s[first_newline(s)]);
        }
    }
}

pub proof fn lemma_first_newline_at(s: Seq<char>, i: int)
    requires
        0 <= i <= s.len(),
        forall|j: int| 0 <= j < i ==> s[j] != '\n',
        i < s.len() ==> s[i] == '\n',
    ensures
        first_newline(s) == i,
    decreases s.len(),
{
    if s.len() == 0 {
    } else if s[0] == '\n' {
        assert(i == 0);
    } else {
        assert(i >= 1);
        assert forall|j: int| 0 <= j < i - 1 implies s.drop_first()[j] != '\n' by {
            assert(s.drop_first()[j] == s[j + 1]);
        }
        if i - 1 < s.len() - 1 {
            assert(s.drop_first()[i - 1] == s[i]);
        }
        lemma_first_newline_at(s.drop_first(), i - 1);
    }
}

pub proof fn lemma_first_sep_bounds(s: Seq<char>)
    ensures
        0 <= first_sep(s) <= s.len(),
        first_sep(s) < s.len() ==> first_sep(s) + 2 <= s.len() && sep_at(s, first_sep(s)),
        forall|j: int| 0 <= j && j + 1 < s.len() && j < first_sep(s) ==> !sep_at(s, j),
    decreases s.len(),
{
    if s.len() < 2 || sep_at(s, 0) {
    } else {
        lemma_first_sep_bounds(s.drop_first());
        assert forall|j: int| 0 <= j && j + 1 < s.len() && j < first_sep(s) implies !sep_at(
            s,
            j,
        ) by {
            if j > 0 {
                assert(s.drop_first()[j - 1] == s[j]);
                assert(s.drop_first()[j] == s[j + 1]);
                assert(!sep_at(s.drop_first(), j - 1));
            }
        }
        if first_sep(s) < s.len() {
            assert(s.drop_first()[first_sep(s) - 1] == s[first_sep(s)]);
            assert(s.drop_first()[first_sep(s)] == s[first_sep(s) + 1]);
        }
    }
}

pub proof fn lemma_first_sep_at(s: Seq<char>, i: int)
    requires
        0 <= i,
        i + 1 < s.len(),
        sep_at(s, i),
        forall|j: int| 0 <= j < i ==> !sep_at(s, j),
    ensures
        first_sep(s) == i,
    decreases s.len(),
{
    if i == 0 {
    } else {
        assert(!sep_at(s, 0));
        assert forall|j: int| 0 <= j < i - 1 implies !sep_at(s.drop_first(), j) by {
            assert(s.drop_first()[j] == s[j + 1]);
            assert(s.drop_first()[j + 1] == s[j + 2]);
            assert(!sep_at(s, j + 1));
        }
        assert(s.drop_first()[i - 1] == s[i]);
        assert(s.drop_first()[i] == s[i + 1]);
        lemma_first_sep_at(s.drop_first(), i - 1);
    }
}

pub proof fn lemma_first_sep_none(s: Seq<char>)
    requires
        forall|j: int| 0 <= j && j + 1 < s.len() ==> !sep_at(s, j),
    ensures
        first_sep(s) == s.len(),
    decreases s.len(),
{
    if s.len() < 2 {
    } else {
        assert(!sep_at(s, 0));
        assert forall|j: int| 0 <= j && j + 1 < s.drop_first().len() implies !sep_at(
            s.drop_first(),
            j,
        ) by {
            assert(s.drop_first()[j] == s[j + 1]);
            assert(s.drop_first()[j + 1] == s[j + 2]);
            assert(!sep_at(s, j + 1));
        }
        lemma_first_sep_none(s.drop_first());
    }
}

pub proof fn lemma_trim_start_skip(s: Seq<char>, i: int)
    requires
        0 <= i <= s.len(),
        forall|j: int| 0 <= j < i ==> is_blank(s[j]),
        i < s.len() ==> !is_blank(s[i]),
    ensures
        trim_start(s) == s.skip(i),
    decreases s.len(),
{
    if i == 0 {
        assert(s.skip(0) =~= s);
    } else {
        assert(is_blank(s[0]));
        assert forall|j: int| 0 <= j < i - 1 implies is_blank(s.drop_first()[j]) by {
            assert(s.drop_first()[j] == s[j + 1]);
        }
        if i - 1 < s.len() - 1 {
            assert(s.drop_first()[i - 1] == s[i]);
        }
        lemma_trim_start_skip(s.drop_first(), i - 1);
        assert(s.drop_first().skip(i - 1) =~= s.skip(i));
    }
}

pub proof fn lemma_trim_end_take(s: Seq<char>, j: int)
    requires
        0 <= j <= s.len(),
        forall|k: int| j <= k < s.len() ==> is_blank(s[k]),
        j > 0 ==> !is_blank(s[j - 1]),
    ensures
        trim_end(s) == s.take(j),
    decreases s.len(),
{
    if j == s.len() {
        assert(s.take(j) =~= s);
    } else {
        assert(is_blank(s[s.len() - 1]));
        lemma_trim_end_take(s.drop_last(), j);
        assert(s.drop_last().take(j) =~= s.take(j));
    }
}

/// Trimming strips any blank padding around a token whose own ends are not
/// blank: the padding never reaches the result.
pub proof fn lemma_trim_padded(pad1: Seq<char>, v: Seq<char>, pad2: Seq<char>)
    requires
        forall|j: int| 0 <= j < pad1.len() ==> is_blank(pad1[j]),
        forall|j: int| 0 <= j < pad2.len() ==> is_blank(pad2[j]),
        v.len() > 0 ==> !is_blank(v[0]) && !is_blank(v[v.len() - 1]),
    ensures
        trim(pad1 + v + pad2) == v,
{
    let s = pad1 + v + pad2;
    if v.len() == 0 {
        assert forall|j: int| 0 <= j < s.len() implies is_blank(s[j]) by {
            if j < pad1.len() {
                assert(s[j] == pad1[j]);
            } else {
                assert(s[j] == pad2[j - pad1.len()]);
            }
        }
        lemma_trim_start_skip(s, s.len() as int);
        assert(s.skip(s.len() as int) =~= v);
    } else {
        let i = pad1.len() as int;
        assert forall|j: int| 0 <= j < i implies is_blank(s[j]) by {
            assert(s[j] == pad1[j]);
        }
        assert(s[i] == v[0]);
        lemma_trim_start_skip(s, i);
        let t = s.skip(i);
        let m = v.len() as int;
        assert forall|k: int| m <= k < t.len() implies is_blank(t[k]) by {
            assert(t[k] == pad2[k - m]);
        }
        assert(t[m - 1] == v[m - 1]);
        lemma_trim_end_take(t, m);
        assert(t.take(m) =~= v);
    }
}

/// Whether `c` is a blank character.
pub fn is_blank_char(c: char) -> (r: bool)
    ensures
        r == is_blank(c),
{
    c == ' ' || c == '\t' || c == '\r'
}

/// Index of the first line feed in `s`, or its length if there is none.
pub fn find_newline(s: &str) -> (r: usize)
    ensures
        r == first_newline(s@),
        r <= s@.len(),
{
    let n: usize = s.unicode_len();
    let mut i: usize = 0;
    loop
        invariant
            n == s@.len(),
            0 <= i <= n,
            forall|j: int| 0 <= j < i ==> s@[j] != '\n',
        ensures
            0 <= i <= n,
            forall|j: int| 0 <= j < i ==> s@[j] != '\n',
            i < n ==> s@[i as int] == '\n',
        decreases n - i,
    {
        if i >= n {
            break ;
        }
        if s.get_char(i) == '\n' {
            break ;
        }
        i = i + 1;
    }
    proof {
        lemma_first_newline_at(s@, i as int);
    }
    i
}

/// Index of the first `": "` separator in `s`, or its length if there is none.
pub fn find_sep(s: &str) -> (r: usize)
    ensures
        r == first_sep(s@),
{
    let n: usize = s.unicode_len();
    if n < 2 {
        return n;
    }
    let mut i: usize = 0;
    loop
        invariant
            n == s@.len(),
            2 <= n,
            0 <= i,
            i + 1 <= n,
            forall|j: int| 0 <= j < i ==> !sep_at(s@, j),
        ensures
            0 <= i,
            i + 1 <= n,
            forall|j: int| 0 <= j < i ==> !sep_at(s@, j),
            i + 1 < n ==> sep_at(s@, i as int),
        decreases n - i,
    {
        if i + 1 >= n {
            break ;
        }
        if s.get_char(i) == ':' && s.get_char(i + 1) == ' ' {
            break ;
        }
        proof {
            assert(!sep_at(s@, i as int));
        }
        i = i + 1;
    }
    if i + 1 < n {
        proof {
            lemma_first_sep_at(s@, i as int);
        }
        i
    } else {
        proof {
            lemma_first_sep_none(s@);
        }
        n
    }
}

/// Whether the first `end` characters of `s` are exactly `key`.
pub fn prefix_matches(s: &str, end: usize, key: &str) -> (r: bool)
    requires
        end <= s@.len(),
    ensures
        r == (s@.take(end as int) == key@),
{
    let klen: usize = key.unicode_len();
    if klen != end {
        assert(s@.take(end as int).len() == end);
        return false;
    }
    let mut i: usize = 0;
    while i < end
        invariant
            end <= s@.len(),
            end == key@.len(),
            0 <= i <= end,
            forall|j: int| 0 <= j < i ==> s@[j] == key@[j],
        decreases end - i,
    {
        if s.get_char(i) != key.get_char(i) {
            assert(s@.take(end as int)[i as int] == s@[i as int]);
            return false;
        }
        i = i + 1;
    }
    proof {
        assert(s@.take(end as int) =~= key@);
    }
    true
}

/// `s` without its leading and trailing blanks.
pub fn trim_str<'a>(s: &'a str) -> (r: &'a str)
    ensures
        r@ == trim(s@),
{
    let n: usize = s.unicode_len();
    let mut i: usize = 0;
    loop
        invariant
            n == s@.len(),
            0 <= i <= n,
            forall|j: int| 0 <= j < i ==> is_blank(s@[j]),
        ensures
            0 <= i <= n,
            forall|j: int| 0 <= j < i ==> is_blank(s@[j]),
            i < n ==> !is_blank(s@[i as int]),
        decreases n - i,
    {
        if i >= n {
            break ;
        }
        if !is_blank_char(s.get_char(i)) {
            break ;
        }
        i = i + 1;
    }
    if i == n {
        proof {
            lemma_trim_start_skip(s@, n as int);
            assert(s@.skip(n as int) =~= Seq::<char>::empty());
            assert(s@.subrange(n as int, n as int) =~= Seq::<char>::empty());
        }
        return s.substring_char(n, n);
    }
    let mut j: usize = n;
    loop
        invariant
            n == s@.len(),
            i < n,
            !is_blank(s@[i as int]),
            i + 1 <= j <= n,
            forall|k: int| j <= k < n ==> is_blank(s@[k]),
        ensures
            i + 1 <= j <= n,
            forall|k: int| j <= k < n ==> is_blank(s@[k]),
            !is_blank(s@[j - 1]),
        decreases j,
    {
        if !is_blank_char(s.get_char(j - 1)) {
            break ;
        }
        j = j - 1;
    }
    proof {
        lemma_trim_start_skip(s@, i as int);
        let t = s@.skip(i as int);
        assert forall|k: int| j - i <= k < t.len() implies is_blank(t[k]) by {
            assert(t[k] == s@[i + k]);
        }
        assert(t[j - i - 1] == s@[j - 1]);
        lemma_trim_end_take(t, j - i);
        assert(t.take(j - i) =~= s@.subrange(i as int, j as int));
    }
    s.substring_char(i, j)
}

} // verus!
