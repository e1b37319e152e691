//! Character-level text utilities shared by the negotiation engine:
//! whitespace trimming, quote stripping, substring search, and a count
//! of the characters that are not whitespace.

use vstd::prelude::*;

verus! {

/// Whitespace as the Unicode `White_Space` property lists it.
pub open spec fn is_space_char(c: char) -> bool {
    c == ' ' || c == '\t' || c == '\n' || c == '\r' || c == '\u{b}' || c == '\u{c}'
        || c == '\u{85}' || c == '\u{a0}' || c == '\u{1680}' || c == '\u{2000}'
        || c == '\u{2001}' || c == '\u{2002}' || c == '\u{2003}' || c == '\u{2004}'
        || c == '\u{2005}' || c == '\u{2006}' || c == '\u{2007}' || c == '\u{2008}'
        || c == '\u{2009}' || c == '\u{200a}' || c == '\u{2028}' || c == '\u{2029}'
        || c == '\u{202f}' || c == '\u{205f}' || c == '\u{3000}'
}

/// Decides whether `c` is a whitespace character.
pub fn is_space(c: char) -> (r: bool)
    ensures
        r == is_space_char(c),
{
    c == ' ' || c == '\t' || c == '\n' || c == '\r' || c == '\u{b}' || c == '\u{c}'
        || c == '\u{85}' || c == '\u{a0}' || c == '\u{1680}' || c == '\u{2000}'
        || c == '\u{2001}' || c == '\u{2002}' || c == '\u{2003}' || c == '\u{2004}'
        || c == '\u{2005}' || c == '\u{2006}' || c == '\u{2007}' || c == '\u{2008}'
        || c == '\u{2009}' || c == '\u{200a}' || c == '\u{2028}' || c == '\u{2029}'
        || c == '\u{202f}' || c == '\u{205f}' || c == '\u{3000}'
}

/// `s` without its leading whitespace.
pub open spec fn trim_front_spec(s: Seq<char>) -> Seq<char>
    decreases s.len(),
{
    if s.len() > 0 && is_space_char(s[0]) {
        trim_front_spec(s.drop_first())
    } else {
        s
    }
}

/// `s` without its trailing whitespace.
pub open spec fn trim_back_spec(s: Seq<char>) -> Seq<char>
    decreases s.len(),
{
    if s.len() > 0 && is_space_char(s[s.len() - 1]) {
        trim_back_spec(s.drop_last())
    } else {
        s
    }
}

/// `s` without leading and trailing whitespace.
pub open spec fn trim_spec(s: Seq<char>) -> Seq<char> {
    trim_back_spec(trim_front_spec(s))
}

proof fn lemma_trim_front_skip(s: Seq<char>, i: int)
    requires
        0 <= i <= s.len(),
        forall|j: int| 0 <= j < i ==> is_space_char(s[j]),
    ensures
        trim_front_spec(s) == trim_front_spec(s.subrange(i, s.len() as int)),
    decreases i,
{
    if i > 0 {
        assert(s.drop_first() =~= s.subrange(1, s.len() as int));
        lemma_trim_front_skip(s.drop_first(), i - 1);
        assert(s.drop_first().subrange(i - 1, s.drop_first().len() as int) =~= s.subrange(
            i,
            s.len() as int,
        ));
    } else {
        assert(s.subrange(0, s.len() as int) =~= s);
    }
}

proof fn lemma_trim_back_skip(s: Seq<char>, j: int)
    requires
        0 <= j <= s.len(),
        forall|l: int| j <= l < s.len() ==> is_space_char(s[l]),
    ensures
        trim_back_spec(s) == trim_back_spec(s.subrange(0, j)),
    decreases s.len() - j,
{
    if j < s.len() {
        assert(is_space_char(s[s.len() - 1]));
        assert(s.drop_last() =~= s.subrange(0, s.len() - 1));
        lemma_trim_back_skip(s.drop_last(), j);
        assert(s.drop_last().subrange(0, j) =~= s.subrange(0, j));
    } else {
        assert(s.subrange(0, s.len() as int) =~= s);
    }
}

/// `s` with leading and trailing whitespace removed.
pub fn trim(s: &str) -> (r: String)
    ensures
        r@ == trim_spec(s@),
{
    let n: usize = s.unicode_len();
    let mut i: usize = 0;
    while i < n && is_space(s.get_char(i))
        invariant
            0 <= i <= n,
            n == s@.len(),
            forall|j: int| 0 <= j < i ==> is_space_char(s@[j]),
        decreases n - i,
    {
        i = i + 1;
    }
    let mut j: usize = n;
    while j > i && is_space(s.get_char(j - 1))
        invariant
            i <= j <= n,
            n == s@.len(),
            forall|l: int| j <= l < n ==> is_space_char(s@[l]),
        decreases j,
    {
        j = j - 1;
    }
    let r = String::from_str(s.substring_char(i, j));
    proof {
        lemma_trim_front_skip(s@, i as int);
        let t = s@.subrange(i as int, n as int);
        if i == j {
            // everything from i on is whitespace, so the front-trimmed tail
            // is all whitespace and the back trim removes it entirely
            lemma_trim_back_skip(t, 0);
            assert(t.subrange(0, 0) =~= s@.subrange(i as int, j as int));
            assert(trim_front_spec(t) == t);
            assert(trim_spec(s@) =~= s@.subrange(i as int, j as int));
        } else {
            assert(!is_space_char(s@[i as int]));
            assert(trim_front_spec(t) == t);
            lemma_trim_back_skip(t, j - i);
            assert(t.subrange(0, j - i) =~= s@.subrange(i as int, j as int));
            let u = s@.subrange(i as int, j as int);
            assert(!is_space_char(u[u.len() - 1]));
            assert(trim_back_spec(u) == u);
            assert(trim_spec(s@) == u);
        }
    }
    r
}

/// `s` without its leading quote characters.
pub open spec fn strip_quotes_front(s: Seq<char>) -> Seq<char>
    decreases s.len(),
{
    if s.len() > 0 && s[0] == '"' {
        strip_quotes_front(s.drop_first())
    } else {
        s
    }
}

/// `s` without its trailing quote characters.
pub open spec fn strip_quotes_back(s: Seq<char>) -> Seq<char>
    decreases s.len(),
{
    if s.len() > 0 && s[s.len() - 1] == '"' {
        strip_quotes_back(s.drop_last())
    } else {
        s
    }
}

/// `s` with every leading and every trailing quote character removed,
/// so that no boundary quote remains.
pub open spec fn strip_quotes_spec(s: Seq<char>) -> Seq<char> {
    strip_quotes_back(strip_quotes_front(s))
}

proof fn lemma_strip_front_skip(s: Seq<char>, i: int)
    requires
        0 <= i <= s.len(),
        forall|j: int| 0 <= j < i ==> s[j] == '"',
    ensures
        strip_quotes_front(s) == strip_quotes_front(s.subrange(i, s.len() as int)),
    decreases i,
{
    if i > 0 {
        assert(s.drop_first() =~= s.subrange(1, s.len() as int));
        lemma_strip_front_skip(s.drop_first(), i - 1);
        assert(s.drop_first().subrange(i - 1, s.drop_first().len() as int) =~= s.subrange(
            i,
            s.len() as int,
        ));
    } else {
        assert(s.subrange(0, s.len() as int) =~= s);
    }
}

proof fn lemma_strip_back_skip(s: Seq<char>, j: int)
    requires
        0 <= j <= s.len(),
        forall|l: int| j <= l < s.len() ==> s[l] == '"',
    ensures
        strip_quotes_back(s) == strip_quotes_back(s.subrange(0, j)),
    decreases s.len() - j,
{
    if j < s.len() {
        assert(s[s.len() - 1] == '"');
        assert(s.drop_last() =~= s.subrange(0, s.len() - 1));
        lemma_strip_back_skip(s.drop_last(), j);
        assert(s.drop_last().subrange(0, j) =~= s.subrange(0, j));
    } else {
        assert(s.subrange(0, s.len() as int) =~= s);
    }
}

/// Removes every leading and every trailing literal quote character.
pub fn strip_quotes(s: &str) -> (r: String)
    ensures
        r@ == strip_quotes_spec(s@),
{
    let n: usize = s.unicode_len();
    let mut i: usize = 0;
    while i < n && s.get_char(i) == '"'
        invariant
            0 <= i <= n,
            n == s@.len(),
            forall|j: int| 0 <= j < i ==> s@[j] == '"',
        decreases n - i,
    {
        i = i + 1;
    }
    let mut j: usize = n;
    while j > i && s.get_char(j - 1) == '"'
        invariant
            i <= j <= n,
            n == s@.len(),
            forall|l: int| j <= l < n ==> s@[l] == '"',
        decreases j,
    {
        j = j - 1;
    }
    let r = String::from_str(s.substring_char(i, j));
    proof {
        lemma_strip_front_skip(s@, i as int);
        let t = s@.subrange(i as int, n as int);
        if i == j {
            // everything from i on is a quote, so the front-stripped
            // tail is all quotes and the back strip removes it entirely
            lemma_strip_back_skip(t, 0);
            assert(t.subrange(0, 0) =~= s@.subrange(i as int, j as int));
            assert(strip_quotes_front(t) == t);
            assert(strip_quotes_spec(s@) =~= s@.subrange(i as int, j as int));
        } else {
            assert(s@[i as int] != '"');
            assert(strip_quotes_front(t) == t);
            lemma_strip_back_skip(t, j - i);
            assert(t.subrange(0, j - i) =~= s@.subrange(i as int, j as int));
            let u = s@.subrange(i as int, j as int);
            assert(u[u.len() - 1] != '"');
            assert(strip_quotes_back(u) == u);
            assert(strip_quotes_spec(s@) == u);
        }
    }
    r
}

proof fn lemma_strip_front_no_leading(s: Seq<char>)
    ensures
        strip_quotes_front(s).len() > 0 ==> strip_quotes_front(s)[0] != '"',
    decreases s.len(),
{
    if s.len() > 0 && s[0] == '"' {
        lemma_strip_front_no_leading(s.drop_first());
    }
}

proof fn lemma_strip_back_no_trailing(s: Seq<char>)
    ensures
        strip_quotes_back(s).len() > 0 ==> strip_quotes_back(s)[strip_quotes_back(s).len() - 1]
            != '"',
    decreases s.len(),
{
    if s.len() > 0 && s[s.len() - 1] == '"' {
        lemma_strip_back_no_trailing(s.drop_last());
    }
}

proof fn lemma_strip_back_prefix(s: Seq<char>)
    ensures
        strip_quotes_back(s).len() <= s.len(),
        forall|i: int|
            0 <= i < strip_quotes_back(s).len() ==> strip_quotes_back(s)[i] == s[i],
    decreases s.len(),
{
    if s.len() > 0 && s[s.len() - 1] == '"' {
        lemma_strip_back_prefix(s.drop_last());
        assert(strip_quotes_back(s) == strip_quotes_back(s.drop_last()));
        assert forall|i: int|
            0 <= i < strip_quotes_back(s).len() implies strip_quotes_back(s)[i] == s[i] by {
            assert(strip_quotes_back(s)[i] == s.drop_last()[i]);
            assert(s.drop_last()[i] == s[i]);
        }
    }
}

/// The quote strip leaves no boundary quote at all, and re-applying it
/// is a no-op on every input.
pub proof fn lemma_strip_quotes_stable(s: Seq<char>)
    ensures
        strip_quotes_spec(s).len() > 0 ==> strip_quotes_spec(s)[0] != '"',
        strip_quotes_spec(s).len() > 0 ==> strip_quotes_spec(s)[strip_quotes_spec(s).len() - 1]
            != '"',
        strip_quotes_spec(strip_quotes_spec(s)) == strip_quotes_spec(s),
{
    let t = strip_quotes_front(s);
    let u = strip_quotes_back(t);
    lemma_strip_front_no_leading(s);
    lemma_strip_back_no_trailing(t);
    lemma_strip_back_prefix(t);
    if u.len() > 0 {
        assert(u[0] == t[0]);
        assert(u[0] != '"');
        assert(strip_quotes_front(u) == u);
        assert(strip_quotes_back(u) == u);
    } else {
        assert(strip_quotes_front(u) == u);
        assert(strip_quotes_back(u) == u);
    }
}

/// The needle occurs in the haystack starting at position `i`.
pub open spec fn contains_at(hay: Seq<char>, needle: Seq<char>, i: int) -> bool {
    0 <= i && i + needle.len() <= hay.len() && hay.subrange(i, i + needle.len() as int) == needle
}

/// The needle occurs somewhere in the haystack.
pub open spec fn contains_seq(hay: Seq<char>, needle: Seq<char>) -> bool {
    exists|i: int| contains_at(hay, needle, i)
}

/// Decides whether `needle` occurs in `hay`.
pub fn contains_str(hay: &str, needle: &str) -> (r: bool)
    ensures
        r == contains_seq(hay@, needle@),
{
    let hn: usize = hay.unicode_len();
    let nn: usize = needle.unicode_len();
    if nn > hn {
        proof {
            assert(forall|i: int| !contains_at(hay@, needle@, i));
        }
        return false;
    }
    if nn == 0 {
        proof {
            assert(hay@.subrange(0, 0) =~= needle@);
            assert(contains_at(hay@, needle@, 0));
        }
        return true;
    }
    let mut i: usize = 0;
    while i <= hn - nn
        invariant
            hn == hay@.len(),
            nn == needle@.len(),
            0 < nn <= hn,
            0 <= i <= hn - nn + 1,
            forall|k: int| 0 <= k < i ==> !contains_at(hay@, needle@, k),
        decreases hn - i,
    {
        let mut j: usize = 0;
        let mut matched = true;
        while j < nn
            invariant
                hn == hay@.len(),
                nn == needle@.len(),
                0 <= i <= hn - nn,
                0 <= j <= nn,
                matched ==> forall|k: int| 0 <= k < j ==> hay@[i + k] == needle@[k],
                !matched ==> !contains_at(hay@, needle@, i as int),
            decreases nn - j,
        {
            if hay.get_char(i + j) != needle.get_char(j) {
                proof {
                    if contains_at(hay@, needle@, i as int) {
                        assert(hay@.subrange(i as int, i + nn as int)[j as int] == hay@[i + j]);
                    }
                }
                matched = false;
                j = nn;
            } else {
                j = j + 1;
            }
        }
        if matched {
            proof {
                assert(hay@.subrange(i as int, i + nn as int) =~= needle@);
                assert(contains_at(hay@, needle@, i as int));
            }
            return true;
        }
        i = i + 1;
    }
    proof {
        assert(forall|k: int| 0 <= k ==> !contains_at(hay@, needle@, k));
        assert(forall|k: int| !contains_at(hay@, needle@, k));
    }
    false
}

/// How many characters of `s` are not whitespace.
pub open spec fn non_space_count(s: Seq<char>) -> nat
    decreases s.len(),
{
    if s.len() == 0 {
        0
    } else {
        (if is_space_char(s[0]) {
            0nat
        } else {
            1nat
        }) + non_space_count(s.drop_first())
    }
}

proof fn lemma_non_space_count_push(t: Seq<char>, c: char)
    ensures
        non_space_count(t.push(c)) == non_space_count(t) + (if is_space_char(c) {
            0nat
        } else {
            1nat
        }),
    decreases t.len(),
{
    if t.len() == 0 {
        assert(t.push(c)[0] == c);
        assert(t.push(c).drop_first() =~= Seq::<char>::empty());
        assert(non_space_count(Seq::<char>::empty()) == 0);
        assert(non_space_count(t.push(c)) == (if is_space_char(c) {
            0nat
        } else {
            1nat
        }) + non_space_count(t.push(c).drop_first()));
        assert(non_space_count(t) == 0);
    } else {
        assert(t.push(c)[0] == t[0]);
        assert(t.push(c).drop_first() =~= t.drop_first().push(c));
        lemma_non_space_count_push(t.drop_first(), c);
        assert(non_space_count(t.push(c)) == (if is_space_char(t[0]) {
            0nat
        } else {
            1nat
        }) + non_space_count(t.drop_first().push(c)));
        assert(non_space_count(t) == (if is_space_char(t[0]) {
            0nat
        } else {
            1nat
        }) + non_space_count(t.drop_first()));
    }
}

/// Counts the characters of `s` that are not whitespace.
pub fn count_non_space(s: &str) -> (r: usize)
    ensures
        r == non_space_count(s@),
{
    let n: usize = s.unicode_len();
    let mut i: usize = 0;
    let mut acc: usize = 0;
    proof {
        assert(s@.subrange(0, 0) =~= Seq::<char>::empty());
    }
    while i < n
        invariant
            0 <= i <= n,
            n == s@.len(),
            acc <= i,
            acc == non_space_count(s@.subrange(0, i as int)),
        decreases n - i,
    {
        let c = s.get_char(i);
        proof {
            assert(s@.subrange(0, i + 1) =~= s@.subrange(0, i as int).push(s@[i as int]));
            lemma_non_space_count_push(s@.subrange(0, i as int), s@[i as int]);
        }
        if !is_space(c) {
            acc = acc + 1;
        }
        i = i + 1;
    }
    proof {
        assert(s@.subrange(0, n as int) =~= s@);
    }
    acc
}

} // verus!
