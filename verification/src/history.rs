//! Preparation of historical subject lines into style examples: lines
//! of the log are kept unless they open a merge commit, each kept line
//! is dash-prefixed, the lines are joined, and squash-merge reference
//! suffixes of the form `(#<digits>)` at a line's end are stripped.
//! The same dash-prefixed join renders the negative exemplars.

use vstd::prelude::*;

verus! {

/// A decimal digit.
pub open spec fn is_digit(c: char) -> bool {
    '0' <= c && c <= '9'
}

/// Decides whether `c` is a decimal digit.
pub fn is_digit_char(c: char) -> (r: bool)
    ensures
        r == is_digit(c),
{
    '0' <= c && c <= '9'
}

/// The length of the run of digits in `s` starting at `i`.
pub open spec fn digit_run(s: Seq<char>, i: int) -> int
    decreases s.len() - i when 0 <= i <= s.len()
{
    if i < s.len() && is_digit(s[i]) {
        1 + digit_run(s, i + 1)
    } else {
        0
    }
}

proof fn lemma_digit_run_value(s: Seq<char>, i: int, j: int)
    requires
        0 <= i <= j <= s.len(),
        forall|k: int| i <= k < j ==> is_digit(s[k]),
        j == s.len() || !is_digit(s[j]),
    ensures
        digit_run(s, i) == j - i,
    decreases j - i,
{
    if i < j {
        lemma_digit_run_value(s, i + 1, j);
    }
}

/// A reference of the form `(#<digits>)` followed by a line break
/// stands in `s` at position `i`.
pub open spec fn pr_ref_at(s: Seq<char>, i: int) -> bool {
    let d = digit_run(s, i + 2);
    &&& 0 <= i
    &&& i + 2 <= s.len()
    &&& s[i] == '('
    &&& s[i + 1] == '#'
    &&& d >= 1
    &&& i + 2 + d + 2 <= s.len()
    &&& s[i + 2 + d] == ')'
    &&& s[i + 3 + d] == '\n'
}

/// How many characters the reference at `i` spans, line break included.
pub open spec fn pr_ref_len(s: Seq<char>, i: int) -> int {
    digit_run(s, i + 2) + 4
}

/// `s` from position `i` on, with every `(#<digits>)` reference that
/// ends a line replaced by the bare line break.
pub open spec fn strip_refs_from(s: Seq<char>, i: int) -> Seq<char>
    decreases s.len() - i when 0 <= i <= s.len()
{
    if i >= s.len() {
        Seq::<char>::empty()
    } else if pr_ref_at(s, i) {
        seq!['\n'] + strip_refs_from(s, i + pr_ref_len(s, i))
    } else {
        seq![s[i]] + strip_refs_from(s, i + 1)
    }
}

/// `s` with every line-ending `(#<digits>)` reference stripped.
pub open spec fn strip_refs_spec(s: Seq<char>) -> Seq<char> {
    strip_refs_from(s, 0)
}

/// Strips every squash-merge reference of the form `(#<digits>)` that
/// stands at the end of a line, keeping the line break.
pub fn strip_pr_refs(s: &str) -> (r: String)
    ensures
        r@ == strip_refs_spec(s@),
{
    let n: usize = s.unicode_len();
    let mut out = String::new();
    let mut i: usize = 0;
    while i < n
        invariant
            0 <= i <= n,
            n == s@.len(),
            strip_refs_spec(s@) == out@ + strip_refs_from(s@, i as int),
        decreases n - i,
    {
        let mut matched = false;
        let mut skip: usize = 1;
        if s.get_char(i) == '(' && i + 1 < n && s.get_char(i + 1) == '#' {
            let mut j: usize = i + 2;
            while j < n && is_digit_char(s.get_char(j))
                invariant
                    i + 2 <= j <= n,
                    n == s@.len(),
                    forall|k: int| i + 2 <= k < j ==> is_digit(s@[k]),
                decreases n - j,
            {
                j = j + 1;
            }
            proof {
                lemma_digit_run_value(s@, i + 2, j as int);
            }
            if j > i + 2 && j < n && j + 1 < n && s.get_char(j) == ')' && s.get_char(j + 1)
                == '\n' {
                matched = true;
                skip = j + 2 - i;
                proof {
                    assert(pr_ref_at(s@, i as int));
                    assert(pr_ref_len(s@, i as int) == skip);
                }
            } else {
                proof {
                    assert(!pr_ref_at(s@, i as int));
                }
            }
        } else {
            proof {
                assert(!pr_ref_at(s@, i as int));
            }
        }
        if matched {
            out.append("\n");
            proof {
                reveal_strlit("\n");
                assert("\n"@ =~= seq!['\n']);
                assert(strip_refs_from(s@, i as int) == seq!['\n'] + strip_refs_from(
                    s@,
                    i + skip,
                ));
            }
        } else {
            let piece = s.substring_char(i, i + 1);
            out.append(piece);
            proof {
                assert(s@.subrange(i as int, i + 1) =~= seq![s@[i as int]]);
                assert(strip_refs_from(s@, i as int) == seq![s@[i as int]] + strip_refs_from(
                    s@,
                    i + 1,
                ));
            }
        }
        i = i + skip;
    }
    proof {
        assert(strip_refs_from(s@, n as int) =~= Seq::<char>::empty());
        assert(strip_refs_spec(s@) =~= out@);
    }
    out
}

/// The dash-prefixed, line-joined rendering of a list of texts: each
/// item prefixed with a dash and a space, items joined by line breaks.
pub open spec fn join_dashed_spec(items: Seq<Seq<char>>) -> Seq<char>
    decreases items.len(),
{
    if items.len() == 0 {
        Seq::<char>::empty()
    } else if items.len() == 1 {
        "- "@ + items[0]
    } else {
        join_dashed_spec(items.drop_last()) + "\n"@ + "- "@ + items.last()
    }
}

/// Renders a list of texts one per line, each behind a dash.
pub fn join_dashed(items: &Vec<String>) -> (r: String)
    ensures
        r@ == join_dashed_spec(items.deep_view()),
{
    let mut out = String::new();
    let mut i: usize = 0;
    while i < items.len()
        invariant
            0 <= i <= items@.len(),
            out@ == join_dashed_spec(items.deep_view().subrange(0, i as int)),
        decreases items@.len() - i,
    {
        if i > 0 {
            out.append("\n");
        }
        out.append("- ");
        out.append(items[i].as_str());
        proof {
            let dv = items.deep_view();
            let pre = dv.subrange(0, i as int);
            let cur = dv.subrange(0, i + 1);
            assert(cur.drop_last() =~= pre);
            assert(cur.last() == dv[i as int]);
            assert(dv[i as int] == items@[i as int]@);
            if i == 0 {
                assert(cur.len() == 1);
                assert(cur[0] == dv[0]);
                assert(out@ =~= join_dashed_spec(cur));
            } else {
                assert(out@ =~= join_dashed_spec(cur));
            }
        }
        i = i + 1;
    }
    proof {
        assert(items.deep_view().subrange(0, items.deep_view().len() as int) =~= items.deep_view());
    }
    out
}

/// The length of the line starting at `i`: the characters up to the
/// next line break or the end of the text.
pub open spec fn line_len(s: Seq<char>, i: int) -> int
    decreases s.len() - i when 0 <= i <= s.len()
{
    if i < s.len() && s[i] != '\n' {
        1 + line_len(s, i + 1)
    } else {
        0
    }
}

proof fn lemma_line_len_value(s: Seq<char>, i: int, j: int)
    requires
        0 <= i <= j <= s.len(),
        forall|k: int| i <= k < j ==> s[k] != '\n',
        j == s.len() || s[j] == '\n',
    ensures
        line_len(s, i) == j - i,
    decreases j - i,
{
    if i < j {
        lemma_line_len_value(s, i + 1, j);
    }
}

/// A line as the log reports it, with a trailing carriage return
/// removed.
pub open spec fn strip_cr(l: Seq<char>) -> Seq<char> {
    if l.len() > 0 && l[l.len() - 1] == '\r' {
        l.drop_last()
    } else {
        l
    }
}

/// The lines of `s` from position `i` on: split at line breaks, the
/// break itself dropped, no empty final line after a trailing break.
pub open spec fn lines_from(s: Seq<char>, i: int) -> Seq<Seq<char>>
    decreases s.len() - i when 0 <= i <= s.len()
{
    if i >= s.len() {
        Seq::<Seq<char>>::empty()
    } else {
        let l = line_len(s, i);
        seq![strip_cr(s.subrange(i, i + l))] + (if 0 <= l && i + l + 1 <= s.len() {
            lines_from(s, i + l + 1)
        } else {
            Seq::<Seq<char>>::empty()
        })
    }
}

/// Splits a text into its lines.
pub fn split_lines(s: &str) -> (r: Vec<String>)
    ensures
        r.deep_view() == lines_from(s@, 0),
{
    let n: usize = s.unicode_len();
    let mut out: Vec<String> = Vec::new();
    let mut i: usize = 0;
    proof {
        assert(out.deep_view() =~= Seq::<Seq<char>>::empty());
        assert(lines_from(s@, 0) =~= out.deep_view() + lines_from(s@, 0));
    }
    while i < n
        invariant
            0 <= i <= n,
            n == s@.len(),
            lines_from(s@, 0) == out.deep_view() + lines_from(s@, i as int),
        decreases n - i,
    {
        let mut j: usize = i;
        while j < n && s.get_char(j) != '\n'
            invariant
                i <= j <= n,
                n == s@.len(),
                forall|k: int| i <= k < j ==> s@[k] != '\n',
            decreases n - j,
        {
            j = j + 1;
        }
        proof {
            lemma_line_len_value(s@, i as int, j as int);
        }
        let end: usize = if j > i && s.get_char(j - 1) == '\r' {
            j - 1
        } else {
            j
        };
        let line = String::from_str(s.substring_char(i, end));
        let ghost before = out.deep_view();
        out.push(line);
        proof {
            let l = line_len(s@, i as int);
            assert(l == j - i);
            if end == j {
                assert(strip_cr(s@.subrange(i as int, i + l)) =~= s@.subrange(
                    i as int,
                    end as int,
                ));
            } else {
                assert(s@.subrange(i as int, i + l).drop_last() =~= s@.subrange(
                    i as int,
                    end as int,
                ));
            }
            assert(line@ == strip_cr(s@.subrange(i as int, i + l)));
            assert(out.deep_view() =~= before.push(line@));
            if i + l + 1 <= n {
                assert(lines_from(s@, i as int) == seq![line@] + lines_from(s@, i + l + 1));
                assert(before + lines_from(s@, i as int) =~= before.push(line@) + lines_from(
                    s@,
                    i + l + 1,
                ));
            } else {
                assert(lines_from(s@, i as int) == seq![line@] + Seq::<Seq<char>>::empty());
                assert(before + lines_from(s@, i as int) =~= before.push(line@));
                assert(lines_from(s@, n as int) =~= Seq::<Seq<char>>::empty());
                assert(before.push(line@) + lines_from(s@, n as int) =~= before.push(line@));
            }
        }
        i = if j < n {
            j + 1
        } else {
            n
        };
    }
    proof {
        assert(lines_from(s@, n as int) =~= Seq::<Seq<char>>::empty());
        assert(out.deep_view() =~= out.deep_view() + lines_from(s@, n as int));
    }
    out
}

/// The line opens a merge commit's subject.
pub open spec fn starts_with_merge(l: Seq<char>) -> bool {
    l.len() >= 5 && l.subrange(0, 5) == "Merge"@
}

/// Decides whether a line opens a merge commit's subject.
pub fn line_is_merge(l: &str) -> (r: bool)
    ensures
        r == starts_with_merge(l@),
{
    let n: usize = l.unicode_len();
    if n < 5 {
        return false;
    }
    let r = l.get_char(0) == 'M' && l.get_char(1) == 'e' && l.get_char(2) == 'r' && l.get_char(3)
        == 'g' && l.get_char(4) == 'e';
    proof {
        reveal_strlit("Merge");
        let sub = l@.subrange(0, 5);
        assert(sub[0] == l@[0] && sub[1] == l@[1] && sub[2] == l@[2] && sub[3] == l@[3] && sub[4]
            == l@[4]);
        if r {
            assert(sub =~= "Merge"@);
        } else {
            assert(sub != "Merge"@);
        }
    }
    r
}

/// The lines kept as style examples: every line that does not open a
/// merge commit, in order.
pub open spec fn kept_lines(lines: Seq<Seq<char>>) -> Seq<Seq<char>>
    decreases lines.len(),
{
    if lines.len() == 0 {
        Seq::<Seq<char>>::empty()
    } else {
        (if starts_with_merge(lines[0]) {
            Seq::<Seq<char>>::empty()
        } else {
            seq![lines[0]]
        }) + kept_lines(lines.drop_first())
    }
}

proof fn lemma_kept_lines_push(t: Seq<Seq<char>>, x: Seq<char>)
    ensures
        kept_lines(t.push(x)) == kept_lines(t) + (if starts_with_merge(x) {
            Seq::<Seq<char>>::empty()
        } else {
            seq![x]
        }),
    decreases t.len(),
{
    let tail = if starts_with_merge(x) {
        Seq::<Seq<char>>::empty()
    } else {
        seq![x]
    };
    if t.len() == 0 {
        assert(t.push(x)[0] == x);
        assert(t.push(x).drop_first() =~= Seq::<Seq<char>>::empty());
        assert(kept_lines(Seq::<Seq<char>>::empty()) =~= Seq::<Seq<char>>::empty());
        assert(kept_lines(t.push(x)) =~= tail);
        assert(kept_lines(t) + tail =~= tail);
    } else {
        assert(t.push(x)[0] == t[0]);
        assert(t.push(x).drop_first() =~= t.drop_first().push(x));
        lemma_kept_lines_push(t.drop_first(), x);
        let head = if starts_with_merge(t[0]) {
            Seq::<Seq<char>>::empty()
        } else {
            seq![t[0]]
        };
        assert(kept_lines(t.push(x)) == head + kept_lines(t.drop_first().push(x)));
        assert(head + (kept_lines(t.drop_first()) + tail) =~= (head + kept_lines(t.drop_first()))
            + tail);
    }
}

/// Keeps every line that does not open a merge commit, in order.
pub fn filter_merge_lines(lines: &Vec<String>) -> (r: Vec<String>)
    ensures
        r.deep_view() == kept_lines(lines.deep_view()),
{
    let mut out: Vec<String> = Vec::new();
    let mut i: usize = 0;
    proof {
        assert(lines.deep_view().subrange(0, 0) =~= Seq::<Seq<char>>::empty());
        assert(out.deep_view() =~= kept_lines(Seq::<Seq<char>>::empty()));
    }
    while i < lines.len()
        invariant
            0 <= i <= lines@.len(),
            out.deep_view() == kept_lines(lines.deep_view().subrange(0, i as int)),
        decreases lines@.len() - i,
    {
        let ghost dv = lines.deep_view();
        let ghost before = out.deep_view();
        let keep = !line_is_merge(lines[i].as_str());
        if keep {
            out.push(lines[i].clone());
        }
        proof {
            assert(dv.subrange(0, i + 1) =~= dv.subrange(0, i as int).push(dv[i as int]));
            lemma_kept_lines_push(dv.subrange(0, i as int), dv[i as int]);
            assert(dv[i as int] == lines@[i as int]@);
            if keep {
                assert(out.deep_view() =~= before.push(lines@[i as int]@));
                assert(before + seq![dv[i as int]] =~= before.push(lines@[i as int]@));
            } else {
                assert(before + Seq::<Seq<char>>::empty() =~= before);
            }
        }
        i = i + 1;
    }
    proof {
        assert(lines.deep_view().subrange(0, lines.deep_view().len() as int)
            =~= lines.deep_view());
    }
    out
}

/// How the raw log text becomes the style-example block: split into
/// lines, merge subjects dropped, each kept line dash-prefixed and the
/// lines joined, then line-ending `(#<digits>)` references stripped.
pub open spec fn style_examples_spec(log: Seq<char>) -> Seq<char> {
    strip_refs_spec(join_dashed_spec(kept_lines(lines_from(log, 0))))
}

/// Prepares the historical subject lines as the style-example block.
pub fn prepare_style_examples(log: &str) -> (r: String)
    ensures
        r@ == style_examples_spec(log@),
{
    let lines = split_lines(log);
    let kept = filter_merge_lines(&lines);
    let joined = join_dashed(&kept);
    strip_pr_refs(joined.as_str())
}

} // verus!
