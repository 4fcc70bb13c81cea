//! Output judger: decides whether a program's captured stdout matches the
//! expected answer under a chosen matching rule.
//!
//! Three rules are supported: byte-for-byte equality, equality up to
//! trailing spaces on each line and trailing newlines, and equality of the
//! whitespace-separated words.

use vstd::prelude::*;

verus! {

/// The matching rule of a judge request, as carried on the wire.
#[derive(Clone, Copy, PartialEq, Eq, Structural, Debug)]
pub enum JudgeMatchRule {
    /// Byte-for-byte equality.
    ExactSame,
    /// Trailing spaces of every line and trailing newlines are ignored.
    IgnoreSnl,
    /// Whitespace runs are collapsed; only the words matter.
    SkipSnl,
}

/// What each wire value stands for; values outside the enum decode to
/// nothing.
pub open spec fn spec_match_rule(value: i32) -> Option<JudgeMatchRule> {
    if value == 0 {
        Some(JudgeMatchRule::ExactSame)
    } else if value == 1 {
        Some(JudgeMatchRule::IgnoreSnl)
    } else if value == 2 {
        Some(JudgeMatchRule::SkipSnl)
    } else {
        None
    }
}

/// Decode the wire encoding of a matching rule.
pub fn match_rule_from_i32(value: i32) -> (r: Option<JudgeMatchRule>)
    ensures
        r == spec_match_rule(value),
{
    if value == 0 {
        Some(JudgeMatchRule::ExactSame)
    } else if value == 1 {
        Some(JudgeMatchRule::IgnoreSnl)
    } else if value == 2 {
        Some(JudgeMatchRule::SkipSnl)
    } else {
        None
    }
}

pub open spec fn is_ws(b: u8) -> bool {
    b == 32 || b == 9 || b == 10 || b == 13
}

fn is_ws_byte(b: u8) -> (r: bool)
    ensures
        r == is_ws(b),
{
    b == 32 || b == 9 || b == 10 || b == 13
}

/// The deep view of a vector of byte vectors reads each element through its
/// own view.
proof fn lemma_deep_view_elem(v: &Vec<Vec<u8>>, i: int)
    requires
        0 <= i < v@.len(),
    ensures
        v.deep_view()[i] == v@[i]@,
{
    assert(v.deep_view()[i] =~= v@[i]@);
}

/// The whitespace-separated words of `s`, in order.
pub open spec fn tokens(s: Seq<u8>) -> Seq<Seq<u8>>
    decreases s.len(),
{
    if s.len() == 0 {
        Seq::empty()
    } else {
        let t = tokens(s.drop_last());
        let c = s.last();
        if is_ws(c) {
            t
        } else if s.len() >= 2 && !is_ws(s[s.len() - 2]) {
            t.update(t.len() - 1, t.last().push(c))
        } else {
            t.push(seq![c])
        }
    }
}

/// A byte string ending in a non-whitespace byte has at least one word.
proof fn lemma_tokens_nonempty(s: Seq<u8>)
    requires
        s.len() > 0,
        !is_ws(s.last()),
    ensures
        tokens(s).len() > 0,
    decreases s.len(),
{
    if s.len() >= 2 && !is_ws(s[s.len() - 2]) {
        lemma_tokens_nonempty(s.drop_last());
    }
}

/// The lines of `s`: what stands between the newlines. A byte string always
/// has at least one (possibly empty) line.
pub open spec fn lines(s: Seq<u8>) -> Seq<Seq<u8>>
    decreases s.len(),
{
    if s.len() == 0 {
        seq![Seq::<u8>::empty()]
    } else {
        let t = lines(s.drop_last());
        let c = s.last();
        if c == 10 {
            t.push(Seq::empty())
        } else {
            t.update(t.len() - 1, t.last().push(c))
        }
    }
}

proof fn lemma_lines_nonempty(s: Seq<u8>)
    ensures
        lines(s).len() > 0,
    decreases s.len(),
{
    if s.len() > 0 {
        lemma_lines_nonempty(s.drop_last());
    }
}

/// `l` without its trailing spaces.
pub open spec fn rtrim_spaces(l: Seq<u8>) -> Seq<u8>
    decreases l.len(),
{
    if l.len() > 0 && l.last() == 32 {
        rtrim_spaces(l.drop_last())
    } else {
        l
    }
}

/// `ls` without its trailing empty elements.
pub open spec fn drop_trailing_empty(ls: Seq<Seq<u8>>) -> Seq<Seq<u8>>
    decreases ls.len(),
{
    if ls.len() > 0 && ls.last().len() == 0 {
        drop_trailing_empty(ls.drop_last())
    } else {
        ls
    }
}

/// The lines of `s`, each without trailing spaces, with the trailing empty
/// lines (the final newlines) removed.
pub open spec fn norm_lines(s: Seq<u8>) -> Seq<Seq<u8>> {
    drop_trailing_empty(lines(s).map_values(|l: Seq<u8>| rtrim_spaces(l)))
}

/// What it means for output `a` to match expected output `b` under `rule`.
pub open spec fn spec_output_matches(a: Seq<u8>, b: Seq<u8>, rule: JudgeMatchRule) -> bool {
    match rule {
        JudgeMatchRule::ExactSame => a == b,
        JudgeMatchRule::IgnoreSnl => norm_lines(a) == norm_lines(b),
        JudgeMatchRule::SkipSnl => tokens(a) == tokens(b),
    }
}

/// Byte-for-byte comparison.
pub fn bytes_eq(a: &Vec<u8>, b: &Vec<u8>) -> (r: bool)
    ensures
        r == (a@ == b@),
{
    if a.len() != b.len() {
        return false;
    }
    let mut i: usize = 0;
    while i < a.len()
        invariant
            a@.len() == b@.len(),
            0 <= i <= a@.len(),
            forall|j: int| 0 <= j < i ==> a@[j] == b@[j],
        decreases a@.len() - i,
    {
        if a[i] != b[i] {
            return false;
        }
        i = i + 1;
    }
    proof {
        assert(a@ =~= b@);
    }
    true
}

fn nested_bytes_eq(a: &Vec<Vec<u8>>, b: &Vec<Vec<u8>>) -> (r: bool)
    ensures
        r == (a.deep_view() == b.deep_view()),
{
    if a.len() != b.len() {
        assert(a.deep_view().len() != b.deep_view().len());
        return false;
    }
    let mut i: usize = 0;
    while i < a.len()
        invariant
            a.deep_view().len() == a@.len(),
            b.deep_view().len() == b@.len(),
            a@.len() == b@.len(),
            0 <= i <= a@.len(),
            forall|j: int| 0 <= j < i ==> a.deep_view()[j] == b.deep_view()[j],
        decreases a@.len() - i,
    {
        if !bytes_eq(&a[i], &b[i]) {
            proof {
                lemma_deep_view_elem(a, i as int);
                lemma_deep_view_elem(b, i as int);
            }
            return false;
        }
        proof {
            lemma_deep_view_elem(a, i as int);
            lemma_deep_view_elem(b, i as int);
        }
        i = i + 1;
    }
    proof {
        assert(a.deep_view() =~= b.deep_view());
    }
    true
}

/// Cut `s` into its whitespace-separated words.
pub fn tokenize(s: &Vec<u8>) -> (r: Vec<Vec<u8>>)
    ensures
        r.deep_view() == tokens(s@),
{
    let mut r: Vec<Vec<u8>> = Vec::new();
    let mut i: usize = 0;
    while i < s.len()
        invariant
            0 <= i <= s@.len(),
            r.deep_view() == tokens(s@.take(i as int)),
        decreases s@.len() - i,
    {
        let c = s[i];
        let ghost pre = s@.take(i as int);
        let ghost cur = s@.take(i + 1);
        proof {
            assert(cur.drop_last() =~= pre);
            assert(cur.last() == s@[i as int]);
        }
        if is_ws_byte(c) {
            proof {
                assert(tokens(cur) == tokens(pre));
            }
        } else if i > 0 && !is_ws_byte(s[i - 1]) {
            proof {
                assert(pre.len() > 0 && pre.last() == s@[i - 1]);
                lemma_tokens_nonempty(pre);
            }
            let ghost t = tokens(pre);
            let ghost n = t.len();
            proof {
                lemma_deep_view_elem(&r, n - 1);
            }
            let mut last = r.pop().unwrap();
            last.push(c);
            r.push(last);
            proof {
                assert(cur.len() >= 2 && cur[cur.len() - 2] == s@[i - 1]);
                assert forall|j: int| 0 <= j < r@.len() implies r.deep_view()[j] == t.update(
                    n - 1,
                    t.last().push(c),
                )[j] by {
                    lemma_deep_view_elem(&r, j);
                }
                assert(r.deep_view() =~= t.update(n - 1, t.last().push(c)));
                assert(tokens(cur) == t.update(n - 1, t.last().push(c)));
            }
        } else {
            let mut word: Vec<u8> = Vec::new();
            word.push(c);
            proof {
                assert(word@ =~= seq![c]);
            }
            r.push(word);
            proof {
                assert forall|j: int| 0 <= j < r@.len() implies r.deep_view()[j] == tokens(
                    pre,
                ).push(seq![c])[j] by {
                    lemma_deep_view_elem(&r, j);
                }
                assert(r.deep_view() =~= tokens(pre).push(seq![c]));
                if cur.len() >= 2 {
                    assert(is_ws(cur[cur.len() - 2]));
                }
                assert(tokens(cur) == tokens(pre).push(seq![c]));
            }
        }
        i = i + 1;
    }
    proof {
        assert(s@.take(s@.len() as int) =~= s@);
    }
    r
}

/// Cut `s` into lines at every newline byte.
fn split_lines(s: &Vec<u8>) -> (r: Vec<Vec<u8>>)
    ensures
        r.deep_view() == lines(s@),
{
    let mut r: Vec<Vec<u8>> = Vec::new();
    r.push(Vec::new());
    proof {
        assert(s@.take(0) =~= Seq::<u8>::empty());
        lemma_deep_view_elem(&r, 0);
        assert(r.deep_view() =~= lines(s@.take(0)));
    }
    let mut i: usize = 0;
    while i < s.len()
        invariant
            0 <= i <= s@.len(),
            r.deep_view() == lines(s@.take(i as int)),
            r@.len() > 0,
        decreases s@.len() - i,
    {
        let c = s[i];
        let ghost pre = s@.take(i as int);
        let ghost cur = s@.take(i + 1);
        proof {
            assert(cur.drop_last() =~= pre);
            assert(cur.last() == s@[i as int]);
            lemma_lines_nonempty(pre);
        }
        if c == 10 {
            r.push(Vec::new());
            proof {
                assert forall|j: int| 0 <= j < r@.len() implies r.deep_view()[j] == lines(
                    pre,
                ).push(Seq::<u8>::empty())[j] by {
                    lemma_deep_view_elem(&r, j);
                }
                assert(r.deep_view() =~= lines(pre).push(Seq::<u8>::empty()));
            }
        } else {
            let ghost t = lines(pre);
            let ghost n = t.len();
            proof {
                lemma_deep_view_elem(&r, n - 1);
            }
            let mut last = r.pop().unwrap();
            last.push(c);
            r.push(last);
            proof {
                assert forall|j: int| 0 <= j < r@.len() implies r.deep_view()[j] == t.update(
                    n - 1,
                    t.last().push(c),
                )[j] by {
                    lemma_deep_view_elem(&r, j);
                }
                assert(r.deep_view() =~= t.update(n - 1, t.last().push(c)));
            }
        }
        i = i + 1;
    }
    proof {
        assert(s@.take(s@.len() as int) =~= s@);
    }
    r
}

/// Drop the trailing spaces of one line.
fn rtrim_line(l: &Vec<u8>) -> (r: Vec<u8>)
    ensures
        r@ == rtrim_spaces(l@),
{
    let mut n: usize = l.len();
    proof {
        assert(l@.take(l@.len() as int) =~= l@);
    }
    while n > 0 && l[n - 1] == 32
        invariant
            0 <= n <= l@.len(),
            rtrim_spaces(l@) == rtrim_spaces(l@.take(n as int)),
        decreases n,
    {
        proof {
            assert(l@.take(n as int).drop_last() =~= l@.take(n - 1));
            assert(l@.take(n as int).last() == l@[n - 1]);
        }
        n = n - 1;
    }
    let mut r: Vec<u8> = Vec::new();
    let mut j: usize = 0;
    while j < n
        invariant
            0 <= j <= n <= l@.len(),
            r@ == l@.take(n as int).take(j as int),
        decreases n - j,
    {
        r.push(l[j]);
        proof {
            assert(l@.take(n as int).take(j + 1) =~= l@.take(n as int).take(j as int).push(l@[j as int]));
        }
        j = j + 1;
    }
    proof {
        assert(l@.take(n as int).take(n as int) =~= l@.take(n as int));
        if n > 0 {
            assert(!(l@.take(n as int).last() == 32));
        }
        assert(rtrim_spaces(l@.take(n as int)) == l@.take(n as int));
    }
    r
}

/// The normalised lines of `s`: rtrimmed, with trailing empty lines removed.
fn normalise_lines(s: &Vec<u8>) -> (r: Vec<Vec<u8>>)
    ensures
        r.deep_view() == norm_lines(s@),
{
    let raw = split_lines(s);
    let mut trimmed: Vec<Vec<u8>> = Vec::new();
    let mut i: usize = 0;
    while i < raw.len()
        invariant
            0 <= i <= raw@.len(),
            raw.deep_view() == lines(s@),
            raw.deep_view().len() == raw@.len(),
            trimmed.deep_view() == lines(s@).take(i as int).map_values(
                |l: Seq<u8>| rtrim_spaces(l),
            ),
        decreases raw@.len() - i,
    {
        proof {
            lemma_deep_view_elem(&raw, i as int);
        }
        let ghost old_trimmed = trimmed@;
        let ghost old_deep = trimmed.deep_view();
        let t = rtrim_line(&raw[i]);
        trimmed.push(t);
        proof {
            assert(lines(s@).len() == raw@.len());
            assert(old_deep.len() == old_trimmed.len());
            assert(i <= lines(s@).len());
            assert(lines(s@).take(i as int).len() == i);
            assert(old_deep.len() == i);
            assert(trimmed@.len() == i + 1);
            assert forall|j: int| 0 <= j < trimmed@.len() implies trimmed.deep_view()[j]
                == lines(s@).take(i + 1).map_values(|l: Seq<u8>| rtrim_spaces(l))[j] by {
                lemma_deep_view_elem(&trimmed, j);
                assert(lines(s@).take(i + 1)[j] == lines(s@)[j]);
                assert(lines(s@).take(i + 1).map_values(|l: Seq<u8>| rtrim_spaces(l))[j]
                    == rtrim_spaces(lines(s@)[j]));
                if j < i {
                    assert(trimmed@[j] == old_trimmed[j]);
                    assert(old_deep[j] == lines(s@).take(i as int).map_values(
                        |l: Seq<u8>| rtrim_spaces(l),
                    )[j]);
                    assert(trimmed.deep_view()[j] == rtrim_spaces(lines(s@)[j]));
                }
            }
            assert(trimmed.deep_view() =~= lines(s@).take(i + 1).map_values(
                |l: Seq<u8>| rtrim_spaces(l),
            ));
        }
        i = i + 1;
    }
    proof {
        assert(lines(s@).take(lines(s@).len() as int) =~= lines(s@));
    }
    let ghost mapped = lines(s@).map_values(|l: Seq<u8>| rtrim_spaces(l));
    while trimmed.len() > 0 && trimmed[trimmed.len() - 1].len() == 0
        invariant
            drop_trailing_empty(mapped) == drop_trailing_empty(trimmed.deep_view()),
        decreases trimmed@.len(),
    {
        let ghost before = trimmed.deep_view();
        proof {
            lemma_deep_view_elem(&trimmed, trimmed@.len() - 1);
            assert(before.last().len() == 0);
        }
        trimmed.pop();
        proof {
            assert forall|j: int| 0 <= j < trimmed@.len() implies trimmed.deep_view()[j]
                == before.drop_last()[j] by {
            }
            assert(trimmed.deep_view() =~= before.drop_last());
            assert(drop_trailing_empty(before) == drop_trailing_empty(before.drop_last()));
        }
    }
    proof {
        if trimmed@.len() > 0 {
            lemma_deep_view_elem(&trimmed, trimmed@.len() - 1);
        }
        assert(drop_trailing_empty(trimmed.deep_view()) == trimmed.deep_view());
    }
    trimmed
}

/// Does `actual` match `expected` under `rule`?
pub fn output_matches(actual: &Vec<u8>, expected: &Vec<u8>, rule: JudgeMatchRule) -> (r: bool)
    ensures
        r == spec_output_matches(actual@, expected@, rule),
{
    match rule {
        JudgeMatchRule::ExactSame => bytes_eq(actual, expected),
        JudgeMatchRule::IgnoreSnl => {
            let a = normalise_lines(actual);
            let b = normalise_lines(expected);
            nested_bytes_eq(&a, &b)
        },
        JudgeMatchRule::SkipSnl => {
            let a = tokenize(actual);
            let b = tokenize(expected);
            nested_bytes_eq(&a, &b)
        },
    }
}

} // verus!
