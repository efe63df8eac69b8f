//! Character-level text handling: substring search, splitting into lines and
//! joining lines back, with the spec functions that give them meaning.
use vstd::prelude::*;

verus! {

/// `t` occurs in `s` as a contiguous run of characters.
pub open spec fn contains(s: Seq<char>, t: Seq<char>) -> bool {
    exists|i: int| 0 <= i <= s.len() - t.len() && #[trigger] s.subrange(i, i + t.len()) == t
}

/// `s` ends with `t`.
pub open spec fn ends_with(s: Seq<char>, t: Seq<char>) -> bool {
    t.len() <= s.len() && s.subrange(s.len() - t.len(), s.len() as int) == t
}

/// The pieces of `s` between `'\n'` characters; always at least one piece.
pub open spec fn pieces(s: Seq<char>) -> Seq<Seq<char>> {
    split_on(s, '\n')
}

/// The pieces of `s` between occurrences of `sep`; always at least one piece.
pub open spec fn split_on(s: Seq<char>, sep: char) -> Seq<Seq<char>>
    decreases s.len(),
{
    if s.len() == 0 {
        seq![Seq::empty()]
    } else {
        let p = split_on(s.drop_last(), sep);
        if s.last() == sep {
            p.push(Seq::empty())
        } else {
            p.update(p.len() - 1, p.last().push(s.last()))
        }
    }
}

/// A line that was ended by `"\r\n"` loses its `'\r'`.
pub open spec fn strip_cr(l: Seq<char>) -> Seq<char> {
    if l.len() > 0 && l.last() == '\r' {
        l.drop_last()
    } else {
        l
    }
}

/// The lines of `s`: the pieces ended by a newline, without the line ending,
/// followed by the unterminated rest when it is not empty.
pub open spec fn lines_of(s: Seq<char>) -> Seq<Seq<char>> {
    let p = pieces(s);
    if p.last().len() == 0 {
        ended_lines(s)
    } else {
        ended_lines(s).push(p.last())
    }
}

/// The pieces of `s` that a newline ends, each without its line ending.
pub open spec fn ended_lines(s: Seq<char>) -> Seq<Seq<char>> {
    pieces(s).drop_last().map_values(|l: Seq<char>| strip_cr(l))
}

/// Each line followed by `'\n'`.
pub open spec fn unlines(ls: Seq<Seq<char>>) -> Seq<char>
    decreases ls.len(),
{
    if ls.len() == 0 {
        Seq::empty()
    } else {
        unlines(ls.drop_last()) + ls.last().push('\n')
    }
}

pub proof fn lemma_pieces_nonempty(s: Seq<char>, sep: char)
    ensures
        split_on(s, sep).len() >= 1,
    decreases s.len(),
{
    if s.len() > 0 {
        lemma_pieces_nonempty(s.drop_last(), sep);
    }
}

/// Every line of `ls` occurs in the joined text.
pub proof fn lemma_unlines_contains(ls: Seq<Seq<char>>, k: int)
    requires
        0 <= k < ls.len(),
    ensures
        contains(unlines(ls), ls[k]),
    decreases ls.len(),
{
    let n = ls.len() - 1;
    let pre = unlines(ls.drop_last());
    let whole = unlines(ls);
    assert(whole == pre + ls.last().push('\n'));
    if k == n {
        let i = pre.len() as int;
        assert(whole.subrange(i, i + ls[k].len()) =~= ls[k]);
    } else {
        lemma_unlines_contains(ls.drop_last(), k);
        let t = ls[k];
        assert(ls.drop_last()[k] == t);
        let i = choose|i: int| 0 <= i <= pre.len() - t.len() && #[trigger] pre.subrange(i, i + t.len()) == t;
        assert(whole.subrange(i, i + t.len()) =~= pre.subrange(i, i + t.len()));
    }
}

/// Relies on `str::chars`: the characters of `s`, in order.
#[verifier::external_body]
pub(crate) fn chars_of(s: &str) -> (r: Vec<char>)
    ensures
        r@ == s@,
{
    s.chars().collect()
}

/// Relies on `FromIterator<char>` for `String`: the string of the characters of `v`.
#[verifier::external_body]
pub(crate) fn string_of(v: &[char]) -> (r: String)
    ensures
        r@ == v@,
{
    v.iter().collect()
}

/// Whether `t` occurs in `s`.
pub fn contains_chars(s: &[char], t: &[char]) -> (r: bool)
    ensures
        r == contains(s@, t@),
{
    if t.len() == 0 {
        assert(s@.subrange(0, 0 + t@.len() as int) =~= t@);
        return true;
    }
    if t.len() > s.len() {
        return false;
    }
    let last: usize = s.len() - t.len();
    let mut i: usize = 0;
    while i <= last
        invariant
            last == s.len() - t.len(),
            t.len() <= s.len(),
            1 <= t.len(),
            i <= last + 1,
            forall|k: int| 0 <= k < i ==> #[trigger] s@.subrange(k, k + t@.len()) != t@,
        decreases last + 1 - i,
    {
        let mut j: usize = 0;
        let mut same = true;
        while j < t.len()
            invariant
                i <= last,
                last == s.len() - t.len(),
                t.len() <= s.len(),
                j <= t@.len(),
                same <==> forall|m: int| 0 <= m < j ==> s@[i + m] == t@[m],
            decreases t@.len() - j,
        {
            if s[i + j] != t[j] {
                same = false;
            }
            j += 1;
        }
        if same {
            assert(s@.subrange(i as int, i + t@.len()) =~= t@);
            return true;
        }
        assert(s@.subrange(i as int, i + t@.len())[0] == s@[i as int]);
        assert(s@.subrange(i as int, i + t@.len()) != t@) by {
            let m = choose|m: int| 0 <= m < t@.len() && s@[i + m] != t@[m];
            assert(s@.subrange(i as int, i + t@.len())[m] == s@[i + m]);
        }
        i += 1;
    }
    false
}

/// Whether `s` ends with `t`.
pub fn ends_with_chars(s: &[char], t: &[char]) -> (r: bool)
    ensures
        r == ends_with(s@, t@),
{
    if t.len() > s.len() {
        return false;
    }
    let off: usize = s.len() - t.len();
    let mut j: usize = 0;
    while j < t.len()
        invariant
            off == s.len() - t.len(),
            t.len() <= s.len(),
            j <= t@.len(),
            forall|m: int| 0 <= m < j ==> s@[off + m] == t@[m],
        decreases t@.len() - j,
    {
        if s[off + j] != t[j] {
            assert(s@.subrange(off as int, s@.len() as int)[j as int] == s@[off + j]);
            return false;
        }
        j += 1;
    }
    assert(s@.subrange(off as int, s@.len() as int) =~= t@);
    true
}

/// Splits `s` into its lines, as `lines_of` describes.
pub fn split_lines(s: &[char]) -> (r: Vec<Vec<char>>)
    ensures
        r.deep_view() == lines_of(s@),
{
    let mut done: Vec<Vec<char>> = Vec::new();
    let mut cur: Vec<char> = Vec::new();
    let mut i: usize = 0;
    proof {
        assert(s@.take(0) =~= Seq::<char>::empty());
    }
    while i < s.len()
        invariant
            i <= s@.len(),
            pieces(s@.take(i as int)).len() >= 1,
            done.deep_view() =~= ended_lines(s@.take(i as int)),
            cur@ == pieces(s@.take(i as int)).last(),
        decreases s@.len() - i,
    {
        let ghost before = s@.take(i as int);
        proof {
            lemma_pieces_nonempty(before, '\n');
            assert(s@.take(i + 1).drop_last() =~= before);
        }
        let c = s[i];
        let ghost p = pieces(before);
        let ghost f = |l: Seq<char>| strip_cr(l);
        if c == '\n' {
            let line = strip_line_end(cur);
            done.push(line);
            cur = Vec::new();
            proof {
                assert(line.deep_view() == line@);
                assert(pieces(s@.take(i + 1)) == p.push(Seq::<char>::empty()));
                assert(p.push(Seq::<char>::empty()).drop_last() =~= p);
                assert(p.map_values(f) =~= p.drop_last().map_values(f).push(f(p.last())));
            }
        } else {
            cur.push(c);
            proof {
                let q = p.update(p.len() - 1, p.last().push(c));
                assert(pieces(s@.take(i + 1)) == q);
                assert(q.drop_last() =~= p.drop_last());
            }
        }
        i += 1;
    }
    proof {
        assert(s@.take(s@.len() as int) =~= s@);
        assert(cur.deep_view() =~= cur@);
        lemma_pieces_nonempty(s@, '\n');
    }
    let ghost ended = done.deep_view();
    if cur.len() > 0 {
        done.push(cur);
        proof {
            assert(done.deep_view() =~= ended.push(cur.deep_view()));
        }
    }
    done
}

/// Splits `s` at every `sep`, as `split_on` describes.
pub fn split_chars(s: &[char], sep: char) -> (r: Vec<Vec<char>>)
    ensures
        r.deep_view() == split_on(s@, sep),
{
    let mut done: Vec<Vec<char>> = Vec::new();
    let mut cur: Vec<char> = Vec::new();
    let mut i: usize = 0;
    proof {
        assert(s@.take(0) =~= Seq::<char>::empty());
    }
    while i < s.len()
        invariant
            i <= s@.len(),
            split_on(s@.take(i as int), sep).len() >= 1,
            done.deep_view() =~= split_on(s@.take(i as int), sep).drop_last(),
            cur@ == split_on(s@.take(i as int), sep).last(),
        decreases s@.len() - i,
    {
        let ghost before = s@.take(i as int);
        proof {
            lemma_pieces_nonempty(before, sep);
            assert(s@.take(i + 1).drop_last() =~= before);
        }
        let c = s[i];
        let ghost p = split_on(before, sep);
        if c == sep {
            let ghost piece = cur@;
            assert(cur.deep_view() =~= cur@);
            done.push(cur);
            cur = Vec::new();
            proof {
                assert(split_on(s@.take(i + 1), sep) == p.push(Seq::<char>::empty()));
                assert(p.push(Seq::<char>::empty()).drop_last() =~= p);
                assert(p =~= p.drop_last().push(piece));
            }
        } else {
            cur.push(c);
            proof {
                let q = p.update(p.len() - 1, p.last().push(c));
                assert(split_on(s@.take(i + 1), sep) == q);
                assert(q.drop_last() =~= p.drop_last());
            }
        }
        i += 1;
    }
    proof {
        assert(s@.take(s@.len() as int) =~= s@);
        lemma_pieces_nonempty(s@, sep);
    }
    let ghost ended = done.deep_view();
    assert(cur.deep_view() =~= cur@);
    done.push(cur);
    proof {
        let p = split_on(s@, sep);
        assert(p =~= p.drop_last().push(p.last()));
        assert(done.deep_view() =~= p);
    }
    done
}

fn strip_line_end(l: Vec<char>) -> (r: Vec<char>)
    ensures
        r@ == strip_cr(l@),
{
    let mut l = l;
    if l.len() > 0 && l[l.len() - 1] == '\r' {
        l.pop();
    }
    l
}

/// Joins `ls`, each line followed by `'\n'`.
pub fn join_lines(ls: &[Vec<char>]) -> (r: Vec<char>)
    ensures
        r@ == unlines(ls.deep_view()),
{
    let mut out: Vec<char> = Vec::new();
    let mut i: usize = 0;
    while i < ls.len()
        invariant
            i <= ls@.len(),
            out@ == unlines(ls.deep_view().take(i as int)),
        decreases ls@.len() - i,
    {
        let line = &ls[i];
        let mut j: usize = 0;
        let ghost start = out@;
        while j < line.len()
            invariant
                j <= line@.len(),
                out@ == start + line@.take(j as int),
            decreases line@.len() - j,
        {
            out.push(line[j]);
            proof {
                assert(line@.take(j + 1) =~= line@.take(j as int).push(line@[j as int]));
            }
            j += 1;
        }
        out.push('\n');
        proof {
            let dv = ls.deep_view();
            assert(dv.take(i + 1).drop_last() =~= dv.take(i as int));
            assert(line@.take(j as int) =~= line@);
            assert(dv[i as int] == line@);
        }
        i += 1;
    }
    proof {
        assert(ls.deep_view().take(ls@.len() as int) =~= ls.deep_view());
    }
    out
}

} // verus!
