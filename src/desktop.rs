//! The display name of the application's desktop entry: words split at
//! whitespace, each capitalised, joined by single spaces.
use vstd::prelude::*;
use vstd::slice::slice_subrange;
use crate::text::{chars_of, string_of};

verus! {

/// Unicode's `White_Space` property, which `char::is_whitespace` tests.
pub open spec fn is_space(c: char) -> bool {
    ||| '\u{9}' <= c <= '\u{d}'
    ||| c == ' '
    ||| c == '\u{85}'
    ||| c == '\u{a0}'
    ||| c == '\u{1680}'
    ||| '\u{2000}' <= c <= '\u{200a}'
    ||| c == '\u{2028}'
    ||| c == '\u{2029}'
    ||| c == '\u{202f}'
    ||| c == '\u{205f}'
    ||| c == '\u{3000}'
}

/// The maximal runs of non-whitespace characters of `s`, in order.
pub open spec fn words_of(s: Seq<char>) -> Seq<Seq<char>>
    decreases s.len(),
{
    if s.len() == 0 {
        Seq::empty()
    } else {
        let w = words_of(s.drop_last());
        if is_space(s.last()) {
            w
        } else if s.len() >= 2 && !is_space(s[s.len() - 2]) {
            w.update(w.len() - 1, w.last().push(s.last()))
        } else {
            w.push(seq![s.last()])
        }
    }
}

/// `ws` joined by single spaces.
pub open spec fn join_spaced(ws: Seq<Seq<char>>) -> Seq<char>
    decreases ws.len(),
{
    if ws.len() == 0 {
        Seq::empty()
    } else if ws.len() == 1 {
        ws[0]
    } else {
        join_spaced(ws.drop_last()) + seq![' '] + ws.last()
    }
}

/// What `char::to_uppercase` yields for `c`.
pub uninterp spec fn upper_of(c: char) -> Seq<char>;

/// What `str::to_lowercase` gives for `s`.
pub uninterp spec fn lower_of(s: Seq<char>) -> Seq<char>;

/// A word with its first character upper-cased and the rest lower-cased.
pub open spec fn capitalised(w: Seq<char>) -> Seq<char> {
    upper_of(w[0]) + lower_of(w.drop_first())
}

/// The title-cased form of `s`.
pub open spec fn title_of(s: Seq<char>) -> Seq<char> {
    join_spaced(words_of(s).map_values(|w: Seq<char>| capitalised(w)))
}

/// Relies on `char::to_uppercase`: the characters it yields for `c`.
#[verifier::external_body]
fn upper_char(c: char) -> (r: String)
    ensures
        r@ == upper_of(c),
{
    c.to_uppercase().collect()
}

/// Relies on `str::to_lowercase`: the lower-case form of `s`.
#[verifier::external_body]
fn lowercase(s: &str) -> (r: String)
    ensures
        r@ == lower_of(s@),
{
    s.to_lowercase()
}

/// Whether `c` is whitespace, as `char::is_whitespace` decides.
pub fn is_space_char(c: char) -> (r: bool)
    ensures
        r == is_space(c),
{
    ('\u{9}' <= c && c <= '\u{d}') || c == ' ' || c == '\u{85}' || c == '\u{a0}' || c
        == '\u{1680}' || ('\u{2000}' <= c && c <= '\u{200a}') || c == '\u{2028}' || c
        == '\u{2029}' || c == '\u{202f}' || c == '\u{205f}' || c == '\u{3000}'
}

/// The words of `s`: its maximal runs of non-whitespace characters.
pub fn split_words(s: &[char]) -> (r: Vec<Vec<char>>)
    ensures
        r.deep_view() == words_of(s@),
        forall|k: int| 0 <= k < r@.len() ==> #[trigger] r@[k]@.len() > 0,
{
    let mut done: Vec<Vec<char>> = Vec::new();
    let mut cur: Vec<char> = Vec::new();
    let mut i: usize = 0;
    proof {
        assert(s@.take(0) =~= Seq::<char>::empty());
    }
    while i < s.len()
        invariant
            i <= s@.len(),
            words_of(s@.take(i as int)) =~= if cur@.len() > 0 {
                done.deep_view().push(cur@)
            } else {
                done.deep_view()
            },
            cur@.len() > 0 <==> (i > 0 && !is_space(s@[i - 1])),
            forall|k: int| 0 <= k < done@.len() ==> #[trigger] done@[k]@.len() > 0,
        decreases s@.len() - i,
    {
        let ghost before = s@.take(i as int);
        proof {
            assert(s@.take(i + 1).drop_last() =~= before);
            assert(s@.take(i + 1).last() == s@[i as int]);
            if i > 0 {
                assert(s@.take(i + 1)[i - 1] == s@[i - 1]);
            }
        }
        let c = s[i];
        if is_space_char(c) {
            if cur.len() > 0 {
                let ghost d = done.deep_view();
                assert(cur.deep_view() =~= cur@);
                let ghost old_cur = cur@;
                done.push(cur);
                cur = Vec::new();
                proof {
                    assert(done.deep_view() =~= d.push(done@[done@.len() - 1]@));
                    assert(done.deep_view() =~= d.push(old_cur));
                    assert(words_of(s@.take(i + 1)) == words_of(before));
                }
            }
        } else {
            let ghost w = words_of(before);
            let ghost old_cur = cur@;
            cur.push(c);
            proof {
                if i > 0 && !is_space(s@[i - 1]) {
                    assert(words_of(s@.take(i + 1)) == w.update(w.len() - 1, w.last().push(c)));
                    assert(w =~= done.deep_view().push(old_cur));
                    assert(w.update(w.len() - 1, w.last().push(c)) =~= done.deep_view().push(cur@));
                } else {
                    assert(words_of(s@.take(i + 1)) == w.push(seq![c]));
                    assert(cur@ =~= seq![c]);
                }
            }
        }
        i += 1;
    }
    proof {
        assert(s@.take(s@.len() as int) =~= s@);
    }
    if cur.len() > 0 {
        let ghost d = done.deep_view();
        assert(cur.deep_view() =~= cur@);
        done.push(cur);
        proof {
            assert(done.deep_view() =~= d.push(done@[done@.len() - 1]@));
        }
    }
    done
}

/// `words` joined by single spaces.
pub fn join_words(words: &[Vec<char>]) -> (r: Vec<char>)
    ensures
        r@ == join_spaced(words.deep_view()),
{
    let mut out: Vec<char> = Vec::new();
    let mut i: usize = 0;
    while i < words.len()
        invariant
            i <= words@.len(),
            out@ == join_spaced(words.deep_view().take(i as int)),
        decreases words@.len() - i,
    {
        let ghost dv = words.deep_view();
        proof {
            assert(dv.take(i + 1).drop_last() =~= dv.take(i as int));
            assert(dv.take(i + 1).last() == words@[i as int]@);
            if i == 0 {
                assert(dv.take(1)[0] == words@[0]@);
            }
        }
        let ghost start = out@;
        if i > 0 {
            out.push(' ');
        }
        let w = &words[i];
        let mut j: usize = 0;
        let ghost mid = out@;
        while j < w.len()
            invariant
                j <= w@.len(),
                out@ == mid + w@.take(j as int),
            decreases w@.len() - j,
        {
            out.push(w[j]);
            proof {
                assert(w@.take(j + 1) =~= w@.take(j as int).push(w@[j as int]));
            }
            j += 1;
        }
        proof {
            assert(w@.take(j as int) =~= w@);
            if i == 0 {
                assert(out@ =~= w@);
            } else {
                assert(out@ =~= start + seq![' '] + w@);
            }
        }
        i += 1;
    }
    proof {
        assert(words.deep_view().take(words@.len() as int) =~= words.deep_view());
    }
    out
}

/// A non-empty word with its first character upper-cased and the rest
/// lower-cased.
fn capitalise(w: &Vec<char>) -> (r: Vec<char>)
    requires
        w@.len() > 0,
    ensures
        r@ == capitalised(w@),
{
    let up = upper_char(w[0]);
    let rest = string_of(slice_subrange(w.as_slice(), 1, w.len()));
    assert(rest@ =~= w@.drop_first());
    let low = lowercase(rest.as_str());
    let mut out = chars_of(up.as_str());
    let mut tail = chars_of(low.as_str());
    out.append(&mut tail);
    out
}

/// Each word capitalised and the words joined by single spaces, whitespace
/// runs collapsed and trimmed.
pub fn title_case(input: &str) -> (r: String)
    ensures
        r@ == title_of(input@),
{
    let text = chars_of(input);
    let words = split_words(text.as_slice());
    let ghost ws = words.deep_view();
    let mut caps: Vec<Vec<char>> = Vec::new();
    let mut i: usize = 0;
    while i < words.len()
        invariant
            ws == words.deep_view(),
            i <= words@.len(),
            forall|k: int| 0 <= k < words@.len() ==> #[trigger] words@[k]@.len() > 0,
            caps.deep_view() =~= ws.take(i as int).map_values(|w: Seq<char>| capitalised(w)),
        decreases words@.len() - i,
    {
        let c = capitalise(&words[i]);
        let ghost before = caps.deep_view();
        assert(c.deep_view() =~= c@);
        caps.push(c);
        proof {
            assert(ws[i as int] == words@[i as int]@);
            assert(ws.take(i + 1).map_values(|w: Seq<char>| capitalised(w)) =~= ws.take(
                i as int,
            ).map_values(|w: Seq<char>| capitalised(w)).push(capitalised(ws[i as int])));
            assert(caps.deep_view() =~= before.push(c@));
        }
        i += 1;
    }
    proof {
        assert(ws.take(words@.len() as int) =~= ws);
    }
    let joined = join_words(caps.as_slice());
    string_of(joined.as_slice())
}

/// The display name of an application: its package name with `_`, `.` and
/// `-` read as spaces, title-cased.
pub fn display_name(name: &str) -> (r: String)
    ensures
        r@ == title_of(name@.map_values(|c: char| if c == '_' || c == '.' || c == '-' {
            ' '
        } else {
            c
        })),
{
    let cs = chars_of(name);
    let mut out: Vec<char> = Vec::new();
    let mut i: usize = 0;
    while i < cs.len()
        invariant
            i <= cs@.len(),
            out@ =~= cs@.take(i as int).map_values(|c: char| if c == '_' || c == '.' || c == '-' {
                ' '
            } else {
                c
            }),
        decreases cs@.len() - i,
    {
        let c = cs[i];
        if c == '_' || c == '.' || c == '-' {
            out.push(' ');
        } else {
            out.push(c);
        }
        proof {
            assert(cs@.take(i + 1) =~= cs@.take(i as int).push(c));
        }
        i += 1;
    }
    proof {
        assert(cs@.take(cs@.len() as int) =~= cs@);
    }
    let spaced = string_of(out.as_slice());
    title_case(spaced.as_str())
}

} // verus!
