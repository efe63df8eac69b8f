//! The PAM service files: which ones are edited, the line that marks the
//! hardware-key check, and how that line is put into a file's text.
use vstd::prelude::*;
use crate::text::{
    chars_of, contains, contains_chars, join_lines, lemma_unlines_contains, lines_of, split_lines,
    string_of, unlines,
};

verus! {

/// The PAM service files that enrollment edits, in the order it edits them.
#[derive(Clone, Copy, Debug, PartialEq, Eq, Structural)]
pub enum PamFile {
    Sudo,
    GdmPassword,
}

impl PamFile {
    /// Where the file lives.
    pub fn path(&self) -> (r: &'static str)
        ensures
            r@ == self.path_spec(),
    {
        match self {
            PamFile::Sudo => "/etc/pam.d/sudo",
            PamFile::GdmPassword => "/etc/pam.d/gdm-password",
        }
    }

    pub open spec fn path_spec(&self) -> Seq<char> {
        match self {
            PamFile::Sudo => "/etc/pam.d/sudo"@,
            PamFile::GdmPassword => "/etc/pam.d/gdm-password"@,
        }
    }

    /// Where the file's backup lives: its path with `.bak` appended.
    pub fn backup_path(&self) -> (r: &'static str)
        ensures
            r@ == self.path_spec() + ".bak"@,
    {
        proof {
            reveal_strlit("/etc/pam.d/sudo");
            reveal_strlit("/etc/pam.d/gdm-password");
            reveal_strlit(".bak");
        }
        match self {
            PamFile::Sudo => {
                let r = "/etc/pam.d/sudo.bak";
                proof {
                    reveal_strlit("/etc/pam.d/sudo.bak");
                    assert(r@ =~= self.path_spec() + ".bak"@);
                }
                r
            },
            PamFile::GdmPassword => {
                let r = "/etc/pam.d/gdm-password.bak";
                proof {
                    reveal_strlit("/etc/pam.d/gdm-password.bak");
                    assert(r@ =~= self.path_spec() + ".bak"@);
                }
                r
            },
        }
    }
}

/// The line whose presence in a PAM file asks for the hardware key.
pub open spec fn pam_marker() -> Seq<char> {
    "auth required pam_u2f.so"@
}

/// The directive before which the marker goes: the shared authentication stack.
pub open spec fn include_directive() -> Seq<char> {
    "@include common-auth"@
}

/// The marker line, as text.
pub fn marker() -> (r: &'static str)
    ensures
        r@ == pam_marker(),
{
    "auth required pam_u2f.so"
}

/// Line `i` is the first of `ls` that holds the include directive.
pub open spec fn is_first_include(ls: Seq<Seq<char>>, i: int) -> bool {
    &&& 0 <= i < ls.len()
    &&& contains(ls[i], include_directive())
    &&& forall|j: int| 0 <= j < i ==> !contains(#[trigger] ls[j], include_directive())
}

/// Where a new line goes: before the first line that holds the include
/// directive, or at the top when no line does.
pub open spec fn insertion_index(ls: Seq<Seq<char>>) -> int {
    if exists|i: int| is_first_include(ls, i) {
        choose|i: int| is_first_include(ls, i)
    } else {
        0
    }
}

/// The text of a file after `line` was inserted into `content`: its lines,
/// with `line` at the insertion index, each followed by a newline.
pub open spec fn with_line_added(content: Seq<char>, line: Seq<char>) -> Seq<char> {
    let ls = lines_of(content);
    unlines(ls.insert(insertion_index(ls), line))
}

/// What a file holds after the line was ensured in it: unchanged when the
/// line already occurs, else rewritten with the line inserted.
pub open spec fn ensured(content: Seq<char>, line: Seq<char>) -> Seq<char> {
    if contains(content, line) {
        content
    } else {
        with_line_added(content, line)
    }
}

/// After the line was ensured in a file's text, the line occurs in it.
pub proof fn lemma_ensured_contains(content: Seq<char>, line: Seq<char>)
    ensures
        contains(ensured(content, line), line),
{
    if !contains(content, line) {
        let ls = lines_of(content);
        let idx = insertion_index(ls);
        if exists|i: int| is_first_include(ls, i) {
            let i = choose|i: int| is_first_include(ls, i);
            assert(0 <= idx < ls.len());
        }
        assert(0 <= idx <= ls.len());
        let ins = ls.insert(idx, line);
        assert(ins[idx] == line);
        lemma_unlines_contains(ins, idx);
    }
}

/// Ensuring a line is idempotent: doing it a second time leaves the text as
/// the first time left it.
pub proof fn ensure_line_idempotent(content: Seq<char>, line: Seq<char>)
    ensures
        ensured(ensured(content, line), line) == ensured(content, line),
{
    lemma_ensured_contains(content, line);
}

/// Whether the text of a file holds `line` anywhere.
pub fn file_contains_line(content: &str, line: &str) -> (r: bool)
    ensures
        r == contains(content@, line@),
{
    let c = chars_of(content);
    let l = chars_of(line);
    contains_chars(c.as_slice(), l.as_slice())
}

/// The new text of a file for `line` to occur in it: `None` when it occurs
/// already (the file is left alone), else the rewritten text.
pub fn add_pam_line(content: &str, line: &str) -> (r: Option<String>)
    ensures
        r is None <==> contains(content@, line@),
        r matches Some(t) ==> t@ == with_line_added(content@, line@),
{
    let c = chars_of(content);
    let l = chars_of(line);
    if contains_chars(c.as_slice(), l.as_slice()) {
        return None;
    }
    let mut lines = split_lines(c.as_slice());
    let directive = chars_of("@include common-auth");
    let ghost ls = lines.deep_view();
    let mut idx: usize = 0;
    let mut k: usize = 0;
    let mut found = false;
    while !found && k < lines.len()
        invariant
            ls == lines.deep_view(),
            directive@ == include_directive(),
            k <= lines@.len(),
            !found ==> idx == 0,
            !found ==> forall|j: int| 0 <= j < k ==> !contains(#[trigger] ls[j], include_directive()),
            found ==> is_first_include(ls, idx as int),
        decreases lines@.len() - k + (if found { 0int } else { 1int }),
    {
        proof {
            assert(ls[k as int] =~= lines@[k as int]@);
        }
        if contains_chars(lines[k].as_slice(), directive.as_slice()) {
            idx = k;
            found = true;
        } else {
            k += 1;
        }
    }
    proof {
        if found {
            assert forall|i: int| is_first_include(ls, i) implies i == idx by {
                if i < idx {
                    assert(!contains(ls[i], include_directive()));
                } else if i > idx {
                    assert(!contains(ls[idx as int], include_directive()));
                }
            }
        } else {
            assert forall|i: int| !is_first_include(ls, i) by {
                if 0 <= i < ls.len() {
                    assert(!contains(ls[i], include_directive()));
                }
            }
        }
        assert(insertion_index(ls) == idx);
    }
    let ghost before = lines@;
    proof {
        assert(l.deep_view() =~= l@);
    }
    lines.insert(idx, l);
    proof {
        let want = ls.insert(idx as int, line@);
        assert forall|j: int| 0 <= j < want.len() implies lines.deep_view()[j] == want[j] by {
            if j < idx {
                assert(lines@[j] == before[j]);
            } else if j > idx {
                assert(lines@[j] == before[j - 1]);
            }
        }
        assert(lines.deep_view() =~= want);
    }
    let out = join_lines(lines.as_slice());
    Some(string_of(out.as_slice()))
}

} // verus!
