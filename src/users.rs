//! The human accounts of the host, read from the text of the account
//! database (`/etc/passwd`).
use vstd::prelude::*;
use crate::text::{
    chars_of, ends_with, ends_with_chars, lines_of, split_chars, split_lines, split_on, string_of,
};

verus! {

/// The lowest numeric ID of a human account.
pub const FIRST_HUMAN_UID: u32 = 1000;

pub open spec fn is_digit(c: char) -> bool {
    '0' <= c <= '9'
}

/// The number that the decimal digits `d` write.
pub open spec fn digits_value(d: Seq<char>) -> nat
    decreases d.len(),
{
    if d.len() == 0 {
        0
    } else {
        digits_value(d.drop_last()) * 10 + (d.last() as nat - '0' as nat) as nat
    }
}

/// What `str::parse::<u32>` gives: an optional `+`, then at least one
/// decimal digit and nothing else, for a value that fits.
pub open spec fn parse_u32(s: Seq<char>) -> Option<u32> {
    let d = unsigned_part(s);
    if d.len() > 0 && all_digits(d) && digits_value(d) <= u32::MAX {
        Some(digits_value(d) as u32)
    } else {
        None
    }
}

/// `s` without a leading `+`.
pub open spec fn unsigned_part(s: Seq<char>) -> Seq<char> {
    if s.len() > 0 && s[0] == '+' {
        s.drop_first()
    } else {
        s
    }
}

pub open spec fn all_digits(d: Seq<char>) -> bool {
    forall|i: int| 0 <= i < d.len() ==> is_digit(#[trigger] d[i])
}

/// The shell of an account whose login is disabled.
pub open spec fn is_disabled_shell(shell: Seq<char>) -> bool {
    ends_with(shell, "nologin"@) || ends_with(shell, "false"@)
}

/// The account name that a line of the database gives, if the line has at
/// least seven fields, a numeric ID of at least 1000, and a shell that
/// allows login.
pub open spec fn human_of_line(l: Seq<char>) -> Option<Seq<char>> {
    let f = split_on(l, ':');
    if f.len() >= 7 && (parse_u32(f[2]) matches Some(uid) && uid >= FIRST_HUMAN_UID)
        && !is_disabled_shell(f[6]) {
        Some(f[0])
    } else {
        None
    }
}

/// The human account names of `ls`, in order.
pub open spec fn humans_of(ls: Seq<Seq<char>>) -> Seq<Seq<char>>
    decreases ls.len(),
{
    if ls.len() == 0 {
        Seq::empty()
    } else {
        let r = humans_of(ls.drop_last());
        match human_of_line(ls.last()) {
            Some(n) => r.push(n),
            None => r,
        }
    }
}

proof fn lemma_digits_value_grows(d: Seq<char>, i: int)
    requires
        0 <= i <= d.len(),
        forall|k: int| 0 <= k < d.len() ==> is_digit(#[trigger] d[k]),
    ensures
        digits_value(d.take(i)) <= digits_value(d),
    decreases d.len() - i,
{
    if i < d.len() {
        lemma_digits_value_grows(d, i + 1);
        assert(d.take(i + 1).drop_last() =~= d.take(i));
        assert(digits_value(d.take(i + 1)) >= digits_value(d.take(i)));
    } else {
        assert(d.take(i) =~= d);
    }
}

/// Reads a decimal `u32` as `str::parse` does.
pub fn parse_uid(s: &[char]) -> (r: Option<u32>)
    ensures
        r == parse_u32(s@),
{
    let mut start: usize = 0;
    if s.len() > 0 && s[0] == '+' {
        start = 1;
    }
    let ghost d = unsigned_part(s@);
    assert(d =~= s@.subrange(start as int, s@.len() as int));
    if start >= s.len() {
        return None;
    }
    let mut acc: u64 = 0;
    let mut i: usize = start;
    while i < s.len()
        invariant
            start <= i <= s.len(),
            d == unsigned_part(s@),
            d =~= s@.subrange(start as int, s@.len() as int),
            forall|k: int| start <= k < i ==> is_digit(#[trigger] s@[k]),
            acc == digits_value(d.take(i - start)),
            acc <= u32::MAX,
        decreases s@.len() - i,
    {
        let c = s[i];
        if c < '0' || c > '9' {
            assert(d[i - start] == c);
            assert(!is_digit(d[i - start]));
            assert(!all_digits(d));
            return None;
        }
        let digit: u64 = (c as u32 - '0' as u32) as u64;
        proof {
            assert(d.take(i + 1 - start).drop_last() =~= d.take(i - start));
            assert(d.take(i + 1 - start).last() == c);
        }
        if acc * 10 + digit > u32::MAX as u64 {
            proof {
                assert(digits_value(d.take(i + 1 - start)) == acc * 10 + digit);
                assert forall|k: int| 0 <= k < i + 1 - start implies is_digit(
                    #[trigger] d.take(i + 1 - start)[k],
                ) by {
                    assert(d.take(i + 1 - start)[k] == s@[start + k]);
                }
                if all_digits(d) {
                    lemma_digits_value_grows(d, i + 1 - start);
                }
            }
            return None;
        }
        acc = acc * 10 + digit;
        i += 1;
    }
    proof {
        assert(d.take(i - start) =~= d);
        assert forall|k: int| 0 <= k < d.len() implies is_digit(#[trigger] d[k]) by {
            assert(d[k] == s@[start + k]);
        }
    }
    Some(acc as u32)
}

/// The account name of a line of the database, if it is a human account.
fn human_of(line: &[char]) -> (r: Option<Vec<char>>)
    ensures
        r.deep_view() == human_of_line(line@),
{
    let fields = split_chars(line, ':');
    if fields.len() < 7 {
        return None;
    }
    proof {
        assert(fields.deep_view()[2] == fields@[2]@);
        assert(fields.deep_view()[6] == fields@[6]@);
        assert(fields.deep_view()[0] == fields@[0]@);
    }
    match parse_uid(fields[2].as_slice()) {
        None => None,
        Some(uid) => {
            if uid < FIRST_HUMAN_UID {
                return None;
            }
            let nologin = chars_of("nologin");
            let no = chars_of("false");
            if ends_with_chars(fields[6].as_slice(), nologin.as_slice()) || ends_with_chars(
                fields[6].as_slice(),
                no.as_slice(),
            ) {
                return None;
            }
            let name = fields[0].clone();
            assert(name.deep_view() =~= name@);
            Some(name)
        },
    }
}

/// The human accounts listed in the text of the account database, in order:
/// those with a numeric ID of at least 1000 and a shell that allows login.
pub fn list_system_users(passwd: &str) -> (r: Vec<String>)
    ensures
        r.deep_view() == humans_of(lines_of(passwd@)),
{
    let text = chars_of(passwd);
    let lines = split_lines(text.as_slice());
    let ghost ls = lines.deep_view();
    let mut users: Vec<String> = Vec::new();
    let mut i: usize = 0;
    while i < lines.len()
        invariant
            ls == lines.deep_view(),
            i <= lines@.len(),
            users.deep_view() =~= humans_of(ls.take(i as int)),
        decreases lines@.len() - i,
    {
        proof {
            assert(ls.take(i + 1).drop_last() =~= ls.take(i as int));
            assert(ls.take(i + 1).last() == lines@[i as int]@);
        }
        match human_of(lines[i].as_slice()) {
            Some(name) => {
                let s = string_of(name.as_slice());
                let ghost before = users.deep_view();
                users.push(s);
                proof {
                    assert(name.deep_view() =~= name@);
                    assert(users.deep_view() =~= before.push(s@));
                }
            },
            None => {},
        }
        i += 1;
    }
    proof {
        assert(ls.take(lines@.len() as int) =~= ls);
    }
    users
}

} // verus!
