//! Where the per-user key material lives on disk: these paths are shared
//! with the PAM module and must not move.
use vstd::prelude::*;

verus! {

/// The user's home directory.
pub open spec fn home_of(username: Seq<char>) -> Seq<char> {
    "/home/"@ + username
}

/// The user's key configuration directory.
pub open spec fn config_dir_of(username: Seq<char>) -> Seq<char> {
    home_of(username) + "/.config/Yubico"@
}

/// The user's key-registration file.
pub open spec fn registration_of(username: Seq<char>) -> Seq<char> {
    config_dir_of(username) + "/u2f_keys"@
}

/// The user's home directory: `/home/<username>`.
pub fn home_dir(username: &str) -> (r: String)
    ensures
        r@ == home_of(username@),
{
    let mut p = String::from_str("/home/");
    p.append(username);
    p
}

/// The user's key configuration directory: `<home>/.config/Yubico`.
pub fn config_dir(username: &str) -> (r: String)
    ensures
        r@ == config_dir_of(username@),
{
    let mut p = home_dir(username);
    p.append("/.config/Yubico");
    p
}

/// The user's key-registration file: `<config dir>/u2f_keys`.
pub fn registration_path(username: &str) -> (r: String)
    ensures
        r@ == registration_of(username@),
{
    let mut p = config_dir(username);
    p.append("/u2f_keys");
    p
}

} // verus!
