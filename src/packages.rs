//! Which packages the host needs, and which to install or remove.
use vstd::prelude::*;
use crate::error::YubiError;
use crate::models::Dependencies;

verus! {

/// The outcome of probing the three required tools; `None` is a probe that
/// could not run.
pub open spec fn dependency_report(
    apt: Option<bool>,
    libpam_u2f: Option<bool>,
    pamu2fcfg: Option<bool>,
) -> Result<Dependencies, YubiError> {
    match (apt, libpam_u2f, pamu2fcfg) {
        (Some(a), Some(l), Some(p)) => Ok(Dependencies { apt: a, libpam_u2f: l, pamu2fcfg: p }),
        _ => Err(YubiError::ToolUnavailable),
    }
}

/// Gathers the three probes into a report: the package manager is reachable,
/// the PAM module is installed, the generator is installed.
pub fn check_dependencies(apt: Option<bool>, libpam_u2f: Option<bool>, pamu2fcfg: Option<bool>) -> (r:
    Result<Dependencies, YubiError>)
    ensures
        r == dependency_report(apt, libpam_u2f, pamu2fcfg),
{
    match (apt, libpam_u2f, pamu2fcfg) {
        (Some(a), Some(l), Some(p)) => Ok(Dependencies { apt: a, libpam_u2f: l, pamu2fcfg: p }),
        _ => Err(YubiError::ToolUnavailable),
    }
}

/// The names of the entries that are wanted and not there now, in order.
pub open spec fn wanted_missing<'a>(desired: Seq<(bool, bool, &'a str)>) -> Seq<&'a str>
    decreases desired.len(),
{
    if desired.len() == 0 {
        Seq::empty()
    } else {
        let r = wanted_missing(desired.drop_last());
        let (wanted, current, name) = desired.last();
        if wanted && !current {
            r.push(name)
        } else {
            r
        }
    }
}

/// From `(wanted, present now, name)` entries, the names to install.
pub fn get_packages<'a>(desired: Vec<(bool, bool, &'a str)>) -> (r: Vec<&'a str>)
    ensures
        r@ == wanted_missing(desired@),
{
    let mut out: Vec<&'a str> = Vec::new();
    let mut i: usize = 0;
    while i < desired.len()
        invariant
            i <= desired@.len(),
            out@ == wanted_missing(desired@.take(i as int)),
        decreases desired@.len() - i,
    {
        proof {
            assert(desired@.take(i + 1).drop_last() =~= desired@.take(i as int));
        }
        let (wanted, current, name) = desired[i];
        if wanted && !current {
            out.push(name);
        }
        i += 1;
    }
    proof {
        assert(desired@.take(desired@.len() as int) =~= desired@);
    }
    out
}

/// The package names, in the order the report lists them.
pub open spec fn package_names() -> (Seq<char>, Seq<char>, Seq<char>) {
    ("apt"@, "libpam-u2f"@, "pamu2fcfg"@)
}

pub open spec fn names_of<'a>(v: Seq<&'a str>) -> Seq<Seq<char>> {
    v.map_values(|s: &'a str| s@)
}

pub open spec fn when(b: bool, name: Seq<char>) -> Seq<Seq<char>> {
    if b {
        seq![name]
    } else {
        Seq::empty()
    }
}

/// The packages to install for the host to reach `posted`: those asked for
/// and missing now.
pub open spec fn install_list(posted: Dependencies, current: Dependencies) -> Seq<Seq<char>> {
    when(posted.apt && !current.apt, package_names().0) + when(
        posted.libpam_u2f && !current.libpam_u2f,
        package_names().1,
    ) + when(posted.pamu2fcfg && !current.pamu2fcfg, package_names().2)
}

/// The optional packages that are installed now, to be removed.
pub open spec fn remove_list(current: Dependencies) -> Seq<Seq<char>> {
    when(current.libpam_u2f, package_names().1) + when(current.pamu2fcfg, package_names().2)
}

/// The packages to install for the host to reach `posted`.
pub fn packages_to_install(posted: &Dependencies, current: &Dependencies) -> (r: Vec<&'static str>)
    ensures
        names_of(r@) == install_list(*posted, *current),
{
    let desired = vec![
        (posted.apt, current.apt, "apt"),
        (posted.libpam_u2f, current.libpam_u2f, "libpam-u2f"),
        (posted.pamu2fcfg, current.pamu2fcfg, "pamu2fcfg"),
    ];
    let ghost d = desired@;
    let r = get_packages(desired);
    proof {
        assert(d.take(3) =~= d);
        assert(d.take(3).drop_last() =~= d.take(2));
        assert(d.take(2).drop_last() =~= d.take(1));
        assert(d.take(1).drop_last() =~= d.take(0));
        assert(d.len() == 3);
        assert(d[0] == (posted.apt, current.apt, "apt"));
        assert(wanted_missing(d.take(0)) == Seq::<&str>::empty());
        assert(d.take(1).last() == d[0]);
        let w1 = wanted_missing(d.take(1));
        let w2 = wanted_missing(d.take(2));
        let w3 = wanted_missing(d.take(3));
        assert(names_of(w1) =~= when(posted.apt && !current.apt, package_names().0));
        assert(names_of(w2) =~= names_of(w1) + when(
            posted.libpam_u2f && !current.libpam_u2f,
            package_names().1,
        ));
        assert(names_of(w3) =~= names_of(w2) + when(
            posted.pamu2fcfg && !current.pamu2fcfg,
            package_names().2,
        ));
        assert(names_of(r@) =~= install_list(*posted, *current));
    }
    r
}

/// The optional packages to remove: those installed now.
pub fn packages_to_remove(current: &Dependencies) -> (r: Vec<&'static str>)
    ensures
        names_of(r@) == remove_list(*current),
{
    let mut out: Vec<&'static str> = Vec::new();
    if current.libpam_u2f {
        out.push("libpam-u2f");
    }
    if current.pamu2fcfg {
        out.push("pamu2fcfg");
    }
    proof {
        assert(names_of(out@) =~= remove_list(*current));
    }
    out
}

/// The exit code that stands for a package-manager step that ended without
/// one (it could not start, or a signal ended it).
pub const NO_EXIT_CODE: i32 = -1;

/// The outcome of one step of an installation (refreshing the index, or
/// installing) from its exit code: success only on zero.
pub fn install_status(exit_code: Option<i32>) -> (r: Result<(), YubiError>)
    ensures
        r == (match exit_code {
            Some(0) => Ok(()),
            Some(c) => Err(YubiError::InstallFailed(c)),
            None => Err(YubiError::InstallFailed(NO_EXIT_CODE)),
        }),
{
    match exit_code {
        Some(0) => Ok(()),
        Some(c) => Err(YubiError::InstallFailed(c)),
        None => Err(YubiError::InstallFailed(NO_EXIT_CODE)),
    }
}

/// The outcome of a removal from its exit code: success only on zero.
pub fn remove_status(exit_code: Option<i32>) -> (r: Result<(), YubiError>)
    ensures
        r == (match exit_code {
            Some(0) => Ok(()),
            Some(c) => Err(YubiError::RemoveFailed(c)),
            None => Err(YubiError::RemoveFailed(NO_EXIT_CODE)),
        }),
{
    match exit_code {
        Some(0) => Ok(()),
        Some(c) => Err(YubiError::RemoveFailed(c)),
        None => Err(YubiError::RemoveFailed(NO_EXIT_CODE)),
    }
}

} // verus!
