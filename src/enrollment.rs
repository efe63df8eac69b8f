//! The enrollment workflow: whether a user is enrolled, enrolling and
//! revoking, over the host model. Every operation states exactly which leaf
//! operations it records and what it returns.
use vstd::prelude::*;
use crate::error::YubiError;
use crate::host::{
    apply_all, backup_plan, ensure_plan, lemma_performed_none, lemma_performed_one,
    lemma_performed_trans,
    performed, restore_plan, Effect, HostState, HostView,
};
use crate::models::{Dependencies, YubiKey};
use crate::pam::{file_contains_line, marker, pam_marker, PamFile};
use crate::text::contains;

verus! {

/// Whether the user is enrolled, reading as little as needed: no registration
/// file means not enrolled, whatever the PAM files hold; a PAM file that must
/// be read and cannot be is an error.
pub open spec fn enrolled_status(h: HostView) -> Result<bool, YubiError> {
    if !h.registration {
        Ok(false)
    } else {
        match h.sudo {
            None => Err(YubiError::IoError),
            Some(s) => if !contains(s, pam_marker()) {
                Ok(false)
            } else {
                match h.gdm {
                    None => Err(YubiError::IoError),
                    Some(g) => Ok(contains(g, pam_marker())),
                }
            },
        }
    }
}

/// The registration file exists and both PAM files hold the marker line.
pub open spec fn is_enrolled(h: HostView) -> bool {
    &&& h.registration
    &&& h.sudo matches Some(s) && contains(s, pam_marker())
    &&& h.gdm matches Some(g) && contains(g, pam_marker())
}

/// `name` is among the listed accounts.
pub open spec fn is_listed(users: Seq<Seq<char>>, name: Seq<char>) -> bool {
    users.contains(name)
}

/// The checks before enrollment, in order: not enrolled already, a known
/// user, a key attached, every dependency installed. The first that fails
/// decides the error; a listing that failed passes its own error on.
pub open spec fn enrollment_check(
    h: HostView,
    users: Result<Vec<String>, YubiError>,
    tokens: Result<Vec<YubiKey>, YubiError>,
    deps: Result<Dependencies, YubiError>,
) -> Result<(), YubiError> {
    match enrolled_status(h) {
        Err(e) => Err(e),
        Ok(true) => Err(YubiError::AlreadyEnrolled),
        Ok(false) => match users {
            Err(e) => Err(e),
            Ok(u) => if !is_listed(u.deep_view(), h.username) {
                Err(YubiError::UnknownUser)
            } else {
                match tokens {
                    Err(e) => Err(e),
                    Ok(t) => if t@.len() == 0 {
                        Err(YubiError::NoTokenPresent)
                    } else {
                        match deps {
                            Err(e) => Err(e),
                            Ok(d) => if !d.all_present() {
                                Err(YubiError::MissingDependencies)
                            } else {
                                Ok(())
                            },
                        }
                    },
                }
            },
        },
    }
}

/// Creating the configuration directory when it is absent.
pub open spec fn config_dir_plan(h: HostView) -> Seq<Effect> {
    if h.config_dir {
        Seq::empty()
    } else {
        seq![Effect::CreateConfigDir]
    }
}

/// What enrollment does once the generator has run: store its output, then
/// back each PAM file up and ensure the marker in it, sudo first. An
/// unreadable PAM file stops the sequence where it stands.
pub open spec fn finish_plan(h: HostView, keygen_ok: bool) -> (Seq<Effect>, Result<(), YubiError>) {
    if !keygen_ok {
        (Seq::empty(), Err(YubiError::KeygenFailed))
    } else if h.sudo is None {
        (seq![Effect::AppendRegistration], Err(YubiError::IoError))
    } else if h.gdm is None {
        (
            seq![
                Effect::AppendRegistration,
                Effect::Backup(PamFile::Sudo),
                Effect::EnsureMarker(PamFile::Sudo),
            ],
            Err(YubiError::IoError),
        )
    } else {
        (
            seq![
                Effect::AppendRegistration,
                Effect::Backup(PamFile::Sudo),
                Effect::EnsureMarker(PamFile::Sudo),
                Effect::Backup(PamFile::GdmPassword),
                Effect::EnsureMarker(PamFile::GdmPassword),
            ],
            Ok(()),
        )
    }
}

/// The whole of enrollment: the checks, the directory, then the rest.
pub open spec fn enroll_plan(
    h: HostView,
    users: Result<Vec<String>, YubiError>,
    tokens: Result<Vec<YubiKey>, YubiError>,
    deps: Result<Dependencies, YubiError>,
    keygen_ok: bool,
) -> (Seq<Effect>, Result<(), YubiError>) {
    match enrollment_check(h, users, tokens, deps) {
        Err(e) => (Seq::empty(), Err(e)),
        Ok(_) => (config_dir_plan(h) + finish_plan(h, keygen_ok).0, finish_plan(h, keygen_ok).1),
    }
}

/// The checks before revocation, in order: a known user, then enrolled.
pub open spec fn revocation_check(h: HostView, users: Result<Vec<String>, YubiError>) -> Result<
    (),
    YubiError,
> {
    match users {
        Err(e) => Err(e),
        Ok(u) => if !is_listed(u.deep_view(), h.username) {
            Err(YubiError::UnknownUser)
        } else {
            match enrolled_status(h) {
                Err(e) => Err(e),
                Ok(false) => Err(YubiError::NotEnrolled),
                Ok(true) => Ok(()),
            }
        },
    }
}

/// Revocation: restore both PAM files from their backups, sudo first, then
/// remove the registration file and prune the directory. A missing backup
/// stops the sequence where it stands.
pub open spec fn revoke_plan(h: HostView, users: Result<Vec<String>, YubiError>) -> (
    Seq<Effect>,
    Result<(), YubiError>,
) {
    match revocation_check(h, users) {
        Err(e) => (Seq::empty(), Err(e)),
        Ok(_) => if h.sudo_backup is None {
            (Seq::empty(), Err(YubiError::NoBackupFound(PamFile::Sudo)))
        } else if h.gdm_backup is None {
            (seq![Effect::Restore(PamFile::Sudo)], Err(YubiError::NoBackupFound(PamFile::GdmPassword)))
        } else {
            (
                seq![
                    Effect::Restore(PamFile::Sudo),
                    Effect::Restore(PamFile::GdmPassword),
                    Effect::DeleteRegistration,
                    Effect::PruneConfigDir,
                ],
                Ok(()),
            )
        },
    }
}

/// Copies a PAM file over its backup.
pub fn backup_file(state: &mut HostState, log: &mut Vec<Effect>, f: PamFile) -> (r: Result<
    (),
    YubiError,
>)
    ensures
        r == backup_plan(old(state)@, f).1,
        performed(old(state)@, old(log)@, final(state)@, final(log)@, backup_plan(old(state)@, f).0),
{
    if state.file(f).is_none() {
        proof {
            lemma_performed_none(state@, log@);
        }
        return Err(YubiError::IoError);
    }
    state.perform(log, Effect::Backup(f));
    Ok(())
}

/// Copies a PAM file's backup over it; without a backup this is an error.
pub fn restore_file_from_backup(state: &mut HostState, log: &mut Vec<Effect>, f: PamFile) -> (r:
    Result<(), YubiError>)
    ensures
        r == restore_plan(old(state)@, f).1,
        performed(old(state)@, old(log)@, final(state)@, final(log)@, restore_plan(old(state)@, f).0),
{
    if state.backup(f).is_none() {
        proof {
            lemma_performed_none(state@, log@);
        }
        return Err(YubiError::NoBackupFound(f));
    }
    state.perform(log, Effect::Restore(f));
    Ok(())
}

/// Ensures the marker line in a PAM file.
pub fn ensure_line_inserted(state: &mut HostState, log: &mut Vec<Effect>, f: PamFile) -> (r:
    Result<(), YubiError>)
    ensures
        r == ensure_plan(old(state)@, f).1,
        performed(old(state)@, old(log)@, final(state)@, final(log)@, ensure_plan(old(state)@, f).0),
{
    if state.file(f).is_none() {
        proof {
            lemma_performed_none(state@, log@);
        }
        return Err(YubiError::IoError);
    }
    state.perform(log, Effect::EnsureMarker(f));
    Ok(())
}

/// Creates the user's key configuration directory when it is absent.
pub fn ensure_folder_location(state: &mut HostState, log: &mut Vec<Effect>)
    ensures
        performed(old(state)@, old(log)@, final(state)@, final(log)@, config_dir_plan(old(state)@)),
{
    if state.config_dir {
        proof {
            lemma_performed_none(state@, log@);
        }
    } else {
        state.perform(log, Effect::CreateConfigDir);
    }
}

/// Whether `name` is among `users`.
pub fn is_known_user(users: &Vec<String>, name: &String) -> (r: bool)
    ensures
        r == is_listed(users.deep_view(), name@),
{
    let mut i: usize = 0;
    while i < users.len()
        invariant
            i <= users@.len(),
            forall|j: int| 0 <= j < i ==> users@[j]@ != name@,
        decreases users@.len() - i,
    {
        if users[i] == *name {
            assert(users.deep_view()[i as int] == name@);
            return true;
        }
        i += 1;
    }
    proof {
        if users.deep_view().contains(name@) {
            let j = choose|j: int| 0 <= j < users.deep_view().len() && users.deep_view()[j] == name@;
            assert(users@[j]@ == name@);
        }
    }
    false
}

/// Whether the user is enrolled: the registration file exists and both PAM
/// files hold the marker line.
pub fn check_if_yubikey_is_installed_for_user(state: &HostState) -> (r: Result<bool, YubiError>)
    ensures
        r == enrolled_status(state@),
        r == Ok::<bool, YubiError>(true) <==> is_enrolled(state@),
{
    if !state.registration {
        return Ok(false);
    }
    match &state.sudo {
        None => {
            return Err(YubiError::IoError);
        },
        Some(s) => {
            if !file_contains_line(s.as_str(), marker()) {
                return Ok(false);
            }
        },
    }
    match &state.gdm {
        None => Err(YubiError::IoError),
        Some(g) => Ok(file_contains_line(g.as_str(), marker())),
    }
}

/// The checks that come before enrollment, then the configuration directory.
/// Nothing is recorded when a check fails.
pub fn prepare_enrollment(
    state: &mut HostState,
    log: &mut Vec<Effect>,
    users: &Result<Vec<String>, YubiError>,
    tokens: &Result<Vec<YubiKey>, YubiError>,
    deps: &Result<Dependencies, YubiError>,
) -> (r: Result<(), YubiError>)
    ensures
        r == enrollment_check(old(state)@, *users, *tokens, *deps),
        performed(
            old(state)@,
            old(log)@,
            final(state)@,
            final(log)@,
            if r is Ok {
                config_dir_plan(old(state)@)
            } else {
                Seq::empty()
            },
        ),
{
    proof {
        lemma_performed_none(state@, log@);
    }
    match check_if_yubikey_is_installed_for_user(state) {
        Err(e) => {
            return Err(e);
        },
        Ok(true) => {
            return Err(YubiError::AlreadyEnrolled);
        },
        Ok(false) => {},
    }
    match users {
        Err(e) => {
            return Err(*e);
        },
        Ok(u) => {
            if !is_known_user(u, &state.username) {
                return Err(YubiError::UnknownUser);
            }
        },
    }
    match tokens {
        Err(e) => {
            return Err(*e);
        },
        Ok(t) => {
            if t.len() == 0 {
                return Err(YubiError::NoTokenPresent);
            }
        },
    }
    match deps {
        Err(e) => {
            return Err(*e);
        },
        Ok(d) => {
            if !d.all_installed() {
                return Err(YubiError::MissingDependencies);
            }
        },
    }
    ensure_folder_location(state, log);
    Ok(())
}

/// What enrollment does once the key-registration generator has run;
/// `keygen_ok` says whether it succeeded.
pub fn finish_enrollment(state: &mut HostState, log: &mut Vec<Effect>, keygen_ok: bool) -> (r:
    Result<(), YubiError>)
    ensures
        r == finish_plan(old(state)@, keygen_ok).1,
        performed(old(state)@, old(log)@, final(state)@, final(log)@, finish_plan(old(state)@, keygen_ok).0),
{
    let ghost h0 = state@;
    let ghost l0 = log@;
    if !keygen_ok {
        proof {
            lemma_performed_none(h0, l0);
        }
        return Err(YubiError::KeygenFailed);
    }
    state.perform(log, Effect::AppendRegistration);
    let ghost h1 = state@;
    let ghost l1 = log@;
    let ghost a = seq![Effect::AppendRegistration];
    let r1 = backup_file(state, log, PamFile::Sudo);
    proof {
        lemma_performed_trans(h0, l0, h1, l1, state@, log@, a, backup_plan(h1, PamFile::Sudo).0);
    }
    if r1.is_err() {
        assert(a + Seq::<Effect>::empty() =~= a);
        return r1;
    }
    let ghost h2 = state@;
    let ghost l2 = log@;
    let ghost b = a + seq![Effect::Backup(PamFile::Sudo)];
    proof {
        lemma_performed_one(h1, l1, h2, l2, Effect::Backup(PamFile::Sudo));
    }
    ensure_line_inserted(state, log, PamFile::Sudo);
    proof {
        lemma_performed_trans(h0, l0, h2, l2, state@, log@, b, seq![Effect::EnsureMarker(PamFile::Sudo)]);
    }
    let ghost h3 = state@;
    let ghost l3 = log@;
    let ghost c = b + seq![Effect::EnsureMarker(PamFile::Sudo)];
    proof {
        lemma_performed_one(h2, l2, h3, l3, Effect::EnsureMarker(PamFile::Sudo));
    }
    let r2 = backup_file(state, log, PamFile::GdmPassword);
    proof {
        lemma_performed_trans(h0, l0, h3, l3, state@, log@, c, backup_plan(h3, PamFile::GdmPassword).0);
    }
    if r2.is_err() {
        assert(c + Seq::<Effect>::empty() =~= c);
        assert(c =~= finish_plan(h0, keygen_ok).0);
        return r2;
    }
    let ghost h4 = state@;
    let ghost l4 = log@;
    let ghost d = c + seq![Effect::Backup(PamFile::GdmPassword)];
    proof {
        lemma_performed_one(h3, l3, h4, l4, Effect::Backup(PamFile::GdmPassword));
    }
    ensure_line_inserted(state, log, PamFile::GdmPassword);
    proof {
        lemma_performed_trans(
            h0,
            l0,
            h4,
            l4,
            state@,
            log@,
            d,
            seq![Effect::EnsureMarker(PamFile::GdmPassword)],
        );
        assert(d + seq![Effect::EnsureMarker(PamFile::GdmPassword)] =~= finish_plan(
            h0,
            keygen_ok,
        ).0);
    }
    Ok(())
}

/// Enrolls the user: the checks, the configuration directory, and, given
/// whether the key-registration generator succeeded, the rest.
pub fn install_yubikey_for_user(
    state: &mut HostState,
    log: &mut Vec<Effect>,
    users: &Result<Vec<String>, YubiError>,
    tokens: &Result<Vec<YubiKey>, YubiError>,
    deps: &Result<Dependencies, YubiError>,
    keygen_ok: bool,
) -> (r: Result<(), YubiError>)
    ensures
        r == enroll_plan(old(state)@, *users, *tokens, *deps, keygen_ok).1,
        performed(
            old(state)@,
            old(log)@,
            final(state)@,
            final(log)@,
            enroll_plan(old(state)@, *users, *tokens, *deps, keygen_ok).0,
        ),
{
    let ghost h0 = state@;
    let ghost l0 = log@;
    let r = prepare_enrollment(state, log, users, tokens, deps);
    if r.is_err() {
        return r;
    }
    let ghost h1 = state@;
    let ghost l1 = log@;
    let r2 = finish_enrollment(state, log, keygen_ok);
    proof {
        lemma_performed_trans(h0, l0, h1, l1, state@, log@, config_dir_plan(h0), finish_plan(h1, keygen_ok).0);
        if h0.config_dir {
            assert(h1 == h0);
        } else {
            lemma_performed_one(h0, l0, h1, l1, Effect::CreateConfigDir);
        }
        assert(finish_plan(h1, keygen_ok) == finish_plan(h0, keygen_ok));
    }
    r2
}

/// Revokes the user's enrollment.
pub fn remove_yubikey_for_user(
    state: &mut HostState,
    log: &mut Vec<Effect>,
    users: &Result<Vec<String>, YubiError>,
) -> (r: Result<(), YubiError>)
    ensures
        r == revoke_plan(old(state)@, *users).1,
        performed(old(state)@, old(log)@, final(state)@, final(log)@, revoke_plan(old(state)@, *users).0),
{
    let ghost h0 = state@;
    let ghost l0 = log@;
    proof {
        lemma_performed_none(h0, l0);
    }
    match users {
        Err(e) => {
            return Err(*e);
        },
        Ok(u) => {
            if !is_known_user(u, &state.username) {
                return Err(YubiError::UnknownUser);
            }
        },
    }
    match check_if_yubikey_is_installed_for_user(state) {
        Err(e) => {
            return Err(e);
        },
        Ok(false) => {
            return Err(YubiError::NotEnrolled);
        },
        Ok(true) => {},
    }
    let r1 = restore_file_from_backup(state, log, PamFile::Sudo);
    if r1.is_err() {
        return r1;
    }
    let ghost h1 = state@;
    let ghost l1 = log@;
    let ghost a = seq![Effect::Restore(PamFile::Sudo)];
    proof {
        lemma_performed_one(h0, l0, h1, l1, Effect::Restore(PamFile::Sudo));
    }
    let r2 = restore_file_from_backup(state, log, PamFile::GdmPassword);
    proof {
        lemma_performed_trans(h0, l0, h1, l1, state@, log@, a, restore_plan(h1, PamFile::GdmPassword).0);
    }
    if r2.is_err() {
        assert(a + Seq::<Effect>::empty() =~= a);
        return r2;
    }
    let ghost h2 = state@;
    let ghost l2 = log@;
    let ghost b = a + seq![Effect::Restore(PamFile::GdmPassword)];
    state.perform(log, Effect::DeleteRegistration);
    proof {
        lemma_performed_trans(h0, l0, h2, l2, state@, log@, b, seq![Effect::DeleteRegistration]);
    }
    let ghost h3 = state@;
    let ghost l3 = log@;
    let ghost c = b + seq![Effect::DeleteRegistration];
    state.perform(log, Effect::PruneConfigDir);
    proof {
        lemma_performed_trans(h0, l0, h3, l3, state@, log@, c, seq![Effect::PruneConfigDir]);
        assert(c + seq![Effect::PruneConfigDir] =~= revoke_plan(h0, *users).0);
    }
    Ok(())
}

} // verus!
