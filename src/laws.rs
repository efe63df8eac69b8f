//! What holds across the enrollment operations: stated over the plans that
//! their contracts give, and proved.
use vstd::prelude::*;
use crate::enrollment::{
    config_dir_plan, enroll_plan, enrolled_status, enrollment_check, finish_plan, is_enrolled,
    is_listed, revoke_plan,
};
use crate::error::YubiError;
use crate::host::{apply, apply_all, lemma_apply_all_concat, Effect, HostView};
use crate::models::{Dependencies, YubiKey};
use crate::pam::{ensure_line_idempotent, ensured, lemma_ensured_contains, pam_marker, PamFile};

verus! {

pub proof fn lemma_apply_push(h: HostView, s: Seq<Effect>, e: Effect)
    ensures
        apply_all(h, s.push(e)) == apply(apply_all(h, s), e),
{
    assert(s.push(e).drop_last() =~= s);
}

pub proof fn lemma_apply_empty(h: HostView)
    ensures
        apply_all(h, Seq::empty()) == h,
{
}

/// The host after the full sequence of enrollment's later steps.
pub proof fn lemma_finish_effects(h: HostView)
    requires
        h.sudo is Some,
        h.gdm is Some,
    ensures
        apply_all(h, finish_plan(h, true).0) == (HostView {
            registration: true,
            sudo: Some(ensured(h.sudo->0, pam_marker())),
            sudo_backup: h.sudo,
            gdm: Some(ensured(h.gdm->0, pam_marker())),
            gdm_backup: h.gdm,
            ..h
        }),
{
    let e0 = Effect::AppendRegistration;
    let e1 = Effect::Backup(PamFile::Sudo);
    let e2 = Effect::EnsureMarker(PamFile::Sudo);
    let e3 = Effect::Backup(PamFile::GdmPassword);
    let e4 = Effect::EnsureMarker(PamFile::GdmPassword);
    let s0 = Seq::<Effect>::empty();
    lemma_apply_empty(h);
    lemma_apply_push(h, s0, e0);
    lemma_apply_push(h, s0.push(e0), e1);
    lemma_apply_push(h, s0.push(e0).push(e1), e2);
    lemma_apply_push(h, s0.push(e0).push(e1).push(e2), e3);
    lemma_apply_push(h, s0.push(e0).push(e1).push(e2).push(e3), e4);
    assert(finish_plan(h, true).0 =~= s0.push(e0).push(e1).push(e2).push(e3).push(e4));
}

/// The host after the full sequence of revocation's steps.
pub proof fn lemma_revoke_effects(h: HostView)
    requires
        h.sudo_backup is Some,
        h.gdm_backup is Some,
    ensures
        apply_all(
            h,
            seq![
                Effect::Restore(PamFile::Sudo),
                Effect::Restore(PamFile::GdmPassword),
                Effect::DeleteRegistration,
                Effect::PruneConfigDir,
            ],
        ).sudo == h.sudo_backup,
        apply_all(
            h,
            seq![
                Effect::Restore(PamFile::Sudo),
                Effect::Restore(PamFile::GdmPassword),
                Effect::DeleteRegistration,
                Effect::PruneConfigDir,
            ],
        ).gdm == h.gdm_backup,
        !apply_all(
            h,
            seq![
                Effect::Restore(PamFile::Sudo),
                Effect::Restore(PamFile::GdmPassword),
                Effect::DeleteRegistration,
                Effect::PruneConfigDir,
            ],
        ).registration,
{
    let e0 = Effect::Restore(PamFile::Sudo);
    let e1 = Effect::Restore(PamFile::GdmPassword);
    let e2 = Effect::DeleteRegistration;
    let e3 = Effect::PruneConfigDir;
    let s0 = Seq::<Effect>::empty();
    lemma_apply_empty(h);
    lemma_apply_push(h, s0, e0);
    lemma_apply_push(h, s0.push(e0), e1);
    lemma_apply_push(h, s0.push(e0).push(e1), e2);
    lemma_apply_push(h, s0.push(e0).push(e1).push(e2), e3);
    assert(seq![e0, e1, e2, e3] =~= s0.push(e0).push(e1).push(e2).push(e3));
}

/// Enrollment that succeeded did all of its steps: the host after it is the
/// host before, with the directory, the registration file, the backups and
/// the marker in both PAM files.
pub proof fn lemma_enroll_effects(
    h: HostView,
    users: Result<Vec<String>, YubiError>,
    tokens: Result<Vec<YubiKey>, YubiError>,
    deps: Result<Dependencies, YubiError>,
    keygen_ok: bool,
)
    requires
        enroll_plan(h, users, tokens, deps, keygen_ok).1 is Ok,
    ensures
        h.sudo is Some,
        h.gdm is Some,
        apply_all(h, enroll_plan(h, users, tokens, deps, keygen_ok).0) == (HostView {
            registration: true,
            config_dir: true,
            sudo: Some(ensured(h.sudo->0, pam_marker())),
            sudo_backup: h.sudo,
            gdm: Some(ensured(h.gdm->0, pam_marker())),
            gdm_backup: h.gdm,
            ..h
        }),
{
    let d = config_dir_plan(h);
    let hd = apply_all(h, d);
    lemma_apply_all_concat(h, d, finish_plan(h, keygen_ok).0);
    if h.config_dir {
        lemma_apply_empty(h);
    } else {
        lemma_apply_push(h, Seq::empty(), Effect::CreateConfigDir);
        lemma_apply_empty(h);
        assert(d =~= Seq::<Effect>::empty().push(Effect::CreateConfigDir));
    }
    assert(finish_plan(hd, keygen_ok) == finish_plan(h, keygen_ok));
    lemma_finish_effects(hd);
}

/// A user without a registration file is not enrolled, whatever the PAM
/// files hold.
pub proof fn not_enrolled_without_registration(h: HostView)
    requires
        !h.registration,
    ensures
        enrolled_status(h) == Ok::<bool, YubiError>(false),
        !is_enrolled(h),
{
}

/// After enrollment succeeded the user is enrolled; and it succeeds when the
/// checks pass, the generator succeeded and both PAM files can be read.
pub proof fn enroll_then_enrolled(
    h: HostView,
    users: Result<Vec<String>, YubiError>,
    tokens: Result<Vec<YubiKey>, YubiError>,
    deps: Result<Dependencies, YubiError>,
    keygen_ok: bool,
)
    ensures
        enroll_plan(h, users, tokens, deps, keygen_ok).1 is Ok ==> is_enrolled(
            apply_all(h, enroll_plan(h, users, tokens, deps, keygen_ok).0),
        ),
        enroll_plan(h, users, tokens, deps, keygen_ok).1 is Ok ==> enrolled_status(
            apply_all(h, enroll_plan(h, users, tokens, deps, keygen_ok).0),
        ) == Ok::<bool, YubiError>(true),
        enrollment_check(h, users, tokens, deps) is Ok && keygen_ok && h.sudo is Some
            && h.gdm is Some ==> enroll_plan(h, users, tokens, deps, keygen_ok).1 is Ok,
{
    if enroll_plan(h, users, tokens, deps, keygen_ok).1 is Ok {
        lemma_enroll_effects(h, users, tokens, deps, keygen_ok);
        lemma_ensured_contains(h.sudo->0, pam_marker());
        lemma_ensured_contains(h.gdm->0, pam_marker());
    }
}

/// Enrolling a second time fails with `AlreadyEnrolled` and records nothing,
/// whatever the second call is given.
pub proof fn enroll_twice_fails(
    h: HostView,
    users: Result<Vec<String>, YubiError>,
    tokens: Result<Vec<YubiKey>, YubiError>,
    deps: Result<Dependencies, YubiError>,
    keygen_ok: bool,
    users2: Result<Vec<String>, YubiError>,
    tokens2: Result<Vec<YubiKey>, YubiError>,
    deps2: Result<Dependencies, YubiError>,
    keygen_ok2: bool,
)
    requires
        enroll_plan(h, users, tokens, deps, keygen_ok).1 is Ok,
    ensures
        enroll_plan(
            apply_all(h, enroll_plan(h, users, tokens, deps, keygen_ok).0),
            users2,
            tokens2,
            deps2,
            keygen_ok2,
        ) == (Seq::<Effect>::empty(), Err::<(), YubiError>(YubiError::AlreadyEnrolled)),
{
    enroll_then_enrolled(h, users, tokens, deps, keygen_ok);
}

/// Revoking after a successful enrollment succeeds for a listed user, leaves
/// the user not enrolled, and puts back both PAM files exactly as they were
/// before enrollment.
pub proof fn revoke_restores(
    h: HostView,
    users: Result<Vec<String>, YubiError>,
    tokens: Result<Vec<YubiKey>, YubiError>,
    deps: Result<Dependencies, YubiError>,
    keygen_ok: bool,
    users2: Result<Vec<String>, YubiError>,
)
    requires
        enroll_plan(h, users, tokens, deps, keygen_ok).1 is Ok,
        users2 matches Ok(u) && is_listed(u.deep_view(), h.username),
    ensures
        ({
            let h1 = apply_all(h, enroll_plan(h, users, tokens, deps, keygen_ok).0);
            let h2 = apply_all(h1, revoke_plan(h1, users2).0);
            &&& revoke_plan(h1, users2).1 is Ok
            &&& enrolled_status(h2) == Ok::<bool, YubiError>(false)
            &&& h2.sudo == h.sudo
            &&& h2.gdm == h.gdm
        }),
{
    let h1 = apply_all(h, enroll_plan(h, users, tokens, deps, keygen_ok).0);
    enroll_then_enrolled(h, users, tokens, deps, keygen_ok);
    lemma_enroll_effects(h, users, tokens, deps, keygen_ok);
    assert(h1.username == h.username);
    lemma_revoke_effects(h1);
}

/// Ensuring the marker in a PAM file a second time leaves the host as the
/// first time left it.
pub proof fn ensure_marker_idempotent(h: HostView, f: PamFile)
    ensures
        apply(apply(h, Effect::EnsureMarker(f)), Effect::EnsureMarker(f)) == apply(
            h,
            Effect::EnsureMarker(f),
        ),
{
    if let Some(t) = h.file(f) {
        ensure_line_idempotent(t, pam_marker());
        let once = apply(h, Effect::EnsureMarker(f));
        assert(once.file(f) == Some(ensured(t, pam_marker())));
        assert(once.with_file(f, Some(ensured(ensured(t, pam_marker()), pam_marker()))) == once);
    }
}

/// Revoking for a listed user who is not enrolled fails with `NotEnrolled`
/// and records nothing.
pub proof fn revoke_unenrolled_fails(h: HostView, users: Result<Vec<String>, YubiError>)
    requires
        users matches Ok(u) && is_listed(u.deep_view(), h.username),
        enrolled_status(h) == Ok::<bool, YubiError>(false),
    ensures
        revoke_plan(h, users) == (Seq::<Effect>::empty(), Err::<(), YubiError>(YubiError::NotEnrolled)),
{
}

} // verus!
