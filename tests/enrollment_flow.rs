use yubigoblin::enrollment::{
    backup_file, check_if_yubikey_is_installed_for_user, ensure_folder_location,
    ensure_line_inserted, finish_enrollment, install_yubikey_for_user, prepare_enrollment,
    remove_yubikey_for_user, restore_file_from_backup,
};
use yubigoblin::error::YubiError;
use yubigoblin::host::{Effect, HostState};
use yubigoblin::models::{Dependencies, YubiKey};
use yubigoblin::pam::PamFile;

const SUDO: &str = "#%PAM-1.0\nsession required pam_env.so\n@include common-auth\n@include common-account\n";
const GDM: &str = "#%PAM-1.0\nauth requisite pam_nologin.so\n@include common-auth\n";

fn host() -> HostState {
    HostState {
        username: "alice".to_string(),
        registration: false,
        config_dir: false,
        config_dir_other_entries: false,
        sudo: Some(SUDO.to_string()),
        sudo_backup: None,
        gdm: Some(GDM.to_string()),
        gdm_backup: None,
    }
}

fn users() -> Result<Vec<String>, YubiError> {
    Ok(vec!["bob".to_string(), "alice".to_string()])
}

fn tokens() -> Result<Vec<YubiKey>, YubiError> {
    Ok(vec![YubiKey { name: "YubiKey 5".to_string(), usb_port: 3 }])
}

fn deps() -> Result<Dependencies, YubiError> {
    Ok(Dependencies { apt: true, libpam_u2f: true, pamu2fcfg: true })
}

fn enroll(h: &mut HostState, log: &mut Vec<Effect>) -> Result<(), YubiError> {
    install_yubikey_for_user(h, log, &users(), &tokens(), &deps(), true)
}

#[test]
fn no_registration_means_not_enrolled() {
    let mut h = host();
    h.sudo = Some("auth required pam_u2f.so\n".to_string());
    h.gdm = Some("auth required pam_u2f.so\n".to_string());
    assert_eq!(check_if_yubikey_is_installed_for_user(&h), Ok(false));
    h.sudo = None;
    assert_eq!(check_if_yubikey_is_installed_for_user(&h), Ok(false));
}

#[test]
fn enroll_then_enrolled() {
    let mut h = host();
    let mut log = Vec::new();
    assert_eq!(enroll(&mut h, &mut log), Ok(()));
    assert_eq!(
        log,
        vec![
            Effect::CreateConfigDir,
            Effect::AppendRegistration,
            Effect::Backup(PamFile::Sudo),
            Effect::EnsureMarker(PamFile::Sudo),
            Effect::Backup(PamFile::GdmPassword),
            Effect::EnsureMarker(PamFile::GdmPassword),
        ]
    );
    assert_eq!(check_if_yubikey_is_installed_for_user(&h), Ok(true));
    assert_eq!(
        h.sudo.as_deref(),
        Some("#%PAM-1.0\nsession required pam_env.so\nauth required pam_u2f.so\n@include common-auth\n@include common-account\n")
    );
    assert_eq!(h.sudo_backup.as_deref(), Some(SUDO));
    assert_eq!(h.gdm_backup.as_deref(), Some(GDM));
    assert!(h.registration && h.config_dir);
}

#[test]
fn enroll_twice_fails_and_changes_nothing() {
    let mut h = host();
    let mut log = Vec::new();
    enroll(&mut h, &mut log).unwrap();
    let n = log.len();
    let sudo = h.sudo.clone();
    let gdm = h.gdm.clone();
    assert_eq!(enroll(&mut h, &mut log), Err(YubiError::AlreadyEnrolled));
    assert_eq!(log.len(), n);
    assert_eq!(h.sudo, sudo);
    assert_eq!(h.gdm, gdm);
}

#[test]
fn revoke_restores_exact_content() {
    let mut h = host();
    let mut log = Vec::new();
    enroll(&mut h, &mut log).unwrap();
    let mut rlog = Vec::new();
    assert_eq!(remove_yubikey_for_user(&mut h, &mut rlog, &users()), Ok(()));
    assert_eq!(
        rlog,
        vec![
            Effect::Restore(PamFile::Sudo),
            Effect::Restore(PamFile::GdmPassword),
            Effect::DeleteRegistration,
            Effect::PruneConfigDir,
        ]
    );
    assert_eq!(check_if_yubikey_is_installed_for_user(&h), Ok(false));
    assert_eq!(h.sudo.as_deref(), Some(SUDO));
    assert_eq!(h.gdm.as_deref(), Some(GDM));
    assert!(!h.registration);
    assert!(!h.config_dir);
}

#[test]
fn revoke_keeps_directory_with_other_entries() {
    let mut h = host();
    h.config_dir_other_entries = true;
    let mut log = Vec::new();
    enroll(&mut h, &mut log).unwrap();
    remove_yubikey_for_user(&mut h, &mut log, &users()).unwrap();
    assert!(h.config_dir);
}

#[test]
fn revoke_never_enrolled_fails_without_effects() {
    let mut h = host();
    let mut log = Vec::new();
    assert_eq!(remove_yubikey_for_user(&mut h, &mut log, &users()), Err(YubiError::NotEnrolled));
    assert!(log.is_empty());
    assert_eq!(h.sudo.as_deref(), Some(SUDO));
    assert!(h.sudo_backup.is_none());
}

#[test]
fn revoke_unknown_user_first() {
    let mut h = host();
    let mut log = Vec::new();
    let others = Ok(vec!["bob".to_string()]);
    assert_eq!(remove_yubikey_for_user(&mut h, &mut log, &others), Err(YubiError::UnknownUser));
    let broken = Err(YubiError::AccountDatabaseUnreadable);
    assert_eq!(
        remove_yubikey_for_user(&mut h, &mut log, &broken),
        Err(YubiError::AccountDatabaseUnreadable)
    );
    assert!(log.is_empty());
}

#[test]
fn revoke_without_backup_fails() {
    let mut h = host();
    h.registration = true;
    h.sudo = Some("auth required pam_u2f.so\n".to_string());
    h.gdm = Some("auth required pam_u2f.so\n".to_string());
    let mut log = Vec::new();
    assert_eq!(
        remove_yubikey_for_user(&mut h, &mut log, &users()),
        Err(YubiError::NoBackupFound(PamFile::Sudo))
    );
    assert!(log.is_empty());
    h.sudo_backup = Some(SUDO.to_string());
    assert_eq!(
        remove_yubikey_for_user(&mut h, &mut log, &users()),
        Err(YubiError::NoBackupFound(PamFile::GdmPassword))
    );
    assert_eq!(log, vec![Effect::Restore(PamFile::Sudo)]);
    assert_eq!(h.sudo.as_deref(), Some(SUDO));
}

#[test]
fn enroll_checks_in_order() {
    let mut log = Vec::new();
    let mut h = host();
    let nobody = Ok(vec!["bob".to_string()]);
    let no_keys = Ok(Vec::new());
    let missing = Ok(Dependencies { apt: true, libpam_u2f: false, pamu2fcfg: true });
    assert_eq!(
        install_yubikey_for_user(&mut h, &mut log, &nobody, &no_keys, &missing, true),
        Err(YubiError::UnknownUser)
    );
    assert_eq!(
        install_yubikey_for_user(&mut h, &mut log, &users(), &no_keys, &missing, true),
        Err(YubiError::NoTokenPresent)
    );
    assert_eq!(
        install_yubikey_for_user(&mut h, &mut log, &users(), &tokens(), &missing, true),
        Err(YubiError::MissingDependencies)
    );
    assert_eq!(
        install_yubikey_for_user(
            &mut h,
            &mut log,
            &users(),
            &Err(YubiError::DeviceSubsystemUnavailable),
            &deps(),
            true
        ),
        Err(YubiError::DeviceSubsystemUnavailable)
    );
    assert!(log.is_empty());
    assert!(!h.config_dir);
}

#[test]
fn keygen_failure_stops_after_directory() {
    let mut h = host();
    let mut log = Vec::new();
    assert_eq!(
        install_yubikey_for_user(&mut h, &mut log, &users(), &tokens(), &deps(), false),
        Err(YubiError::KeygenFailed)
    );
    assert_eq!(log, vec![Effect::CreateConfigDir]);
    assert!(!h.registration);
}

#[test]
fn unreadable_pam_file_fails_in_place() {
    let mut h = host();
    h.gdm = None;
    let mut log = Vec::new();
    assert_eq!(enroll(&mut h, &mut log), Err(YubiError::IoError));
    assert_eq!(
        log,
        vec![
            Effect::CreateConfigDir,
            Effect::AppendRegistration,
            Effect::Backup(PamFile::Sudo),
            Effect::EnsureMarker(PamFile::Sudo),
        ]
    );
}

#[test]
fn enrolled_status_reads_pam_files() {
    let mut h = host();
    h.registration = true;
    assert_eq!(check_if_yubikey_is_installed_for_user(&h), Ok(false));
    h.sudo = None;
    assert_eq!(check_if_yubikey_is_installed_for_user(&h), Err(YubiError::IoError));
}

#[test]
fn two_phase_enrollment_matches_whole() {
    let mut h = host();
    h.config_dir = true;
    let mut log = Vec::new();
    assert_eq!(prepare_enrollment(&mut h, &mut log, &users(), &tokens(), &deps()), Ok(()));
    assert!(log.is_empty());
    assert_eq!(finish_enrollment(&mut h, &mut log, true), Ok(()));
    assert_eq!(log.len(), 5);
    assert_eq!(check_if_yubikey_is_installed_for_user(&h), Ok(true));
}

#[test]
fn leaf_operations() {
    let mut h = host();
    let mut log = Vec::new();
    assert_eq!(
        restore_file_from_backup(&mut h, &mut log, PamFile::Sudo),
        Err(YubiError::NoBackupFound(PamFile::Sudo))
    );
    assert_eq!(backup_file(&mut h, &mut log, PamFile::Sudo), Ok(()));
    assert_eq!(ensure_line_inserted(&mut h, &mut log, PamFile::Sudo), Ok(()));
    let once = h.sudo.clone();
    assert_eq!(ensure_line_inserted(&mut h, &mut log, PamFile::Sudo), Ok(()));
    assert_eq!(h.sudo, once);
    assert_eq!(restore_file_from_backup(&mut h, &mut log, PamFile::Sudo), Ok(()));
    assert_eq!(h.sudo.as_deref(), Some(SUDO));
    ensure_folder_location(&mut h, &mut log);
    ensure_folder_location(&mut h, &mut log);
    assert_eq!(log.iter().filter(|e| **e == Effect::CreateConfigDir).count(), 1);
    h.gdm = None;
    assert_eq!(backup_file(&mut h, &mut log, PamFile::GdmPassword), Err(YubiError::IoError));
    assert_eq!(ensure_line_inserted(&mut h, &mut log, PamFile::GdmPassword), Err(YubiError::IoError));
}
