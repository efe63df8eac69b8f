use yubigoblin::error::YubiError;
use yubigoblin::models::Dependencies;
use yubigoblin::packages::{
    check_dependencies, get_packages, install_status, packages_to_install, packages_to_remove,
    remove_status,
};

#[test]
fn get_packages_keeps_wanted_and_missing() {
    let desired = vec![(true, false, "a"), (true, true, "b"), (false, false, "c"), (true, false, "d")];
    assert_eq!(get_packages(desired), vec!["a", "d"]);
}

#[test]
fn install_list_follows_request() {
    let posted = Dependencies { apt: true, libpam_u2f: true, pamu2fcfg: true };
    let current = Dependencies { apt: true, libpam_u2f: false, pamu2fcfg: false };
    assert_eq!(packages_to_install(&posted, &current), vec!["libpam-u2f", "pamu2fcfg"]);
    let none = Dependencies { apt: false, libpam_u2f: false, pamu2fcfg: false };
    assert!(packages_to_install(&none, &current).is_empty());
}

#[test]
fn remove_list_is_installed_optional_packages() {
    let current = Dependencies { apt: true, libpam_u2f: true, pamu2fcfg: false };
    assert_eq!(packages_to_remove(&current), vec!["libpam-u2f"]);
    let all = Dependencies { apt: true, libpam_u2f: true, pamu2fcfg: true };
    assert_eq!(packages_to_remove(&all), vec!["libpam-u2f", "pamu2fcfg"]);
}

#[test]
fn dependency_report_needs_every_probe() {
    assert_eq!(
        check_dependencies(Some(true), Some(false), Some(true)),
        Ok(Dependencies { apt: true, libpam_u2f: false, pamu2fcfg: true })
    );
    assert_eq!(check_dependencies(Some(true), None, Some(true)), Err(YubiError::ToolUnavailable));
}

#[test]
fn exit_codes_decide_package_steps() {
    assert_eq!(install_status(Some(0)), Ok(()));
    assert_eq!(install_status(Some(100)), Err(YubiError::InstallFailed(100)));
    assert_eq!(install_status(None), Err(YubiError::InstallFailed(-1)));
    assert_eq!(remove_status(Some(0)), Ok(()));
    assert_eq!(remove_status(Some(1)), Err(YubiError::RemoveFailed(1)));
}
