use yubigoblin::devices::is_yubikey_vendor;
use yubigoblin::layout::{config_dir, home_dir, registration_path};
use yubigoblin::models::{Dependencies, ErrorMessage, YubiKey};

#[test]
fn vendor_filter() {
    assert!(is_yubikey_vendor(0x1050));
    assert!(!is_yubikey_vendor(0x046d));
}

#[test]
fn key_label_and_port() {
    let k = YubiKey::from_device(7, Some("YubiKey OTP+FIDO+CCID".to_string()));
    assert_eq!(k.name, "YubiKey OTP+FIDO+CCID");
    assert_eq!(k.usb_port, 7);
    let k = YubiKey::from_device(255, None);
    assert_eq!(k.name, "YubiKey");
    assert_eq!(k.usb_port, 255);
}

#[test]
fn error_message_default_flags_error() {
    let m = ErrorMessage::default();
    assert!(m.error);
    assert!(m.message.is_empty());
}

#[test]
fn all_installed_needs_three() {
    assert!(Dependencies { apt: true, libpam_u2f: true, pamu2fcfg: true }.all_installed());
    assert!(!Dependencies { apt: true, libpam_u2f: true, pamu2fcfg: false }.all_installed());
}

#[test]
fn key_material_paths() {
    assert_eq!(home_dir("alice"), "/home/alice");
    assert_eq!(config_dir("alice"), "/home/alice/.config/Yubico");
    assert_eq!(registration_path("alice"), "/home/alice/.config/Yubico/u2f_keys");
}
