//! The records exchanged with callers.
use vstd::prelude::*;

verus! {

/// Which of the required tools are installed on the host.
#[derive(Clone, Copy, Debug, PartialEq, Eq, Structural)]
pub struct Dependencies {
    /// The package manager is reachable.
    pub apt: bool,
    /// The PAM module for hardware keys is installed.
    pub libpam_u2f: bool,
    /// The key-registration generator is installed.
    pub pamu2fcfg: bool,
}

impl Dependencies {
    pub open spec fn all_present(&self) -> bool {
        self.apt && self.libpam_u2f && self.pamu2fcfg
    }

    /// Whether every required tool is installed.
    pub fn all_installed(&self) -> (r: bool)
        ensures
            r == self.all_present(),
    {
        self.apt && self.libpam_u2f && self.pamu2fcfg
    }
}

/// An attached hardware key, as seen at one moment.
#[derive(Clone, Debug)]
pub struct YubiKey {
    /// A friendly name of the USB device.
    pub name: String,
    /// The bus address the device has now.
    pub usb_port: i32,
}

/// The body of a failed request.
#[derive(Clone, Debug)]
pub struct ErrorMessage {
    pub message: String,
    pub error: bool,
}

impl Default for ErrorMessage {
    fn default() -> (r: Self)
        ensures
            r.message@ == Seq::<char>::empty(),
            r.error,
    {
        ErrorMessage { message: String::new(), error: true }
    }
}

/// A request to enroll a user.
#[derive(Clone, Debug)]
pub struct YubikeyInstallRequest {
    /// The user to enroll.
    pub username: String,
}

/// The answer to a revocation.
#[derive(Clone, Debug)]
pub struct ActionResponse {
    /// The user whose key was revoked.
    pub username: String,
    /// Whether the key was revoked.
    pub yubikey_removed: bool,
}

/// The answer to an enrollment query.
#[derive(Clone, Debug)]
pub struct YubikeyStatusResponse {
    pub username: String,
    pub yubikey_installed: bool,
}

} // verus!
