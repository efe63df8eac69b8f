//! The failures that the library reports.
use vstd::prelude::*;
use crate::pam::PamFile;

verus! {

/// Every failure of the enrollment workflow and of its leaf operations.
#[derive(Clone, Copy, Debug, PartialEq, Eq, Structural)]
pub enum YubiError {
    /// The package probe could not run.
    ToolUnavailable,
    /// Refreshing the package index or installing failed with this exit code.
    InstallFailed(i32),
    /// Removing packages failed with this exit code.
    RemoveFailed(i32),
    /// The USB subsystem could not be initialised.
    DeviceSubsystemUnavailable,
    /// The account database could not be read.
    AccountDatabaseUnreadable,
    /// A file could not be read or written.
    IoError,
    /// The file has no backup to restore from.
    NoBackupFound(PamFile),
    /// The user already has the hardware key enrolled.
    AlreadyEnrolled,
    /// The user is not a human account of this host.
    UnknownUser,
    /// No hardware key is attached.
    NoTokenPresent,
    /// A required package is not installed.
    MissingDependencies,
    /// The key-registration generator failed.
    KeygenFailed,
    /// The user has no hardware key enrolled.
    NotEnrolled,
}

} // verus!
