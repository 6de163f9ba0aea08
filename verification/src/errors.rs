//! The error taxonomy of the orchestration layer.
//!
//! Every failure an operation can report falls in exactly one category.
//! Each category maps to a distinct non-zero process exit code, and a
//! one-line diagnostic names the failing identity, path or specification
//! together with the category.

use vstd::prelude::*;

verus! {

/// One category per failure an orchestration operation can report.
#[derive(Clone, Copy, Debug, PartialEq, Eq, Structural)]
pub enum ErrorKind {
    /// The agent identifier is empty or holds a character outside
    /// `[A-Za-z0-9_-]`.
    InvalidIdentity,
    /// The overlay base was given but does not exist or is not a
    /// directory.
    InvalidBase,
    /// An instance with this identity already exists and no force flag
    /// was given.
    AlreadyExists,
    /// Removing an existing instance's files under force failed.
    CleanupFailed,
    /// The storage collaborator failed to create or open the instance.
    StoreOpenFailed,
    /// A mount specification token holds no `=`, or the destination is
    /// empty or escapes the sandbox root.
    MalformedMount,
    /// The `type` key of a mount specification names anything but
    /// `bind`.
    UnsupportedMountType,
    /// A bind mount specification lacks `type`, `src` or `dst`.
    IncompleteMount,
    /// A mount specification key is none of `type`, `src`, `dst`.
    UnknownMountKey,
    /// A sandbox mount's source path does not exist on the host.
    MountSourceNotFound,
    /// The FUSE collaborator reported a mount failure.
    MountFailed,
    /// The mountpoint does not exist or is not a directory.
    InvalidMountpoint,
    /// The queried path does not exist in the instance.
    NotFound,
    /// A listing was requested of a path that is not a directory.
    NotADirectory,
    /// A read was requested of a path that is a directory.
    IsADirectory,
}

/// The process exit code of each category: non-zero, and distinct
/// between categories.
pub open spec fn spec_exit_code(e: ErrorKind) -> int {
    match e {
        ErrorKind::InvalidIdentity => 1,
        ErrorKind::InvalidBase => 2,
        ErrorKind::AlreadyExists => 3,
        ErrorKind::CleanupFailed => 4,
        ErrorKind::StoreOpenFailed => 5,
        ErrorKind::MalformedMount => 6,
        ErrorKind::UnsupportedMountType => 7,
        ErrorKind::IncompleteMount => 8,
        ErrorKind::UnknownMountKey => 9,
        ErrorKind::MountSourceNotFound => 10,
        ErrorKind::MountFailed => 11,
        ErrorKind::InvalidMountpoint => 12,
        ErrorKind::NotFound => 13,
        ErrorKind::NotADirectory => 14,
        ErrorKind::IsADirectory => 15,
    }
}

/// Exit code for a failed operation; success exits with 0, which no
/// category maps to.
pub fn exit_code(e: ErrorKind) -> (r: i32)
    ensures
        r == spec_exit_code(e),
        r != 0,
{
    match e {
        ErrorKind::InvalidIdentity => 1,
        ErrorKind::InvalidBase => 2,
        ErrorKind::AlreadyExists => 3,
        ErrorKind::CleanupFailed => 4,
        ErrorKind::StoreOpenFailed => 5,
        ErrorKind::MalformedMount => 6,
        ErrorKind::UnsupportedMountType => 7,
        ErrorKind::IncompleteMount => 8,
        ErrorKind::UnknownMountKey => 9,
        ErrorKind::MountSourceNotFound => 10,
        ErrorKind::MountFailed => 11,
        ErrorKind::InvalidMountpoint => 12,
        ErrorKind::NotFound => 13,
        ErrorKind::NotADirectory => 14,
        ErrorKind::IsADirectory => 15,
    }
}

/// Exit codes separate the categories: different categories never share
/// a code, so a caller can recover the category from the code alone.
pub proof fn lemma_exit_codes_distinct(a: ErrorKind, b: ErrorKind)
    ensures
        a != b ==> spec_exit_code(a) != spec_exit_code(b),
        spec_exit_code(a) != 0,
{
}

/// The short label naming each category in diagnostics.
pub open spec fn spec_label(e: ErrorKind) -> Seq<char> {
    match e {
        ErrorKind::InvalidIdentity => "invalid agent identity"@,
        ErrorKind::InvalidBase => "invalid base directory"@,
        ErrorKind::AlreadyExists => "agent already exists"@,
        ErrorKind::CleanupFailed => "failed to remove existing instance files"@,
        ErrorKind::StoreOpenFailed => "failed to open the storage instance"@,
        ErrorKind::MalformedMount => "malformed mount specification"@,
        ErrorKind::UnsupportedMountType => "unsupported mount type"@,
        ErrorKind::IncompleteMount => "incomplete mount specification"@,
        ErrorKind::UnknownMountKey => "unknown mount specification key"@,
        ErrorKind::MountSourceNotFound => "mount source not found"@,
        ErrorKind::MountFailed => "mount failed"@,
        ErrorKind::InvalidMountpoint => "invalid mountpoint"@,
        ErrorKind::NotFound => "path not found"@,
        ErrorKind::NotADirectory => "not a directory"@,
        ErrorKind::IsADirectory => "is a directory"@,
    }
}

/// The single-line diagnostic for a failure: the category's label, then
/// the failing identity, path or specification.
pub fn diagnostic(e: ErrorKind, subject: &str) -> (r: String)
    ensures
        r@ == spec_label(e) + ": "@ + subject@,
{
    let label: &str = match e {
        ErrorKind::InvalidIdentity => "invalid agent identity",
        ErrorKind::InvalidBase => "invalid base directory",
        ErrorKind::AlreadyExists => "agent already exists",
        ErrorKind::CleanupFailed => "failed to remove existing instance files",
        ErrorKind::StoreOpenFailed => "failed to open the storage instance",
        ErrorKind::MalformedMount => "malformed mount specification",
        ErrorKind::UnsupportedMountType => "unsupported mount type",
        ErrorKind::IncompleteMount => "incomplete mount specification",
        ErrorKind::UnknownMountKey => "unknown mount specification key",
        ErrorKind::MountSourceNotFound => "mount source not found",
        ErrorKind::MountFailed => "mount failed",
        ErrorKind::InvalidMountpoint => "invalid mountpoint",
        ErrorKind::NotFound => "path not found",
        ErrorKind::NotADirectory => "not a directory",
        ErrorKind::IsADirectory => "is a directory",
    };
    let r = String::from_str(label).concat(": ").concat(subject);
    r
}

} // verus!
