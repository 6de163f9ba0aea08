//! The FUSE-mount lifecycle controller.
//!
//! Mounting exposes an instance at a host directory.  The controller
//! settles the reported ownership (an explicit uid/gid override, else
//! the invoking user and group — a presentation-layer override that
//! never touches stored metadata), the access and auto-unmount flags,
//! and whether the mount runs in the foreground, where the call
//! blocks until unmount, or daemonises once the mount is active.  The
//! FUSE collaborator performs the mount itself; its failures surface
//! verbatim and nothing is retried, since a blind retry risks a
//! duplicate mount.

use vstd::prelude::*;

use crate::errors::ErrorKind;

verus! {

/// A request to expose an instance at a host directory.
#[derive(Debug)]
pub struct MountHandle {
    /// The agent identity or store path being exposed.
    pub instance: String,
    /// The host directory to mount at; must exist and be a directory.
    pub mountpoint: String,
    /// Reported owner of every file, when overridden.
    pub uid: Option<u32>,
    /// Reported group of every file, when overridden.
    pub gid: Option<u32>,
    /// Unmount on process termination, however it terminates.
    pub auto_unmount: bool,
    /// Let the root user access the mount too.
    pub allow_root: bool,
    /// Block until unmounted instead of daemonising.
    pub foreground: bool,
}

/// Whether the caller waits on the mount or is handed it running.
#[derive(Clone, Copy, Debug, PartialEq, Eq, Structural)]
pub enum MountMode {
    /// The call blocks until the mount is unmounted, then returns the
    /// termination reason.
    Foreground,
    /// The controller daemonises and returns once the mount is
    /// confirmed active.
    Daemon,
}

/// What the FUSE collaborator is handed: the settled ownership and
/// lifecycle options for one mount.
#[derive(Debug)]
pub struct MountSettings {
    /// The instance being exposed.
    pub instance: String,
    /// The host directory mounted at.
    pub mountpoint: String,
    /// Reported owner of every file.
    pub uid: u32,
    /// Reported group of every file.
    pub gid: u32,
    /// Unmount on process termination.
    pub auto_unmount: bool,
    /// Let the root user access the mount.
    pub allow_root: bool,
    /// Foreground or daemon lifecycle.
    pub mode: MountMode,
}

/// Settles the options of a mount request.  The caller reports
/// whether the mountpoint exists and is a directory; anything else is
/// an invalid mountpoint.  The reported ownership defaults to the
/// invoking user and group, and the foreground flag picks the
/// lifecycle mode.
pub fn mount_plan(
    handle: MountHandle,
    invoking_uid: u32,
    invoking_gid: u32,
    mountpoint_exists: bool,
    mountpoint_is_dir: bool,
) -> (r: Result<MountSettings, ErrorKind>)
    ensures
        !(mountpoint_exists && mountpoint_is_dir) ==> r == Err::<MountSettings, ErrorKind>(
            ErrorKind::InvalidMountpoint,
        ),
        (mountpoint_exists && mountpoint_is_dir) ==> (r matches Ok(s) && s.instance@
            == handle.instance@ && s.mountpoint@ == handle.mountpoint@ && s.uid == (
        if handle.uid is Some {
            handle.uid->0
        } else {
            invoking_uid
        }) && s.gid == (if handle.gid is Some {
            handle.gid->0
        } else {
            invoking_gid
        }) && s.auto_unmount == handle.auto_unmount && s.allow_root == handle.allow_root
            && s.mode == (if handle.foreground {
            MountMode::Foreground
        } else {
            MountMode::Daemon
        })),
{
    if !(mountpoint_exists && mountpoint_is_dir) {
        return Err(ErrorKind::InvalidMountpoint);
    }
    let uid = match handle.uid {
        Some(u) => u,
        None => invoking_uid,
    };
    let gid = match handle.gid {
        Some(g) => g,
        None => invoking_gid,
    };
    let mode = if handle.foreground {
        MountMode::Foreground
    } else {
        MountMode::Daemon
    };
    Ok(
        MountSettings {
            instance: handle.instance,
            mountpoint: handle.mountpoint,
            uid,
            gid,
            auto_unmount: handle.auto_unmount,
            allow_root: handle.allow_root,
            mode,
        },
    )
}

} // verus!
