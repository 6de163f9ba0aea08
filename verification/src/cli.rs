//! The command surface, as plain data.
//!
//! A front end parses the command line, resolves its defaults, parses
//! every `--mount` argument, and hands one of these values to the
//! orchestration layer.  Presentation — flag names, help text, shell
//! completion installation — stays with the front end.

use vstd::prelude::*;

use crate::mount_spec::MountDescriptor;

verus! {

/// A whole invocation: the one command it carries.
#[derive(Debug)]
pub struct Args {
    /// The command to run.
    pub command: Command,
}

/// The commands of the orchestration layer.
#[derive(Debug)]
pub enum Command {
    /// Manage shell completions.
    Completions {
        /// What to do about completions.
        command: CompletionsCommand,
    },
    /// Initialise a new agent filesystem instance.
    Init {
        /// The identity; generated when absent.
        id: Option<String>,
        /// Overwrite an existing instance.
        force: bool,
        /// Host directory to overlay, for an overlay instance.
        base: Option<String>,
    },
    /// Read-only filesystem operations.
    Fs {
        /// The query to run.
        command: FsCommand,
    },
    /// Run a command inside a sandbox built from bind mounts.
    Run {
        /// The mounts, in declaration order.
        mounts: Vec<MountDescriptor>,
        /// Emit one diagnostic line per intercepted system call.
        strace: bool,
        /// The command to execute.
        command: String,
        /// The command's arguments.
        args: Vec<String>,
    },
    /// Mount an agent filesystem through FUSE.
    Mount {
        /// Agent identity or store path.
        id_or_path: String,
        /// Host directory to mount at.
        mountpoint: String,
        /// Unmount when the owning process terminates.
        auto_unmount: bool,
        /// Let the root user access the mount.
        allow_root: bool,
        /// Block until unmounted instead of daemonising.
        foreground: bool,
        /// Reported owner of every file.
        uid: Option<u32>,
        /// Reported group of every file.
        gid: Option<u32>,
    },
}

/// The read-only queries.
#[derive(Debug)]
pub enum FsCommand {
    /// List the entries of a directory in the instance.
    Ls {
        /// Agent identity or store path.
        id_or_path: String,
        /// The directory to list; the root when not given.
        fs_path: String,
    },
    /// Print a file's contents.
    Cat {
        /// Agent identity or store path.
        id_or_path: String,
        /// The file to read.
        file_path: String,
    },
}

/// What to do about shell completions.
#[derive(Clone, Copy, Debug, PartialEq, Eq, Structural)]
pub enum CompletionsCommand {
    /// Install completions into the shell's rc file.
    Install {
        /// The shell to install for; the current shell when absent.
        shell: Option<Shell>,
    },
    /// Remove completions from the shell's rc file.
    Uninstall {
        /// The shell to uninstall for; the current shell when absent.
        shell: Option<Shell>,
    },
    /// Print instructions for installing by hand.
    Show,
}

/// The shells completions can be managed for.
#[derive(Clone, Copy, Debug, PartialEq, Eq, Structural)]
pub enum Shell {
    /// GNU Bash.
    Bash,
    /// Z shell.
    Zsh,
    /// The fish shell.
    Fish,
}

} // verus!
