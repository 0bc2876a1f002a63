use vstd::prelude::*;

verus! {

/// The kinds of failure of a launch. Each is terminal: none is retried.
#[derive(Clone, Copy, Debug, PartialEq, Eq, Structural)]
pub enum ErrorKind {
    /// An I/O operation failed.
    Io,
    /// A string from the environment or the arguments was not valid UTF-8.
    Utf8,
    /// A namespace, mount or identity system call failed.
    SyscallFailure,
    /// The process launched into the new namespaces was unsuccessful.
    UnshareExit,
    /// The requested command was unsuccessful.
    CommandExit,
    /// A relative working directory was asked for together with a chroot.
    RelativeWorkingDir,
    /// Entering the chroot directory failed.
    EnterChroot,
    /// Setting a mount point failed.
    SetMount,
    /// Changing into the working directory failed.
    EnterWorkingDir,
    /// Setting the host name of the container failed.
    SetHostName,
    /// Setting the group or user after configuring the container failed.
    SetUser,
}

} // verus!
