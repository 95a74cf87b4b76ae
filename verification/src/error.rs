use vstd::prelude::*;

verus! {

/// The system call that a [`JudgeCoreError::Syscall`] error came from.
#[derive(Clone, Copy, Debug, PartialEq, Eq, Structural)]
pub enum SyscallKind {
    Open,
    Close,
    Dup2,
    Pipe,
    Read,
    Write,
    Fcntl,
    EpollCreate,
    EpollCtl,
    EpollWait,
    Setrlimit,
    Wait,
    Rusage,
    Fork,
    Exec,
}

/// Error taxonomy of the judge core.
#[derive(Clone, Copy, Debug, PartialEq, Eq, Structural)]
pub enum JudgeCoreError {
    /// A filesystem open, read or write failed; carries the errno.
    Io { errno: i32 },
    /// A system call failed; carries the call and the errno.
    Syscall { call: SyscallKind, errno: i32 },
    /// Malformed input, such as a resource limit whose soft value
    /// exceeds its hard value.
    InvalidArgument,
    /// The child terminated with the reserved pre-exec status.
    ChildFailedPreExec,
    /// Unexpected termination that cannot be classified.
    SystemError,
}

} // verus!
