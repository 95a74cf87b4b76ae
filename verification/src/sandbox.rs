//! The per-spawn sandbox: limit installation in the child, stdio
//! plumbing, and result harvesting in the parent.
//!
//! Forking itself cannot be expressed in verified code, so the embedding
//! program forks and calls [`child_setup`] on the child side of the
//! fork, before replacing the image; on the parent side it wraps the
//! child's pid in a [`ChildHandle`].

use vstd::prelude::*;
use crate::error::{JudgeCoreError, SyscallKind};
use crate::limits::ResourceLimitConfig;
use crate::limits::apply_rlimit_config;
use crate::sys::{ChildUsage, WaitOutcome, sys_child_rusage, sys_close, sys_dup2, sys_waitpid};
use crate::verdict::RawRunResultInfo;

verus! {

/// A spawned child that the parent has not yet waited for.
///
/// The handle is not copyable and [`wait_child`] consumes it, so for
/// every spawn that produced a handle at most one wait can complete; a
/// handle that is dropped without being waited for cannot be waited for
/// later by anyone else through this interface.
pub struct ChildHandle {
    pub pid: i32,
}

/// Prepares the current process, between fork and exec, to run the
/// target: installs every present resource cap, then duplicates the
/// given descriptors onto standard input and standard output and closes
/// the originals.  A configuration with soft above hard is rejected as
/// `InvalidArgument` before anything is installed.  On any error the
/// caller must terminate with the reserved pre-exec status instead of
/// continuing.
pub fn child_setup(limits: &ResourceLimitConfig, stdin_fd: i32, stdout_fd: i32) -> (r: Result<
    (),
    JudgeCoreError,
>)
    ensures
        r matches Ok(u) ==> limits.wf(),
        !limits.wf() ==> r == Err::<(), JudgeCoreError>(JudgeCoreError::InvalidArgument),
        r == Err::<(), JudgeCoreError>(JudgeCoreError::InvalidArgument) ==> !limits.wf(),
        r matches Err(e) ==> e == JudgeCoreError::InvalidArgument || e matches JudgeCoreError::Syscall {
            call: SyscallKind::Setrlimit,
            ..
        } || e matches JudgeCoreError::Syscall { call: SyscallKind::Dup2, .. },
{
    match apply_rlimit_config(limits) {
        Ok(()) => (),
        Err(e) => { return Err(e); },
    }
    match sys_dup2(stdin_fd, 0) {
        Ok(_) => (),
        Err(errno) => { return Err(JudgeCoreError::Syscall { call: SyscallKind::Dup2, errno }); },
    }
    match sys_dup2(stdout_fd, 1) {
        Ok(_) => (),
        Err(errno) => { return Err(JudgeCoreError::Syscall { call: SyscallKind::Dup2, errno }); },
    }
    if stdin_fd > 2 {
        let _ = sys_close(stdin_fd);
    }
    if stdout_fd > 2 && stdout_fd != stdin_fd {
        let _ = sys_close(stdout_fd);
    }
    Ok(())
}

/// A kernel-reported count below zero is treated as zero; anything
/// else is kept as it is.
pub open spec fn spec_clamp_nonneg(value: i64) -> u64 {
    if value >= 0 {
        value as u64
    } else {
        0
    }
}

fn clamp_to_u64(value: i64) -> (r: u64)
    ensures
        r == spec_clamp_nonneg(value),
{
    if value < 0 {
        0
    } else {
        value as u64
    }
}

fn usage_to_raw(status: i32, signal: Option<i32>, usage: &ChildUsage) -> (r: RawRunResultInfo)
    ensures
        r.exit_status == status,
        r.exit_signal == signal,
        r.user_time_sec == spec_clamp_nonneg(usage.user_sec),
        r.user_time_usec == spec_clamp_nonneg(usage.user_usec),
        r.system_time_sec == spec_clamp_nonneg(usage.system_sec),
        r.system_time_usec == spec_clamp_nonneg(usage.system_usec),
        r.max_rss_kb == spec_clamp_nonneg(usage.max_rss_kb),
{
    RawRunResultInfo {
        exit_status: status,
        exit_signal: signal,
        user_time_sec: clamp_to_u64(usage.user_sec),
        user_time_usec: clamp_to_u64(usage.user_usec),
        system_time_sec: clamp_to_u64(usage.system_sec),
        system_time_usec: clamp_to_u64(usage.system_usec),
        max_rss_kb: clamp_to_u64(usage.max_rss_kb),
    }
}

/// Blocks until the child terminates and harvests its raw accounting:
/// exit status or terminating signal from the wait, CPU times and peak
/// resident set from the children's resource usage.  Consumes the
/// handle, so the same spawn cannot be waited for twice.  In a result a
/// terminating signal excludes a meaningful exit status, which is then
/// reported as zero.
pub fn wait_child(handle: ChildHandle) -> (r: Result<RawRunResultInfo, JudgeCoreError>)
    ensures
        r matches Ok(raw) ==> (raw.exit_signal is Some ==> raw.exit_status == 0),
        r matches Ok(raw) ==> (raw.exit_signal matches Some(sig) ==> sig >= 1),
        r matches Ok(raw) ==> (raw.exit_signal is None ==> 0 <= raw.exit_status <= 255),
        r matches Err(e) ==> e matches JudgeCoreError::Syscall { call: SyscallKind::Wait, .. }
            || e matches JudgeCoreError::Syscall { call: SyscallKind::Rusage, .. } || e
            == JudgeCoreError::SystemError,
{
    let outcome = match sys_waitpid(handle.pid) {
        Ok(w) => w,
        Err(errno) => {
            return Err(JudgeCoreError::Syscall { call: SyscallKind::Wait, errno });
        },
    };
    let (status, signal) = match outcome {
        WaitOutcome::Exited(code) => (code, None),
        WaitOutcome::Signaled(sig) => (0, Some(sig)),
        WaitOutcome::Other => { return Err(JudgeCoreError::SystemError); },
    };
    let usage = match sys_child_rusage() {
        Ok(u) => u,
        Err(errno) => {
            return Err(JudgeCoreError::Syscall { call: SyscallKind::Rusage, errno });
        },
    };
    Ok(usage_to_raw(status, signal, &usage))
}

/// Closes every descriptor in the list, ignoring close errors as the
/// teardown path must, and empties the list: after the call no
/// descriptor remains recorded as owned.
pub fn close_all(fds: &mut Vec<i32>) -> (closed: usize)
    ensures
        final(fds)@.len() == 0,
        closed == old(fds)@.len(),
{
    let total = fds.len();
    while fds.len() > 0
        decreases fds@.len(),
    {
        if let Some(fd) = fds.pop() {
            let _ = sys_close(fd);
        }
    }
    total
}

} // verus!
