//! Resource-limit configuration and the rlimit applier.

use vstd::prelude::*;
use crate::error::{JudgeCoreError, SyscallKind};
use crate::sys::sys_setrlimit;

verus! {

/// A resource axis the judge constrains, mirroring the POSIX rlimit axes
/// RLIMIT_STACK, RLIMIT_AS, RLIMIT_CPU, RLIMIT_FSIZE and RLIMIT_NPROC.
#[derive(Clone, Copy, Debug, PartialEq, Eq, Structural)]
pub enum RlimitAxis {
    Stack,
    AddressSpace,
    CpuSeconds,
    FileSize,
    ProcessCount,
}

/// Soft/hard caps for the five constrained axes.  `None` leaves an axis
/// at its inherited default.  Immutable once passed to a spawn.
#[derive(Clone, Copy, Debug, PartialEq, Eq)]
pub struct ResourceLimitConfig {
    pub stack_limit: Option<(u64, u64)>,
    pub as_limit: Option<(u64, u64)>,
    pub cpu_limit: Option<(u64, u64)>,
    pub nproc_limit: Option<(u64, u64)>,
    pub fsize_limit: Option<(u64, u64)>,
}

/// A present axis is well-formed when its soft cap does not exceed its
/// hard cap.
pub open spec fn axis_wf(axis: Option<(u64, u64)>) -> bool {
    match axis {
        Some(pair) => pair.0 <= pair.1,
        None => true,
    }
}

impl ResourceLimitConfig {
    /// Every present axis has soft <= hard.
    pub open spec fn wf(self) -> bool {
        &&& axis_wf(self.stack_limit)
        &&& axis_wf(self.as_limit)
        &&& axis_wf(self.cpu_limit)
        &&& axis_wf(self.nproc_limit)
        &&& axis_wf(self.fsize_limit)
    }
}

fn axis_ok(axis: &Option<(u64, u64)>) -> (r: bool)
    ensures
        r == axis_wf(*axis),
{
    match axis {
        Some(pair) => pair.0 <= pair.1,
        None => true,
    }
}

/// Reports whether every present axis of the configuration has
/// soft <= hard.
pub fn check_rlimit_config(config: &ResourceLimitConfig) -> (r: bool)
    ensures
        r == config.wf(),
{
    axis_ok(&config.stack_limit) && axis_ok(&config.as_limit) && axis_ok(&config.cpu_limit)
        && axis_ok(&config.nproc_limit) && axis_ok(&config.fsize_limit)
}

fn apply_axis(axis: RlimitAxis, pair: &Option<(u64, u64)>) -> (r: Result<(), JudgeCoreError>)
    ensures
        r matches Err(e) ==> e matches JudgeCoreError::Syscall {
            call: SyscallKind::Setrlimit,
            ..
        },
        pair is None ==> r == Ok::<(), JudgeCoreError>(()),
{
    match pair {
        Some(p) => {
            match sys_setrlimit(axis, p.0, p.1) {
                Ok(()) => Ok(()),
                Err(errno) => Err(JudgeCoreError::Syscall { call: SyscallKind::Setrlimit, errno }),
            }
        },
        None => Ok(()),
    }
}

/// Installs every present axis of the configuration on the calling
/// process, in the order stack, address space, CPU seconds, process
/// count, file size.  A configuration with a soft cap above a hard cap
/// is rejected as `InvalidArgument` before any axis is installed; after
/// that, only the setrlimit call itself can fail, so a configuration
/// that constrains nothing must succeed.
pub fn apply_rlimit_config(config: &ResourceLimitConfig) -> (r: Result<(), JudgeCoreError>)
    ensures
        r matches Ok(u) ==> config.wf(),
        !config.wf() ==> r == Err::<(), JudgeCoreError>(JudgeCoreError::InvalidArgument),
        r == Err::<(), JudgeCoreError>(JudgeCoreError::InvalidArgument) ==> !config.wf(),
        r matches Err(e) ==> e == JudgeCoreError::InvalidArgument || e matches JudgeCoreError::Syscall {
            call: SyscallKind::Setrlimit,
            ..
        },
        (config.stack_limit is None && config.as_limit is None && config.cpu_limit is None
            && config.nproc_limit is None && config.fsize_limit is None) ==> r == Ok::<
            (),
            JudgeCoreError,
        >(()),
{
    if !check_rlimit_config(config) {
        return Err(JudgeCoreError::InvalidArgument);
    }
    match apply_axis(RlimitAxis::Stack, &config.stack_limit) {
        Ok(()) => (),
        Err(e) => { return Err(e); },
    }
    match apply_axis(RlimitAxis::AddressSpace, &config.as_limit) {
        Ok(()) => (),
        Err(e) => { return Err(e); },
    }
    match apply_axis(RlimitAxis::CpuSeconds, &config.cpu_limit) {
        Ok(()) => (),
        Err(e) => { return Err(e); },
    }
    match apply_axis(RlimitAxis::ProcessCount, &config.nproc_limit) {
        Ok(()) => (),
        Err(e) => { return Err(e); },
    }
    match apply_axis(RlimitAxis::FileSize, &config.fsize_limit) {
        Ok(()) => (),
        Err(e) => { return Err(e); },
    }
    Ok(())
}

} // verus!
