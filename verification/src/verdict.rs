//! Raw run accounting, the verdict classifier, and the laws it obeys.

use vstd::prelude::*;
use crate::limits::ResourceLimitConfig;

verus! {

/// Signal number delivered on Linux when a process exceeds its CPU
/// rlimit.
pub const SIGXCPU: i32 = 24;

/// Reserved exit status a child reports when it fails between fork and
/// exec; the classifier maps it to `SystemError` so that a judge failure
/// is never charged to the contestant.
pub const PRE_EXEC_FAILURE_STATUS: i32 = 166;

/// Outcome category of a judging run.
#[derive(Clone, Copy, Debug, PartialEq, Eq, Structural)]
pub enum JudgeVerdict {
    Accepted,
    WrongAnswer,
    TimeLimitExceeded,
    MemoryLimitExceeded,
    RuntimeError,
    IdlenessLimitExceeded,
    SystemError,
}

/// Raw accounting of one terminated child: exit status, terminating
/// signal if any, user and system CPU time (seconds + microseconds) and
/// peak resident set in kilobytes.
#[derive(Clone, Copy, Debug, PartialEq, Eq)]
pub struct RawRunResultInfo {
    pub exit_status: i32,
    pub exit_signal: Option<i32>,
    pub user_time_sec: u64,
    pub user_time_usec: u64,
    pub system_time_sec: u64,
    pub system_time_usec: u64,
    pub max_rss_kb: u64,
}

/// The public verdict record of one judged submission.
#[derive(Clone, Copy, Debug, PartialEq, Eq)]
pub struct JudgeResultInfo {
    pub verdict: JudgeVerdict,
    /// User CPU time of the contestant, in milliseconds.
    pub time: u64,
    /// Peak resident set of the contestant, in kilobytes.
    pub memory: u64,
    pub exit_status: i32,
    pub checker_exit_status: i32,
}

/// The contestant's user CPU seconds reached the soft CPU cap.
pub open spec fn cpu_time_exceeded(raw: RawRunResultInfo, limits: ResourceLimitConfig) -> bool {
    match limits.cpu_limit {
        Some(pair) => raw.user_time_sec >= pair.0,
        None => false,
    }
}

/// The run counts as over the time limit: killed by SIGXCPU, or user
/// time at or above the soft CPU cap.
pub open spec fn time_limit_exceeded(raw: RawRunResultInfo, limits: ResourceLimitConfig) -> bool {
    raw.exit_signal == Some(SIGXCPU) || cpu_time_exceeded(raw, limits)
}

/// The classifier's decision table for the contestant, first matching
/// row winning: time limit, then any terminating signal, then the
/// reserved pre-exec status, then any non-zero exit; a clean zero exit
/// defers to the checker and classifies as nothing here.  A child killed
/// for exhausting memory shows up as a signal and is folded into
/// `RuntimeError`.
pub open spec fn spec_check_user(raw: RawRunResultInfo, limits: ResourceLimitConfig) -> Option<
    JudgeVerdict,
> {
    if time_limit_exceeded(raw, limits) {
        Some(JudgeVerdict::TimeLimitExceeded)
    } else if raw.exit_signal is Some {
        Some(JudgeVerdict::RuntimeError)
    } else if raw.exit_status == PRE_EXEC_FAILURE_STATUS {
        Some(JudgeVerdict::SystemError)
    } else if raw.exit_status != 0 {
        Some(JudgeVerdict::RuntimeError)
    } else {
        None
    }
}

/// The classifier's decision for the checker: a signal is a judge-side
/// failure, exit zero accepts, any other exit rejects.
pub open spec fn spec_check_checker(raw: RawRunResultInfo) -> JudgeVerdict {
    if raw.exit_signal is Some {
        JudgeVerdict::SystemError
    } else if raw.exit_status == 0 {
        JudgeVerdict::Accepted
    } else {
        JudgeVerdict::WrongAnswer
    }
}

/// User CPU time in milliseconds, as an unbounded integer.
pub open spec fn spec_run_time_ms(raw: RawRunResultInfo) -> int {
    raw.user_time_sec as int * 1000 + raw.user_time_usec as int / 1000
}

/// User CPU time in milliseconds, clamped to what a u64 can hold.
pub open spec fn spec_run_time_clamped(raw: RawRunResultInfo) -> u64 {
    if spec_run_time_ms(raw) <= u64::MAX as int {
        spec_run_time_ms(raw) as u64
    } else {
        u64::MAX
    }
}

/// User CPU time of the run in milliseconds, saturating at the largest
/// representable value.
pub fn get_run_time(raw: &RawRunResultInfo) -> (r: u64)
    ensures
        r == spec_run_time_clamped(*raw),
{
    let usec_ms: u64 = raw.user_time_usec / 1000;
    if raw.user_time_sec <= (u64::MAX - usec_ms) / 1000 {
        proof {
            assert(raw.user_time_sec as int * 1000 <= ((u64::MAX - usec_ms) as int / 1000) * 1000)
                by (nonlinear_arith)
                requires
                    raw.user_time_sec as int <= (u64::MAX - usec_ms) as int / 1000,
            ;
            assert(((u64::MAX - usec_ms) as int / 1000) * 1000 <= (u64::MAX - usec_ms) as int)
                by (nonlinear_arith);
        }
        raw.user_time_sec * 1000 + usec_ms
    } else {
        proof {
            assert(((u64::MAX - usec_ms) as int / 1000) * 1000 + 1000 > (u64::MAX - usec_ms) as int)
                by (nonlinear_arith);
            assert(raw.user_time_sec as int * 1000 >= ((u64::MAX - usec_ms) as int / 1000 + 1)
                * 1000) by (nonlinear_arith)
                requires
                    raw.user_time_sec as int >= (u64::MAX - usec_ms) as int / 1000 + 1,
            ;
        }
        u64::MAX
    }
}

/// Peak resident set of the run, in kilobytes.
pub fn get_max_mem(raw: &RawRunResultInfo) -> (r: u64)
    ensures
        r == raw.max_rss_kb,
{
    raw.max_rss_kb
}

/// Classifies the contestant's raw result against the limits; `None`
/// defers the verdict to the checker.
pub fn check_user_result(raw: &RawRunResultInfo, limits: &ResourceLimitConfig) -> (r: Option<
    JudgeVerdict,
>)
    ensures
        r == spec_check_user(*raw, *limits),
{
    let signal_is_xcpu = match raw.exit_signal {
        Some(sig) => sig == SIGXCPU,
        None => false,
    };
    let over_cpu = match limits.cpu_limit {
        Some(pair) => raw.user_time_sec >= pair.0,
        None => false,
    };
    if signal_is_xcpu || over_cpu {
        Some(JudgeVerdict::TimeLimitExceeded)
    } else if raw.exit_signal.is_some() {
        Some(JudgeVerdict::RuntimeError)
    } else if raw.exit_status == PRE_EXEC_FAILURE_STATUS {
        Some(JudgeVerdict::SystemError)
    } else if raw.exit_status != 0 {
        Some(JudgeVerdict::RuntimeError)
    } else {
        None
    }
}

/// Classifies the checker's raw result.
pub fn check_checker_result(raw: &RawRunResultInfo) -> (r: JudgeVerdict)
    ensures
        r == spec_check_checker(*raw),
{
    if raw.exit_signal.is_some() {
        JudgeVerdict::SystemError
    } else if raw.exit_status == 0 {
        JudgeVerdict::Accepted
    } else {
        JudgeVerdict::WrongAnswer
    }
}

/// The verdict classifier is a pure function of the raw result and the
/// limits: equal inputs classify equally.
pub proof fn lemma_classifier_pure(
    raw_a: RawRunResultInfo,
    raw_b: RawRunResultInfo,
    limits_a: ResourceLimitConfig,
    limits_b: ResourceLimitConfig,
)
    requires
        raw_a == raw_b,
        limits_a == limits_b,
    ensures
        spec_check_user(raw_a, limits_a) == spec_check_user(raw_b, limits_b),
        spec_check_checker(raw_a) == spec_check_checker(raw_b),
{
}

/// A run over the time limit is classified TimeLimitExceeded no matter
/// how the process exited.
pub proof fn lemma_tle_precedence(raw: RawRunResultInfo, limits: ResourceLimitConfig)
    requires
        time_limit_exceeded(raw, limits),
    ensures
        spec_check_user(raw, limits) == Some(JudgeVerdict::TimeLimitExceeded),
{
}

/// The contestant phase never accepts on its own: whatever verdict it
/// yields, it is not Accepted, so acceptance can only come from the
/// checker.
pub proof fn lemma_user_phase_never_accepts(raw: RawRunResultInfo, limits: ResourceLimitConfig)
    ensures
        spec_check_user(raw, limits) != Some(JudgeVerdict::Accepted),
{
}

/// Death by any signal other than SIGXCPU, below the CPU cap,
/// classifies as RuntimeError: a child the kernel killed for exhausting
/// its address space, its stack or its file-size cap, or that crashed
/// outright, all land here.
pub proof fn lemma_signal_death_is_runtime_error(
    raw: RawRunResultInfo,
    limits: ResourceLimitConfig,
)
    requires
        raw.exit_signal is Some,
        raw.exit_signal != Some(SIGXCPU),
        !cpu_time_exceeded(raw, limits),
    ensures
        spec_check_user(raw, limits) == Some(JudgeVerdict::RuntimeError),
{
}

/// A clean but non-zero exit, below the CPU cap and other than the
/// reserved pre-exec status, classifies as RuntimeError: a contestant
/// that noticed its own fork failing under the process-count cap and
/// bailed out lands here.
pub proof fn lemma_nonzero_exit_is_runtime_error(
    raw: RawRunResultInfo,
    limits: ResourceLimitConfig,
)
    requires
        raw.exit_signal is None,
        raw.exit_status != 0,
        raw.exit_status != PRE_EXEC_FAILURE_STATUS,
        !cpu_time_exceeded(raw, limits),
    ensures
        spec_check_user(raw, limits) == Some(JudgeVerdict::RuntimeError),
{
}

} // verus!
