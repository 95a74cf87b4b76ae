use judge_core::limits::ResourceLimitConfig;
use judge_core::verdict::{
    check_checker_result, check_user_result, get_max_mem, get_run_time, JudgeVerdict,
    RawRunResultInfo, PRE_EXEC_FAILURE_STATUS, SIGXCPU,
};

fn limits_cpu_1_2() -> ResourceLimitConfig {
    ResourceLimitConfig {
        stack_limit: Some((64 * 1024 * 1024, 64 * 1024 * 1024)),
        as_limit: Some((64 * 1024 * 1024, 64 * 1024 * 1024)),
        cpu_limit: Some((1, 2)),
        nproc_limit: Some((1, 1)),
        fsize_limit: Some((1024, 1024)),
    }
}

fn clean_exit(status: i32) -> RawRunResultInfo {
    RawRunResultInfo {
        exit_status: status,
        exit_signal: None,
        user_time_sec: 0,
        user_time_usec: 120_000,
        system_time_sec: 0,
        system_time_usec: 0,
        max_rss_kb: 2048,
    }
}

fn signalled(sig: i32) -> RawRunResultInfo {
    RawRunResultInfo {
        exit_status: 0,
        exit_signal: Some(sig),
        user_time_sec: 0,
        user_time_usec: 300_000,
        system_time_sec: 0,
        system_time_usec: 0,
        max_rss_kb: 4096,
    }
}

#[test]
fn clean_zero_exit_defers_to_checker() {
    let limits = limits_cpu_1_2();
    assert_eq!(check_user_result(&clean_exit(0), &limits), None);
}

#[test]
fn sigxcpu_is_time_limit_exceeded() {
    let limits = limits_cpu_1_2();
    assert_eq!(
        check_user_result(&signalled(SIGXCPU), &limits),
        Some(JudgeVerdict::TimeLimitExceeded)
    );
}

#[test]
fn user_time_at_soft_cap_is_time_limit_exceeded() {
    // CPU limit (1, 2) and 1.2 s of user time: over the limit even
    // though the process exited cleanly.
    let limits = limits_cpu_1_2();
    let raw = RawRunResultInfo {
        exit_status: 0,
        exit_signal: None,
        user_time_sec: 1,
        user_time_usec: 200_000,
        system_time_sec: 0,
        system_time_usec: 0,
        max_rss_kb: 1024,
    };
    assert_eq!(
        check_user_result(&raw, &limits),
        Some(JudgeVerdict::TimeLimitExceeded)
    );
    // The reported time is at least the 1000 ms of the cap.
    assert_eq!(get_run_time(&raw), 1200);
    assert!(get_run_time(&raw) >= 1000);
}

#[test]
fn segfault_is_runtime_error() {
    // A child that outgrew its 64 MiB address-space cap dies on a
    // signal; memory-limit exhaustion is folded into RuntimeError.
    let limits = limits_cpu_1_2();
    let mut raw = signalled(11);
    raw.max_rss_kb = 65536;
    assert_eq!(
        check_user_result(&raw, &limits),
        Some(JudgeVerdict::RuntimeError)
    );
    assert!(get_max_mem(&raw) <= 65536);
}

#[test]
fn sigxfsz_is_runtime_error() {
    // Killed for exceeding the file-size cap: signal 25 (SIGXFSZ).
    let limits = limits_cpu_1_2();
    assert_eq!(
        check_user_result(&signalled(25), &limits),
        Some(JudgeVerdict::RuntimeError)
    );
}

#[test]
fn nonzero_exit_is_runtime_error() {
    // A contestant that crashed after its fork failed under
    // nproc_limit = 1 exits non-zero.
    let limits = limits_cpu_1_2();
    assert_eq!(
        check_user_result(&clean_exit(1), &limits),
        Some(JudgeVerdict::RuntimeError)
    );
}

#[test]
fn reserved_pre_exec_status_is_system_error() {
    let limits = limits_cpu_1_2();
    assert_eq!(
        check_user_result(&clean_exit(PRE_EXEC_FAILURE_STATUS), &limits),
        Some(JudgeVerdict::SystemError)
    );
}

#[test]
fn time_limit_wins_over_exit_status() {
    // Over the CPU cap and exited non-zero: still TimeLimitExceeded.
    let limits = limits_cpu_1_2();
    let mut raw = clean_exit(3);
    raw.user_time_sec = 2;
    assert_eq!(
        check_user_result(&raw, &limits),
        Some(JudgeVerdict::TimeLimitExceeded)
    );
}

#[test]
fn no_cpu_axis_means_no_time_limit() {
    let mut limits = limits_cpu_1_2();
    limits.cpu_limit = None;
    let mut raw = clean_exit(0);
    raw.user_time_sec = 100;
    assert_eq!(check_user_result(&raw, &limits), None);
}

#[test]
fn checker_zero_exit_accepts() {
    assert_eq!(check_checker_result(&clean_exit(0)), JudgeVerdict::Accepted);
}

#[test]
fn checker_nonzero_exit_rejects() {
    assert_eq!(
        check_checker_result(&clean_exit(1)),
        JudgeVerdict::WrongAnswer
    );
}

#[test]
fn checker_killed_by_signal_is_system_error() {
    assert_eq!(
        check_checker_result(&signalled(9)),
        JudgeVerdict::SystemError
    );
}

#[test]
fn classifier_is_deterministic() {
    let limits = limits_cpu_1_2();
    let raw = signalled(SIGXCPU);
    assert_eq!(
        check_user_result(&raw, &limits),
        check_user_result(&raw, &limits)
    );
    assert_eq!(check_checker_result(&raw), check_checker_result(&raw));
}

#[test]
fn run_time_combines_seconds_and_microseconds() {
    let mut raw = clean_exit(0);
    raw.user_time_sec = 2;
    raw.user_time_usec = 345_678;
    assert_eq!(get_run_time(&raw), 2345);
}

#[test]
fn run_time_saturates_at_u64_max() {
    let mut raw = clean_exit(0);
    raw.user_time_sec = u64::MAX;
    raw.user_time_usec = 999_999;
    assert_eq!(get_run_time(&raw), u64::MAX);
}

#[test]
fn run_time_rounds_sub_millisecond_down() {
    let mut raw = clean_exit(0);
    raw.user_time_sec = 0;
    raw.user_time_usec = 999;
    assert_eq!(get_run_time(&raw), 0);
}
