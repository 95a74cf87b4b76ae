//! The batch judge driver's decision phases.
//!
//! A batch run is: open input and output, spawn the contestant with its
//! standard streams plumbed to them, wait, classify; if the contestant
//! phase already yields a verdict, return it; otherwise spawn the
//! checker on the five positional arguments and combine its
//! classification with the contestant's accounting.  The spawns and the
//! wait live with the embedding program; everything decided between
//! them is here.

use vstd::prelude::*;
use crate::error::JudgeCoreError;
use crate::limits::ResourceLimitConfig;
use crate::sys::{OpenMode, sys_close, sys_open};
use crate::verdict::{
    JudgeResultInfo,
    JudgeVerdict,
    RawRunResultInfo,
    check_checker_result,
    check_user_result,
    get_max_mem,
    get_run_time,
    spec_check_checker,
    spec_check_user,
    spec_run_time_clamped,
};

verus! {

/// Everything one batch or interactive run needs: the programs, the
/// files, and the resource caps.
#[derive(Debug, Clone)]
pub struct RunnerConfig {
    pub program_path: String,
    pub checker_path: String,
    pub input_file_path: String,
    pub output_file_path: String,
    pub answer_file_path: String,
    pub check_file_path: String,
    pub rlimit_config: ResourceLimitConfig,
}

/// The contestant's own verdict record, when its raw result already
/// decides the run without the checker.
pub open spec fn spec_judge_user_phase(raw: RawRunResultInfo, limits: ResourceLimitConfig) -> Option<
    JudgeResultInfo,
> {
    match spec_check_user(raw, limits) {
        Some(v) => Some(
            JudgeResultInfo {
                verdict: v,
                time: spec_run_time_clamped(raw),
                memory: raw.max_rss_kb,
                exit_status: raw.exit_status,
                checker_exit_status: 0,
            },
        ),
        None => None,
    }
}

/// The final verdict record: the checker's classification, combined
/// with the contestant's accounting and both exit statuses.
pub open spec fn spec_judge_combine(user: RawRunResultInfo, checker: RawRunResultInfo) -> JudgeResultInfo {
    JudgeResultInfo {
        verdict: spec_check_checker(checker),
        time: spec_run_time_clamped(user),
        memory: user.max_rss_kb,
        exit_status: user.exit_status,
        checker_exit_status: checker.exit_status,
    }
}

/// Classifies the contestant's raw result.  `Some` is the finished
/// verdict record of a run the checker never sees, with a zero checker
/// exit status; `None` defers to the checker.
pub fn judge_user_phase(raw: &RawRunResultInfo, limits: &ResourceLimitConfig) -> (r: Option<
    JudgeResultInfo,
>)
    ensures
        r == spec_judge_user_phase(*raw, *limits),
{
    match check_user_result(raw, limits) {
        Some(verdict) => Some(
            JudgeResultInfo {
                verdict,
                time: get_run_time(raw),
                memory: get_max_mem(raw),
                exit_status: raw.exit_status,
                checker_exit_status: 0,
            },
        ),
        None => None,
    }
}

/// Combines the contestant's accounting with the checker's raw result
/// into the final verdict record.
pub fn judge_combine(user: &RawRunResultInfo, checker: &RawRunResultInfo) -> (r: JudgeResultInfo)
    ensures
        r == spec_judge_combine(*user, *checker),
{
    JudgeResultInfo {
        verdict: check_checker_result(checker),
        time: get_run_time(user),
        memory: get_max_mem(user),
        exit_status: user.exit_status,
        checker_exit_status: checker.exit_status,
    }
}

/// The contestant's argument vector: one conventionally empty program
/// name.
pub fn program_args() -> (r: Vec<String>)
    ensures
        r@.len() == 1,
        r@[0]@ == Seq::<char>::empty(),
{
    let mut args: Vec<String> = Vec::new();
    args.push(String::new());
    args
}

/// The checker's positional arguments, in order: program name
/// (conventionally empty), input path, contestant output path, answer
/// path, diagnostics path.
pub fn checker_args(config: &RunnerConfig) -> (r: Vec<String>)
    ensures
        r@.len() == 5,
        r@[0]@ == Seq::<char>::empty(),
        r@[1] == config.input_file_path,
        r@[2] == config.output_file_path,
        r@[3] == config.answer_file_path,
        r@[4] == config.check_file_path,
{
    let mut args: Vec<String> = Vec::new();
    args.push(String::new());
    args.push(config.input_file_path.clone());
    args.push(config.output_file_path.clone());
    args.push(config.answer_file_path.clone());
    args.push(config.check_file_path.clone());
    args
}

/// The interactor's positional arguments, in order: program name
/// (conventionally empty), input path, output path, answer path.
pub fn interactor_args(config: &RunnerConfig) -> (r: Vec<String>)
    ensures
        r@.len() == 4,
        r@[0]@ == Seq::<char>::empty(),
        r@[1] == config.input_file_path,
        r@[2] == config.output_file_path,
        r@[3] == config.answer_file_path,
{
    let mut args: Vec<String> = Vec::new();
    args.push(String::new());
    args.push(config.input_file_path.clone());
    args.push(config.output_file_path.clone());
    args.push(config.answer_file_path.clone());
    args
}

/// Opens the run's input file for reading and its output file for
/// writing with truncation, in that order, and hands back the two
/// descriptors.  If the output open fails, the already-open input
/// descriptor is closed before the error is returned, so no descriptor
/// leaks on either path.
pub fn open_judge_files(config: &RunnerConfig) -> (r: Result<(i32, i32), JudgeCoreError>)
    ensures
        r matches Ok(fds) ==> fds.0 >= 0 && fds.1 >= 0,
        r matches Err(e) ==> e matches JudgeCoreError::Io { .. },
{
    let input_fd = match sys_open(config.input_file_path.as_str(), OpenMode::ReadOnly) {
        Ok(fd) => fd,
        Err(errno) => { return Err(JudgeCoreError::Io { errno }); },
    };
    match sys_open(config.output_file_path.as_str(), OpenMode::WriteTruncate) {
        Ok(output_fd) => Ok((input_fd, output_fd)),
        Err(errno) => {
            let _ = sys_close(input_fd);
            Err(JudgeCoreError::Io { errno })
        },
    }
}

/// Acceptance comes only from the checker: the contestant phase never
/// yields Accepted, and the combined record is Accepted exactly when
/// the checker exited cleanly with status zero.
pub proof fn lemma_accepted_only_via_checker(
    user: RawRunResultInfo,
    checker: RawRunResultInfo,
    limits: ResourceLimitConfig,
)
    ensures
        spec_judge_user_phase(user, limits) matches Some(info) ==> info.verdict
            != JudgeVerdict::Accepted,
        spec_judge_combine(user, checker).verdict == JudgeVerdict::Accepted <==> (
        checker.exit_signal is None && checker.exit_status == 0),
{
}

/// Any run over the time limit ends at the contestant phase as a
/// finished TimeLimitExceeded record with a zero checker exit status,
/// whatever else the raw result holds.
pub proof fn lemma_over_time_yields_tle_record(
    raw: RawRunResultInfo,
    limits: ResourceLimitConfig,
)
    requires
        crate::verdict::time_limit_exceeded(raw, limits),
    ensures
        spec_judge_user_phase(raw, limits) matches Some(info) && info.verdict
            == JudgeVerdict::TimeLimitExceeded && info.checker_exit_status == 0,
{
}

/// When the contestant phase defers and the checker exits cleanly but
/// non-zero, the combined record is WrongAnswer and carries exactly
/// that checker exit status.
pub proof fn lemma_clean_nonzero_checker_is_wrong_answer(
    user: RawRunResultInfo,
    checker: RawRunResultInfo,
)
    requires
        checker.exit_signal is None,
        checker.exit_status != 0,
    ensures
        spec_judge_combine(user, checker).verdict == JudgeVerdict::WrongAnswer,
        spec_judge_combine(user, checker).checker_exit_status == checker.exit_status,
{
}

} // verus!
