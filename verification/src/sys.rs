//! Trusted boundary to the operating system, through the `nix` crate.
//!
//! Every function here is `external_body`: its contract states only what
//! the documentation of the underlying call plainly promises, and nothing
//! about values that depend on the machine or on other processes.

use vstd::prelude::*;
use nix::errno::Errno;
use nix::fcntl::{FcntlArg, OFlag};
use nix::sys::epoll::{EpollCreateFlags, EpollEvent, EpollFlags, EpollOp};
use nix::sys::resource::{Resource, UsageWho};
use nix::sys::stat::Mode;
use nix::sys::wait::WaitStatus;
use nix::unistd::Pid;
use crate::limits::RlimitAxis;

verus! {

/// How the judge driver opens a file.
pub enum OpenMode {
    ReadOnly,
    WriteTruncate,
}

/// Outcome of one read attempt on a non-blocking descriptor.
pub enum ReadOutcome {
    /// This many bytes were placed at the front of the buffer; zero
    /// means end of stream.
    Data(usize),
    /// Nothing to read right now (EAGAIN / EWOULDBLOCK).
    WouldBlock,
    /// The read failed with this errno.
    Fail(i32),
}

/// How a waited-for child left the run queue.
pub enum WaitOutcome {
    /// Normal termination with this exit status.
    Exited(i32),
    /// Killed by this signal.
    Signaled(i32),
    /// Any other status change.
    Other,
}

/// Raw accounting of terminated children, as the kernel reports it.
pub struct ChildUsage {
    pub user_sec: i64,
    pub user_usec: i64,
    pub system_sec: i64,
    pub system_usec: i64,
    pub max_rss_kb: i64,
}

/// Relies on nix::fcntl::open: opens `path` read-only, or write-only with
/// truncation; a descriptor returned on success is non-negative.
#[verifier::external_body]
pub(crate) fn sys_open(path: &str, mode: OpenMode) -> (r: Result<i32, i32>)
    ensures
        r matches Ok(fd) ==> fd >= 0,
{
    let flags = match mode {
        OpenMode::ReadOnly => OFlag::O_RDONLY,
        OpenMode::WriteTruncate => OFlag::O_WRONLY | OFlag::O_TRUNC,
    };
    match nix::fcntl::open(path, flags, Mode::empty()) {
        Ok(fd) => Ok(fd),
        Err(e) => Err(e as i32),
    }
}

/// Relies on nix::unistd::close: releases the descriptor.
#[verifier::external_body]
pub(crate) fn sys_close(fd: i32) -> (r: Result<(), i32>)
    ensures
        r matches Err(e) ==> e != 0,
{
    match nix::unistd::close(fd) {
        Ok(()) => Ok(()),
        Err(e) => Err(e as i32),
    }
}

/// Relies on nix::unistd::dup2: duplicates `oldfd` onto `newfd`; on
/// success the returned descriptor equals `newfd`.
#[verifier::external_body]
pub(crate) fn sys_dup2(oldfd: i32, newfd: i32) -> (r: Result<i32, i32>)
    ensures
        r matches Ok(fd) ==> fd == newfd,
{
    match nix::unistd::dup2(oldfd, newfd) {
        Ok(fd) => Ok(fd),
        Err(e) => Err(e as i32),
    }
}

/// Relies on nix::unistd::pipe: creates an unnamed pipe and returns
/// (read end, write end), two distinct non-negative descriptors.
#[verifier::external_body]
pub(crate) fn sys_pipe() -> (r: Result<(i32, i32), i32>)
    ensures
        r matches Ok(p) ==> p.0 >= 0 && p.1 >= 0 && p.0 != p.1,
{
    match nix::unistd::pipe() {
        Ok((read_fd, write_fd)) => Ok((read_fd, write_fd)),
        Err(e) => Err(e as i32),
    }
}

/// Relies on nix::fcntl::fcntl with F_SETFL: puts the descriptor in
/// non-blocking mode.
#[verifier::external_body]
pub(crate) fn sys_set_nonblocking(fd: i32) -> (r: Result<(), i32>)
    ensures
        r matches Err(e) ==> e != 0,
{
    match nix::fcntl::fcntl(fd, FcntlArg::F_SETFL(OFlag::O_NONBLOCK)) {
        Ok(_) => Ok(()),
        Err(e) => Err(e as i32),
    }
}

/// Relies on nix::sys::epoll::epoll_create1: a new epoll instance whose
/// descriptor is non-negative.
#[verifier::external_body]
pub(crate) fn sys_epoll_create() -> (r: Result<i32, i32>)
    ensures
        r matches Ok(fd) ==> fd >= 0,
{
    match nix::sys::epoll::epoll_create1(EpollCreateFlags::EPOLL_CLOEXEC) {
        Ok(fd) => Ok(fd),
        Err(e) => Err(e as i32),
    }
}

/// Relies on nix::sys::epoll::epoll_ctl: registers `fd` for
/// read-readiness, with `fd` itself as the event datum.
#[verifier::external_body]
pub(crate) fn sys_epoll_add(epfd: i32, fd: i32) -> (r: Result<(), i32>)
    ensures
        r matches Err(e) ==> e != 0,
{
    let mut event = EpollEvent::new(EpollFlags::EPOLLIN, fd as u64);
    match nix::sys::epoll::epoll_ctl(epfd, EpollOp::EpollCtlAdd, fd, Some(&mut event)) {
        Ok(()) => Ok(()),
        Err(e) => Err(e as i32),
    }
}

/// Relies on nix::sys::epoll::epoll_wait with an infinite timeout: blocks
/// until at least one registered descriptor is ready and hands back the
/// datum of each ready one, at most as many as the event buffer holds.
#[verifier::external_body]
pub(crate) fn sys_epoll_wait(epfd: i32) -> (r: Result<Vec<i32>, i32>)
    ensures
        r matches Ok(v) ==> v@.len() <= 128,
{
    let mut events = [EpollEvent::empty(); 128];
    match nix::sys::epoll::epoll_wait(epfd, &mut events, -1) {
        Ok(n) => Ok(events[..n].iter().map(|e| e.data() as i32).collect()),
        Err(e) => Err(e as i32),
    }
}

/// Relies on nix::sys::resource::setrlimit: installs the soft and hard
/// cap on the given axis of the calling process.
#[verifier::external_body]
pub(crate) fn sys_setrlimit(axis: RlimitAxis, soft: u64, hard: u64) -> (r: Result<(), i32>)
    ensures
        r matches Err(e) ==> e != 0,
{
    let resource = match axis {
        RlimitAxis::Stack => Resource::RLIMIT_STACK,
        RlimitAxis::AddressSpace => Resource::RLIMIT_AS,
        RlimitAxis::CpuSeconds => Resource::RLIMIT_CPU,
        RlimitAxis::FileSize => Resource::RLIMIT_FSIZE,
        RlimitAxis::ProcessCount => Resource::RLIMIT_NPROC,
    };
    match nix::sys::resource::setrlimit(resource, soft, hard) {
        Ok(()) => Ok(()),
        Err(e) => Err(e as i32),
    }
}

/// Relies on nix::sys::wait::waitpid: blocks until the child changes
/// state.  A normal exit status fits in eight bits; a terminating signal
/// number is positive.
#[verifier::external_body]
pub(crate) fn sys_waitpid(pid: i32) -> (r: Result<WaitOutcome, i32>)
    ensures
        r matches Ok(w) ==> (w matches WaitOutcome::Exited(code) ==> 0 <= code <= 255),
        r matches Ok(w) ==> (w matches WaitOutcome::Signaled(sig) ==> sig >= 1),
{
    match nix::sys::wait::waitpid(Pid::from_raw(pid), None) {
        Ok(WaitStatus::Exited(_, code)) => Ok(WaitOutcome::Exited(code)),
        Ok(WaitStatus::Signaled(_, sig, _)) => Ok(WaitOutcome::Signaled(sig as i32)),
        Ok(_) => Ok(WaitOutcome::Other),
        Err(e) => Err(e as i32),
    }
}

/// Relies on nix::sys::resource::getrusage for RUSAGE_CHILDREN: the
/// accumulated user time, system time and peak resident set of waited-for
/// children.  The values depend on the machine, so nothing is stated of
/// them.
#[verifier::external_body]
pub(crate) fn sys_child_rusage() -> (r: Result<ChildUsage, i32>)
    ensures
        r matches Err(e) ==> e != 0,
{
    match nix::sys::resource::getrusage(UsageWho::RUSAGE_CHILDREN) {
        Ok(usage) => Ok(ChildUsage {
            user_sec: usage.user_time().tv_sec(),
            user_usec: usage.user_time().tv_usec(),
            system_sec: usage.system_time().tv_sec(),
            system_usec: usage.system_time().tv_usec(),
            max_rss_kb: usage.max_rss(),
        }),
        Err(e) => Err(e as i32),
    }
}

/// Relies on nix::unistd::read: fills the front of the buffer and
/// reports how much, leaving the buffer's length unchanged; EAGAIN and
/// EWOULDBLOCK (one value on Linux) are reported as `WouldBlock`.
#[verifier::external_body]
pub(crate) fn sys_read(fd: i32, buf: &mut Vec<u8>) -> (r: ReadOutcome)
    ensures
        final(buf)@.len() == old(buf)@.len(),
        r matches ReadOutcome::Data(n) ==> n <= old(buf)@.len(),
{
    match nix::unistd::read(fd, buf.as_mut_slice()) {
        Ok(n) => ReadOutcome::Data(n),
        Err(Errno::EAGAIN) => ReadOutcome::WouldBlock,
        Err(e) => ReadOutcome::Fail(e as i32),
    }
}

/// Relies on nix::unistd::write: writes the first `len` bytes of `data`
/// and reports how many were taken, at most `len`.
#[verifier::external_body]
pub(crate) fn sys_write(fd: i32, data: &[u8], len: usize) -> (r: Result<usize, i32>)
    requires
        len <= data@.len(),
    ensures
        r matches Ok(n) ==> n <= len,
{
    match nix::unistd::write(fd, &data[..len]) {
        Ok(n) => Ok(n),
        Err(e) => Err(e as i32),
    }
}

} // verus!
