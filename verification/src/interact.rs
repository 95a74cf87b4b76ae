//! The interactive judge driver: pipe topology, event classification,
//! and the multiplexed byte pump.
//!
//! Four unidirectional data pipes connect contestant, proxy and
//! interactor; two more carry a one-byte exit notification per child.
//! The proxy (the parent) owns an epoll instance registered for
//! read-readiness on its two data read ends and the two exit read ends.
//! The loop shuttles bytes between the peers, appends every observed
//! byte to the transcript, and stops when either peer's exit
//! notification fires.  Spawning the two children is the embedding
//! program's part; everything the loop decides is verified here.

use vstd::prelude::*;
use crate::error::{JudgeCoreError, SyscallKind};
use crate::sandbox::close_all;
use crate::sys::{
    ReadOutcome,
    sys_epoll_add,
    sys_epoll_create,
    sys_epoll_wait,
    sys_pipe,
    sys_read,
    sys_set_nonblocking,
    sys_write,
};

verus! {

/// The descriptors of one interactive session, named from the proxy's
/// point of view; `user_*`/`interactor_*` ends are handed to the
/// respective child.
#[derive(Clone, Copy, Debug)]
pub struct InteractPipes {
    /// Proxy reads the contestant's output here.
    pub proxy_read_user: i32,
    /// Child end: contestant's standard output.
    pub user_write_proxy: i32,
    /// Proxy reads the interactor's output here.
    pub proxy_read_interactor: i32,
    /// Child end: interactor's standard output.
    pub interactor_write_proxy: i32,
    /// Child end: contestant's standard input.
    pub user_read_proxy: i32,
    /// Proxy writes to the contestant here.
    pub proxy_write_user: i32,
    /// Child end: interactor's standard input.
    pub interactor_read_proxy: i32,
    /// Proxy writes to the interactor here.
    pub proxy_write_interactor: i32,
    /// Becomes readable when the contestant has terminated.
    pub user_exit_read: i32,
    /// Written once by the contestant's exit notifier.
    pub user_exit_write: i32,
    /// Becomes readable when the interactor has terminated.
    pub interactor_exit_read: i32,
    /// Written once by the interactor's exit notifier.
    pub interactor_exit_write: i32,
    /// The proxy's epoll instance.
    pub epoll_fd: i32,
}

impl InteractPipes {
    /// Every descriptor of the session is non-negative.
    pub open spec fn wf(self) -> bool {
        &&& self.proxy_read_user >= 0
        &&& self.user_write_proxy >= 0
        &&& self.proxy_read_interactor >= 0
        &&& self.interactor_write_proxy >= 0
        &&& self.user_read_proxy >= 0
        &&& self.proxy_write_user >= 0
        &&& self.interactor_read_proxy >= 0
        &&& self.proxy_write_interactor >= 0
        &&& self.user_exit_read >= 0
        &&& self.user_exit_write >= 0
        &&& self.interactor_exit_read >= 0
        &&& self.interactor_exit_write >= 0
        &&& self.epoll_fd >= 0
    }
}

/// What the event loop does with one ready descriptor.
#[derive(Clone, Copy, Debug, PartialEq, Eq, Structural)]
pub enum PumpAction {
    /// An exit notification: leave the loop.
    Exit,
    /// Contestant output is ready: forward it to the interactor.
    PumpUserToInteractor,
    /// Interactor output is ready: forward it to the contestant.
    PumpInteractorToUser,
    /// A descriptor the loop does not know; do nothing.
    Ignore,
}

/// The loop's decision for a ready descriptor, first matching role
/// winning: either exit notifier ends the loop, the two data read ends
/// pump, anything else is ignored.
pub open spec fn spec_classify(pipes: InteractPipes, fd: i32) -> PumpAction {
    if fd == pipes.user_exit_read || fd == pipes.interactor_exit_read {
        PumpAction::Exit
    } else if fd == pipes.proxy_read_user {
        PumpAction::PumpUserToInteractor
    } else if fd == pipes.proxy_read_interactor {
        PumpAction::PumpInteractorToUser
    } else {
        PumpAction::Ignore
    }
}

/// Decides what to do with one descriptor that epoll reported ready.
pub fn classify_ready_fd(pipes: &InteractPipes, fd: i32) -> (r: PumpAction)
    ensures
        r == spec_classify(*pipes, fd),
{
    if fd == pipes.user_exit_read || fd == pipes.interactor_exit_read {
        PumpAction::Exit
    } else if fd == pipes.proxy_read_user {
        PumpAction::PumpUserToInteractor
    } else if fd == pipes.proxy_read_interactor {
        PumpAction::PumpInteractorToUser
    } else {
        PumpAction::Ignore
    }
}

/// Puts a descriptor in non-blocking mode, so that short reads and
/// writes never stall the event loop.
pub fn set_non_blocking(fd: i32) -> (r: Result<(), JudgeCoreError>)
    ensures
        r matches Err(e) ==> e matches JudgeCoreError::Syscall { call: SyscallKind::Fcntl, .. },
{
    match sys_set_nonblocking(fd) {
        Ok(()) => Ok(()),
        Err(errno) => Err(JudgeCoreError::Syscall { call: SyscallKind::Fcntl, errno }),
    }
}

fn pipe_or_cleanup(opened: &mut Vec<i32>) -> (r: Result<(i32, i32), JudgeCoreError>)
    ensures
        r matches Ok(p) ==> p.0 >= 0 && p.1 >= 0,
        r matches Err(e) ==> e matches JudgeCoreError::Syscall { call: SyscallKind::Pipe, .. },
        r matches Err(e) ==> final(opened)@.len() == 0,
{
    match sys_pipe() {
        Ok((read_fd, write_fd)) => {
            opened.push(read_fd);
            opened.push(write_fd);
            Ok((read_fd, write_fd))
        },
        Err(errno) => {
            close_all(opened);
            Err(JudgeCoreError::Syscall { call: SyscallKind::Pipe, errno })
        },
    }
}

fn nonblock_or_cleanup(fd: i32, opened: &mut Vec<i32>) -> (r: Result<(), JudgeCoreError>)
    ensures
        r matches Err(e) ==> e matches JudgeCoreError::Syscall { call: SyscallKind::Fcntl, .. },
        r matches Err(e) ==> final(opened)@.len() == 0,
{
    match set_non_blocking(fd) {
        Ok(()) => Ok(()),
        Err(e) => {
            close_all(opened);
            Err(e)
        },
    }
}

fn epoll_add_or_cleanup(epoll_fd: i32, fd: i32, opened: &mut Vec<i32>) -> (r: Result<
    (),
    JudgeCoreError,
>)
    ensures
        r matches Err(e) ==> e matches JudgeCoreError::Syscall { call: SyscallKind::EpollCtl, .. },
        r matches Err(e) ==> final(opened)@.len() == 0,
{
    match sys_epoll_add(epoll_fd, fd) {
        Ok(()) => Ok(()),
        Err(errno) => {
            close_all(opened);
            Err(JudgeCoreError::Syscall { call: SyscallKind::EpollCtl, errno })
        },
    }
}

/// Builds the whole pipe topology of an interactive session: four data
/// pipes, the six proxy-side descriptors set non-blocking, an epoll
/// instance registered for the two data read ends and the two exit read
/// ends.  On any failure every descriptor created so far is closed
/// before the error is returned, so nothing leaks on the error path.
pub fn setup_interact() -> (r: Result<InteractPipes, JudgeCoreError>)
    ensures
        r matches Ok(p) ==> p.wf(),
        r matches Err(e) ==> e matches JudgeCoreError::Syscall { .. },
{
    let mut opened: Vec<i32> = Vec::new();
    let (proxy_read_user, user_write_proxy) = match pipe_or_cleanup(&mut opened) {
        Ok(p) => p,
        Err(e) => { return Err(e); },
    };
    let (proxy_read_interactor, interactor_write_proxy) = match pipe_or_cleanup(&mut opened) {
        Ok(p) => p,
        Err(e) => { return Err(e); },
    };
    let (user_read_proxy, proxy_write_user) = match pipe_or_cleanup(&mut opened) {
        Ok(p) => p,
        Err(e) => { return Err(e); },
    };
    let (interactor_read_proxy, proxy_write_interactor) = match pipe_or_cleanup(&mut opened) {
        Ok(p) => p,
        Err(e) => { return Err(e); },
    };
    match nonblock_or_cleanup(proxy_read_user, &mut opened) {
        Ok(()) => (),
        Err(e) => { return Err(e); },
    }
    match nonblock_or_cleanup(proxy_read_interactor, &mut opened) {
        Ok(()) => (),
        Err(e) => { return Err(e); },
    }
    match nonblock_or_cleanup(proxy_write_user, &mut opened) {
        Ok(()) => (),
        Err(e) => { return Err(e); },
    }
    match nonblock_or_cleanup(proxy_write_interactor, &mut opened) {
        Ok(()) => (),
        Err(e) => { return Err(e); },
    }
    let epoll_fd = match sys_epoll_create() {
        Ok(fd) => {
            opened.push(fd);
            fd
        },
        Err(errno) => {
            close_all(&mut opened);
            return Err(JudgeCoreError::Syscall { call: SyscallKind::EpollCreate, errno });
        },
    };
    match epoll_add_or_cleanup(epoll_fd, proxy_read_user, &mut opened) {
        Ok(()) => (),
        Err(e) => { return Err(e); },
    }
    match epoll_add_or_cleanup(epoll_fd, proxy_read_interactor, &mut opened) {
        Ok(()) => (),
        Err(e) => { return Err(e); },
    }
    let (user_exit_read, user_exit_write) = match pipe_or_cleanup(&mut opened) {
        Ok(p) => p,
        Err(e) => { return Err(e); },
    };
    let (interactor_exit_read, interactor_exit_write) = match pipe_or_cleanup(&mut opened) {
        Ok(p) => p,
        Err(e) => { return Err(e); },
    };
    match nonblock_or_cleanup(user_exit_read, &mut opened) {
        Ok(()) => (),
        Err(e) => { return Err(e); },
    }
    match nonblock_or_cleanup(interactor_exit_read, &mut opened) {
        Ok(()) => (),
        Err(e) => { return Err(e); },
    }
    match epoll_add_or_cleanup(epoll_fd, user_exit_read, &mut opened) {
        Ok(()) => (),
        Err(e) => { return Err(e); },
    }
    match epoll_add_or_cleanup(epoll_fd, interactor_exit_read, &mut opened) {
        Ok(()) => (),
        Err(e) => { return Err(e); },
    }
    Ok(
        InteractPipes {
            proxy_read_user,
            user_write_proxy,
            proxy_read_interactor,
            interactor_write_proxy,
            user_read_proxy,
            proxy_write_user,
            interactor_read_proxy,
            proxy_write_interactor,
            user_exit_read,
            user_exit_write,
            interactor_exit_read,
            interactor_exit_write,
            epoll_fd,
        },
    )
}

/// All thirteen descriptors of the session, each exactly once and in
/// declaration order, for teardown with [`close_all`].
pub fn interact_fd_list(pipes: &InteractPipes) -> (r: Vec<i32>)
    ensures
        r@.len() == 13,
        r@[0] == pipes.proxy_read_user,
        r@[1] == pipes.user_write_proxy,
        r@[2] == pipes.proxy_read_interactor,
        r@[3] == pipes.interactor_write_proxy,
        r@[4] == pipes.user_read_proxy,
        r@[5] == pipes.proxy_write_user,
        r@[6] == pipes.interactor_read_proxy,
        r@[7] == pipes.proxy_write_interactor,
        r@[8] == pipes.user_exit_read,
        r@[9] == pipes.user_exit_write,
        r@[10] == pipes.interactor_exit_read,
        r@[11] == pipes.interactor_exit_write,
        r@[12] == pipes.epoll_fd,
{
    let mut fds: Vec<i32> = Vec::new();
    fds.push(pipes.proxy_read_user);
    fds.push(pipes.user_write_proxy);
    fds.push(pipes.proxy_read_interactor);
    fds.push(pipes.interactor_write_proxy);
    fds.push(pipes.user_read_proxy);
    fds.push(pipes.proxy_write_user);
    fds.push(pipes.interactor_read_proxy);
    fds.push(pipes.proxy_write_interactor);
    fds.push(pipes.user_exit_read);
    fds.push(pipes.user_exit_write);
    fds.push(pipes.interactor_exit_read);
    fds.push(pipes.interactor_exit_write);
    fds.push(pipes.epoll_fd);
    fds
}

fn fill_buffer() -> (r: Vec<u8>)
    ensures
        r@.len() == 1024,
{
    let mut buf: Vec<u8> = Vec::new();
    let mut k: usize = 0;
    while k < 1024
        invariant
            buf@.len() == k,
            k <= 1024,
        decreases 1024 - k,
    {
        buf.push(0u8);
        k += 1;
    }
    buf
}

/// Forwards the first `n` bytes of a freshly read chunk to the peer —
/// best-effort, since the peer's backpressure is its own problem — and
/// appends exactly those bytes, in order, to the transcript.  Every
/// byte the pump observes passes through this contract, so the
/// transcript's new suffix is the chunk itself, not merely something of
/// its length.
pub fn relay_chunk(to: i32, buf: &Vec<u8>, n: usize, transcript: &mut Vec<u8>)
    requires
        n <= buf@.len(),
    ensures
        final(transcript)@ == old(transcript)@ + buf@.subrange(0, n as int),
{
    let _ = sys_write(to, buf.as_slice(), n);
    let ghost chunk_base = transcript@;
    let mut i: usize = 0;
    while i < n
        invariant
            i <= n,
            n <= buf@.len(),
            transcript@ == chunk_base + buf@.subrange(0, i as int),
        decreases n - i,
    {
        let byte = buf[i];
        transcript.push(byte);
        proof {
            assert(buf@.subrange(0, i as int + 1) =~= buf@.subrange(0, i as int).push(
                buf@[i as int],
            ));
        }
        i += 1;
    }
    proof {
        assert(transcript@ =~= chunk_base + buf@.subrange(0, n as int));
    }
}

/// Drains the non-blocking descriptor `from`: reads chunks until the
/// stream reports nothing more (or end of stream), and hands each chunk
/// to [`relay_chunk`], which forwards it to `to` and appends it, byte
/// for byte and in read order, to the transcript.  Returns how many
/// bytes were observed; the transcript only ever grows, by exactly that
/// count, and what was in it stays untouched.
pub fn pump_proxy_pipe(from: i32, to: i32, transcript: &mut Vec<u8>) -> (r: Result<
    usize,
    JudgeCoreError,
>)
    ensures
        final(transcript)@.len() >= old(transcript)@.len(),
        final(transcript)@.subrange(0, old(transcript)@.len() as int) == old(transcript)@,
        r matches Ok(n) ==> final(transcript)@.len() == old(transcript)@.len() + n,
        r matches Err(e) ==> e matches JudgeCoreError::Syscall { call: SyscallKind::Read, .. },
{
    let base_len = transcript.len();
    let mut buf = fill_buffer();
    // One call drains a bounded number of chunks; epoll is level
    // triggered, so leftover readiness is reported again and the next
    // call continues the drain.
    let mut budget: usize = 65536;
    while budget > 0
        invariant
            base_len == old(transcript)@.len(),
            transcript@.len() >= base_len,
            transcript@.subrange(0, base_len as int) == old(transcript)@,
            buf@.len() == 1024,
        decreases budget,
    {
        budget = budget - 1;
        match sys_read(from, &mut buf) {
            ReadOutcome::WouldBlock => {
                return Ok(transcript.len() - base_len);
            },
            ReadOutcome::Fail(errno) => {
                return Err(JudgeCoreError::Syscall { call: SyscallKind::Read, errno });
            },
            ReadOutcome::Data(n) => {
                if n == 0 {
                    return Ok(transcript.len() - base_len);
                }
                let ghost chunk_base = transcript@;
                relay_chunk(to, &buf, n, transcript);
                proof {
                    assert(transcript@.subrange(0, base_len as int) =~= chunk_base.subrange(
                        0,
                        base_len as int,
                    ));
                }
            },
        }
    }
    Ok(transcript.len() - base_len)
}

/// The interactive event loop.  Waits on the session's epoll instance;
/// a ready data end is drained into the transcript and to its peer; a
/// ready exit notification ends the loop once the current batch has
/// been drained.  On success returns the
/// descriptor that ended the loop — always one that classifies as an
/// exit notifier, so a normal return happens only because a child
/// terminated — and how many bytes came from the contestant and from
/// the interactor: together they account for every byte appended to
/// the transcript, so the capture is lossless.
pub fn interact_loop(pipes: &InteractPipes, transcript: &mut Vec<u8>) -> (r: Result<
    (i32, usize, usize),
    JudgeCoreError,
>)
    ensures
        final(transcript)@.len() >= old(transcript)@.len(),
        final(transcript)@.subrange(0, old(transcript)@.len() as int) == old(transcript)@,
        r matches Ok(session) ==> final(transcript)@.len() == old(transcript)@.len() + session.1
            + session.2,
        r matches Ok(session) ==> spec_classify(*pipes, session.0) == PumpAction::Exit,
        r matches Err(e) ==> e matches JudgeCoreError::Syscall { .. } || e
            == JudgeCoreError::SystemError,
{
    let base_len = transcript.len();
    let mut from_user: usize = 0;
    let mut from_interactor: usize = 0;
    // A defensive cap on event-loop wakeups, far beyond anything a real
    // session reaches, so the loop provably terminates.
    let mut wakeups: u64 = u64::MAX;
    while wakeups > 0
        invariant
            base_len == old(transcript)@.len(),
            transcript@.len() == base_len + from_user + from_interactor,
            transcript@.subrange(0, base_len as int) == old(transcript)@,
        decreases wakeups,
    {
        wakeups = wakeups - 1;
        let ready = match sys_epoll_wait(pipes.epoll_fd) {
            Ok(v) => v,
            Err(errno) => {
                return Err(JudgeCoreError::Syscall { call: SyscallKind::EpollWait, errno });
            },
        };
        let mut exited = false;
        let mut exit_fd: i32 = 0;
        let mut j: usize = 0;
        while j < ready.len()
            invariant
                j <= ready@.len(),
                base_len == old(transcript)@.len(),
                transcript@.len() == base_len + from_user + from_interactor,
                transcript@.subrange(0, base_len as int) == old(transcript)@,
                exited ==> spec_classify(*pipes, exit_fd) == PumpAction::Exit,
            decreases ready@.len() - j,
        {
            let fd = ready[j];
            match classify_ready_fd(pipes, fd) {
                PumpAction::Exit => {
                    // Remember the first notifier; the rest of the
                    // batch is still drained before the loop exits.
                    if !exited {
                        exited = true;
                        exit_fd = fd;
                    }
                },
                PumpAction::PumpUserToInteractor => {
                    let ghost pre = transcript@;
                    match pump_proxy_pipe(
                        pipes.proxy_read_user,
                        pipes.proxy_write_interactor,
                        transcript,
                    ) {
                        Ok(n) => {
                            // The transcript's exec length bounds the
                            // counters, so their sum cannot overflow.
                            let _len_bound = transcript.len();
                            from_user = from_user + n;
                        },
                        Err(e) => {
                            proof {
                                assert(transcript@.subrange(0, base_len as int) =~= pre.subrange(
                                    0,
                                    base_len as int,
                                ));
                            }
                            return Err(e);
                        },
                    }
                },
                PumpAction::PumpInteractorToUser => {
                    let ghost pre = transcript@;
                    match pump_proxy_pipe(
                        pipes.proxy_read_interactor,
                        pipes.proxy_write_user,
                        transcript,
                    ) {
                        Ok(n) => {
                            // Same overflow bound as for the contestant
                            // direction.
                            let _len_bound = transcript.len();
                            from_interactor = from_interactor + n;
                        },
                        Err(e) => {
                            proof {
                                assert(transcript@.subrange(0, base_len as int) =~= pre.subrange(
                                    0,
                                    base_len as int,
                                ));
                            }
                            return Err(e);
                        },
                    }
                },
                PumpAction::Ignore => {},
            }
            j += 1;
        }
        if exited {
            return Ok((exit_fd, from_user, from_interactor));
        }
    }
    Err(JudgeCoreError::SystemError)
}

} // verus!
