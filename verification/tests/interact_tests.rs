use judge_core::error::{JudgeCoreError, SyscallKind};
use judge_core::interact::{
    classify_ready_fd, interact_fd_list, interact_loop, pump_proxy_pipe, relay_chunk,
    set_non_blocking, setup_interact, InteractPipes, PumpAction,
};
use judge_core::sandbox::close_all;

fn make_pipe() -> (i32, i32) {
    nix::unistd::pipe().expect("pipe must succeed")
}

fn write_bytes(fd: i32, bytes: &[u8]) {
    let n = nix::unistd::write(fd, bytes).expect("write must succeed");
    assert_eq!(n, bytes.len());
}

fn read_bytes(fd: i32, want: usize) -> Vec<u8> {
    let mut buf = vec![0u8; want + 16];
    let n = nix::unistd::read(fd, &mut buf).expect("read must succeed");
    buf.truncate(n);
    buf
}

#[test]
fn pump_relays_and_transcribes() {
    let (from_read, from_write) = make_pipe();
    let (to_read, to_write) = make_pipe();
    set_non_blocking(from_read).expect("fcntl must succeed");
    write_bytes(from_write, b"hello");
    let mut transcript: Vec<u8> = Vec::new();
    let n = pump_proxy_pipe(from_read, to_write, &mut transcript).expect("pump must succeed");
    assert_eq!(n, 5);
    assert_eq!(transcript, b"hello".to_vec());
    // The bytes really went to the peer, not just to the transcript.
    assert_eq!(read_bytes(to_read, 5), b"hello".to_vec());
    let mut fds = vec![from_read, from_write, to_read, to_write];
    close_all(&mut fds);
}

#[test]
fn pump_appends_without_touching_earlier_bytes() {
    let (from_read, from_write) = make_pipe();
    let (_to_read, to_write) = make_pipe();
    set_non_blocking(from_read).expect("fcntl must succeed");
    write_bytes(from_write, b"xyz");
    let mut transcript: Vec<u8> = b"earlier ".to_vec();
    let n = pump_proxy_pipe(from_read, to_write, &mut transcript).expect("pump must succeed");
    assert_eq!(n, 3);
    assert_eq!(transcript, b"earlier xyz".to_vec());
    let mut fds = vec![from_read, from_write, _to_read, to_write];
    close_all(&mut fds);
}

#[test]
fn pump_on_quiet_pipe_reads_nothing() {
    let (from_read, from_write) = make_pipe();
    let (_to_read, to_write) = make_pipe();
    set_non_blocking(from_read).expect("fcntl must succeed");
    let mut transcript: Vec<u8> = Vec::new();
    let n = pump_proxy_pipe(from_read, to_write, &mut transcript).expect("pump must succeed");
    assert_eq!(n, 0);
    assert!(transcript.is_empty());
    let mut fds = vec![from_read, from_write, _to_read, to_write];
    close_all(&mut fds);
}

#[test]
fn pump_stops_at_end_of_stream() {
    let (from_read, from_write) = make_pipe();
    let (_to_read, to_write) = make_pipe();
    set_non_blocking(from_read).expect("fcntl must succeed");
    write_bytes(from_write, b"hi");
    nix::unistd::close(from_write).expect("close must succeed");
    let mut transcript: Vec<u8> = Vec::new();
    let n = pump_proxy_pipe(from_read, to_write, &mut transcript).expect("pump must succeed");
    assert_eq!(n, 2);
    assert_eq!(transcript, b"hi".to_vec());
    let mut fds = vec![from_read, _to_read, to_write];
    close_all(&mut fds);
}

#[test]
fn pump_reports_read_failure() {
    let (_r, w) = make_pipe();
    let mut transcript: Vec<u8> = Vec::new();
    // Reading from the write end fails outright.
    match pump_proxy_pipe(w, w, &mut transcript) {
        Err(JudgeCoreError::Syscall {
            call: SyscallKind::Read,
            errno,
        }) => assert_ne!(errno, 0),
        other => panic!("expected a read failure, got {:?}", other),
    }
    let mut fds = vec![_r, w];
    close_all(&mut fds);
}

fn fake_pipes() -> InteractPipes {
    InteractPipes {
        proxy_read_user: 100,
        user_write_proxy: 101,
        proxy_read_interactor: 102,
        interactor_write_proxy: 103,
        user_read_proxy: 104,
        proxy_write_user: 105,
        interactor_read_proxy: 106,
        proxy_write_interactor: 107,
        user_exit_read: 108,
        user_exit_write: 109,
        interactor_exit_read: 110,
        interactor_exit_write: 111,
        epoll_fd: 112,
    }
}

#[test]
fn classification_follows_the_roles() {
    let pipes = fake_pipes();
    assert_eq!(classify_ready_fd(&pipes, 108), PumpAction::Exit);
    assert_eq!(classify_ready_fd(&pipes, 110), PumpAction::Exit);
    assert_eq!(
        classify_ready_fd(&pipes, 100),
        PumpAction::PumpUserToInteractor
    );
    assert_eq!(
        classify_ready_fd(&pipes, 102),
        PumpAction::PumpInteractorToUser
    );
    assert_eq!(classify_ready_fd(&pipes, 55), PumpAction::Ignore);
}

#[test]
fn session_pumps_then_stops_on_exit() {
    // A contestant writes, then its exit notifier fires: the loop
    // relays the bytes to the interactor, transcribes them, and stops.
    let pipes = setup_interact().expect("setup must succeed");
    write_bytes(pipes.user_write_proxy, b"abc");
    write_bytes(pipes.user_exit_write, &[41u8]);
    let mut transcript: Vec<u8> = Vec::new();
    let (ending_fd, from_user, from_interactor) =
        interact_loop(&pipes, &mut transcript).expect("loop must finish");
    assert_eq!(ending_fd, pipes.user_exit_read);
    assert_eq!(transcript.len(), from_user + from_interactor);
    assert_eq!(from_user, 3);
    assert_eq!(from_interactor, 0);
    assert_eq!(transcript, b"abc".to_vec());
    // The contestant's bytes reached the interactor's side.
    assert_eq!(read_bytes(pipes.interactor_read_proxy, 3), b"abc".to_vec());
    let mut fds = interact_fd_list(&pipes);
    assert_eq!(close_all(&mut fds), 13);
}

#[test]
fn session_stops_when_interactor_exits_early() {
    // The interactor exits at once while the contestant is mid-read:
    // the loop must terminate without hanging, with nothing captured.
    let pipes = setup_interact().expect("setup must succeed");
    write_bytes(pipes.interactor_exit_write, &[42u8]);
    let mut transcript: Vec<u8> = Vec::new();
    let (ending_fd, from_user, from_interactor) =
        interact_loop(&pipes, &mut transcript).expect("loop must finish");
    assert_eq!(ending_fd, pipes.interactor_exit_read);
    assert_eq!(from_user, 0);
    assert_eq!(from_interactor, 0);
    assert!(transcript.is_empty());
    let mut fds = interact_fd_list(&pipes);
    assert_eq!(close_all(&mut fds), 13);
}

#[test]
fn session_captures_both_directions() {
    // Both peers speak before the contestant exits: the transcript
    // holds every byte of both directions.
    let pipes = setup_interact().expect("setup must succeed");
    write_bytes(pipes.user_write_proxy, b"3 5\n");
    write_bytes(pipes.interactor_write_proxy, b"8\n");
    write_bytes(pipes.user_exit_write, &[41u8]);
    let mut transcript: Vec<u8> = Vec::new();
    let (ending_fd, from_user, from_interactor) =
        interact_loop(&pipes, &mut transcript).expect("loop must finish");
    assert_eq!(ending_fd, pipes.user_exit_read);
    assert_eq!(transcript.len(), from_user + from_interactor);
    assert_eq!(from_user, 4);
    assert_eq!(from_interactor, 2);
    let mut fds = interact_fd_list(&pipes);
    assert_eq!(close_all(&mut fds), 13);
}

#[test]
fn loop_reports_epoll_failure() {
    let mut pipes = fake_pipes();
    pipes.epoll_fd = -1;
    let mut transcript: Vec<u8> = Vec::new();
    match interact_loop(&pipes, &mut transcript) {
        Err(JudgeCoreError::Syscall {
            call: SyscallKind::EpollWait,
            errno,
        }) => assert_ne!(errno, 0),
        other => panic!("expected an epoll failure, got {:?}", other),
    }
}

#[test]
fn setup_produces_usable_descriptors() {
    let pipes = setup_interact().expect("setup must succeed");
    // Every end is a real descriptor; the data path works.
    write_bytes(pipes.proxy_write_user, b"k");
    assert_eq!(read_bytes(pipes.user_read_proxy, 1), b"k".to_vec());
    let mut fds = interact_fd_list(&pipes);
    assert_eq!(close_all(&mut fds), 13);
    assert!(fds.is_empty());
}

#[test]
fn relay_chunk_appends_exactly_the_prefix() {
    let (to_read, to_write) = make_pipe();
    let buf: Vec<u8> = b"abcdef".to_vec();
    let mut transcript: Vec<u8> = b"x".to_vec();
    relay_chunk(to_write, &buf, 3, &mut transcript);
    assert_eq!(transcript, b"xabc".to_vec());
    assert_eq!(read_bytes(to_read, 3), b"abc".to_vec());
    let mut fds = vec![to_read, to_write];
    close_all(&mut fds);
}

#[test]
fn fd_list_holds_each_descriptor_once_in_order() {
    let pipes = fake_pipes();
    let fds = interact_fd_list(&pipes);
    assert_eq!(
        fds,
        vec![100, 101, 102, 103, 104, 105, 106, 107, 108, 109, 110, 111, 112]
    );
}
