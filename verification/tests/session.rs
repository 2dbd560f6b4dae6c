use async_fuse::aligned_bytes::AlignedBytes;
use async_fuse::dispatch::{
    dispatch, AbortReason, Action, ErrorReply, FsCall, Lifecycle, Reply, ReplyKind,
};
use async_fuse::errno::{ErrorName, ReplyErrno};
use async_fuse::init::{
    BackgroundLimits, InitAnswer, InitFailure, InitReply, InitStep,
};
use async_fuse::pool::BufferPool;
use async_fuse::protocol::{FuseForgetIn, FuseInitIn, Operation, Request};
use async_fuse::run::{
    failed_read, Finish, InFlight, QuitReason, ReadFailure, RetryReason, RunAction,
};
use async_fuse::session::{Session, Startup, StartupEvent, StartupFailure};
use async_fuse::target::{Os, Target, MAX_BACKGROUND};
use nix::errno::Errno;

const LINUX: Target = Target { os: Os::Linux, abi_minor: 8 };

fn session() -> Session {
    Session::new(b"/mnt/fuse".to_vec(), 7)
}

fn live() -> Lifecycle {
    Lifecycle { initialized: true, destroyed: false }
}

fn init_arg(major: u32, minor: u32) -> FuseInitIn {
    FuseInitIn { major, minor, max_readahead: 131_072, flags: 0xffff_ffff }
}

fn in_flight(bytes: &[u8], read_size: usize) -> InFlight {
    let mut buffer = AlignedBytes::new_zeroed(bytes.len(), 8);
    buffer.as_mut_slice().copy_from_slice(bytes);
    InFlight { buffer_idx: 4, buffer, read_size, fuse_fd: 7 }
}

#[test]
fn new_session_has_the_lowest_protocol() {
    let session = session();
    assert_eq!(session.dev_fd(), 7);
    assert_eq!(session.mountpoint, b"/mnt/fuse".to_vec());
    assert_eq!((session.proto_major, session.proto_minor), (7, 8));
}

#[test]
fn startup_runs_through_its_steps() {
    let path = b"mnt".to_vec();
    let full = b"/root/mnt".to_vec();
    let step = Startup::begin(path.clone());
    assert_eq!(step, Startup::CheckDirectory { mount_path: path.clone() });
    let step = step.advance(StartupEvent::DirectoryChecked { is_dir: true });
    assert_eq!(step, Startup::Canonicalize { mount_path: path });
    let step = step.advance(StartupEvent::Canonicalized { full_mount_path: Some(full.clone()) });
    assert_eq!(step, Startup::CreateFileSystem { full_mount_path: full.clone() });
    let step = step.advance(StartupEvent::FileSystemCreated { created: true });
    assert_eq!(step, Startup::Mount { full_mount_path: full.clone() });
    let step = step.advance(StartupEvent::Mounted { fuse_fd: Some(5) });
    assert_eq!(step, Startup::Up(Session::new(full, 5)));
}

#[test]
fn startup_fails_where_a_step_fails() {
    let path = b"mnt".to_vec();
    let begin = Startup::begin(path.clone());
    assert_eq!(
        begin.clone().advance(StartupEvent::DirectoryChecked { is_dir: false }),
        Startup::NotADirectory { mount_path: path.clone() }
    );
    let step = begin.advance(StartupEvent::DirectoryChecked { is_dir: true });
    assert_eq!(
        step.clone().advance(StartupEvent::Canonicalized { full_mount_path: None }),
        Startup::Failed(StartupFailure::MountPathNotFound { mount_path: path.clone() })
    );
    let step = step.advance(StartupEvent::Canonicalized { full_mount_path: Some(path) });
    assert_eq!(
        step.clone().advance(StartupEvent::FileSystemCreated { created: false }),
        Startup::Failed(StartupFailure::FileSystemNotCreated)
    );
    let step = step.advance(StartupEvent::FileSystemCreated { created: true });
    assert_eq!(
        step.advance(StartupEvent::Mounted { fuse_fd: None }),
        Startup::Failed(StartupFailure::DeviceNotMounted)
    );
}

#[test]
fn startup_does_not_mount_before_the_file_system_exists() {
    let step = Startup::begin(b"mnt".to_vec())
        .advance(StartupEvent::DirectoryChecked { is_dir: true })
        .advance(StartupEvent::Canonicalized { full_mount_path: Some(b"/mnt".to_vec()) });
    let after = step.clone().advance(StartupEvent::Mounted { fuse_fd: Some(5) });
    assert_eq!(after, step);
}

#[test]
fn destroyed_session_is_not_unmounted() {
    let session = session();
    let mut lifecycle = live();
    assert_eq!(session.path_to_unmount(&lifecycle), Some(&b"/mnt/fuse".to_vec()));
    lifecycle.note(&Action::Destroy {
        reply: Reply { kind: ReplyKind::Empty, unique: 1, fd: 7 },
    });
    assert_eq!(lifecycle, Lifecycle { initialized: true, destroyed: true });
    assert_eq!(session.path_to_unmount(&lifecycle), None);
}

#[test]
fn only_a_served_destroy_spares_the_unmount() {
    let session = session();
    let requests = [
        Operation::GetAttr,
        Operation::Interrupt,
        Operation::Forget { arg: FuseForgetIn { nlookup: 1 } },
        Operation::StatFs,
    ];
    let mut lifecycle = live();
    for operation in requests {
        let req = Request { unique: 1, nodeid: 1, operation };
        lifecycle.note(&dispatch(req, 7, &lifecycle, Os::Linux));
        assert_eq!(session.path_to_unmount(&lifecycle), Some(&b"/mnt/fuse".to_vec()));
    }
    let destroy = Request { unique: 2, nodeid: 1, operation: Operation::Destroy };
    let mut early = Lifecycle::new();
    early.note(&dispatch(destroy.clone(), 7, &early, Os::Linux));
    assert_eq!(session.path_to_unmount(&early), Some(&b"/mnt/fuse".to_vec()));
    lifecycle.note(&dispatch(destroy, 7, &lifecycle, Os::Linux));
    assert_eq!(session.path_to_unmount(&lifecycle), None);
}

#[test]
fn old_kernels_are_refused() {
    for (major, minor) in [(0, 0), (6, 99), (7, 0), (7, 7)] {
        let reply = Reply { kind: ReplyKind::Init, unique: 11, fd: 7 };
        match session().init(&init_arg(major, minor), 11, 7, LINUX) {
            InitStep::Refuse(refusal) => {
                assert_eq!(refusal.answer, ErrorReply { reply, error: ReplyErrno::Named(ErrorName::EPROTO) });
                assert_eq!(refusal.failure, InitFailure::AbiTooLow);
                assert_eq!(refusal.end(true), InitFailure::AbiTooLow);
                assert_eq!(refusal.end(false), InitFailure::ReplyNotSent);
            }
            other => panic!("{:?}", other),
        }
    }
}

#[test]
fn supported_kernels_reach_the_file_system() {
    for (major, minor) in [(7, 8), (7, 31), (8, 0), (u32::MAX, 0)] {
        assert!(matches!(
            session().init(&init_arg(major, minor), 1, 7, LINUX),
            InitStep::AskFileSystem(_)
        ));
    }
}

#[test]
fn file_system_can_refuse_the_handshake() {
    let pending = match session().init(&init_arg(7, 31), 11, 7, LINUX) {
        InitStep::AskFileSystem(pending) => pending,
        other => panic!("{:?}", other),
    };
    match pending.filesystem_init(false) {
        InitAnswer::Refuse(refusal) => {
            assert_eq!(refusal.answer.error, ReplyErrno::Named(ErrorName::ENOSYS));
            assert_eq!(refusal.answer.reply.unique, 11);
            assert_eq!(refusal.end(true), InitFailure::FileSystemInit);
        }
        other => panic!("{:?}", other),
    }
}

#[test]
fn handshake_opens_the_connection() {
    let mut session = session();
    let mut lifecycle = Lifecycle::new();
    let pending = match session.init(&init_arg(7, 31), 11, 7, LINUX) {
        InitStep::AskFileSystem(pending) => pending,
        other => panic!("{:?}", other),
    };
    let accepted = match pending.filesystem_init(true) {
        InitAnswer::Accept(accepted) => accepted,
        other => panic!("{:?}", other),
    };
    assert!(accepted.readahead_fits);
    assert_eq!(accepted.reply, Reply { kind: ReplyKind::Init, unique: 11, fd: 7 });
    assert_eq!(
        accepted.body,
        InitReply {
            major: 7,
            minor: 8,
            max_readahead: 131_072,
            flags: 1,
            background: None,
            max_write: 131_072,
            time_gran: None,
            max_pages: None,
        }
    );
    let before = session.clone();
    assert_eq!(
        session.open_connection(&mut lifecycle, &accepted, false),
        Err(InitFailure::ReplyNotSent)
    );
    assert_eq!(session, before);
    assert_eq!(lifecycle, Lifecycle::new());
    assert_eq!(session.open_connection(&mut lifecycle, &accepted, true), Ok(()));
    assert_eq!((session.proto_major, session.proto_minor), (7, 31));
    assert_eq!(lifecycle, live());
}

#[test]
fn init_reply_grows_with_the_version() {
    let limits = BackgroundLimits { max_background: 10, congestion_threshold: 100 };
    let cases = [
        (12, None, None, None),
        (13, Some(limits), None, None),
        (22, Some(limits), None, None),
        (23, Some(limits), Some(1), None),
        (27, Some(limits), Some(1), None),
        (28, Some(limits), Some(1), Some(0)),
    ];
    for (abi_minor, background, time_gran, max_pages) in cases {
        let target = Target { os: Os::MacOs, abi_minor };
        let mut arg = init_arg(7, 31);
        arg.max_readahead = 16 * 1024 * 1024 + 1;
        let pending = match session().init(&arg, 1, 7, target) {
            InitStep::AskFileSystem(pending) => pending,
            other => panic!("{:?}", other),
        };
        match pending.filesystem_init(true) {
            InitAnswer::Accept(accepted) => {
                assert!(!accepted.readahead_fits);
                assert_eq!(accepted.body.minor, abi_minor);
                assert_eq!(accepted.body.flags, 0xe000_0001);
                assert_eq!(accepted.body.max_write, 16 * 1024 * 1024);
                assert_eq!(accepted.body.background, background);
                assert_eq!(accepted.body.time_gran, time_gran);
                assert_eq!(accepted.body.max_pages, max_pages);
            }
            other => panic!("{:?}", other),
        }
    }
}

#[test]
fn reply_offers_only_what_the_kernel_offers() {
    let mut arg = init_arg(7, 31);
    arg.flags = 0xffff_fffe;
    let pending = match session().init(&arg, 1, 7, LINUX) {
        InitStep::AskFileSystem(pending) => pending,
        other => panic!("{:?}", other),
    };
    match pending.filesystem_init(true) {
        InitAnswer::Accept(accepted) => assert_eq!(accepted.body.flags, 0),
        other => panic!("{:?}", other),
    }
}

#[test]
fn read_request_is_processed_in_its_buffer() {
    let buffer = AlignedBytes::new_zeroed(64, 8);
    match session().run(4, buffer, Ok(40), &live(), Os::Linux) {
        RunAction::Process(in_flight) => {
            assert_eq!(in_flight.buffer_idx, 4);
            assert_eq!(in_flight.read_size, 40);
            assert_eq!(in_flight.fuse_fd, 7);
            assert_eq!(in_flight.request_bytes().unwrap().len(), 40);
        }
        other => panic!("{:?}", other),
    }
}

fn after_read_error(err: nix::Error, lifecycle: &Lifecycle) -> RunAction {
    session().run(6, AlignedBytes::new_zeroed(8, 8), Err(err), lifecycle, Os::Linux)
}

#[test]
fn passing_failures_are_retried() {
    let cases = [
        (Errno::ENOENT, RetryReason::OperationInterrupted),
        (Errno::EINTR, RetryReason::SystemCallInterrupted),
        (Errno::EAGAIN, RetryReason::TryAgain),
    ];
    for (errno, expected) in cases {
        match after_read_error(nix::Error::Sys(errno), &live()) {
            RunAction::Retry { reason, entry } => {
                assert_eq!(reason, expected);
                assert_eq!(entry.0, 6);
                assert_eq!(entry.1.as_slice().len(), 8);
            }
            other => panic!("{:?}", other),
        }
    }
}

#[test]
fn passing_failures_never_exhaust_the_pool() {
    let session = session();
    let mut pool = BufferPool::filled(Os::Linux);
    for n in 0..35u16 {
        let (idx, buffer) = pool.take();
        assert_eq!(idx, n % MAX_BACKGROUND);
        let errno = [Errno::ENOENT, Errno::EINTR, Errno::EAGAIN][usize::from(n) % 3];
        let read = Err(nix::Error::Sys(errno));
        match session.run(idx, buffer, read, &live(), Os::Linux) {
            RunAction::Retry { entry, .. } => pool.put_back(entry.0, entry.1),
            other => panic!("{:?}", other),
        }
    }
    assert_eq!(pool.into_ends().1.len(), usize::from(MAX_BACKGROUND));
}

#[test]
fn other_failures_end_the_run() {
    let live = live();
    let destroyed = Lifecycle { initialized: true, destroyed: true };
    assert!(matches!(
        after_read_error(nix::Error::Sys(Errno::ENODEV), &destroyed),
        RunAction::Quit(QuitReason::Unmounted)
    ));
    assert!(matches!(
        after_read_error(nix::Error::Sys(Errno::ENODEV), &live),
        RunAction::Quit(QuitReason::DeviceGone)
    ));
    assert!(matches!(
        after_read_error(nix::Error::Sys(Errno::EINVAL), &live),
        RunAction::Quit(QuitReason::Unrecoverable)
    ));
    assert!(matches!(
        after_read_error(nix::Error::InvalidUtf8, &destroyed),
        RunAction::Quit(QuitReason::Unrecoverable)
    ));
    assert_eq!(
        failed_read(Some(11), false, Os::MacOs),
        ReadFailure::Quit(QuitReason::Unrecoverable)
    );
    assert_eq!(
        failed_read(Some(35), false, Os::MacOs),
        ReadFailure::Retry(RetryReason::TryAgain)
    );
}

#[test]
fn request_bytes_are_those_read() {
    assert_eq!(in_flight(&[1, 2, 3], 2).request_bytes(), Some(&[1, 2][..]));
    assert_eq!(in_flight(&[1, 2, 3], 4).request_bytes(), None);
}

#[test]
fn bytes_past_the_read_do_not_count() {
    let fresh = in_flight(&[1, 2, 0, 0], 2);
    let used = in_flight(&[1, 2, 8, 9], 2);
    assert_eq!(fresh.request_bytes(), used.request_bytes());
    let decode = |bytes: Option<&[u8]>| {
        bytes.map(|bytes| Request {
            unique: 9,
            nodeid: bytes.iter().map(|b| u64::from(*b)).sum(),
            operation: Operation::GetAttr,
        })
    };
    assert_eq!(
        fresh.process_fuse_request(decode(fresh.request_bytes()), &live(), Os::Linux),
        used.process_fuse_request(decode(used.request_bytes()), &live(), Os::Linux)
    );
}

#[test]
fn failed_call_is_the_requests_failure() {
    let req = |operation| Request { unique: 9, nodeid: 1, operation };
    let denied = || Err(anyhow::Error::new(nix::Error::Sys(Errno::EACCES)));
    let request = in_flight(&[0], 1);
    let action = request.process_fuse_request(Some(req(Operation::GetAttr)), &live(), Os::Linux);
    match request.finish(9, action.end(denied())) {
        Finish::ReplyErrorAndAbort(answer) => {
            assert_eq!(answer.error, ReplyErrno::Number(libc::EACCES));
        }
        other => panic!("{:?}", other),
    }
    let request = in_flight(&[0], 1);
    let forget = Operation::Forget { arg: FuseForgetIn { nlookup: 1 } };
    let action = request.process_fuse_request(Some(req(forget)), &live(), Os::Linux);
    assert!(matches!(request.finish(9, action.end(denied())), Finish::ReturnBuffer((4, _))));
}

#[test]
fn illegal_request_is_given_up_on() {
    let action = in_flight(&[0], 1).process_fuse_request(None, &live(), Os::Linux);
    assert_eq!(action, Action::Abort(AbortReason::IllegalRequest));
}

#[test]
fn legal_request_is_dispatched_on_its_device() {
    let req = Request { unique: 9, nodeid: 1, operation: Operation::GetAttr };
    let action = in_flight(&[0], 1).process_fuse_request(Some(req), &live(), Os::Linux);
    assert_eq!(
        action,
        Action::Call {
            call: FsCall::GetAttr,
            reply: Some(Reply { kind: ReplyKind::Attr, unique: 9, fd: 7 }),
        }
    );
}

#[test]
fn served_request_returns_its_buffer() {
    match in_flight(&[1, 2, 3], 3).finish(9, Ok(())) {
        Finish::ReturnBuffer((idx, buffer)) => {
            assert_eq!(idx, 4);
            assert_eq!(buffer.as_slice(), &[1, 2, 3]);
        }
        other => panic!("{:?}", other),
    }
}

#[test]
fn failed_request_is_answered_with_its_error() {
    let cases = [
        (
            anyhow::Error::new(nix::Error::Sys(Errno::EACCES)),
            ReplyErrno::Number(libc::EACCES),
        ),
        (
            anyhow::Error::new(nix::Error::InvalidPath),
            ReplyErrno::Named(ErrorName::EINVAL),
        ),
        (anyhow::Error::msg("failed"), ReplyErrno::Named(ErrorName::EINVAL)),
    ];
    for (err, error) in cases {
        match in_flight(&[0], 1).finish(9, Err(err)) {
            Finish::ReplyErrorAndAbort(answer) => {
                let reply = Reply { kind: ReplyKind::Empty, unique: 9, fd: 7 };
                assert_eq!(answer, ErrorReply { reply, error });
            }
            other => panic!("{:?}", other),
        }
    }
}
