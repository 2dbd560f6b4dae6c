use async_fuse::dispatch::{
    dispatch, AbortReason, Action, ErrorReply, FsCall, Lifecycle, Reply, ReplyKind,
};
use async_fuse::errno::{ErrorName, ReplyErrno};
use async_fuse::params::{
    ClockTime, ClockTimes, FileLockParam, OnClock, SetAttrParam, SinceEpoch,
};
use async_fuse::protocol::{
    FuseAccessIn, FuseBMapIn, FuseCreateIn, FuseExchangeIn, FuseFSyncIn, FuseFileLock, FuseFlushIn,
    FuseForgetIn, FuseGetXAttrIn, FuseInitIn, FuseLinkIn, FuseLockIn, FuseMkDirIn, FuseMkNodIn,
    FuseOpenIn, FuseReadIn, FuseReleaseIn, FuseRenameIn, FuseSetAttrIn, FuseSetXAttrIn,
    FuseWriteIn, Operation, Request,
};
use async_fuse::target::Os;

const FD: i32 = 7;
const UNIQUE: u64 = 42;
const NODE: u64 = 5;

fn request(operation: Operation) -> Request {
    Request { unique: UNIQUE, nodeid: NODE, operation }
}

fn act_on(operation: Operation, os: Os) -> Action {
    let live = Lifecycle { initialized: true, destroyed: false };
    dispatch(request(operation), FD, &live, os)
}

fn reply(kind: ReplyKind) -> Reply {
    Reply { kind, unique: UNIQUE, fd: FD }
}

fn call(kind: ReplyKind, call: FsCall) -> Action {
    Action::Call { call, reply: Some(reply(kind)) }
}

fn refused(error: ErrorName) -> Action {
    let error = ReplyErrno::Named(error);
    Action::Refuse(ErrorReply { reply: reply(ReplyKind::Empty), error })
}

fn name(text: &str) -> Vec<u8> {
    text.as_bytes().to_vec()
}

fn set_attr() -> FuseSetAttrIn {
    FuseSetAttrIn {
        valid: 0,
        fh: 1,
        size: 2,
        atime: 3,
        mtime: 4,
        atimensec: 5,
        mtimensec: 6,
        mode: 0o644,
        uid: 7,
        gid: 8,
        bkuptime: 9,
        chgtime: 10,
        crtime: 11,
        bkuptimensec: 12,
        chgtimensec: 13,
        crtimensec: 14,
        flags: 15,
    }
}

fn nothing_set() -> SetAttrParam {
    SetAttrParam {
        mode: None,
        u_id: None,
        g_id: None,
        size: None,
        a_time: None,
        m_time: None,
        fh: None,
        crtime: None,
        chgtime: None,
        bkuptime: None,
        flags: None,
    }
}

#[test]
fn init_is_not_dispatched() {
    let arg = FuseInitIn { major: 7, minor: 31, max_readahead: 0, flags: 0 };
    for initialized in [false, true] {
        for destroyed in [false, true] {
            let lifecycle = Lifecycle { initialized, destroyed };
            assert_eq!(
                dispatch(request(Operation::Init { arg }), FD, &lifecycle, Os::Linux),
                Action::Abort(AbortReason::AlreadyInitialized)
            );
        }
    }
}

#[test]
fn nothing_is_served_before_init() {
    let start = Lifecycle::new();
    for operation in [
        Operation::GetAttr,
        Operation::Destroy,
        Operation::Interrupt,
        Operation::IoCtl,
        Operation::Forget { arg: FuseForgetIn { nlookup: 1 } },
    ] {
        assert_eq!(dispatch(request(operation), FD, &start, Os::Linux), refused(ErrorName::EIO));
    }
}

#[test]
fn nothing_is_served_after_destroy() {
    let mut lifecycle = Lifecycle { initialized: true, destroyed: false };
    let action = dispatch(request(Operation::Destroy), FD, &lifecycle, Os::Linux);
    assert_eq!(action, Action::Destroy { reply: reply(ReplyKind::Empty) });
    lifecycle.note(&action);
    assert!(lifecycle.destroyed);
    for operation in [Operation::GetAttr, Operation::Interrupt, Operation::Poll] {
        let action = dispatch(request(operation), FD, &lifecycle, Os::Linux);
        assert_eq!(action, refused(ErrorName::EIO));
        lifecycle.note(&action);
    }
    assert!(lifecycle.destroyed);
    let again = dispatch(request(Operation::Destroy), FD, &lifecycle, Os::Linux);
    assert_eq!(again, Action::Destroy { reply: reply(ReplyKind::Empty) });
}

#[test]
fn interrupt_is_not_supported() {
    assert_eq!(act_on(Operation::Interrupt, Os::Linux), refused(ErrorName::ENOSYS));
    assert_eq!(act_on(Operation::Interrupt, Os::MacOs), refused(ErrorName::ENOSYS));
}

#[test]
fn later_operations_are_not_implemented() {
    for operation in [
        Operation::IoCtl,
        Operation::Poll,
        Operation::NotifyReply,
        Operation::BatchForget,
        Operation::FAllocate,
        Operation::ReadDirPlus,
        Operation::Rename2,
        Operation::CuseInit,
    ] {
        assert_eq!(
            act_on(operation, Os::Linux),
            Action::Abort(AbortReason::NotImplemented)
        );
    }
}

#[test]
fn forget_is_not_answered() {
    assert_eq!(
        act_on(Operation::Forget { arg: FuseForgetIn { nlookup: 3 } }, Os::Linux),
        Action::Call { call: FsCall::Forget { nlookup: 3 }, reply: None }
    );
}

#[test]
fn only_forgetting_and_releasing_cannot_fail() {
    assert!(!FsCall::Forget { nlookup: 3 }.can_fail());
    assert!(!FsCall::Release { fh: 1, flags: 0, lock_owner: 0, flush: false }.can_fail());
    assert!(!FsCall::ReleaseDir { fh: 1, flags: 0 }.can_fail());
    assert!(FsCall::GetAttr.can_fail());
    assert!(FsCall::Flush { fh: 1, lock_owner: 2 }.can_fail());
}

#[test]
fn names_and_parents_are_passed_on() {
    assert_eq!(
        act_on(Operation::Lookup { name: name("a") }, Os::Linux),
        call(ReplyKind::Entry, FsCall::Lookup { parent: NODE, name: name("a") })
    );
    assert_eq!(
        act_on(
            Operation::MkNod { arg: FuseMkNodIn { mode: 1, rdev: 2 }, name: name("a") },
            Os::Linux
        ),
        call(
            ReplyKind::Entry,
            FsCall::MkNod { parent: NODE, name: name("a"), mode: 1, rdev: 2 }
        )
    );
    assert_eq!(
        act_on(Operation::MkDir { arg: FuseMkDirIn { mode: 3 }, name: name("a") }, Os::Linux),
        call(ReplyKind::Entry, FsCall::MkDir { parent: NODE, name: name("a"), mode: 3 })
    );
    assert_eq!(
        act_on(Operation::Unlink { name: name("a") }, Os::Linux),
        call(ReplyKind::Empty, FsCall::Unlink { parent: NODE, name: name("a") })
    );
    assert_eq!(
        act_on(Operation::RmDir { name: name("a") }, Os::Linux),
        call(ReplyKind::Empty, FsCall::RmDir { parent: NODE, name: name("a") })
    );
    assert_eq!(
        act_on(Operation::SymLink { name: name("a"), link: name("/b") }, Os::Linux),
        call(
            ReplyKind::Entry,
            FsCall::SymLink { parent: NODE, name: name("a"), target: name("/b") }
        )
    );
    assert_eq!(
        act_on(
            Operation::Rename {
                arg: FuseRenameIn { newdir: 6 },
                oldname: name("a"),
                newname: name("b"),
            },
            Os::Linux
        ),
        call(
            ReplyKind::Empty,
            FsCall::Rename { parent: NODE, oldname: name("a"), newdir: 6, newname: name("b") }
        )
    );
    assert_eq!(
        act_on(Operation::Link { arg: FuseLinkIn { oldnodeid: 8 }, name: name("a") }, Os::Linux),
        call(ReplyKind::Entry, FsCall::Link { oldnodeid: 8, name: name("a") })
    );
    assert_eq!(
        act_on(
            Operation::Create { arg: FuseCreateIn { mode: 1, flags: 2 }, name: name("a") },
            Os::Linux
        ),
        call(
            ReplyKind::Create,
            FsCall::Create { parent: NODE, name: name("a"), mode: 1, flags: 2 }
        )
    );
}

#[test]
fn operations_without_arguments() {
    assert_eq!(act_on(Operation::GetAttr, Os::Linux), call(ReplyKind::Attr, FsCall::GetAttr));
    assert_eq!(act_on(Operation::ReadLink, Os::Linux), call(ReplyKind::Data, FsCall::ReadLink));
    assert_eq!(act_on(Operation::StatFs, Os::Linux), call(ReplyKind::StatFs, FsCall::StatFs));
    assert_eq!(
        act_on(Operation::GetXTimes, Os::MacOs),
        call(ReplyKind::XTimes, FsCall::GetXTimes)
    );
}

#[test]
fn files_and_directories_are_opened_and_released() {
    let open = FuseOpenIn { flags: 9 };
    assert_eq!(
        act_on(Operation::Open { arg: open }, Os::Linux),
        call(ReplyKind::Open, FsCall::Open { flags: 9 })
    );
    assert_eq!(
        act_on(Operation::OpenDir { arg: open }, Os::Linux),
        call(ReplyKind::Open, FsCall::OpenDir { flags: 9 })
    );
    for (release_flags, flush) in [(0, false), (1, true), (2, false), (3, true)] {
        let arg = FuseReleaseIn { fh: 1, flags: 2, release_flags, lock_owner: 3 };
        assert_eq!(
            act_on(Operation::Release { arg }, Os::Linux),
            call(ReplyKind::Empty, FsCall::Release { fh: 1, flags: 2, lock_owner: 3, flush })
        );
        assert_eq!(
            act_on(Operation::ReleaseDir { arg }, Os::Linux),
            call(ReplyKind::Empty, FsCall::ReleaseDir { fh: 1, flags: 2 })
        );
    }
    assert_eq!(
        act_on(Operation::Flush { arg: FuseFlushIn { fh: 1, lock_owner: 2 } }, Os::Linux),
        call(ReplyKind::Empty, FsCall::Flush { fh: 1, lock_owner: 2 })
    );
    for (fsync_flags, datasync) in [(0, false), (1, true), (2, false)] {
        let arg = FuseFSyncIn { fh: 1, fsync_flags };
        assert_eq!(
            act_on(Operation::FSync { arg }, Os::Linux),
            call(ReplyKind::Empty, FsCall::FSync { fh: 1, datasync })
        );
        assert_eq!(
            act_on(Operation::FSyncDir { arg }, Os::Linux),
            call(ReplyKind::Empty, FsCall::FSyncDir { fh: 1, datasync })
        );
    }
}

#[test]
fn reads_need_a_file_offset() {
    let last = i64::MAX as u64;
    let arg = FuseReadIn { fh: 1, offset: last, size: 3 };
    assert_eq!(
        act_on(Operation::Read { arg }, Os::Linux),
        call(ReplyKind::Data, FsCall::Read { fh: 1, offset: i64::MAX, size: 3 })
    );
    assert_eq!(
        act_on(Operation::ReadDir { arg }, Os::Linux),
        call(
            ReplyKind::Directory { size: 3 },
            FsCall::ReadDir { fh: 1, offset: i64::MAX }
        )
    );
    let arg = FuseReadIn { fh: 1, offset: last + 1, size: 3 };
    let out_of_range = Action::Abort(AbortReason::OffsetOutOfRange);
    assert_eq!(act_on(Operation::Read { arg }, Os::Linux), out_of_range);
    assert_eq!(act_on(Operation::ReadDir { arg }, Os::Linux), out_of_range);
}

#[test]
fn writes_carry_as_many_bytes_as_they_say() {
    let arg = FuseWriteIn { fh: 1, offset: 2, size: 3, write_flags: 4 };
    assert_eq!(
        act_on(Operation::Write { arg, data: vec![7, 8, 9] }, Os::Linux),
        call(
            ReplyKind::Write,
            FsCall::Write { fh: 1, offset: 2, data: vec![7, 8, 9], write_flags: 4 }
        )
    );
    assert_eq!(
        act_on(Operation::Write { arg, data: vec![7, 8] }, Os::Linux),
        Action::Abort(AbortReason::WriteSizeMismatch)
    );
    let arg = FuseWriteIn { fh: 1, offset: u64::MAX, size: 1, write_flags: 4 };
    assert_eq!(
        act_on(Operation::Write { arg, data: vec![7] }, Os::Linux),
        Action::Abort(AbortReason::OffsetOutOfRange)
    );
}

#[test]
fn extended_attributes() {
    let arg = FuseSetXAttrIn { size: 2, flags: 3, position: 4 };
    let set = |position| {
        call(
            ReplyKind::Empty,
            FsCall::SetXAttr { name: name("a"), value: vec![1, 2], flags: 3, position },
        )
    };
    let operation = Operation::SetXAttr { arg, name: name("a"), value: vec![1, 2] };
    assert_eq!(act_on(operation.clone(), Os::Linux), set(0));
    assert_eq!(act_on(operation, Os::MacOs), set(4));
    assert_eq!(
        act_on(Operation::SetXAttr { arg, name: name("a"), value: vec![1] }, Os::Linux),
        Action::Abort(AbortReason::XAttrSizeMismatch)
    );
    let get = FuseGetXAttrIn { size: 5 };
    assert_eq!(
        act_on(Operation::GetXAttr { arg: get, name: name("a") }, Os::Linux),
        call(ReplyKind::XAttr, FsCall::GetXAttr { name: name("a"), size: 5 })
    );
    assert_eq!(
        act_on(Operation::ListXAttr { arg: get }, Os::Linux),
        call(ReplyKind::XAttr, FsCall::ListXAttr { size: 5 })
    );
    assert_eq!(
        act_on(Operation::RemoveXAttr { name: name("a") }, Os::Linux),
        call(ReplyKind::Empty, FsCall::RemoveXAttr { name: name("a") })
    );
}

#[test]
fn access_and_block_map() {
    assert_eq!(
        act_on(Operation::Access { arg: FuseAccessIn { mask: 4 } }, Os::Linux),
        call(ReplyKind::Empty, FsCall::Access { mask: 4 })
    );
    assert_eq!(
        act_on(Operation::BMap { arg: FuseBMapIn { block: 1, blocksize: 512 } }, Os::Linux),
        call(ReplyKind::BMap, FsCall::BMap { blocksize: 512, block: 1 })
    );
}

#[test]
fn locks_differ_in_their_waiting() {
    let lk = FuseFileLock { start: 1, end: 2, typ: 3, pid: 4 };
    let arg = FuseLockIn { fh: 5, owner: 6, lk };
    let lock = FileLockParam { fh: 5, lock_owner: 6, start: 1, end: 2, typ: 3, pid: 4 };
    assert_eq!(
        act_on(Operation::GetLk { arg }, Os::Linux),
        call(ReplyKind::Lock, FsCall::GetLk { lock })
    );
    assert_eq!(
        act_on(Operation::SetLk { arg }, Os::Linux),
        call(ReplyKind::Empty, FsCall::SetLk { lock, sleep: false })
    );
    assert_eq!(
        act_on(Operation::SetLkW { arg }, Os::Linux),
        call(ReplyKind::Empty, FsCall::SetLk { lock, sleep: true })
    );
}

#[test]
fn volumes_of_macos() {
    assert_eq!(
        act_on(Operation::SetVolName { name: name("disk") }, Os::MacOs),
        call(ReplyKind::Empty, FsCall::SetVolName { name: name("disk") })
    );
    let arg = FuseExchangeIn { olddir: 1, newdir: 2, options: 3 };
    assert_eq!(
        act_on(
            Operation::Exchange { arg, oldname: name("a"), newname: name("b") },
            Os::MacOs
        ),
        call(
            ReplyKind::Empty,
            FsCall::Exchange {
                olddir: 1,
                oldname: name("a"),
                newdir: 2,
                newname: name("b"),
                options: 3,
            }
        )
    );
}

#[test]
fn no_flag_sets_no_attribute() {
    assert_eq!(
        act_on(Operation::SetAttr { arg: set_attr() }, Os::Linux),
        call(ReplyKind::Attr, FsCall::SetAttr { param: nothing_set() })
    );
}

#[test]
fn each_flag_sets_its_attribute() {
    let cases = [
        (0x1, SetAttrParam { mode: Some(0o644), ..nothing_set() }),
        (0x2, SetAttrParam { u_id: Some(7), ..nothing_set() }),
        (0x4, SetAttrParam { g_id: Some(8), ..nothing_set() }),
        (0x8, SetAttrParam { size: Some(2), ..nothing_set() }),
        (0x10, SetAttrParam { a_time: SinceEpoch::new(3, 5), ..nothing_set() }),
        (0x20, SetAttrParam { m_time: SinceEpoch::new(4, 6), ..nothing_set() }),
        (0x40, SetAttrParam { fh: Some(1), ..nothing_set() }),
        (0x80, nothing_set()),
        (0x9, SetAttrParam { mode: Some(0o644), size: Some(2), ..nothing_set() }),
    ];
    for (valid, param) in cases {
        let arg = FuseSetAttrIn { valid, ..set_attr() };
        for os in [Os::Linux, Os::MacOs] {
            assert_eq!(
                act_on(Operation::SetAttr { arg }, os),
                call(ReplyKind::Attr, FsCall::SetAttr { param })
            );
        }
    }
}

#[test]
fn extra_attributes_are_those_of_macos() {
    let cases = [
        (0x1000_0000, SetAttrParam { crtime: SinceEpoch::new(11, 14), ..nothing_set() }),
        (0x2000_0000, SetAttrParam { chgtime: SinceEpoch::new(10, 13), ..nothing_set() }),
        (0x4000_0000, SetAttrParam { bkuptime: SinceEpoch::new(9, 12), ..nothing_set() }),
        (0x8000_0000, SetAttrParam { flags: Some(15), ..nothing_set() }),
    ];
    for (valid, param) in cases {
        let arg = FuseSetAttrIn { valid, ..set_attr() };
        assert_eq!(
            act_on(Operation::SetAttr { arg }, Os::MacOs),
            call(ReplyKind::Attr, FsCall::SetAttr { param })
        );
        assert_eq!(
            act_on(Operation::SetAttr { arg }, Os::Linux),
            call(ReplyKind::Attr, FsCall::SetAttr { param: nothing_set() })
        );
    }
}

#[test]
fn times_carry_and_overflow() {
    assert_eq!(
        SinceEpoch::new(3, 2_500_000_000),
        Some(SinceEpoch { secs: 5, nanos: 500_000_000 })
    );
    assert_eq!(
        SinceEpoch::new(u64::MAX, 999_999_999),
        Some(SinceEpoch { secs: u64::MAX, nanos: 999_999_999 })
    );
    assert_eq!(SinceEpoch::new(u64::MAX, 1_000_000_000), None);
    let arg = FuseSetAttrIn {
        valid: 0x20,
        mtime: u64::MAX,
        mtimensec: u32::MAX,
        ..set_attr()
    };
    assert_eq!(
        act_on(Operation::SetAttr { arg }, Os::Linux),
        Action::Abort(AbortReason::TimeOverflow)
    );
    let arg = FuseSetAttrIn { valid: 0x10, ..arg };
    assert!(matches!(act_on(Operation::SetAttr { arg }, Os::Linux), Action::Call { .. }));
}

#[test]
fn failures_of_calls_are_passed_on() {
    let failed = || Err(anyhow::Error::msg("failed"));
    let forget = Action::Call { call: FsCall::Forget { nlookup: 3 }, reply: None };
    let release = FsCall::Release { fh: 1, flags: 0, lock_owner: 0, flush: false };
    assert!(forget.end(failed()).is_ok());
    assert!(call(ReplyKind::Empty, release).end(failed()).is_ok());
    let release_dir = FsCall::ReleaseDir { fh: 1, flags: 0 };
    assert!(call(ReplyKind::Empty, release_dir).end(failed()).is_ok());
    let others = [
        call(ReplyKind::Attr, FsCall::GetAttr),
        call(ReplyKind::Attr, FsCall::SetAttr { param: nothing_set() }),
        refused(ErrorName::EIO),
        Action::Destroy { reply: reply(ReplyKind::Empty) },
    ];
    for action in others {
        match action.end(failed()) {
            Err(err) => assert_eq!(format!("{}", err), "failed"),
            Ok(()) => panic!("{:?}", action),
        }
        assert!(action.end(Ok(())).is_ok());
    }
}

#[test]
fn times_are_those_of_the_clock() {
    let time = |secs| SinceEpoch { secs, nanos: 0 };
    let param = SetAttrParam {
        a_time: Some(time(1)),
        m_time: Some(time(2)),
        crtime: Some(time(3)),
        chgtime: Some(time(u64::MAX)),
        ..nothing_set()
    };
    let clock =
        OnClock { a_time: true, m_time: true, crtime: true, chgtime: false, bkuptime: false };
    assert_eq!(
        param.times_on(&clock),
        Some(ClockTimes {
            a_time: Some(time(1)),
            m_time: Some(time(2)),
            crtime: Some(ClockTime::At(time(3))),
            chgtime: Some(ClockTime::Now),
            bkuptime: None,
        })
    );
    assert_eq!(param.times_on(&OnClock { a_time: false, ..clock }), None);
    assert_eq!(param.times_on(&OnClock { m_time: false, ..clock }), None);
    let no_clock = OnClock {
        a_time: false,
        m_time: false,
        crtime: false,
        chgtime: false,
        bkuptime: false,
    };
    assert_eq!(
        SetAttrParam { bkuptime: Some(time(4)), ..nothing_set() }.times_on(&no_clock),
        Some(ClockTimes {
            a_time: None,
            m_time: None,
            crtime: None,
            chgtime: None,
            bkuptime: Some(ClockTime::Now),
        })
    );
}
