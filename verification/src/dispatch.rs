//! Which request is answered how: by the session itself, or by which call of
//! the file system.

use vstd::prelude::*;
use crate::errno::{ErrorName, ReplyErrno};
use crate::params::{FileLockParam, SetAttrParam};
use crate::protocol::{
    has_flag, has_flag_spec, FuseLockIn, FuseSetXAttrIn, Operation, Request, FUSE_FSYNC_DATASYNC,
    FUSE_RELEASE_FLUSH,
};
use crate::target::Os;

verus! {

/// How far the connection with the kernel has come.
#[derive(Debug, Clone, Copy, PartialEq, Eq)]
pub struct Lifecycle {
    /// Whether FUSE is initialized.
    pub initialized: bool,
    /// Whether FUSE is destroyed.
    pub destroyed: bool,
}

impl Lifecycle {
    /// No request has come yet.
    pub open spec fn new_spec() -> Lifecycle {
        Lifecycle { initialized: false, destroyed: false }
    }

    /// No request has come yet.
    pub fn new() -> (lifecycle: Lifecycle)
        ensures
            lifecycle == Lifecycle::new_spec(),
    {
        Lifecycle { initialized: false, destroyed: false }
    }

    /// How far the connection has come once an action is carried out.
    pub open spec fn after(self, action: Action) -> Lifecycle {
        Lifecycle { destroyed: self.destroyed || action is Destroy, ..self }
    }

    /// Takes note of an action that is carried out.
    ///
    /// For a destroy that is as soon as the file system is destroyed, whether
    /// or not the answer gets through.
    pub fn note(&mut self, action: &Action)
        ensures
            *final(self) == old(self).after(*action),
    {
        match action {
            Action::Destroy { .. } => {
                self.destroyed = true;
            },
            _ => {},
        }
    }
}

/// What a reply can carry.
#[derive(Debug, Clone, Copy, PartialEq, Eq)]
pub enum ReplyKind {
    Init,
    Empty,
    Entry,
    Attr,
    Data,
    Open,
    Write,
    Directory { size: usize },
    StatFs,
    XAttr,
    Create,
    Lock,
    BMap,
    XTimes,
}

/// The right to answer one request.
#[derive(Debug, Clone, Copy, PartialEq, Eq)]
pub struct Reply {
    pub kind: ReplyKind,
    /// The number of the request.
    pub unique: u64,
    /// The device to write the answer to.
    pub fd: i32,
}

/// An answer that says only that the request failed.
#[derive(Debug, Clone, Copy, PartialEq, Eq)]
pub struct ErrorReply {
    pub reply: Reply,
    pub error: ReplyErrno,
}

/// A call of the file system, without the request itself, which every call is
/// given too.
#[derive(Debug, Clone, PartialEq, Eq)]
pub enum FsCall {
    Lookup { parent: u64, name: Vec<u8> },
    Forget { nlookup: u64 },
    GetAttr,
    SetAttr { param: SetAttrParam },
    ReadLink,
    MkNod { parent: u64, name: Vec<u8>, mode: u32, rdev: u32 },
    MkDir { parent: u64, name: Vec<u8>, mode: u32 },
    Unlink { parent: u64, name: Vec<u8> },
    RmDir { parent: u64, name: Vec<u8> },
    SymLink { parent: u64, name: Vec<u8>, target: Vec<u8> },
    Rename { parent: u64, oldname: Vec<u8>, newdir: u64, newname: Vec<u8> },
    Link { oldnodeid: u64, name: Vec<u8> },
    Open { flags: u32 },
    Read { fh: u64, offset: i64, size: u32 },
    Write { fh: u64, offset: i64, data: Vec<u8>, write_flags: u32 },
    Flush { fh: u64, lock_owner: u64 },
    Release { fh: u64, flags: u32, lock_owner: u64, flush: bool },
    FSync { fh: u64, datasync: bool },
    OpenDir { flags: u32 },
    ReadDir { fh: u64, offset: i64 },
    ReleaseDir { fh: u64, flags: u32 },
    FSyncDir { fh: u64, datasync: bool },
    StatFs,
    SetXAttr { name: Vec<u8>, value: Vec<u8>, flags: u32, position: u32 },
    GetXAttr { name: Vec<u8>, size: u32 },
    ListXAttr { size: u32 },
    RemoveXAttr { name: Vec<u8> },
    Access { mask: u32 },
    Create { parent: u64, name: Vec<u8>, mode: u32, flags: u32 },
    GetLk { lock: FileLockParam },
    SetLk { lock: FileLockParam, sleep: bool },
    BMap { blocksize: u32, block: u64 },
    SetVolName { name: Vec<u8> },
    Exchange { olddir: u64, oldname: Vec<u8>, newdir: u64, newname: Vec<u8>, options: u64 },
    GetXTimes,
}

impl FsCall {
    /// Whether the call can fail, and its failure is the request's. Forgetting
    /// and releasing are carried out whatever happens.
    pub open spec fn can_fail_spec(self) -> bool {
        !(self is Forget || self is Release || self is ReleaseDir)
    }

    /// Whether the call can fail, and its failure is the request's.
    pub fn can_fail(&self) -> (r: bool)
        ensures
            r == self.can_fail_spec(),
    {
        match self {
            FsCall::Forget { .. } | FsCall::Release { .. } | FsCall::ReleaseDir { .. } => false,
            _ => true,
        }
    }
}

/// Why a request cannot be processed at all.
#[derive(Debug, Clone, Copy, PartialEq, Eq)]
pub enum AbortReason {
    /// The request could not be made out.
    IllegalRequest,
    /// FUSE should have already initialized.
    AlreadyInitialized,
    /// A write that does not carry as many bytes as it says.
    WriteSizeMismatch,
    /// An attribute value that is not as long as the request says.
    XAttrSizeMismatch,
    /// A time with more seconds than fit.
    TimeOverflow,
    /// An offset that no file has, as file offsets are signed.
    OffsetOutOfRange,
    /// An operation that is not implemented.
    NotImplemented,
}

/// What to do about a request.
#[derive(Debug, Clone, PartialEq, Eq)]
pub enum Action {
    /// Give up on the request, and with it on the task that processes it.
    Abort(AbortReason),
    /// Answer that the request failed, without asking the file system.
    Refuse(ErrorReply),
    /// Destroy the file system, then answer that this is done.
    Destroy { reply: Reply },
    /// Call the file system, which answers for itself.
    Call { call: FsCall, reply: Option<Reply> },
}

impl Action {
    /// How a request ends whose action ended this way: a call that cannot fail
    /// has not failed, whatever the file system reports of it. Every other
    /// failure, of a call or of the sending of an answer, is the request's.
    pub open spec fn end_spec(self, res: Result<(), anyhow::Error>) -> Result<(), anyhow::Error> {
        if self matches Action::Call { call, reply } && !call.can_fail_spec() {
            Ok(())
        } else {
            res
        }
    }

    /// How a request ends whose action ended this way.
    pub fn end(&self, res: Result<(), anyhow::Error>) -> (end: Result<(), anyhow::Error>)
        ensures
            end == self.end_spec(res),
    {
        match self {
            Action::Call { call, .. } => if call.can_fail() {
                res
            } else {
                Ok(())
            },
            _ => res,
        }
    }
}

/// An empty reply to a request.
pub open spec fn empty_reply(unique: u64, fd: i32) -> Reply {
    Reply { kind: ReplyKind::Empty, unique, fd }
}

/// The answer to a request that comes at the wrong time, or cannot be served.
pub open spec fn refusal(error: ErrorName, unique: u64, fd: i32) -> Action {
    Action::Refuse(ErrorReply { reply: empty_reply(unique, fd), error: ReplyErrno::Named(error) })
}

/// A call that is answered by a reply of this kind.
pub open spec fn answered_call(kind: ReplyKind, unique: u64, fd: i32, call: FsCall) -> Action {
    Action::Call { call, reply: Some(Reply { kind, unique, fd }) }
}

/// Whether an offset is one that a file can have.
pub open spec fn is_file_offset(offset: u64) -> bool {
    offset <= i64::MAX
}

/// The position at which an extended attribute is written: zero but on macOS.
pub open spec fn xattr_position(arg: FuseSetXAttrIn, os: Os) -> u32 {
    if os == Os::MacOs {
        arg.position
    } else {
        0
    }
}

/// What to do about a request that comes at the right time: the call of the
/// file system for each operation, and what is answered by no call.
pub open spec fn serve_spec(req: Request, fd: i32, os: Os) -> Action {
    let unique = req.unique;
    let nodeid = req.nodeid;
    match req.operation {
        Operation::Init { arg } => Action::Abort(AbortReason::AlreadyInitialized),
        Operation::Destroy => Action::Destroy { reply: empty_reply(unique, fd) },
        Operation::Interrupt => refusal(ErrorName::ENOSYS, unique, fd),
        Operation::Lookup { name } => answered_call(
            ReplyKind::Entry,
            unique,
            fd,
            FsCall::Lookup { parent: nodeid, name },
        ),
        Operation::Forget { arg } => Action::Call {
            call: FsCall::Forget { nlookup: arg.nlookup },
            reply: None,
        },
        Operation::GetAttr => answered_call(ReplyKind::Attr, unique, fd, FsCall::GetAttr),
        Operation::SetAttr { arg } => if SetAttrParam::some_time_overflows(arg, os) {
            Action::Abort(AbortReason::TimeOverflow)
        } else {
            answered_call(
                ReplyKind::Attr,
                unique,
                fd,
                FsCall::SetAttr { param: SetAttrParam::from_request_spec(arg, os) },
            )
        },
        Operation::ReadLink => answered_call(ReplyKind::Data, unique, fd, FsCall::ReadLink),
        Operation::MkNod { arg, name } => answered_call(
            ReplyKind::Entry,
            unique,
            fd,
            FsCall::MkNod { parent: nodeid, name, mode: arg.mode, rdev: arg.rdev },
        ),
        Operation::MkDir { arg, name } => answered_call(
            ReplyKind::Entry,
            unique,
            fd,
            FsCall::MkDir { parent: nodeid, name, mode: arg.mode },
        ),
        Operation::Unlink { name } => answered_call(
            ReplyKind::Empty,
            unique,
            fd,
            FsCall::Unlink { parent: nodeid, name },
        ),
        Operation::RmDir { name } => answered_call(
            ReplyKind::Empty,
            unique,
            fd,
            FsCall::RmDir { parent: nodeid, name },
        ),
        Operation::SymLink { name, link } => answered_call(
            ReplyKind::Entry,
            unique,
            fd,
            FsCall::SymLink { parent: nodeid, name, target: link },
        ),
        Operation::Rename { arg, oldname, newname } => answered_call(
            ReplyKind::Empty,
            unique,
            fd,
            FsCall::Rename { parent: nodeid, oldname, newdir: arg.newdir, newname },
        ),
        Operation::Link { arg, name } => answered_call(
            ReplyKind::Entry,
            unique,
            fd,
            FsCall::Link { oldnodeid: arg.oldnodeid, name },
        ),
        Operation::Open { arg } => answered_call(
            ReplyKind::Open,
            unique,
            fd,
            FsCall::Open { flags: arg.flags },
        ),
        Operation::Read { arg } => if !is_file_offset(arg.offset) {
            Action::Abort(AbortReason::OffsetOutOfRange)
        } else {
            answered_call(
                ReplyKind::Data,
                unique,
                fd,
                FsCall::Read { fh: arg.fh, offset: arg.offset as i64, size: arg.size },
            )
        },
        Operation::Write { arg, data } => if data@.len() != arg.size {
            Action::Abort(AbortReason::WriteSizeMismatch)
        } else if !is_file_offset(arg.offset) {
            Action::Abort(AbortReason::OffsetOutOfRange)
        } else {
            answered_call(
                ReplyKind::Write,
                unique,
                fd,
                FsCall::Write {
                    fh: arg.fh,
                    offset: arg.offset as i64,
                    data,
                    write_flags: arg.write_flags,
                },
            )
        },
        Operation::Flush { arg } => answered_call(
            ReplyKind::Empty,
            unique,
            fd,
            FsCall::Flush { fh: arg.fh, lock_owner: arg.lock_owner },
        ),
        Operation::Release { arg } => answered_call(
            ReplyKind::Empty,
            unique,
            fd,
            FsCall::Release {
                fh: arg.fh,
                flags: arg.flags,
                lock_owner: arg.lock_owner,
                flush: has_flag_spec(arg.release_flags, FUSE_RELEASE_FLUSH),
            },
        ),
        Operation::FSync { arg } => answered_call(
            ReplyKind::Empty,
            unique,
            fd,
            FsCall::FSync {
                fh: arg.fh,
                datasync: has_flag_spec(arg.fsync_flags, FUSE_FSYNC_DATASYNC),
            },
        ),
        Operation::OpenDir { arg } => answered_call(
            ReplyKind::Open,
            unique,
            fd,
            FsCall::OpenDir { flags: arg.flags },
        ),
        Operation::ReadDir { arg } => if !is_file_offset(arg.offset) {
            Action::Abort(AbortReason::OffsetOutOfRange)
        } else {
            answered_call(
                ReplyKind::Directory { size: arg.size as usize },
                unique,
                fd,
                FsCall::ReadDir { fh: arg.fh, offset: arg.offset as i64 },
            )
        },
        Operation::ReleaseDir { arg } => answered_call(
            ReplyKind::Empty,
            unique,
            fd,
            FsCall::ReleaseDir { fh: arg.fh, flags: arg.flags },
        ),
        Operation::FSyncDir { arg } => answered_call(
            ReplyKind::Empty,
            unique,
            fd,
            FsCall::FSyncDir {
                fh: arg.fh,
                datasync: has_flag_spec(arg.fsync_flags, FUSE_FSYNC_DATASYNC),
            },
        ),
        Operation::StatFs => answered_call(ReplyKind::StatFs, unique, fd, FsCall::StatFs),
        Operation::SetXAttr { arg, name, value } => if value@.len() != arg.size {
            Action::Abort(AbortReason::XAttrSizeMismatch)
        } else {
            answered_call(
                ReplyKind::Empty,
                unique,
                fd,
                FsCall::SetXAttr {
                    name,
                    value,
                    flags: arg.flags,
                    position: xattr_position(arg, os),
                },
            )
        },
        Operation::GetXAttr { arg, name } => answered_call(
            ReplyKind::XAttr,
            unique,
            fd,
            FsCall::GetXAttr { name, size: arg.size },
        ),
        Operation::ListXAttr { arg } => answered_call(
            ReplyKind::XAttr,
            unique,
            fd,
            FsCall::ListXAttr { size: arg.size },
        ),
        Operation::RemoveXAttr { name } => answered_call(
            ReplyKind::Empty,
            unique,
            fd,
            FsCall::RemoveXAttr { name },
        ),
        Operation::Access { arg } => answered_call(
            ReplyKind::Empty,
            unique,
            fd,
            FsCall::Access { mask: arg.mask },
        ),
        Operation::Create { arg, name } => answered_call(
            ReplyKind::Create,
            unique,
            fd,
            FsCall::Create { parent: nodeid, name, mode: arg.mode, flags: arg.flags },
        ),
        Operation::GetLk { arg } => answered_call(
            ReplyKind::Lock,
            unique,
            fd,
            FsCall::GetLk { lock: FileLockParam::from_request_spec(arg) },
        ),
        Operation::SetLk { arg } => answered_call(
            ReplyKind::Empty,
            unique,
            fd,
            FsCall::SetLk { lock: FileLockParam::from_request_spec(arg), sleep: false },
        ),
        Operation::SetLkW { arg } => answered_call(
            ReplyKind::Empty,
            unique,
            fd,
            FsCall::SetLk { lock: FileLockParam::from_request_spec(arg), sleep: true },
        ),
        Operation::BMap { arg } => answered_call(
            ReplyKind::BMap,
            unique,
            fd,
            FsCall::BMap { blocksize: arg.blocksize, block: arg.block },
        ),
        Operation::IoCtl
        | Operation::Poll
        | Operation::NotifyReply
        | Operation::BatchForget
        | Operation::FAllocate
        | Operation::ReadDirPlus
        | Operation::Rename2
        | Operation::CuseInit => Action::Abort(AbortReason::NotImplemented),
        Operation::SetVolName { name } => answered_call(
            ReplyKind::Empty,
            unique,
            fd,
            FsCall::SetVolName { name },
        ),
        Operation::Exchange { arg, oldname, newname } => answered_call(
            ReplyKind::Empty,
            unique,
            fd,
            FsCall::Exchange {
                olddir: arg.olddir,
                oldname,
                newdir: arg.newdir,
                newname,
                options: arg.options,
            },
        ),
        Operation::GetXTimes => answered_call(ReplyKind::XTimes, unique, fd, FsCall::GetXTimes),
    }
}

/// Whether a request comes at a time at which it is not served: before the
/// connection is initialized, or after it is destroyed. A request to destroy it
/// may come again.
pub open spec fn untimely(req: Request, lifecycle: Lifecycle) -> bool {
    ||| !lifecycle.initialized
    ||| lifecycle.destroyed && req.operation !is Destroy
}

/// What to do about a request.
pub open spec fn dispatch_spec(req: Request, fd: i32, lifecycle: Lifecycle, os: Os) -> Action {
    if req.operation !is Init && untimely(req, lifecycle) {
        refusal(ErrorName::EIO, req.unique, fd)
    } else {
        serve_spec(req, fd, os)
    }
}

fn answer(kind: ReplyKind, unique: u64, fd: i32, call: FsCall) -> (action: Action)
    ensures
        action == answered_call(kind, unique, fd, call),
{
    Action::Call { call, reply: Some(Reply { kind, unique, fd }) }
}

fn refuse(error: ErrorName, unique: u64, fd: i32) -> (action: Action)
    ensures
        action == refusal(error, unique, fd),
{
    let reply = Reply { kind: ReplyKind::Empty, unique, fd };
    Action::Refuse(ErrorReply { reply, error: ReplyErrno::Named(error) })
}

/// The offset as file offsets are counted, if it is one.
fn file_offset(offset: u64) -> (r: Option<i64>)
    ensures
        r == (if is_file_offset(offset) {
            Some(offset as i64)
        } else {
            None
        }),
{
    if offset <= i64::MAX as u64 {
        Some(offset as i64)
    } else {
        None
    }
}

/// What to do about a request that comes at the right time.
fn serve(req: Request, fd: i32, os: Os) -> (action: Action)
    ensures
        action == serve_spec(req, fd, os),
{
    let unique: u64 = req.unique;
    let parent: u64 = req.nodeid;
    match req.operation {
        Operation::Init { .. } => Action::Abort(AbortReason::AlreadyInitialized),
        Operation::Destroy => Action::Destroy {
            reply: Reply { kind: ReplyKind::Empty, unique, fd },
        },
        Operation::Interrupt => refuse(ErrorName::ENOSYS, unique, fd),
        Operation::Lookup { name } => answer(
            ReplyKind::Entry,
            unique,
            fd,
            FsCall::Lookup { parent, name },
        ),
        Operation::Forget { arg } => Action::Call {
            call: FsCall::Forget { nlookup: arg.nlookup },
            reply: None,
        },
        Operation::GetAttr => answer(ReplyKind::Attr, unique, fd, FsCall::GetAttr),
        Operation::SetAttr { arg } => match SetAttrParam::from_request(&arg, os) {
            Some(param) => answer(ReplyKind::Attr, unique, fd, FsCall::SetAttr { param }),
            None => Action::Abort(AbortReason::TimeOverflow),
        },
        Operation::ReadLink => answer(ReplyKind::Data, unique, fd, FsCall::ReadLink),
        Operation::MkNod { arg, name } => answer(
            ReplyKind::Entry,
            unique,
            fd,
            FsCall::MkNod { parent, name, mode: arg.mode, rdev: arg.rdev },
        ),
        Operation::MkDir { arg, name } => answer(
            ReplyKind::Entry,
            unique,
            fd,
            FsCall::MkDir { parent, name, mode: arg.mode },
        ),
        Operation::Unlink { name } => answer(
            ReplyKind::Empty,
            unique,
            fd,
            FsCall::Unlink { parent, name },
        ),
        Operation::RmDir { name } => answer(
            ReplyKind::Empty,
            unique,
            fd,
            FsCall::RmDir { parent, name },
        ),
        Operation::SymLink { name, link } => answer(
            ReplyKind::Entry,
            unique,
            fd,
            FsCall::SymLink { parent, name, target: link },
        ),
        Operation::Rename { arg, oldname, newname } => answer(
            ReplyKind::Empty,
            unique,
            fd,
            FsCall::Rename { parent, oldname, newdir: arg.newdir, newname },
        ),
        Operation::Link { arg, name } => answer(
            ReplyKind::Entry,
            unique,
            fd,
            FsCall::Link { oldnodeid: arg.oldnodeid, name },
        ),
        Operation::Open { arg } => answer(
            ReplyKind::Open,
            unique,
            fd,
            FsCall::Open { flags: arg.flags },
        ),
        Operation::Read { arg } => match file_offset(arg.offset) {
            Some(offset) => answer(
                ReplyKind::Data,
                unique,
                fd,
                FsCall::Read { fh: arg.fh, offset, size: arg.size },
            ),
            None => Action::Abort(AbortReason::OffsetOutOfRange),
        },
        Operation::Write { arg, data } => if data.len() != arg.size as usize {
            Action::Abort(AbortReason::WriteSizeMismatch)
        } else {
            match file_offset(arg.offset) {
                Some(offset) => answer(
                    ReplyKind::Write,
                    unique,
                    fd,
                    FsCall::Write { fh: arg.fh, offset, data, write_flags: arg.write_flags },
                ),
                None => Action::Abort(AbortReason::OffsetOutOfRange),
            }
        },
        Operation::Flush { arg } => answer(
            ReplyKind::Empty,
            unique,
            fd,
            FsCall::Flush { fh: arg.fh, lock_owner: arg.lock_owner },
        ),
        Operation::Release { arg } => answer(
            ReplyKind::Empty,
            unique,
            fd,
            FsCall::Release {
                fh: arg.fh,
                flags: arg.flags,
                lock_owner: arg.lock_owner,
                flush: has_flag(arg.release_flags, FUSE_RELEASE_FLUSH),
            },
        ),
        Operation::FSync { arg } => answer(
            ReplyKind::Empty,
            unique,
            fd,
            FsCall::FSync {
                fh: arg.fh,
                datasync: has_flag(arg.fsync_flags, FUSE_FSYNC_DATASYNC),
            },
        ),
        Operation::OpenDir { arg } => answer(
            ReplyKind::Open,
            unique,
            fd,
            FsCall::OpenDir { flags: arg.flags },
        ),
        Operation::ReadDir { arg } => match file_offset(arg.offset) {
            Some(offset) => answer(
                ReplyKind::Directory { size: arg.size as usize },
                unique,
                fd,
                FsCall::ReadDir { fh: arg.fh, offset },
            ),
            None => Action::Abort(AbortReason::OffsetOutOfRange),
        },
        Operation::ReleaseDir { arg } => answer(
            ReplyKind::Empty,
            unique,
            fd,
            FsCall::ReleaseDir { fh: arg.fh, flags: arg.flags },
        ),
        Operation::FSyncDir { arg } => answer(
            ReplyKind::Empty,
            unique,
            fd,
            FsCall::FSyncDir {
                fh: arg.fh,
                datasync: has_flag(arg.fsync_flags, FUSE_FSYNC_DATASYNC),
            },
        ),
        Operation::StatFs => answer(ReplyKind::StatFs, unique, fd, FsCall::StatFs),
        Operation::SetXAttr { arg, name, value } => if value.len() != arg.size as usize {
            Action::Abort(AbortReason::XAttrSizeMismatch)
        } else {
            let position: u32 = match os {
                Os::Linux => 0,
                Os::MacOs => arg.position,
            };
            answer(
                ReplyKind::Empty,
                unique,
                fd,
                FsCall::SetXAttr { name, value, flags: arg.flags, position },
            )
        },
        Operation::GetXAttr { arg, name } => answer(
            ReplyKind::XAttr,
            unique,
            fd,
            FsCall::GetXAttr { name, size: arg.size },
        ),
        Operation::ListXAttr { arg } => answer(
            ReplyKind::XAttr,
            unique,
            fd,
            FsCall::ListXAttr { size: arg.size },
        ),
        Operation::RemoveXAttr { name } => answer(
            ReplyKind::Empty,
            unique,
            fd,
            FsCall::RemoveXAttr { name },
        ),
        Operation::Access { arg } => answer(
            ReplyKind::Empty,
            unique,
            fd,
            FsCall::Access { mask: arg.mask },
        ),
        Operation::Create { arg, name } => answer(
            ReplyKind::Create,
            unique,
            fd,
            FsCall::Create { parent, name, mode: arg.mode, flags: arg.flags },
        ),
        Operation::GetLk { arg } => answer(
            ReplyKind::Lock,
            unique,
            fd,
            FsCall::GetLk { lock: FileLockParam::from_request(&arg) },
        ),
        Operation::SetLk { arg } => answer(
            ReplyKind::Empty,
            unique,
            fd,
            FsCall::SetLk { lock: FileLockParam::from_request(&arg), sleep: false },
        ),
        Operation::SetLkW { arg } => answer(
            ReplyKind::Empty,
            unique,
            fd,
            FsCall::SetLk { lock: FileLockParam::from_request(&arg), sleep: true },
        ),
        Operation::BMap { arg } => answer(
            ReplyKind::BMap,
            unique,
            fd,
            FsCall::BMap { blocksize: arg.blocksize, block: arg.block },
        ),
        Operation::IoCtl
        | Operation::Poll
        | Operation::NotifyReply
        | Operation::BatchForget
        | Operation::FAllocate
        | Operation::ReadDirPlus
        | Operation::Rename2
        | Operation::CuseInit => Action::Abort(AbortReason::NotImplemented),
        Operation::SetVolName { name } => answer(
            ReplyKind::Empty,
            unique,
            fd,
            FsCall::SetVolName { name },
        ),
        Operation::Exchange { arg, oldname, newname } => answer(
            ReplyKind::Empty,
            unique,
            fd,
            FsCall::Exchange {
                olddir: arg.olddir,
                oldname,
                newdir: arg.newdir,
                newname,
                options: arg.options,
            },
        ),
        Operation::GetXTimes => answer(ReplyKind::XTimes, unique, fd, FsCall::GetXTimes),
    }
}

/// Dispatches a request: says which call of the file system it takes, or how it
/// is answered without one.
pub fn dispatch(req: Request, fd: i32, lifecycle: &Lifecycle, os: Os) -> (action: Action)
    ensures
        action == dispatch_spec(req, fd, *lifecycle, os),
{
    match &req.operation {
        Operation::Init { .. } => Action::Abort(AbortReason::AlreadyInitialized),
        // Any operation is invalid before initialization
        _ if !lifecycle.initialized => refuse(ErrorName::EIO, req.unique, fd),
        Operation::Destroy => serve(req, fd, os),
        // Any operation is invalid after destroy
        _ if lifecycle.destroyed => refuse(ErrorName::EIO, req.unique, fd),
        _ => serve(req, fd, os),
    }
}

/// The reply that an action lets out, if it lets one out.
pub open spec fn reply_of(action: Action) -> Option<Reply> {
    match action {
        Action::Abort(reason) => None,
        Action::Refuse(refused) => Some(refused.reply),
        Action::Destroy { reply } => Some(reply),
        Action::Call { call, reply } => reply,
    }
}

/// Any operation is invalid before initialization: the file system is neither
/// called nor destroyed, and the request is answered with `EIO`. The one
/// exception is a request to initialize, which is not dispatched.
pub proof fn law_refused_before_init(req: Request, fd: i32, lifecycle: Lifecycle, os: Os)
    requires
        !lifecycle.initialized,
    ensures
        req.operation is Init ==> dispatch_spec(req, fd, lifecycle, os) == Action::Abort(
            AbortReason::AlreadyInitialized,
        ),
        req.operation !is Init ==> dispatch_spec(req, fd, lifecycle, os) == refusal(
            ErrorName::EIO,
            req.unique,
            fd,
        ),
{
}

/// Any operation is invalid after destroy: the file system is not called, and
/// the request is answered with `EIO`. The exceptions are a further request to
/// destroy, which is carried out again on an initialized connection, and a
/// request to initialize, which is not dispatched.
pub proof fn law_refused_after_destroy(req: Request, fd: i32, lifecycle: Lifecycle, os: Os)
    requires
        lifecycle.destroyed,
    ensures
        dispatch_spec(req, fd, lifecycle, os) !is Call,
        req.operation !is Init && req.operation !is Destroy ==> dispatch_spec(
            req,
            fd,
            lifecycle,
            os,
        ) == refusal(ErrorName::EIO, req.unique, fd),
        req.operation is Destroy && lifecycle.initialized ==> dispatch_spec(
            req,
            fd,
            lifecycle,
            os,
        ) == (Action::Destroy { reply: empty_reply(req.unique, fd) }),
{
}

/// Every reply goes to the request that it answers, on the device that the
/// request came from.
pub proof fn law_reply_reaches_its_request(req: Request, fd: i32, lifecycle: Lifecycle, os: Os)
    ensures
        reply_of(dispatch_spec(req, fd, lifecycle, os)) matches Some(reply) ==> reply.unique
            == req.unique && reply.fd == fd,
{
}

/// Every request that is not given up on has exactly one reply, but for those
/// to forget a node on a live connection, which are never answered.
pub proof fn law_unanswered_is_forget(req: Request, fd: i32, lifecycle: Lifecycle, os: Os)
    ensures
        dispatch_spec(req, fd, lifecycle, os) !is Abort ==> (reply_of(
            dispatch_spec(req, fd, lifecycle, os),
        ) is None <==> req.operation is Forget && !untimely(req, lifecycle)),
{
}

/// A failure is never made up, and never another than was reported. Only of
/// requests to forget or to release is one that was reported passed over.
pub proof fn law_failures_of_calls(
    req: Request,
    fd: i32,
    lifecycle: Lifecycle,
    os: Os,
    res: Result<(), anyhow::Error>,
)
    ensures
        ({
            let action = dispatch_spec(req, fd, lifecycle, os);
            &&& res is Ok ==> action.end_spec(res) is Ok
            &&& action.end_spec(res) is Err ==> action.end_spec(res) == res
            &&& res is Err && action.end_spec(res) is Ok <==> res is Err && action is Call && (
            req.operation is Forget || req.operation is Release || req.operation is ReleaseDir)
        }),
{
}

/// Whether a request is one that cannot be processed: it contradicts itself,
/// asks for something that does not exist, or for an operation that is not
/// implemented.
pub open spec fn unprocessable(req: Request, os: Os) -> bool {
    match req.operation {
        Operation::SetAttr { arg } => SetAttrParam::some_time_overflows(arg, os),
        Operation::Read { arg } => !is_file_offset(arg.offset),
        Operation::Write { arg, data } => data@.len() != arg.size || !is_file_offset(arg.offset),
        Operation::ReadDir { arg } => !is_file_offset(arg.offset),
        Operation::SetXAttr { arg, name, value } => value@.len() != arg.size,
        Operation::IoCtl
        | Operation::Poll
        | Operation::NotifyReply
        | Operation::BatchForget
        | Operation::FAllocate
        | Operation::ReadDirPlus
        | Operation::Rename2
        | Operation::CuseInit => true,
        _ => false,
    }
}

/// A request is given up on if it asks to initialize once more, or comes at the
/// right time and cannot be processed; and only then.
pub proof fn law_given_up_on(req: Request, fd: i32, lifecycle: Lifecycle, os: Os)
    ensures
        dispatch_spec(req, fd, lifecycle, os) is Abort <==> req.operation is Init || (!untimely(
            req,
            lifecycle,
        ) && unprocessable(req, os)),
{
}

/// A request on a live connection reaches the file system if it can be
/// processed and is not about the connection itself, and only then.
pub proof fn law_served_when_live(req: Request, fd: i32, lifecycle: Lifecycle, os: Os)
    requires
        lifecycle.initialized,
        !lifecycle.destroyed,
    ensures
        dispatch_spec(req, fd, lifecycle, os) is Call <==> !unprocessable(req, os)
            && req.operation !is Init && req.operation !is Destroy && req.operation !is Interrupt,
{
}

/// Waiting for a lock and trying for it are answered alike, and ask the file
/// system for the same lock, but for the waiting.
pub proof fn law_setlkw_is_setlk_that_sleeps(
    arg: FuseLockIn,
    unique: u64,
    nodeid: u64,
    fd: i32,
    lifecycle: Lifecycle,
    os: Os,
)
    ensures
        ({
            let tried = Request { unique, nodeid, operation: Operation::SetLk { arg } };
            let waited = Request { unique, nodeid, operation: Operation::SetLkW { arg } };
            match (
                dispatch_spec(tried, fd, lifecycle, os),
                dispatch_spec(waited, fd, lifecycle, os),
            ) {
                (
                    Action::Call { call: FsCall::SetLk { lock: l1, sleep: s1 }, reply: r1 },
                    Action::Call { call: FsCall::SetLk { lock: l2, sleep: s2 }, reply: r2 },
                ) => l1 == l2 && r1 == r2 && !s1 && s2,
                (Action::Refuse(e1), Action::Refuse(e2)) => e1 == e2,
                _ => false,
            }
        }),
{
}

/// How far the connection has come after a series of requests, each dispatched
/// and carried out before the next.
pub open spec fn lifecycle_after(
    start: Lifecycle,
    requests: Seq<Request>,
    fd: i32,
    os: Os,
) -> Lifecycle
    decreases requests.len(),
{
    if requests.len() == 0 {
        start
    } else {
        let before = lifecycle_after(start, requests.drop_last(), fd, os);
        before.after(dispatch_spec(requests.last(), fd, before, os))
    }
}

/// The action for one of a series of requests.
pub open spec fn action_at(
    start: Lifecycle,
    requests: Seq<Request>,
    fd: i32,
    os: Os,
    i: int,
) -> Action {
    dispatch_spec(requests[i], fd, lifecycle_after(start, requests.take(i), fd, os), os)
}

/// Requests never initialize a connection that is not initialized, and never
/// bring back one that is destroyed.
pub proof fn law_destroy_is_final(start: Lifecycle, requests: Seq<Request>, fd: i32, os: Os)
    ensures
        lifecycle_after(start, requests, fd, os).initialized == start.initialized,
        start.destroyed ==> lifecycle_after(start, requests, fd, os).destroyed,
    decreases requests.len(),
{
    if requests.len() > 0 {
        law_destroy_is_final(start, requests.drop_last(), fd, os);
    }
}

/// Some request of the series asks to destroy the file system.
pub open spec fn asks_to_destroy(requests: Seq<Request>) -> bool {
    exists|i: int| 0 <= i < requests.len() && (#[trigger] requests[i]).operation is Destroy
}

/// A connection is destroyed after a series of requests exactly where it was so
/// before, or it is initialized and one of them asks for that. No other request
/// destroys it.
pub proof fn law_only_destroy_destroys(start: Lifecycle, requests: Seq<Request>, fd: i32, os: Os)
    ensures
        lifecycle_after(start, requests, fd, os).destroyed <==> start.destroyed || (
        start.initialized && asks_to_destroy(requests)),
    decreases requests.len(),
{
    if requests.len() > 0 {
        let earlier = requests.drop_last();
        law_only_destroy_destroys(start, earlier, fd, os);
        law_destroy_is_final(start, earlier, fd, os);
        if asks_to_destroy(earlier) {
            let i = choose|i: int|
                0 <= i < earlier.len() && (#[trigger] earlier[i]).operation is Destroy;
            assert(requests[i].operation is Destroy);
        }
        if asks_to_destroy(requests) && requests.last().operation !is Destroy {
            let i = choose|i: int|
                0 <= i < requests.len() && (#[trigger] requests[i]).operation is Destroy;
            assert(earlier[i].operation is Destroy);
        }
        if requests.last().operation is Destroy {
            assert(requests[requests.len() - 1].operation is Destroy);
        }
    }
}

/// The state after a series of requests is that after its second part, from the
/// state after its first.
proof fn lemma_lifecycle_splits(
    start: Lifecycle,
    first: Seq<Request>,
    second: Seq<Request>,
    fd: i32,
    os: Os,
)
    ensures
        lifecycle_after(start, first + second, fd, os) == lifecycle_after(
            lifecycle_after(start, first, fd, os),
            second,
            fd,
            os,
        ),
    decreases second.len(),
{
    if second.len() == 0 {
        assert(first + second =~= first);
    } else {
        assert((first + second).drop_last() =~= first + second.drop_last());
        lemma_lifecycle_splits(start, first, second.drop_last(), fd, os);
    }
}

/// In any series of requests, a connection that one of them destroyed stays
/// destroyed from then on.
pub proof fn law_destroyed_stays(
    start: Lifecycle,
    requests: Seq<Request>,
    fd: i32,
    os: Os,
    i: int,
    j: int,
)
    requires
        0 <= i < j <= requests.len(),
        action_at(start, requests, fd, os, i) is Destroy,
    ensures
        lifecycle_after(start, requests.take(j), fd, os).destroyed,
{
    let upto = requests.take(i + 1);
    assert(upto.drop_last() =~= requests.take(i));
    assert(lifecycle_after(start, upto, fd, os).destroyed);
    let between = requests.subrange(i + 1, j);
    assert(upto + between =~= requests.take(j));
    lemma_lifecycle_splits(start, upto, between, fd, os);
    law_destroy_is_final(lifecycle_after(start, upto, fd, os), between, fd, os);
}

/// In any series of requests, the file system is called for none that comes
/// after one which destroyed it.
pub proof fn law_no_call_after_destroy(
    start: Lifecycle,
    requests: Seq<Request>,
    fd: i32,
    os: Os,
    i: int,
    j: int,
)
    requires
        0 <= i < j < requests.len(),
        action_at(start, requests, fd, os, i) is Destroy,
    ensures
        action_at(start, requests, fd, os, j) !is Call,
{
    law_destroyed_stays(start, requests, fd, os, i, j);
    law_refused_after_destroy(
        requests[j],
        fd,
        lifecycle_after(start, requests.take(j), fd, os),
        os,
    );
}

/// As long as the connection is not initialized, no series of requests gets
/// through to the file system.
pub proof fn law_no_call_before_init(
    start: Lifecycle,
    requests: Seq<Request>,
    fd: i32,
    os: Os,
    i: int,
)
    requires
        !start.initialized,
        0 <= i < requests.len(),
    ensures
        action_at(start, requests, fd, os, i) !is Call,
        action_at(start, requests, fd, os, i) !is Destroy,
{
    law_destroy_is_final(start, requests.take(i), fd, os);
    law_refused_before_init(
        requests[i],
        fd,
        lifecycle_after(start, requests.take(i), fd, os),
        os,
    );
}

/// Carrying out an action leaves it as it was whether the connection is
/// initialized. It destroys the connection exactly where it is the action to
/// destroy it, and never brings it back.
pub proof fn law_actions_and_the_connection(lifecycle: Lifecycle, action: Action)
    ensures
        lifecycle.after(action).initialized == lifecycle.initialized,
        lifecycle.after(action).destroyed <==> lifecycle.destroyed || action is Destroy,
{
}

/// A new connection is not destroyed, and serves nothing yet: every request but
/// one to initialize is answered with `EIO`.
pub proof fn law_new_connection_serves_nothing(req: Request, fd: i32, os: Os)
    ensures
        !Lifecycle::new_spec().initialized,
        !Lifecycle::new_spec().destroyed,
        req.operation !is Init ==> (dispatch_spec(req, fd, Lifecycle::new_spec(), os)
            matches Action::Refuse(answer) && answer.error == ReplyErrno::Named(ErrorName::EIO)
            && answer.reply.kind is Empty && answer.reply.unique == req.unique && answer.reply.fd
            == fd),
{
}

/// Exactly the calls to forget a node and to release a file or directory cannot
/// fail.
pub proof fn law_calls_that_cannot_fail(call: FsCall)
    ensures
        !call.can_fail_spec() <==> call is Forget || call is Release || call is ReleaseDir,
{
}

} // verus!
