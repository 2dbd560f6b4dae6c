//! What a request comes to from the read of the device on: the laws that tie
//! what the file system is asked, and what the kernel is answered, to the fields
//! of the request.

use vstd::prelude::*;
use crate::aligned_bytes::AlignedBytes;
use crate::dispatch::{AbortReason, Action, FsCall, Lifecycle, ReplyKind};
use crate::errno::{nix_cause, system_errno, ErrorName, ReplyErrno};
use crate::params::{law_request_sets_what_it_means, sets_what_is_meant, FileLockParam};
use crate::protocol::{FuseLockIn, Operation, Request};
use crate::run::{dispatch_end, finish_spec, Finish, InFlight, RunAction};
use crate::session::Session;
use crate::target::Os;

verus! {

/// The call of the file system that an action makes, where it hands on the right
/// to answer this request, on this device, with a reply of this kind.
pub open spec fn call_for(action: Action, kind: ReplyKind, unique: u64, fd: i32) -> Option<FsCall> {
    match action {
        Action::Call { call, reply: Some(reply) } => if reply.kind == kind && reply.unique == unique
            && reply.fd == fd {
            Some(call)
        } else {
            None
        },
        _ => None,
    }
}

/// Whether an action is to answer this request, on this device, with this error
/// and nothing else.
pub open spec fn refuses_with(action: Action, error: ErrorName, unique: u64, fd: i32) -> bool {
    match action {
        Action::Refuse(answer) => {
            &&& answer.error == ReplyErrno::Named(error)
            &&& answer.reply.kind is Empty
            &&& answer.reply.unique == unique
            &&& answer.reply.fd == fd
        },
        _ => false,
    }
}

/// Whether a lock is the one that a request describes.
pub open spec fn same_lock(lock: FileLockParam, arg: FuseLockIn) -> bool {
    &&& lock.fh == arg.fh
    &&& lock.lock_owner == arg.owner
    &&& lock.start == arg.lk.start
    &&& lock.end == arg.lk.end
    &&& lock.typ == arg.lk.typ
    &&& lock.pid == arg.lk.pid
}

/// A request that comes before the connection is initialized, or after it is
/// destroyed, is refused with `EIO` on the device it came from, and the file
/// system is neither called nor destroyed. The exceptions are a request to
/// destroy an initialized connection, which may come again, and a request to
/// initialize. No other request is refused with `EIO`.
pub proof fn law_untimely_requests_are_refused(
    on: InFlight,
    req: Request,
    lifecycle: Lifecycle,
    os: Os,
)
    ensures
        ({
            let action = on.process_fuse_request_spec(Some(req), lifecycle, os);
            &&& req.operation !is Init && (!lifecycle.initialized || (lifecycle.destroyed
                && req.operation !is Destroy)) <==> refuses_with(
                action,
                ErrorName::EIO,
                req.unique,
                on.fuse_fd,
            )
            &&& action is Call ==> lifecycle.initialized && !lifecycle.destroyed
            &&& action is Destroy ==> lifecycle.initialized && req.operation is Destroy
        }),
{
}

/// Requests about the connection itself never reach the file system as calls: a
/// second request to initialize is given up on at any time, an initialized
/// connection is destroyed as often as that is asked for, and an interrupt on a
/// live connection is answered with `ENOSYS`.
pub proof fn law_requests_about_the_connection(
    on: InFlight,
    req: Request,
    lifecycle: Lifecycle,
    os: Os,
)
    ensures
        ({
            let action = on.process_fuse_request_spec(Some(req), lifecycle, os);
            let live = lifecycle.initialized && !lifecycle.destroyed;
            &&& req.operation is Init <==> action == Action::Abort(AbortReason::AlreadyInitialized)
            &&& req.operation is Destroy && lifecycle.initialized <==> action is Destroy
            &&& action matches Action::Destroy { reply } ==> reply.kind is Empty && reply.unique
                == req.unique && reply.fd == on.fuse_fd
            &&& req.operation is Interrupt && live <==> refuses_with(
                action,
                ErrorName::ENOSYS,
                req.unique,
                on.fuse_fd,
            )
        }),
{
}

/// Bytes that make no request are given up on, at any time; and no request that
/// could be made out is taken for such.
pub proof fn law_illegal_bytes_are_given_up_on(
    on: InFlight,
    parsed: Option<Request>,
    lifecycle: Lifecycle,
    os: Os,
)
    ensures
        parsed is None <==> on.process_fuse_request_spec(parsed, lifecycle, os) == Action::Abort(
            AbortReason::IllegalRequest,
        ),
{
}

/// On a live connection the operations that are not implemented are given up on
/// as such, and no others.
pub proof fn law_unimplemented_operations(
    on: InFlight,
    req: Request,
    lifecycle: Lifecycle,
    os: Os,
)
    requires
        lifecycle.initialized,
        !lifecycle.destroyed,
    ensures
        on.process_fuse_request_spec(Some(req), lifecycle, os) == Action::Abort(
            AbortReason::NotImplemented,
        ) <==> {
            ||| req.operation is IoCtl
            ||| req.operation is Poll
            ||| req.operation is NotifyReply
            ||| req.operation is BatchForget
            ||| req.operation is FAllocate
            ||| req.operation is ReadDirPlus
            ||| req.operation is Rename2
            ||| req.operation is CuseInit
        },
{
}

/// On a live connection a read, of a file or a directory, asks for the handle
/// and the offset that the request names, and for as much as it names. An offset
/// beyond the largest file offset is given up on, and no other.
pub proof fn law_reads_ask_for_what_is_requested(
    on: InFlight,
    req: Request,
    lifecycle: Lifecycle,
    os: Os,
)
    requires
        lifecycle.initialized,
        !lifecycle.destroyed,
    ensures
        ({
            let action = on.process_fuse_request_spec(Some(req), lifecycle, os);
            match req.operation {
                Operation::Read { arg } => if arg.offset <= 0x7fff_ffff_ffff_ffff {
                    call_for(action, ReplyKind::Data, req.unique, on.fuse_fd) matches Some(
                        FsCall::Read { fh, offset, size },
                    ) && fh == arg.fh && offset == arg.offset && size == arg.size
                } else {
                    action == Action::Abort(AbortReason::OffsetOutOfRange)
                },
                Operation::ReadDir { arg } => if arg.offset <= 0x7fff_ffff_ffff_ffff {
                    &&& action matches Action::Call {
                        call: FsCall::ReadDir { fh, offset },
                        reply: Some(reply),
                    }
                    &&& fh == arg.fh && offset == arg.offset
                    &&& reply.unique == req.unique && reply.fd == on.fuse_fd
                    &&& reply.kind matches ReplyKind::Directory { size } && size == arg.size
                } else {
                    action == Action::Abort(AbortReason::OffsetOutOfRange)
                },
                _ => true,
            }
        }),
{
}

/// On a live connection a write hands on every byte that came with the request,
/// for the handle and the offset that it names, with its flags. A request whose
/// size is not the number of its bytes is given up on, and so is one with an
/// offset beyond the largest file offset; no other is.
pub proof fn law_writes_carry_all_their_bytes(
    on: InFlight,
    req: Request,
    lifecycle: Lifecycle,
    os: Os,
)
    requires
        lifecycle.initialized,
        !lifecycle.destroyed,
    ensures
        ({
            let action = on.process_fuse_request_spec(Some(req), lifecycle, os);
            match req.operation {
                Operation::Write { arg, data } => if data@.len() != arg.size {
                    action == Action::Abort(AbortReason::WriteSizeMismatch)
                } else if arg.offset > 0x7fff_ffff_ffff_ffff {
                    action == Action::Abort(AbortReason::OffsetOutOfRange)
                } else {
                    call_for(action, ReplyKind::Write, req.unique, on.fuse_fd) matches Some(
                        FsCall::Write { fh, offset, data: written, write_flags },
                    ) && fh == arg.fh && offset == arg.offset && written@ == data@ && written@.len()
                        == arg.size && write_flags == arg.write_flags
                },
                _ => true,
            }
        }),
{
}

/// On a live connection a request to set attributes sets exactly those that it
/// means, each to what it says. It is given up on where a time that it means has
/// more seconds than a 64-bit number holds, and only there.
pub proof fn law_attributes_reach_the_file_system(
    on: InFlight,
    req: Request,
    lifecycle: Lifecycle,
    os: Os,
)
    requires
        lifecycle.initialized,
        !lifecycle.destroyed,
    ensures
        ({
            let action = on.process_fuse_request_spec(Some(req), lifecycle, os);
            let mac = os is MacOs;
            match req.operation {
                Operation::SetAttr { arg } => {
                    let out_of_range = {
                        ||| arg.valid & 0x10 != 0 && arg.atime + arg.atimensec / 1_000_000_000
                            > u64::MAX
                        ||| arg.valid & 0x20 != 0 && arg.mtime + arg.mtimensec / 1_000_000_000
                            > u64::MAX
                        ||| mac && arg.valid & 0x1000_0000 != 0 && arg.crtime + arg.crtimensec
                            / 1_000_000_000 > u64::MAX
                        ||| mac && arg.valid & 0x2000_0000 != 0 && arg.chgtime + arg.chgtimensec
                            / 1_000_000_000 > u64::MAX
                        ||| mac && arg.valid & 0x4000_0000 != 0 && arg.bkuptime + arg.bkuptimensec
                            / 1_000_000_000 > u64::MAX
                    };
                    if out_of_range {
                        action == Action::Abort(AbortReason::TimeOverflow)
                    } else {
                        call_for(action, ReplyKind::Attr, req.unique, on.fuse_fd) matches Some(
                            FsCall::SetAttr { param },
                        ) && sets_what_is_meant(param, arg, os)
                    }
                },
                _ => true,
            }
        }),
{
    if req.operation is SetAttr {
        law_request_sets_what_it_means(req.operation->SetAttr_arg, os);
    }
}

/// On a live connection a request about a name in a directory hands on the
/// directory, the name and whatever else it says, each in its place.
pub proof fn law_names_stay_in_their_directories(
    on: InFlight,
    req: Request,
    lifecycle: Lifecycle,
    os: Os,
)
    requires
        lifecycle.initialized,
        !lifecycle.destroyed,
    ensures
        ({
            let action = on.process_fuse_request_spec(Some(req), lifecycle, os);
            let entry = call_for(action, ReplyKind::Entry, req.unique, on.fuse_fd);
            let empty = call_for(action, ReplyKind::Empty, req.unique, on.fuse_fd);
            let create = call_for(action, ReplyKind::Create, req.unique, on.fuse_fd);
            match req.operation {
                Operation::Lookup { name } => entry matches Some(
                    FsCall::Lookup { parent, name: n },
                ) && parent == req.nodeid && n@ == name@,
                Operation::MkNod { arg, name } => entry matches Some(
                    FsCall::MkNod { parent, name: n, mode, rdev },
                ) && parent == req.nodeid && n@ == name@ && mode == arg.mode && rdev == arg.rdev,
                Operation::MkDir { arg, name } => entry matches Some(
                    FsCall::MkDir { parent, name: n, mode },
                ) && parent == req.nodeid && n@ == name@ && mode == arg.mode,
                Operation::Unlink { name } => empty matches Some(
                    FsCall::Unlink { parent, name: n },
                ) && parent == req.nodeid && n@ == name@,
                Operation::RmDir { name } => empty matches Some(FsCall::RmDir { parent, name: n })
                    && parent == req.nodeid && n@ == name@,
                Operation::SymLink { name, link } => entry matches Some(
                    FsCall::SymLink { parent, name: n, target },
                ) && parent == req.nodeid && n@ == name@ && target@ == link@,
                Operation::Rename { arg, oldname, newname } => empty matches Some(
                    FsCall::Rename { parent, oldname: from, newdir, newname: to },
                ) && parent == req.nodeid && from@ == oldname@ && newdir == arg.newdir && to@
                    == newname@,
                Operation::Link { arg, name } => entry matches Some(
                    FsCall::Link { oldnodeid, name: n },
                ) && oldnodeid == arg.oldnodeid && n@ == name@,
                Operation::Create { arg, name } => create matches Some(
                    FsCall::Create { parent, name: n, mode, flags },
                ) && parent == req.nodeid && n@ == name@ && mode == arg.mode && flags == arg.flags,
                _ => true,
            }
        }),
{
}

/// On a live connection a request about an open file or directory, or one to
/// open it, hands on its handle and its flags. The lowest bit of the flags says
/// whether a release flushes, and whether a synchronization is of the data only.
pub proof fn law_handles_and_flags_are_kept(
    on: InFlight,
    req: Request,
    lifecycle: Lifecycle,
    os: Os,
)
    requires
        lifecycle.initialized,
        !lifecycle.destroyed,
    ensures
        ({
            let action = on.process_fuse_request_spec(Some(req), lifecycle, os);
            let opened = call_for(action, ReplyKind::Open, req.unique, on.fuse_fd);
            let empty = call_for(action, ReplyKind::Empty, req.unique, on.fuse_fd);
            match req.operation {
                Operation::Open { arg } => opened matches Some(FsCall::Open { flags }) && flags
                    == arg.flags,
                Operation::OpenDir { arg } => opened matches Some(FsCall::OpenDir { flags })
                    && flags == arg.flags,
                Operation::Flush { arg } => empty matches Some(FsCall::Flush { fh, lock_owner })
                    && fh == arg.fh && lock_owner == arg.lock_owner,
                Operation::Release { arg } => empty matches Some(
                    FsCall::Release { fh, flags, lock_owner, flush },
                ) && fh == arg.fh && flags == arg.flags && lock_owner == arg.lock_owner && (flush
                    <==> arg.release_flags & 1 != 0),
                Operation::ReleaseDir { arg } => empty matches Some(
                    FsCall::ReleaseDir { fh, flags },
                ) && fh == arg.fh && flags == arg.flags,
                Operation::FSync { arg } => empty matches Some(FsCall::FSync { fh, datasync })
                    && fh == arg.fh && (datasync <==> arg.fsync_flags & 1 != 0),
                Operation::FSyncDir { arg } => empty matches Some(
                    FsCall::FSyncDir { fh, datasync },
                ) && fh == arg.fh && (datasync <==> arg.fsync_flags & 1 != 0),
                _ => true,
            }
        }),
{
}

/// On a live connection a request about an extended attribute hands on its name,
/// its whole value and its size. The position is that of the request on macOS,
/// and zero on Linux. A value that is not as long as the request says is given
/// up on, and no other.
pub proof fn law_extended_attributes_are_kept(
    on: InFlight,
    req: Request,
    lifecycle: Lifecycle,
    os: Os,
)
    requires
        lifecycle.initialized,
        !lifecycle.destroyed,
    ensures
        ({
            let action = on.process_fuse_request_spec(Some(req), lifecycle, os);
            let empty = call_for(action, ReplyKind::Empty, req.unique, on.fuse_fd);
            let xattr = call_for(action, ReplyKind::XAttr, req.unique, on.fuse_fd);
            match req.operation {
                Operation::SetXAttr { arg, name, value } => if value@.len() != arg.size {
                    action == Action::Abort(AbortReason::XAttrSizeMismatch)
                } else {
                    empty matches Some(FsCall::SetXAttr { name: n, value: v, flags, position })
                        && n@ == name@ && v@ == value@ && flags == arg.flags && (os is MacOs
                        ==> position == arg.position) && (os is Linux ==> position == 0)
                },
                Operation::GetXAttr { arg, name } => xattr matches Some(
                    FsCall::GetXAttr { name: n, size },
                ) && n@ == name@ && size == arg.size,
                Operation::ListXAttr { arg } => xattr matches Some(FsCall::ListXAttr { size })
                    && size == arg.size,
                Operation::RemoveXAttr { name } => empty matches Some(
                    FsCall::RemoveXAttr { name: n },
                ) && n@ == name@,
                _ => true,
            }
        }),
{
}

/// On a live connection a request about a lock is about the very lock that it
/// describes. Only a request to wait for it sleeps.
pub proof fn law_locks_are_kept(on: InFlight, req: Request, lifecycle: Lifecycle, os: Os)
    requires
        lifecycle.initialized,
        !lifecycle.destroyed,
    ensures
        ({
            let action = on.process_fuse_request_spec(Some(req), lifecycle, os);
            let asked = call_for(action, ReplyKind::Lock, req.unique, on.fuse_fd);
            let empty = call_for(action, ReplyKind::Empty, req.unique, on.fuse_fd);
            match req.operation {
                Operation::GetLk { arg } => asked matches Some(FsCall::GetLk { lock })
                    && same_lock(lock, arg),
                Operation::SetLk { arg } => empty matches Some(FsCall::SetLk { lock, sleep })
                    && same_lock(lock, arg) && !sleep,
                Operation::SetLkW { arg } => empty matches Some(FsCall::SetLk { lock, sleep })
                    && same_lock(lock, arg) && sleep,
                _ => true,
            }
        }),
{
}

/// On a live connection every other request is served by the call of its name,
/// with what the request says. Forgetting a node is not answered.
pub proof fn law_other_requests_are_kept(on: InFlight, req: Request, lifecycle: Lifecycle, os: Os)
    requires
        lifecycle.initialized,
        !lifecycle.destroyed,
    ensures
        ({
            let action = on.process_fuse_request_spec(Some(req), lifecycle, os);
            let empty = call_for(action, ReplyKind::Empty, req.unique, on.fuse_fd);
            match req.operation {
                Operation::Forget { arg } => action matches Action::Call {
                    call: FsCall::Forget { nlookup },
                    reply,
                } && nlookup == arg.nlookup && reply is None,
                Operation::GetAttr => call_for(
                    action,
                    ReplyKind::Attr,
                    req.unique,
                    on.fuse_fd,
                ) matches Some(FsCall::GetAttr),
                Operation::ReadLink => call_for(
                    action,
                    ReplyKind::Data,
                    req.unique,
                    on.fuse_fd,
                ) matches Some(FsCall::ReadLink),
                Operation::StatFs => call_for(
                    action,
                    ReplyKind::StatFs,
                    req.unique,
                    on.fuse_fd,
                ) matches Some(FsCall::StatFs),
                Operation::Access { arg } => empty matches Some(FsCall::Access { mask }) && mask
                    == arg.mask,
                Operation::BMap { arg } => call_for(
                    action,
                    ReplyKind::BMap,
                    req.unique,
                    on.fuse_fd,
                ) matches Some(FsCall::BMap { blocksize, block }) && blocksize == arg.blocksize
                    && block == arg.block,
                Operation::SetVolName { name } => empty matches Some(
                    FsCall::SetVolName { name: n },
                ) && n@ == name@,
                Operation::Exchange { arg, oldname, newname } => empty matches Some(
                    FsCall::Exchange { olddir, oldname: from, newdir, newname: to, options },
                ) && olddir == arg.olddir && from@ == oldname@ && newdir == arg.newdir && to@
                    == newname@ && options == arg.options,
                Operation::GetXTimes => call_for(
                    action,
                    ReplyKind::XTimes,
                    req.unique,
                    on.fuse_fd,
                ) matches Some(FsCall::GetXTimes),
                _ => true,
            }
        }),
{
}

/// What is done about a request depends on how far the connection has come, but
/// not on which buffer it is in, nor on what else that buffer holds.
pub proof fn law_buffers_do_not_matter(
    one: InFlight,
    other: InFlight,
    parsed: Option<Request>,
    lifecycle: Lifecycle,
    os: Os,
)
    requires
        one.fuse_fd == other.fuse_fd,
    ensures
        one.process_fuse_request_spec(parsed, lifecycle, os) == other.process_fuse_request_spec(
            parsed,
            lifecycle,
            os,
        ),
{
}

/// The bytes of a request are as many as were read, and each of them is the one
/// at its place in the buffer. There are none exactly where the buffer holds
/// fewer than were read.
pub proof fn law_request_is_what_was_read(on: InFlight)
    ensures
        on.request_bytes_spec() is None <==> on.read_size > on.buffer@.len(),
        on.request_bytes_spec() matches Some(bytes) ==> bytes.len() == on.read_size && forall|
            i: int,
        |
            0 <= i < on.read_size ==> bytes[i] == #[trigger] on.buffer@[i],
{
}

/// After a read that succeeded the whole of what was read is processed: as many
/// bytes as the read gave, in the buffer that it was made into, to be answered on
/// the session's device.
pub proof fn law_whole_read_is_processed(
    session: Session,
    buffer_idx: u16,
    buffer: AlignedBytes,
    n: usize,
    lifecycle: Lifecycle,
    os: Os,
)
    ensures
        ({
            &&& session.run_spec(buffer_idx, buffer, Ok(n), lifecycle, os) matches RunAction::Process(
                in_flight,
            )
            &&& in_flight.read_size == n
            &&& in_flight.buffer_idx == buffer_idx
            &&& in_flight.buffer == buffer
            &&& in_flight.fuse_fd == session.fuse_fd
            &&& n <= buffer@.len() ==> (in_flight.request_bytes_spec() matches Some(bytes)
                && bytes.len() == n && forall|i: int|
                0 <= i < n ==> bytes[i] == #[trigger] buffer@[i])
        }),
{
}

/// A request that was served without failure gives its buffer back, under its
/// number. One that failed is answered, under its own number and on the device
/// it came from: with the number of the system error inside the failure, where
/// there is a `nix::Error` inside and it holds one, and else with `EINVAL`.
pub proof fn law_end_of_a_request(
    on: InFlight,
    unique: u64,
    dispatched: Result<(), anyhow::Error>,
)
    ensures
        match (dispatched, finish_spec(on, unique, dispatch_end(dispatched))) {
            (Ok(_), Finish::ReturnBuffer(entry)) => entry.0 == on.buffer_idx && entry.1
                == on.buffer,
            (Err(err), Finish::ReplyErrorAndAbort(answer)) => {
                &&& answer.reply.kind is Empty
                &&& answer.reply.unique == unique
                &&& answer.reply.fd == on.fuse_fd
                &&& match nix_cause(err) {
                    Some(cause) => match system_errno(cause) {
                        Some(number) => answer.error == ReplyErrno::Number(number),
                        None => answer.error == ReplyErrno::Named(ErrorName::EINVAL),
                    },
                    None => answer.error == ReplyErrno::Named(ErrorName::EINVAL),
                }
            },
            _ => false,
        },
{
}

/// Whatever an action ends with is what the request ends with, but for a failure
/// to forget a node or to release a file or directory, which is passed over.
pub proof fn law_end_of_an_action(action: Action, res: Result<(), anyhow::Error>)
    ensures
        ({
            let passed_over = match action {
                Action::Call { call, reply } => call is Forget || call is Release
                    || call is ReleaseDir,
                _ => false,
            };
            &&& res is Ok ==> action.end_spec(res) is Ok
            &&& res is Err && passed_over ==> action.end_spec(res) is Ok
            &&& res is Err && !passed_over ==> action.end_spec(res) == res
        }),
{
}

} // verus!
