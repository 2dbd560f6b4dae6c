//! The handshake that opens a connection.

use vstd::prelude::*;
use crate::dispatch::{ErrorReply, Lifecycle, Reply, ReplyKind};
use crate::errno::{ErrorName, ReplyErrno};
use crate::protocol::{
    FuseInitIn, FUSE_ASYNC_READ, FUSE_CASE_INSENSITIVE, FUSE_KERNEL_VERSION,
    FUSE_LOWEST_MINOR_VERSION, FUSE_VOL_RENAME, FUSE_XTIMES,
};
use crate::session::Session;
use crate::target::{Os, Target, HEADER_ROOM, MAX_BACKGROUND};

verus! {

/// The number of background requests at which the kernel holds back.
pub const CONGESTION_THRESHOLD: u16 = 100;

/// The granularity of times, in nanoseconds.
pub const TIME_GRAN: u32 = 1;

/// The number of pages in a request; zero leaves it to the kernel.
pub const MAX_PAGES: u16 = 0;

/// The first minor version whose reply names the background limits.
pub const BACKGROUND_SINCE: u32 = 13;

/// The first minor version whose reply names the granularity of times.
pub const TIME_GRAN_SINCE: u32 = 23;

/// The first minor version whose reply names the number of pages.
pub const MAX_PAGES_SINCE: u32 = 28;

impl Os {
    /// The features that a session supports: asynchronous reads, and on macOS
    /// case insensitiveness, volume renames and extra times.
    pub open spec fn init_flags_spec(self) -> u32 {
        match self {
            Os::Linux => FUSE_ASYNC_READ,
            Os::MacOs => FUSE_ASYNC_READ | FUSE_CASE_INSENSITIVE | FUSE_VOL_RENAME | FUSE_XTIMES,
        }
    }

    /// The features that a session supports.
    pub fn init_flags(self) -> (flags: u32)
        ensures
            flags == self.init_flags_spec(),
    {
        match self {
            Os::Linux => FUSE_ASYNC_READ,
            Os::MacOs => FUSE_ASYNC_READ | FUSE_CASE_INSENSITIVE | FUSE_VOL_RENAME | FUSE_XTIMES,
        }
    }
}

/// The limits on background requests.
#[derive(Debug, Clone, Copy, PartialEq, Eq)]
pub struct BackgroundLimits {
    pub max_background: u16,
    pub congestion_threshold: u16,
}

/// The body of the reply that opens a connection. What the reply's version has
/// no field for is `None`; whatever else the reply holds is zero.
#[derive(Debug, Clone, Copy, PartialEq, Eq)]
pub struct InitReply {
    pub major: u32,
    pub minor: u32,
    pub max_readahead: u32,
    pub flags: u32,
    pub background: Option<BackgroundLimits>,
    pub max_write: u32,
    pub time_gran: Option<u32>,
    pub max_pages: Option<u16>,
}

/// Why a connection is not opened.
#[derive(Debug, Clone, Copy, PartialEq, Eq)]
pub enum InitFailure {
    /// FUSE ABI version too low.
    AbiTooLow,
    /// The file system's own initialization failed.
    FileSystemInit,
    /// The reply could not be sent.
    ReplyNotSent,
}

/// A handshake that is turned down: what to answer, and why.
#[derive(Debug, Clone, Copy, PartialEq, Eq)]
pub struct InitRefusal {
    pub answer: ErrorReply,
    pub failure: InitFailure,
}

/// A handshake that waits for the file system's own initialization.
#[derive(Debug, Clone, Copy, PartialEq, Eq)]
pub struct PendingInit {
    pub arg: FuseInitIn,
    pub reply: Reply,
    pub target: Target,
}

/// A handshake that is agreed to, once the reply is sent.
#[derive(Debug, Clone, Copy, PartialEq, Eq)]
pub struct AcceptedInit {
    pub arg: FuseInitIn,
    pub reply: Reply,
    pub body: InitReply,
    /// Whether the kernel's read-ahead is no larger than the largest write, as
    /// it is meant to be.
    pub readahead_fits: bool,
}

/// What comes first in a handshake.
#[derive(Debug, Clone, Copy, PartialEq, Eq)]
pub enum InitStep {
    Refuse(InitRefusal),
    AskFileSystem(PendingInit),
}

/// What comes of the file system's own initialization.
#[derive(Debug, Clone, Copy, PartialEq, Eq)]
pub enum InitAnswer {
    Refuse(InitRefusal),
    Accept(AcceptedInit),
}

/// Whether the kernel's version is supported: 7.8 or higher.
pub open spec fn abi_supported(arg: FuseInitIn) -> bool {
    ||| arg.major > FUSE_KERNEL_VERSION
    ||| arg.major == FUSE_KERNEL_VERSION && arg.minor >= FUSE_LOWEST_MINOR_VERSION
}

/// A refusal of a handshake.
pub open spec fn init_refusal(
    reply: Reply,
    error: ErrorName,
    failure: InitFailure,
) -> InitRefusal {
    InitRefusal { answer: ErrorReply { reply, error: ReplyErrno::Named(error) }, failure }
}

/// The first step of a handshake: a kernel that is too old is answered with
/// `EPROTO`, and the file system is not asked.
pub open spec fn init_spec(arg: FuseInitIn, unique: u64, fd: i32, target: Target) -> InitStep {
    let reply = Reply { kind: ReplyKind::Init, unique, fd };
    if abi_supported(arg) {
        InitStep::AskFileSystem(PendingInit { arg, reply, target })
    } else {
        InitStep::Refuse(init_refusal(reply, ErrorName::EPROTO, InitFailure::AbiTooLow))
    }
}

/// The reply that opens a connection: the version that the session is built
/// for, the kernel's read-ahead, and the features that both sides support.
pub open spec fn init_reply_spec(arg: FuseInitIn, target: Target) -> InitReply {
    InitReply {
        major: FUSE_KERNEL_VERSION,
        minor: target.abi_minor,
        max_readahead: arg.max_readahead,
        flags: arg.flags & target.os.init_flags_spec(),
        background: if target.abi_minor >= BACKGROUND_SINCE {
            Some(
                BackgroundLimits {
                    max_background: MAX_BACKGROUND,
                    congestion_threshold: CONGESTION_THRESHOLD,
                },
            )
        } else {
            None
        },
        max_write: target.os.max_write_size_spec(),
        time_gran: if target.abi_minor >= TIME_GRAN_SINCE {
            Some(TIME_GRAN)
        } else {
            None
        },
        max_pages: if target.abi_minor >= MAX_PAGES_SINCE {
            Some(MAX_PAGES)
        } else {
            None
        },
    }
}

/// The reply that opens a connection.
fn init_reply(arg: &FuseInitIn, target: Target) -> (body: InitReply)
    ensures
        body == init_reply_spec(*arg, target),
{
    InitReply {
        major: FUSE_KERNEL_VERSION,
        minor: target.abi_minor,
        max_readahead: arg.max_readahead,
        flags: arg.flags & target.os.init_flags(),
        background: if target.abi_minor >= BACKGROUND_SINCE {
            Some(
                BackgroundLimits {
                    max_background: MAX_BACKGROUND,
                    congestion_threshold: CONGESTION_THRESHOLD,
                },
            )
        } else {
            None
        },
        max_write: target.os.max_write_size(),
        time_gran: if target.abi_minor >= TIME_GRAN_SINCE {
            Some(TIME_GRAN)
        } else {
            None
        },
        max_pages: if target.abi_minor >= MAX_PAGES_SINCE {
            Some(MAX_PAGES)
        } else {
            None
        },
    }
}

impl PendingInit {
    /// What follows from the file system's own initialization: where that
    /// failed the kernel is answered with `ENOSYS`.
    pub open spec fn filesystem_init_spec(self, succeeded: bool) -> InitAnswer {
        if succeeded {
            InitAnswer::Accept(
                AcceptedInit {
                    arg: self.arg,
                    reply: self.reply,
                    body: init_reply_spec(self.arg, self.target),
                    readahead_fits: self.arg.max_readahead
                        <= self.target.os.max_write_size_spec(),
                },
            )
        } else {
            InitAnswer::Refuse(
                init_refusal(self.reply, ErrorName::ENOSYS, InitFailure::FileSystemInit),
            )
        }
    }

    /// What follows from the file system's own initialization.
    pub fn filesystem_init(self, succeeded: bool) -> (answer: InitAnswer)
        ensures
            answer == self.filesystem_init_spec(succeeded),
    {
        if succeeded {
            InitAnswer::Accept(
                AcceptedInit {
                    arg: self.arg,
                    reply: self.reply,
                    body: init_reply(&self.arg, self.target),
                    readahead_fits: self.arg.max_readahead <= self.target.os.max_write_size(),
                },
            )
        } else {
            InitAnswer::Refuse(
                InitRefusal {
                    answer: ErrorReply {
                        reply: self.reply,
                        error: ReplyErrno::Named(ErrorName::ENOSYS),
                    },
                    failure: InitFailure::FileSystemInit,
                },
            )
        }
    }
}

impl InitRefusal {
    /// How a handshake that is turned down ends, once the answer is sent or
    /// could not be.
    pub open spec fn end_spec(self, sent: bool) -> InitFailure {
        if sent {
            self.failure
        } else {
            InitFailure::ReplyNotSent
        }
    }

    /// How a handshake that is turned down ends.
    pub fn end(self, sent: bool) -> (failure: InitFailure)
        ensures
            failure == self.end_spec(sent),
    {
        if sent {
            self.failure
        } else {
            InitFailure::ReplyNotSent
        }
    }
}

impl Session {
    /// Begins the handshake that a request to initialize asks for.
    pub fn init(&self, arg: &FuseInitIn, unique: u64, fd: i32, target: Target) -> (step: InitStep)
        ensures
            step == init_spec(*arg, unique, fd, target),
    {
        let reply = Reply { kind: ReplyKind::Init, unique, fd };
        // We don't support ABI versions before 7.8
        if arg.major < FUSE_KERNEL_VERSION || (arg.major == FUSE_KERNEL_VERSION && arg.minor
            < FUSE_LOWEST_MINOR_VERSION) {
            InitStep::Refuse(
                InitRefusal {
                    answer: ErrorReply { reply, error: ReplyErrno::Named(ErrorName::EPROTO) },
                    failure: InitFailure::AbiTooLow,
                },
            )
        } else {
            InitStep::AskFileSystem(PendingInit { arg: *arg, reply, target })
        }
    }

    /// The session with the kernel's protocol version.
    pub open spec fn with_protocol(self, arg: FuseInitIn) -> Session {
        Session { proto_major: arg.major, proto_minor: arg.minor, ..self }
    }

    /// The session, how far the connection has come, and how a handshake ended
    /// that was agreed to.
    pub open spec fn open_connection_spec(
        self,
        lifecycle: Lifecycle,
        accepted: AcceptedInit,
        sent: bool,
    ) -> (Session, Lifecycle, Result<(), InitFailure>) {
        if sent {
            (
                self.with_protocol(accepted.arg),
                Lifecycle { initialized: true, ..lifecycle },
                Ok(()),
            )
        } else {
            (self, lifecycle, Err(InitFailure::ReplyNotSent))
        }
    }

    /// Ends a handshake that is agreed to. Once the reply is sent the session
    /// has the kernel's version and the connection is initialized; where it
    /// could not be sent, nothing has changed.
    pub fn open_connection(
        &mut self,
        lifecycle: &mut Lifecycle,
        accepted: &AcceptedInit,
        sent: bool,
    ) -> (opened: Result<(), InitFailure>)
        ensures
            opened == (if sent {
                Ok::<(), InitFailure>(())
            } else {
                Err(InitFailure::ReplyNotSent)
            }),
            sent ==> *final(self) == old(self).with_protocol(accepted.arg),
            sent ==> *final(lifecycle) == (Lifecycle { initialized: true, ..*old(lifecycle) }),
            !sent ==> *final(self) == *old(self) && *final(lifecycle) == *old(lifecycle),
            (*final(self), *final(lifecycle), opened) == old(self).open_connection_spec(
                *old(lifecycle),
                *accepted,
                sent,
            ),
    {
        if sent {
            self.proto_major = accepted.arg.major;
            self.proto_minor = accepted.arg.minor;
            lifecycle.initialized = true;
            Ok(())
        } else {
            Err(InitFailure::ReplyNotSent)
        }
    }
}

/// A handshake from end to end: the session, how far the connection has come,
/// and how it ended, for each outcome of the file system's initialization and
/// of the sending of the reply.
pub open spec fn handshake(
    session: Session,
    lifecycle: Lifecycle,
    arg: FuseInitIn,
    unique: u64,
    fd: i32,
    target: Target,
    fs_init: bool,
    sent: bool,
) -> (Session, Lifecycle, Result<(), InitFailure>) {
    match init_spec(arg, unique, fd, target) {
        InitStep::Refuse(refusal) => (session, lifecycle, Err(refusal.end_spec(sent))),
        InitStep::AskFileSystem(pending) => match pending.filesystem_init_spec(fs_init) {
            InitAnswer::Refuse(refusal) => (session, lifecycle, Err(refusal.end_spec(sent))),
            InitAnswer::Accept(accepted) => session.open_connection_spec(
                lifecycle,
                accepted,
                sent,
            ),
        },
    }
}

/// A handshake succeeds exactly where the kernel's version is supported, the
/// file system's initialization succeeds and the reply is sent. Then the
/// session has the kernel's version and the connection is initialized; else
/// neither has changed.
pub proof fn law_handshake(
    session: Session,
    lifecycle: Lifecycle,
    arg: FuseInitIn,
    unique: u64,
    fd: i32,
    target: Target,
    fs_init: bool,
    sent: bool,
)
    ensures
        ({
            let (session1, lifecycle1, end) = handshake(
                session,
                lifecycle,
                arg,
                unique,
                fd,
                target,
                fs_init,
                sent,
            );
            &&& end is Ok <==> abi_supported(arg) && fs_init && sent
            &&& end is Ok ==> lifecycle1.initialized && session1.proto_major == arg.major
                && session1.proto_minor == arg.minor
            &&& end is Err ==> session1 == session && lifecycle1 == lifecycle
            &&& session1.mountpoint == session.mountpoint && session1.fuse_fd == session.fuse_fd
            &&& lifecycle1.destroyed == lifecycle.destroyed
        }),
{
}

/// Whatever version is supported is so in every later kernel.
pub proof fn law_later_kernels_supported(arg: FuseInitIn, later: FuseInitIn)
    requires
        abi_supported(arg),
        later.major > arg.major || (later.major == arg.major && later.minor >= arg.minor),
    ensures
        abi_supported(later),
{
}

/// The reply names no feature that the kernel did not offer, and none that the
/// session does not support.
pub proof fn law_features_are_common(arg: FuseInitIn, target: Target)
    ensures
        init_reply_spec(arg, target).flags & !arg.flags == 0,
        init_reply_spec(arg, target).flags & !target.os.init_flags_spec() == 0,
{
    let offered = arg.flags;
    let supported = target.os.init_flags_spec();
    assert((offered & supported) & !offered == 0 && (offered & supported) & !supported == 0)
        by (bit_vector);
}

/// A write as large as the reply allows fits into a request buffer with room
/// for its headers, and the kernel is allowed exactly as many background
/// requests as a session has buffers for.
pub proof fn law_reply_promises_what_the_pool_holds(arg: FuseInitIn, target: Target)
    ensures
        init_reply_spec(arg, target).max_write + HEADER_ROOM == target.os.buffer_size_spec(),
        init_reply_spec(arg, target).background matches Some(limits) ==> limits.max_background
            == MAX_BACKGROUND,
{
}

/// A kernel whose version is 7.8 or higher leads to the question to the file
/// system, with the kernel's own argument and for the target it is asked for; a
/// lower version is refused with `EPROTO`. Either way the answer goes to the
/// request, on its device.
pub proof fn law_versions(arg: FuseInitIn, unique: u64, fd: i32, target: Target)
    ensures
        ({
            let supported = arg.major > 7 || (arg.major == 7 && arg.minor >= 8);
            match init_spec(arg, unique, fd, target) {
                InitStep::AskFileSystem(pending) => {
                    &&& supported
                    &&& pending.arg == arg
                    &&& pending.target == target
                    &&& pending.reply.kind is Init
                    &&& pending.reply.unique == unique
                    &&& pending.reply.fd == fd
                },
                InitStep::Refuse(refusal) => {
                    &&& !supported
                    &&& refusal.answer.error == ReplyErrno::Named(ErrorName::EPROTO)
                    &&& refusal.answer.reply.kind is Init
                    &&& refusal.answer.reply.unique == unique
                    &&& refusal.answer.reply.fd == fd
                    &&& refusal.failure is AbiTooLow
                },
            }
        }),
{
}

/// Whether a handshake with a supported kernel is agreed to is up to the file
/// system alone: where its initialization failed the kernel is answered with
/// `ENOSYS`. The kernel's argument and the right to answer are handed on.
pub proof fn law_file_system_decides(pending: PendingInit, succeeded: bool)
    ensures
        match pending.filesystem_init_spec(succeeded) {
            InitAnswer::Accept(accepted) => {
                &&& succeeded
                &&& accepted.arg == pending.arg
                &&& accepted.reply == pending.reply
                &&& accepted.body == init_reply_spec(pending.arg, pending.target)
                &&& pending.target.os is Linux ==> (accepted.readahead_fits
                    <==> pending.arg.max_readahead <= 128 * 1024)
                &&& pending.target.os is MacOs ==> (accepted.readahead_fits
                    <==> pending.arg.max_readahead <= 16 * 1024 * 1024)
            },
            InitAnswer::Refuse(refusal) => {
                &&& !succeeded
                &&& refusal.answer.error == ReplyErrno::Named(ErrorName::ENOSYS)
                &&& refusal.answer.reply == pending.reply
                &&& refusal.failure is FileSystemInit
            },
        },
{
}

/// The reply names version 7 and the minor version that it is built for, takes
/// over the kernel's read-ahead, and allows writes as large as the system's
/// default. Later minor versions add the background limits, the granularity of
/// times and the number of pages.
pub proof fn law_reply_terms(arg: FuseInitIn, target: Target)
    ensures
        ({
            let body = init_reply_spec(arg, target);
            &&& body.major == 7
            &&& body.minor == target.abi_minor
            &&& body.max_readahead == arg.max_readahead
            &&& target.os is Linux ==> body.max_write == 128 * 1024
            &&& target.os is MacOs ==> body.max_write == 16 * 1024 * 1024
            &&& body.background is Some <==> target.abi_minor >= 13
            &&& body.background matches Some(limits) ==> limits.max_background == 10
                && limits.congestion_threshold == 100
            &&& body.time_gran is Some <==> target.abi_minor >= 23
            &&& body.time_gran matches Some(time_gran) ==> time_gran == 1
            &&& body.max_pages is Some <==> target.abi_minor >= 28
            &&& body.max_pages matches Some(max_pages) ==> max_pages == 0
        }),
{
}

/// A feature is in the reply exactly where the kernel offered it and the session
/// supports it: asynchronous reads, the lowest bit, on every system, and the
/// three highest bits on macOS.
pub proof fn law_features_are_those_of_both(arg: FuseInitIn, target: Target)
    ensures
        ({
            let flags = init_reply_spec(arg, target).flags;
            &&& flags & 0x1 == arg.flags & 0x1
            &&& target.os is MacOs ==> flags & 0xe000_0000 == arg.flags & 0xe000_0000
            &&& target.os is Linux ==> flags & 0xe000_0000 == 0
            &&& flags & 0x1fff_fffe == 0
        }),
{
    let offered = arg.flags;
    assert(0x1u32 | 0x2000_0000u32 | 0x4000_0000u32 | 0x8000_0000u32 == 0xe000_0001u32)
        by (bit_vector);
    assert((offered & 0x1u32) & 0x1u32 == offered & 0x1u32 && (offered & 0x1u32) & 0xe000_0000u32
        == 0 && (offered & 0x1u32) & 0x1fff_fffeu32 == 0) by (bit_vector);
    assert((offered & 0xe000_0001u32) & 0x1u32 == offered & 0x1u32 && (offered & 0xe000_0001u32)
        & 0xe000_0000u32 == offered & 0xe000_0000u32 && (offered & 0xe000_0001u32) & 0x1fff_fffeu32
        == 0) by (bit_vector);
}

/// A handshake that is turned down ends with the reason for it, unless the
/// kernel could not be told.
pub proof fn law_end_of_a_refusal(refusal: InitRefusal, sent: bool)
    ensures
        sent ==> refusal.end_spec(sent) == refusal.failure,
        !sent ==> refusal.end_spec(sent) is ReplyNotSent,
{
}

/// A handshake opens the connection exactly where the kernel's version is 7.8 or
/// higher, the file system's initialization succeeds and the reply is sent. How
/// it fails else follows from the first of these that does not hold, but an
/// answer that could not be sent comes before all.
pub proof fn law_outcome_of_a_handshake(
    session: Session,
    lifecycle: Lifecycle,
    arg: FuseInitIn,
    unique: u64,
    fd: i32,
    target: Target,
    fs_init: bool,
    sent: bool,
)
    ensures
        ({
            let (session1, lifecycle1, end) = handshake(
                session,
                lifecycle,
                arg,
                unique,
                fd,
                target,
                fs_init,
                sent,
            );
            let supported = arg.major > 7 || (arg.major == 7 && arg.minor >= 8);
            &&& !sent <==> end == Err::<(), InitFailure>(InitFailure::ReplyNotSent)
            &&& sent && !supported <==> end == Err::<(), InitFailure>(InitFailure::AbiTooLow)
            &&& sent && supported && !fs_init <==> end == Err::<(), InitFailure>(
                InitFailure::FileSystemInit,
            )
            &&& sent && supported && fs_init <==> end is Ok
            &&& end is Ok ==> session1.proto_major == arg.major && session1.proto_minor == arg.minor
            &&& end is Err ==> session1.proto_major == session.proto_major && session1.proto_minor
                == session.proto_minor
            &&& session1.mountpoint == session.mountpoint
            &&& session1.fuse_fd == session.fuse_fd
            &&& lifecycle1.initialized <==> lifecycle.initialized || end is Ok
            &&& lifecycle1.destroyed == lifecycle.destroyed
        }),
{
}

} // verus!
