//! The serving of requests: from the first read of the device to the last.

use vstd::prelude::*;
use crate::aligned_bytes::AlignedBytes;
use crate::dispatch::{
    asks_to_destroy, dispatch, dispatch_spec, empty_reply, law_only_destroy_destroys,
    lifecycle_after, AbortReason, Action, ErrorReply, Lifecycle, Reply, ReplyKind,
};
use crate::errno::{
    as_errno, reply_errno, reply_errno_spec, system_errno, system_error_behind, system_error_of,
    ErrorName, ReadErrno, ReplyErrno,
};
use crate::init::{handshake, InitFailure};
use crate::pool::{
    all_numbers, law_put_back_undoes_take, numbers, page_aligned, zeroed, BufferPool, PoolEntry,
    PoolStep, PoolUse,
};
use crate::protocol::{FuseInitIn, Operation, Request};
use crate::session::Session;
use crate::target::{Os, Target, MAX_BACKGROUND};

verus! {

/// A session's buffer pool before the connection is opened: one buffer is taken
/// for the request that opens it.
pub struct PoolSetup {
    pub pool: BufferPool,
    pub buffer_idx: u16,
    pub buffer: AlignedBytes,
    /// The device to read the request from.
    pub fuse_fd: i32,
}

impl PoolSetup {
    /// There is room in the pool for the buffer that is taken, which starts at
    /// the beginning of a page as those in the pool do.
    pub open spec fn wf(&self) -> bool {
        &&& self.pool.wf()
        &&& self.pool@.len() < MAX_BACKGROUND
        &&& page_aligned(self.buffer)
    }

    /// The setup has just begun: no buffer has been read into, the first of them
    /// is taken, and the others are idle.
    pub open spec fn is_fresh(self, session: Session, os: Os) -> bool {
        &&& self.fuse_fd == session.fuse_fd
        &&& self.buffer_idx == 0
        &&& zeroed(self.buffer, os)
        &&& self.pool@.len() == MAX_BACKGROUND - 1
        &&& forall|i: int|
            0 <= i < self.pool@.len() ==> (#[trigger] self.pool@[i]).0 == i + 1 && zeroed(
                self.pool@[i].1,
                os,
            )
    }

    /// The bytes in which to look for the first request, if the device could be
    /// read.
    pub open spec fn first_message_spec(self, read: bool) -> Option<Seq<u8>> {
        if read {
            Some(self.buffer@)
        } else {
            None
        }
    }

    /// The bytes in which to look for the first request: the whole buffer, if
    /// the device could be read.
    pub fn first_message(&self, read: bool) -> (bytes: Option<&[u8]>)
        requires
            self.wf(),
        ensures
            read ==> bytes is Some && bytes->0@ == self.buffer@,
            !read ==> bytes is None,
            match (bytes, self.first_message_spec(read)) {
                (Some(bytes), Some(message)) => bytes@ == message,
                (None, None) => true,
                _ => false,
            },
    {
        if read {
            Some(self.buffer.as_slice())
        } else {
            None
        }
    }

    /// The idle buffers once the setup has ended, and whether the connection is
    /// initialized; or how the setup failed.
    pub open spec fn finish_spec(
        self,
        init: Option<Result<(), InitFailure>>,
        lifecycle: Lifecycle,
    ) -> Result<(Seq<PoolEntry>, bool), InitFailure> {
        match init {
            Some(Err(failure)) => Err(failure),
            _ => Ok((self.pool@.push((self.buffer_idx, self.buffer)), lifecycle.initialized)),
        }
    }

    /// Ends the setup. The buffer goes back to the pool, whether the connection
    /// was opened or no request asked for it; where opening it failed, that is
    /// the setup's failure.
    pub fn finish(
        self,
        init: Option<Result<(), InitFailure>>,
        lifecycle: &Lifecycle,
    ) -> (ready: Result<ReadyPool, InitFailure>)
        requires
            self.wf(),
        ensures
            init matches Some(Err(failure)) ==> ready == Err::<ReadyPool, InitFailure>(failure),
            !(init matches Some(Err(_))) ==> ready is Ok && ready->Ok_0.pool.wf()
                && ready->Ok_0.pool@ == self.pool@.push((self.buffer_idx, self.buffer))
                && ready->Ok_0.initialized == lifecycle.initialized,
            match (ready, self.finish_spec(init, *lifecycle)) {
                (Ok(ready), Ok((idle, initialized))) => ready.pool@ == idle && ready.initialized
                    == initialized,
                (Err(failure), Err(expected)) => failure == expected,
                _ => false,
            },
    {
        match init {
            Some(Err(failure)) => Err(failure),
            _ => {
                let mut pool = self.pool;
                pool.put_back(self.buffer_idx, self.buffer);
                Ok(ReadyPool { pool, initialized: lifecycle.initialized })
            },
        }
    }
}

/// A session's buffer pool that is set up.
pub struct ReadyPool {
    pub pool: BufferPool,
    /// Whether the connection is initialized, as it is meant to be once the
    /// pool is set up: a debug build stops where it is not.
    pub initialized: bool,
}

/// The argument and the number of a request that opens the connection.
pub open spec fn opening_spec(first: Option<Request>) -> Option<(FuseInitIn, u64)> {
    match first {
        Some(req) => match req.operation {
            Operation::Init { arg } => Some((arg, req.unique)),
            _ => None,
        },
        None => None,
    }
}

/// Whether the first request opens the connection, and with what. `None` where
/// no request could be made out.
pub fn opening(first: &Option<Request>) -> (arg: Option<(FuseInitIn, u64)>)
    ensures
        arg == opening_spec(*first),
{
    match first {
        Some(req) => match &req.operation {
            Operation::Init { arg } => Some((*arg, req.unique)),
            _ => None,
        },
        None => None,
    }
}

/// A request that was read and is to be processed, with the buffer it is in.
#[derive(Debug)]
pub struct InFlight {
    pub buffer_idx: u16,
    pub buffer: AlignedBytes,
    /// How many bytes of the buffer were read.
    pub read_size: usize,
    /// The device to answer to.
    pub fuse_fd: i32,
}

/// Why a read that failed is tried again.
#[derive(Debug, Clone, Copy, PartialEq, Eq)]
pub enum RetryReason {
    /// Operation interrupted. According to FUSE, this is safe to retry.
    OperationInterrupted,
    /// Interrupted system call.
    SystemCallInterrupted,
    /// Explicitly try again.
    TryAgain,
}

/// Why the serving ends.
#[derive(Debug, Clone, Copy, PartialEq, Eq)]
pub enum QuitReason {
    /// The file system was unmounted.
    Unmounted,
    /// Something is wrong with the device.
    DeviceGone,
    /// A read failed in a way that does not pass.
    Unrecoverable,
}

/// What to do after a read that failed.
#[derive(Debug, Clone, Copy, PartialEq, Eq)]
pub enum ReadFailure {
    /// Read again.
    Retry(RetryReason),
    /// Stop reading.
    Quit(QuitReason),
}

/// What to do after a read of the device.
#[derive(Debug)]
pub enum RunAction {
    /// Process the request, and go on reading meanwhile.
    Process(InFlight),
    /// Put the buffer back into the pool, and read again.
    Retry { reason: RetryReason, entry: PoolEntry },
    /// Stop reading. The buffer is given up.
    Quit(QuitReason),
}

/// Whether a system error is one that passes, so that it is safe to read again.
pub open spec fn is_transient(errno: Option<i32>, os: Os) -> bool {
    ||| errno == Some(ReadErrno::ENOENT.number_spec(os))
    ||| errno == Some(ReadErrno::EINTR.number_spec(os))
    ||| errno == Some(ReadErrno::EAGAIN.number_spec(os))
}

/// What to do after a read that failed with a system error, or with none.
pub open spec fn failed_read_spec(errno: Option<i32>, destroyed: bool, os: Os) -> ReadFailure {
    if errno == Some(ReadErrno::ENOENT.number_spec(os)) {
        ReadFailure::Retry(RetryReason::OperationInterrupted)
    } else if errno == Some(ReadErrno::EINTR.number_spec(os)) {
        ReadFailure::Retry(RetryReason::SystemCallInterrupted)
    } else if errno == Some(ReadErrno::EAGAIN.number_spec(os)) {
        ReadFailure::Retry(RetryReason::TryAgain)
    } else if errno == Some(ReadErrno::ENODEV.number_spec(os)) {
        ReadFailure::Quit(
            if destroyed {
                QuitReason::Unmounted
            } else {
                QuitReason::DeviceGone
            },
        )
    } else {
        ReadFailure::Quit(QuitReason::Unrecoverable)
    }
}

/// What to do after a read that failed with a system error, or with none.
pub fn failed_read(errno: Option<i32>, destroyed: bool, os: Os) -> (failure: ReadFailure)
    ensures
        failure == failed_read_spec(errno, destroyed, os),
{
    match errno {
        Some(number) => if number == ReadErrno::ENOENT.number(os) {
            ReadFailure::Retry(RetryReason::OperationInterrupted)
        } else if number == ReadErrno::EINTR.number(os) {
            ReadFailure::Retry(RetryReason::SystemCallInterrupted)
        } else if number == ReadErrno::EAGAIN.number(os) {
            ReadFailure::Retry(RetryReason::TryAgain)
        } else if number == ReadErrno::ENODEV.number(os) {
            if destroyed {
                ReadFailure::Quit(QuitReason::Unmounted)
            } else {
                ReadFailure::Quit(QuitReason::DeviceGone)
            }
        } else {
            ReadFailure::Quit(QuitReason::Unrecoverable)
        },
        None => ReadFailure::Quit(QuitReason::Unrecoverable),
    }
}

impl Session {
    /// Sets up the buffer pool: `MAX_BACKGROUND` zeroed buffers, of which the
    /// first is taken for the request that opens the connection.
    pub fn setup_buffer_pool(&self, os: Os) -> (setup: PoolSetup)
        ensures
            setup.wf(),
            setup.is_fresh(*self, os),
            setup.fuse_fd == self.fuse_fd,
            setup.buffer_idx == 0,
            zeroed(setup.buffer, os),
            setup.pool@.len() == MAX_BACKGROUND - 1,
            forall|i: int|
                0 <= i < MAX_BACKGROUND - 1 ==> (#[trigger] setup.pool@[i]).0 == i + 1 && zeroed(
                    setup.pool@[i].1,
                    os,
                ),
    {
        let mut pool = BufferPool::filled(os);
        let (buffer_idx, buffer) = pool.take();
        PoolSetup { pool, buffer_idx, buffer, fuse_fd: self.dev_fd() }
    }

    /// What to do after a read of the device into a buffer of the pool.
    pub open spec fn run_spec(
        self,
        buffer_idx: u16,
        buffer: AlignedBytes,
        read: Result<usize, nix::Error>,
        lifecycle: Lifecycle,
        os: Os,
    ) -> RunAction {
        match read {
            Ok(read_size) => RunAction::Process(
                InFlight { buffer_idx, buffer, read_size, fuse_fd: self.fuse_fd },
            ),
            Err(err) => match failed_read_spec(system_errno(err), lifecycle.destroyed, os) {
                ReadFailure::Retry(reason) => RunAction::Retry {
                    reason,
                    entry: (buffer_idx, buffer),
                },
                ReadFailure::Quit(reason) => RunAction::Quit(reason),
            },
        }
    }

    /// Runs the session by one step: says what to do after a read of the device
    /// into a buffer of the pool.
    pub fn run(
        &self,
        buffer_idx: u16,
        buffer: AlignedBytes,
        read: Result<usize, nix::Error>,
        lifecycle: &Lifecycle,
        os: Os,
    ) -> (action: RunAction)
        ensures
            action == self.run_spec(buffer_idx, buffer, read, *lifecycle, os),
    {
        match read {
            Ok(read_size) => RunAction::Process(
                InFlight { buffer_idx, buffer, read_size, fuse_fd: self.dev_fd() },
            ),
            Err(err) => match failed_read(as_errno(err), lifecycle.destroyed, os) {
                ReadFailure::Retry(reason) => RunAction::Retry {
                    reason,
                    entry: (buffer_idx, buffer),
                },
                ReadFailure::Quit(reason) => RunAction::Quit(reason),
            },
        }
    }
}

/// What to do once a request is dispatched.
#[derive(Debug)]
pub enum Finish {
    /// Put the buffer back into the pool.
    ReturnBuffer(PoolEntry),
    /// Answer that the request failed, and then give up on the task that
    /// processes it. The buffer does not go back to the pool.
    ReplyErrorAndAbort(ErrorReply),
}

/// What to do once a request is dispatched. A failure is given as the number of
/// the system error behind it, if there is one.
pub open spec fn finish_spec(
    in_flight: InFlight,
    unique: u64,
    dispatched: Result<(), Option<i32>>,
) -> Finish {
    match dispatched {
        Ok(_) => Finish::ReturnBuffer((in_flight.buffer_idx, in_flight.buffer)),
        Err(system_error) => Finish::ReplyErrorAndAbort(
            ErrorReply {
                reply: empty_reply(unique, in_flight.fuse_fd),
                error: reply_errno_spec(system_error),
            },
        ),
    }
}

/// What `finish_spec` needs to know of how dispatching a request ended.
pub open spec fn dispatch_end(dispatched: Result<(), anyhow::Error>) -> Result<(), Option<i32>> {
    match dispatched {
        Ok(_) => Ok(()),
        Err(err) => Err(system_error_behind(err)),
    }
}

impl InFlight {
    /// The bytes of the request, if the buffer holds as many as were read.
    pub open spec fn request_bytes_spec(self) -> Option<Seq<u8>> {
        if self.read_size <= self.buffer@.len() {
            Some(self.buffer@.take(self.read_size as int))
        } else {
            None
        }
    }

    /// The bytes of the request, if the buffer holds as many as were read.
    pub fn request_bytes(&self) -> (bytes: Option<&[u8]>)
        requires
            self.buffer.wf(),
        ensures
            match (bytes, self.request_bytes_spec()) {
                (Some(bytes), Some(request)) => bytes@ == request,
                (None, None) => true,
                _ => false,
            },
    {
        self.buffer.prefix(self.read_size)
    }

    /// What to do about the request: `parsed` is what its bytes say, and `None`
    /// where they make no request.
    pub open spec fn process_fuse_request_spec(
        self,
        parsed: Option<Request>,
        lifecycle: Lifecycle,
        os: Os,
    ) -> Action {
        match parsed {
            Some(req) => dispatch_spec(req, self.fuse_fd, lifecycle, os),
            None => Action::Abort(AbortReason::IllegalRequest),
        }
    }

    /// What to do about the request.
    pub fn process_fuse_request(
        &self,
        parsed: Option<Request>,
        lifecycle: &Lifecycle,
        os: Os,
    ) -> (action: Action)
        ensures
            action == self.process_fuse_request_spec(parsed, *lifecycle, os),
    {
        match parsed {
            // Dispatch request
            Some(req) => dispatch(req, self.fuse_fd, lifecycle, os),
            // Quit on illegal request
            None => Action::Abort(AbortReason::IllegalRequest),
        }
    }

    /// Finishes a request that is dispatched: what a failure is answered with
    /// follows from the system error behind it, if there is one.
    pub fn finish_with(self, unique: u64, dispatched: Result<(), Option<i32>>) -> (finish: Finish)
        ensures
            finish == finish_spec(self, unique, dispatched),
    {
        match dispatched {
            Ok(_) => Finish::ReturnBuffer((self.buffer_idx, self.buffer)),
            Err(system_error) => {
                let reply = Reply { kind: ReplyKind::Empty, unique, fd: self.fuse_fd };
                Finish::ReplyErrorAndAbort(ErrorReply { reply, error: reply_errno(system_error) })
            },
        }
    }

    /// Finishes a request that is dispatched.
    pub fn finish(self, unique: u64, dispatched: Result<(), anyhow::Error>) -> (finish: Finish)
        ensures
            finish == finish_spec(self, unique, dispatch_end(dispatched)),
    {
        let end = match dispatched {
            Ok(_) => Ok(()),
            Err(err) => Err(system_error_of(&err)),
        };
        self.finish_with(unique, end)
    }
}

/// Once its first buffer is back, a pool that was set up holds each of the
/// session's buffers.
pub proof fn law_pool_is_full_after_setup(setup: PoolSetup)
    requires
        setup.buffer_idx == 0,
        setup.pool@.len() == MAX_BACKGROUND - 1,
        forall|i: int| 0 <= i < MAX_BACKGROUND - 1 ==> (#[trigger] setup.pool@[i]).0 == i + 1,
    ensures
        numbers(setup.pool@.push((setup.buffer_idx, setup.buffer))).to_multiset() == all_numbers(),
{
    broadcast use vstd::seq_lib::group_to_multiset_ensures;

    let pushed = numbers(setup.pool@.push((setup.buffer_idx, setup.buffer)));
    let all = Seq::new(MAX_BACKGROUND as nat, |i: int| i as u16);
    let later = all.drop_first();
    assert(pushed =~= later.push(0u16));
    assert(all =~= seq![0u16] + later);
    assert(all.remove(0) =~= later);
    assert(pushed.to_multiset() =~= all.to_multiset());
}

/// How the first request leaves the session and the connection, and whether
/// setting up goes on: a request that opens the connection leads to a handshake,
/// and no other does anything.
pub open spec fn first_request_end(
    session: Session,
    lifecycle: Lifecycle,
    first: Option<Request>,
    target: Target,
    fs_init: bool,
    sent: bool,
) -> (Session, Lifecycle, Option<Result<(), InitFailure>>) {
    match opening_spec(first) {
        Some((arg, unique)) => {
            let (session1, lifecycle1, end) = handshake(
                session,
                lifecycle,
                arg,
                unique,
                session.fuse_fd,
                target,
                fs_init,
                sent,
            );
            (session1, lifecycle1, Some(end))
        },
        None => (session, lifecycle, None),
    }
}

/// Setting up ends on an initialized connection exactly where it was initialized
/// before, or the first request is one to open it and the handshake succeeds.
/// Without such a request nothing changes; and setting up fails only where a
/// handshake fails.
pub proof fn law_first_request(
    session: Session,
    lifecycle: Lifecycle,
    first: Option<Request>,
    target: Target,
    fs_init: bool,
    sent: bool,
)
    ensures
        ({
            let (session1, lifecycle1, init) = first_request_end(
                session,
                lifecycle,
                first,
                target,
                fs_init,
                sent,
            );
            &&& lifecycle1.initialized <==> lifecycle.initialized || init == Some(
                Ok::<(), InitFailure>(()),
            )
            &&& opening_spec(first) is None ==> init is None && session1 == session && lifecycle1
                == lifecycle
            &&& init matches Some(Err(_)) ==> opening_spec(first) is Some && session1 == session
                && lifecycle1 == lifecycle
        }),
{
}

/// Only a failure that passes is tried again, and every such failure is: a read
/// that another attempt follows is exactly one that failed with `ENOENT`,
/// `EINTR` or `EAGAIN`.
pub proof fn law_retries(errno: Option<i32>, destroyed: bool, os: Os)
    ensures
        failed_read_spec(errno, destroyed, os) is Retry <==> is_transient(errno, os),
        failed_read_spec(errno, destroyed, os) is Quit <==> !is_transient(errno, os),
{
}

/// A loop that ends because the kernel unmounted the file system is told from
/// one that ends because of a fault: the device is gone and the connection was
/// destroyed before.
pub proof fn law_orderly_end(errno: Option<i32>, destroyed: bool, os: Os)
    ensures
        failed_read_spec(errno, destroyed, os) == ReadFailure::Quit(QuitReason::Unmounted)
            <==> errno == Some(ReadErrno::ENODEV.number_spec(os)) && destroyed,
{
}

/// A request that is served without failure gives back the very buffer that it
/// was read into, under the same number; and so does a read that is tried again.
pub proof fn law_buffer_comes_back(
    session: Session,
    entry: PoolEntry,
    read: Result<usize, nix::Error>,
    lifecycle: Lifecycle,
    unique: u64,
    os: Os,
)
    ensures
        match session.run_spec(entry.0, entry.1, read, lifecycle, os) {
            RunAction::Process(in_flight) => finish_spec(in_flight, unique, Ok(()))
                == Finish::ReturnBuffer(entry),
            RunAction::Retry { reason, entry: returned } => returned == entry,
            RunAction::Quit(reason) => true,
        },
{
}

/// What becomes of the buffer with this number, which a read was made into: it
/// stays with the request, goes back, or is given up.
pub open spec fn pool_step_after_run(action: RunAction, number: u16) -> Option<PoolStep> {
    match action {
        RunAction::Process(_) => None,
        RunAction::Retry { reason, entry } => Some(PoolStep::PutBack(entry)),
        RunAction::Quit(_) => Some(PoolStep::GiveUp(number)),
    }
}

/// What becomes of the buffer with this number, once its request is finished.
pub open spec fn pool_step_after_finish(finish: Finish, number: u16) -> PoolStep {
    match finish {
        Finish::ReturnBuffer(entry) => PoolStep::PutBack(entry),
        Finish::ReplyErrorAndAbort(_) => PoolStep::GiveUp(number),
    }
}

/// Whatever comes of a read into the buffer that has been idle longest, and of
/// the request in it, is something that can happen to the pool: a buffer that
/// is put back was taken before, and there is room for it. A read that is tried
/// again, and a request that is served, cost the pool nothing; a read that ends
/// the serving, and a request that fails, cost it a buffer.
pub proof fn law_requests_keep_to_the_pool(
    session: Session,
    now: PoolUse,
    read: Result<usize, nix::Error>,
    lifecycle: Lifecycle,
    unique: u64,
    dispatched: Result<(), Option<i32>>,
    os: Os,
)
    requires
        now.allows(PoolStep::Take),
    ensures
        ({
            let entry = now.idle[0];
            let taken = now.after(PoolStep::Take);
            let action = session.run_spec(entry.0, entry.1, read, lifecycle, os);
            match action {
                RunAction::Process(in_flight) => {
                    let finish = finish_spec(in_flight, unique, dispatched);
                    let step = pool_step_after_finish(finish, entry.0);
                    &&& read is Ok && pool_step_after_run(action, entry.0) is None
                    &&& taken.allows(step)
                    &&& taken.after(step).busy == now.busy
                    &&& dispatched is Ok ==> taken.after(step).idle.len() == now.idle.len()
                    &&& dispatched is Err ==> taken.after(step).idle.len() == now.idle.len() - 1
                },
                RunAction::Retry { reason, entry: returned } => {
                    &&& read matches Err(err) && is_transient(system_errno(err), os)
                    &&& pool_step_after_run(action, entry.0) matches Some(step)
                    &&& taken.allows(step)
                    &&& taken.after(step).busy == now.busy
                    &&& taken.after(step).given_up == now.given_up
                    &&& taken.after(step).idle.len() == now.idle.len()
                },
                RunAction::Quit(reason) => {
                    &&& read matches Err(err) && !is_transient(system_errno(err), os)
                    &&& pool_step_after_run(action, entry.0) matches Some(step)
                    &&& taken.allows(step)
                    &&& taken.after(step).busy == now.busy
                    &&& taken.after(step).idle.len() == now.idle.len() - 1
                },
            }
        }),
{
    assert(now.busy.insert(now.idle[0].0).remove(now.idle[0].0) =~= now.busy);
}

/// Where the buffers are after a series of reads that failed, each made into the
/// buffer that had been idle longest. A failure comes with how far the
/// connection had come at the time.
pub open spec fn after_failed_reads(
    session: Session,
    now: PoolUse,
    failures: Seq<(nix::Error, Lifecycle)>,
    os: Os,
) -> PoolUse
    decreases failures.len(),
{
    if failures.len() == 0 {
        now
    } else {
        let before = after_failed_reads(session, now, failures.drop_last(), os);
        let entry = before.idle[0];
        let (err, lifecycle) = failures.last();
        let action = session.run_spec(entry.0, entry.1, Err(err), lifecycle, os);
        match pool_step_after_run(action, entry.0) {
            Some(step) => before.after(PoolStep::Take).after(step),
            None => before.after(PoolStep::Take),
        }
    }
}

/// It is safe to read again after a failure that passes, however often that
/// happens: after any number of such failures there are as many idle buffers as
/// before, the same ones but for their order, so that another can be taken for
/// the next read; and the failure of that read, if it passes too, is followed by
/// another attempt.
pub proof fn law_transient_failures_are_free(
    session: Session,
    now: PoolUse,
    failures: Seq<(nix::Error, Lifecycle)>,
    os: Os,
)
    requires
        now.allows(PoolStep::Take),
        forall|i: int|
            0 <= i < failures.len() ==> is_transient(
                system_errno((#[trigger] failures[i]).0),
                os,
            ),
    ensures
        ({
            let then = after_failed_reads(session, now, failures, os);
            &&& then.allows(PoolStep::Take)
            &&& then.idle.len() == now.idle.len()
            &&& then.idle.to_multiset() == now.idle.to_multiset()
            &&& then.busy == now.busy
            &&& then.given_up == now.given_up
            &&& forall|err: nix::Error, lifecycle: Lifecycle|
                is_transient(system_errno(err), os) ==> (#[trigger] session.run_spec(
                    then.idle[0].0,
                    then.idle[0].1,
                    Err(err),
                    lifecycle,
                    os,
                )) is Retry
        }),
    decreases failures.len(),
{
    if failures.len() > 0 {
        let earlier = failures.drop_last();
        assert forall|i: int| 0 <= i < earlier.len() implies is_transient(
            system_errno((#[trigger] earlier[i]).0),
            os,
        ) by {
            assert(earlier[i] == failures[i]);
        }
        law_transient_failures_are_free(session, now, earlier, os);
        let before = after_failed_reads(session, now, earlier, os);
        assert(is_transient(system_errno(failures[failures.len() - 1].0), os));
        law_put_back_undoes_take(before);
        assert(before.idle.drop_first().push(before.idle[0]).to_multiset()
            =~= before.idle.to_multiset()) by {
            broadcast use vstd::seq_lib::group_to_multiset_ensures;

            assert(before.idle.remove(0) =~= before.idle.drop_first());
        }
    }
}

/// A request that failed is answered with the number of the system error behind
/// the failure, and with `EINVAL` where there is none; the answer goes to the
/// request, on the session's device.
pub proof fn law_failure_is_reported(
    session: Session,
    entry: PoolEntry,
    read_size: usize,
    lifecycle: Lifecycle,
    unique: u64,
    system_error: Option<i32>,
    os: Os,
)
    ensures
        session.run_spec(entry.0, entry.1, Ok(read_size), lifecycle, os) matches RunAction::Process(
            in_flight,
        ) && finish_spec(in_flight, unique, Err(system_error))
            matches Finish::ReplyErrorAndAbort(answer) && answer.reply == empty_reply(
            unique,
            session.fuse_fd,
        ) && (system_error matches Some(number) ==> answer.error == ReplyErrno::Number(number)) && (
        system_error is None ==> answer.error == ReplyErrno::Named(ErrorName::EINVAL)),
{
}

/// What an earlier request left behind in a buffer is never taken for part of a
/// request: two requests whose buffers agree on the bytes that were read have
/// the same bytes. However these are decoded, the same is done about both, and
/// their failures are answered alike.
pub proof fn law_only_what_was_read_counts(
    one: InFlight,
    other: InFlight,
    decode: spec_fn(Seq<u8>) -> Option<Request>,
    lifecycle: Lifecycle,
    os: Os,
    unique: u64,
    system_error: Option<i32>,
)
    requires
        one.read_size == other.read_size,
        one.fuse_fd == other.fuse_fd,
        one.read_size <= one.buffer@.len(),
        one.read_size <= other.buffer@.len(),
        forall|i: int| 0 <= i < one.read_size ==> one.buffer@[i] == #[trigger] other.buffer@[i],
    ensures
        one.request_bytes_spec() == other.request_bytes_spec(),
        one.request_bytes_spec() matches Some(bytes) && other.request_bytes_spec() matches Some(
            other_bytes,
        ) && one.process_fuse_request_spec(decode(bytes), lifecycle, os)
            == other.process_fuse_request_spec(decode(other_bytes), lifecycle, os),
        finish_spec(one, unique, Err(system_error)) == finish_spec(
            other,
            unique,
            Err(system_error),
        ),
{
    assert(one.buffer@.take(one.read_size as int) =~= other.buffer@.take(other.read_size as int));
}

/// A failure that the file system reports of a call, or that comes up in the
/// sending of an answer, is what the request is answered with, unless the call
/// cannot fail; then the buffer goes back.
pub proof fn law_call_failure_is_the_requests(
    in_flight: InFlight,
    req: Request,
    lifecycle: Lifecycle,
    os: Os,
    err: anyhow::Error,
)
    ensures
        ({
            let action = in_flight.process_fuse_request_spec(Some(req), lifecycle, os);
            let finish = finish_spec(
                in_flight,
                req.unique,
                dispatch_end(action.end_spec(Err(err))),
            );
            if action matches Action::Call { call, reply } && !call.can_fail_spec() {
                finish == Finish::ReturnBuffer((in_flight.buffer_idx, in_flight.buffer))
            } else {
                finish == Finish::ReplyErrorAndAbort(
                    ErrorReply {
                        reply: empty_reply(req.unique, in_flight.fuse_fd),
                        error: reply_errno_spec(system_error_behind(err)),
                    },
                )
            }
        }),
{
}

/// A session that came up at a path unmounts that very path at its end, unless
/// the kernel has destroyed the connection: the path stays the same through the
/// handshake and every request. Only a request to destroy it, on an initialized
/// connection, keeps it from being unmounted.
pub proof fn law_session_unmounts_its_path(
    full_mount_path: Vec<u8>,
    fuse_fd: i32,
    first: Option<Request>,
    target: Target,
    fs_init: bool,
    sent: bool,
    requests: Seq<Request>,
)
    ensures
        ({
            let (session, lifecycle, init) = first_request_end(
                Session::new_spec(full_mount_path, fuse_fd),
                Lifecycle::new_spec(),
                first,
                target,
                fs_init,
                sent,
            );
            let end = lifecycle_after(lifecycle, requests, fuse_fd, target.os);
            let destroyed = lifecycle.initialized && asks_to_destroy(requests);
            &&& destroyed ==> session.path_to_unmount_spec(end) is None
            &&& !destroyed ==> session.path_to_unmount_spec(end) == Some(&full_mount_path)
        }),
{
    let (session, lifecycle, init) = first_request_end(
        Session::new_spec(full_mount_path, fuse_fd),
        Lifecycle::new_spec(),
        first,
        target,
        fs_init,
        sent,
    );
    law_only_destroy_destroys(lifecycle, requests, fuse_fd, target.os);
}

/// A setup begins with ten buffers, numbered from zero, of which the first is
/// taken and the others wait in order. Each starts at a multiple of 4 KiB, is zero
/// in every byte and holds the largest write with 512 bytes to spare.
pub proof fn law_setup_begins_with_ten_buffers(setup: PoolSetup, session: Session, os: Os, i: int)
    requires
        setup.is_fresh(session, os),
        0 <= i < 10,
    ensures
        ({
            let entry = if i == 0 {
                (setup.buffer_idx, setup.buffer)
            } else {
                setup.pool@[i - 1]
            };
            &&& setup.fuse_fd == session.fuse_fd
            &&& setup.pool@.len() == 9
            &&& entry.0 == i
            &&& (entry.1.address() + entry.1.skipped()) % 4096 == 0
            &&& entry.1@.len() == (if os is Linux {
                131_584int
            } else {
                16_777_728
            })
            &&& forall|k: int| 0 <= k < entry.1@.len() ==> #[trigger] entry.1@[k] == 0
        }),
{
    if i > 0 {
        assert(zeroed(setup.pool@[i - 1].1, os));
    }
}

/// The first request is looked for in all bytes of the buffer, in their places,
/// where the device could be read, and nowhere else.
pub proof fn law_first_message_is_the_buffer(setup: PoolSetup, read: bool)
    ensures
        setup.first_message_spec(read) is Some <==> read,
        setup.first_message_spec(read) matches Some(bytes) ==> bytes.len()
            == setup.buffer@.len() && forall|i: int|
            0 <= i < bytes.len() ==> #[trigger] bytes[i] == setup.buffer@[i],
{
}

/// Setting up fails exactly where opening the connection failed, and as that
/// did. Else the buffer that was taken waits behind all that were idle, which
/// wait as before.
pub proof fn law_setup_gives_the_buffer_back(
    setup: PoolSetup,
    init: Option<Result<(), InitFailure>>,
    lifecycle: Lifecycle,
    failure: InitFailure,
)
    ensures
        setup.finish_spec(init, lifecycle) == Err::<(Seq<PoolEntry>, bool), InitFailure>(failure)
            <==> init == Some(Err::<(), InitFailure>(failure)),
        setup.finish_spec(init, lifecycle) matches Ok((idle, initialized)) ==> {
            &&& initialized <==> lifecycle.initialized
            &&& idle.len() == setup.pool@.len() + 1
            &&& idle.last().0 == setup.buffer_idx
            &&& idle.last().1 == setup.buffer
            &&& forall|i: int| 0 <= i < setup.pool@.len() ==> #[trigger] idle[i] == setup.pool@[i]
        },
{
}

/// A first request leads to a handshake, with its own argument and number,
/// exactly where it asks to initialize, whatever version, read-ahead and features
/// its argument names.
pub proof fn law_every_init_request_opens(first: Option<Request>)
    ensures
        opening_spec(first) is Some <==> first is Some && first->0.operation is Init,
        opening_spec(first) matches Some((arg, unique)) ==> unique == first->0.unique
            && first->0.operation == (Operation::Init { arg }),
{
}

/// A new connection is initialized by its first request exactly where that asks
/// to initialize, with a version of 7.8 or higher, the file system's
/// initialization succeeds and the reply is sent. The session then has the
/// kernel's version.
pub proof fn law_first_request_initializes(
    session: Session,
    first: Option<Request>,
    target: Target,
    fs_init: bool,
    sent: bool,
)
    ensures
        ({
            let (session1, lifecycle1, init) = first_request_end(
                session,
                Lifecycle::new_spec(),
                first,
                target,
                fs_init,
                sent,
            );
            let opens = match first {
                Some(req) => match req.operation {
                    Operation::Init { arg } => arg.major > 7 || (arg.major == 7 && arg.minor >= 8),
                    _ => false,
                },
                None => false,
            };
            &&& lifecycle1.initialized <==> opens && fs_init && sent
            &&& !lifecycle1.destroyed
            &&& lifecycle1.initialized ==> (first->0.operation matches Operation::Init { arg }
                && session1.proto_major == arg.major && session1.proto_minor == arg.minor)
            &&& session1.mountpoint == session.mountpoint
            &&& session1.fuse_fd == session.fuse_fd
            &&& init is Some <==> first is Some && first->0.operation is Init
        }),
{
}

/// A read that failed is tried again after the errors 2, 4 and 11 on Linux, and
/// 2, 4 and 35 on macOS, each for its own reason. After error 19 the reading
/// stops, in good order exactly where the connection is destroyed; after any
/// other failure it stops as well.
pub proof fn law_numbers_of_read_failures(errno: Option<i32>, destroyed: bool, os: Os)
    ensures
        ({
            let again: i32 = if os is Linux {
                11
            } else {
                35
            };
            match failed_read_spec(errno, destroyed, os) {
                ReadFailure::Retry(RetryReason::OperationInterrupted) => errno == Some(2i32),
                ReadFailure::Retry(RetryReason::SystemCallInterrupted) => errno == Some(4i32),
                ReadFailure::Retry(RetryReason::TryAgain) => errno == Some(again),
                ReadFailure::Quit(QuitReason::Unmounted) => errno == Some(19i32) && destroyed,
                ReadFailure::Quit(QuitReason::DeviceGone) => errno == Some(19i32) && !destroyed,
                ReadFailure::Quit(QuitReason::Unrecoverable) => errno is None || (errno != Some(
                    2i32,
                ) && errno != Some(4i32) && errno != Some(again) && errno != Some(19i32)),
            }
        }),
{
}

/// After a read that failed, the session does what the number of the system
/// error in the failure calls for. A buffer that was to be read into is kept for
/// another read where there is one.
pub proof fn law_run_after_a_failed_read(
    session: Session,
    entry: PoolEntry,
    err: nix::Error,
    lifecycle: Lifecycle,
    os: Os,
)
    ensures
        ({
            let errno = system_errno(err);
            let again: i32 = if os is Linux {
                11
            } else {
                35
            };
            match session.run_spec(entry.0, entry.1, Err(err), lifecycle, os) {
                RunAction::Process(_) => false,
                RunAction::Retry { reason, entry: kept } => {
                    &&& kept.0 == entry.0 && kept.1 == entry.1
                    &&& reason is OperationInterrupted <==> errno == Some(2i32)
                    &&& reason is SystemCallInterrupted <==> errno == Some(4i32)
                    &&& reason is TryAgain <==> errno == Some(again)
                },
                RunAction::Quit(reason) => {
                    &&& errno != Some(2i32) && errno != Some(4i32) && errno != Some(again)
                    &&& reason is Unmounted <==> errno == Some(19i32) && lifecycle.destroyed
                    &&& reason is DeviceGone <==> errno == Some(19i32) && !lifecycle.destroyed
                },
            }
        }),
{
}

} // verus!
