//! The session itself: how it comes up and what it leaves to do at its end.

use vstd::prelude::*;
use crate::dispatch::{action_at, law_destroyed_stays, lifecycle_after, Lifecycle};
use crate::protocol::Request;
use crate::target::Os;

verus! {

/// A FUSE session.
#[derive(Debug, Clone, PartialEq, Eq)]
pub struct Session {
    /// The bytes of the path of the FUSE mount point.
    pub mountpoint: Vec<u8>,
    /// FUSE device fd.
    pub fuse_fd: i32,
    /// FUSE protocol major version.
    pub proto_major: u32,
    /// FUSE protocol minor version.
    pub proto_minor: u32,
}

impl Session {
    /// A session as it is before the kernel has named its version: that of the
    /// lowest protocol, 7.8.
    pub open spec fn new_spec(mountpoint: Vec<u8>, fuse_fd: i32) -> Session {
        Session { mountpoint, fuse_fd, proto_major: 7, proto_minor: 8 }
    }

    /// Creates a session on a mounted device.
    pub fn new(mountpoint: Vec<u8>, fuse_fd: i32) -> (session: Session)
        ensures
            session == Session::new_spec(mountpoint, fuse_fd),
    {
        Session { mountpoint, fuse_fd, proto_major: 7, proto_minor: 8 }
    }

    /// Get FUSE device fd.
    pub fn dev_fd(&self) -> (fd: i32)
        ensures
            fd == self.fuse_fd,
    {
        self.fuse_fd
    }

    /// The path to unmount when the session ends: none if the kernel has
    /// destroyed the connection already.
    pub open spec fn path_to_unmount_spec(&self, lifecycle: Lifecycle) -> Option<&Vec<u8>> {
        if lifecycle.destroyed {
            None
        } else {
            Some(&self.mountpoint)
        }
    }

    /// The path to unmount when the session ends.
    pub fn path_to_unmount(&self, lifecycle: &Lifecycle) -> (path: Option<&Vec<u8>>)
        ensures
            path == self.path_to_unmount_spec(*lifecycle),
    {
        if lifecycle.destroyed {
            None
        } else {
            Some(&self.mountpoint)
        }
    }
}

/// A session whose connection a request has destroyed is not unmounted at its
/// end, whatever requests came after that one.
pub proof fn law_destroyed_is_not_unmounted(
    session: Session,
    start: Lifecycle,
    requests: Seq<Request>,
    fd: i32,
    os: Os,
    i: int,
)
    requires
        0 <= i < requests.len(),
        action_at(start, requests, fd, os, i) is Destroy,
    ensures
        session.path_to_unmount_spec(lifecycle_after(start, requests, fd, os)) is None,
{
    law_destroyed_stays(start, requests, fd, os, i, requests.len() as int);
    assert(requests.take(requests.len() as int) =~= requests);
}

/// A session that is coming up: what has to be done next for it, or how that
/// ended. Paths are bytes.
#[derive(Debug, Clone, PartialEq, Eq)]
pub enum Startup {
    /// Find out whether the mount path is a directory.
    CheckDirectory { mount_path: Vec<u8> },
    /// Find the full path of the mount path.
    Canonicalize { mount_path: Vec<u8> },
    /// Create the file system for the full mount path.
    CreateFileSystem { full_mount_path: Vec<u8> },
    /// Mount the device at the full mount path.
    Mount { full_mount_path: Vec<u8> },
    /// The session is up.
    Up(Session),
    /// The mount path is not a directory: no session can be asked for there.
    NotADirectory { mount_path: Vec<u8> },
    /// There is no session, for what was to be done last failed.
    Failed(StartupFailure),
}

/// What kept a session from coming up.
#[derive(Debug, Clone, PartialEq, Eq)]
pub enum StartupFailure {
    /// Failed to find the mount path.
    MountPathNotFound { mount_path: Vec<u8> },
    /// Failed to create the file system.
    FileSystemNotCreated,
    /// Failed to mount the device.
    DeviceNotMounted,
}

/// What came of the thing that was to be done next.
#[derive(Debug, Clone, PartialEq, Eq)]
pub enum StartupEvent {
    /// Whether the mount path is a directory.
    DirectoryChecked { is_dir: bool },
    /// The full path, if it was found.
    Canonicalized { full_mount_path: Option<Vec<u8>> },
    /// Whether the file system is created.
    FileSystemCreated { created: bool },
    /// The device, if it is mounted.
    Mounted { fuse_fd: Option<i32> },
}

impl Startup {
    /// The start of a session at a mount path.
    pub open spec fn begin_spec(mount_path: Vec<u8>) -> Startup {
        Startup::CheckDirectory { mount_path }
    }

    /// The start of a session at a mount path.
    pub fn begin(mount_path: Vec<u8>) -> (startup: Startup)
        ensures
            startup == Startup::begin_spec(mount_path),
    {
        Startup::CheckDirectory { mount_path }
    }

    /// What is to be done after an event. An event that is not about what was
    /// to be done next changes nothing.
    pub open spec fn advance_spec(self, event: StartupEvent) -> Startup {
        match (self, event) {
            (
                Startup::CheckDirectory { mount_path },
                StartupEvent::DirectoryChecked { is_dir },
            ) => if is_dir {
                Startup::Canonicalize { mount_path }
            } else {
                Startup::NotADirectory { mount_path }
            },
            (
                Startup::Canonicalize { mount_path },
                StartupEvent::Canonicalized { full_mount_path },
            ) => match full_mount_path {
                Some(full_mount_path) => Startup::CreateFileSystem { full_mount_path },
                None => Startup::Failed(StartupFailure::MountPathNotFound { mount_path }),
            },
            (
                Startup::CreateFileSystem { full_mount_path },
                StartupEvent::FileSystemCreated { created },
            ) => if created {
                Startup::Mount { full_mount_path }
            } else {
                Startup::Failed(StartupFailure::FileSystemNotCreated)
            },
            (Startup::Mount { full_mount_path }, StartupEvent::Mounted { fuse_fd }) => match fuse_fd {
                Some(fuse_fd) => Startup::Up(Session::new_spec(full_mount_path, fuse_fd)),
                None => Startup::Failed(StartupFailure::DeviceNotMounted),
            },
            _ => self,
        }
    }

    /// What is to be done after an event.
    pub fn advance(self, event: StartupEvent) -> (next: Startup)
        ensures
            next == self.advance_spec(event),
    {
        match (self, event) {
            (
                Startup::CheckDirectory { mount_path },
                StartupEvent::DirectoryChecked { is_dir },
            ) => if is_dir {
                Startup::Canonicalize { mount_path }
            } else {
                Startup::NotADirectory { mount_path }
            },
            (
                Startup::Canonicalize { mount_path },
                StartupEvent::Canonicalized { full_mount_path },
            ) => match full_mount_path {
                Some(full_mount_path) => Startup::CreateFileSystem { full_mount_path },
                None => Startup::Failed(StartupFailure::MountPathNotFound { mount_path }),
            },
            (
                Startup::CreateFileSystem { full_mount_path },
                StartupEvent::FileSystemCreated { created },
            ) => if created {
                Startup::Mount { full_mount_path }
            } else {
                Startup::Failed(StartupFailure::FileSystemNotCreated)
            },
            (Startup::Mount { full_mount_path }, StartupEvent::Mounted { fuse_fd }) => match fuse_fd {
                Some(fuse_fd) => Startup::Up(Session::new(full_mount_path, fuse_fd)),
                None => Startup::Failed(StartupFailure::DeviceNotMounted),
            },
            (other, _) => other,
        }
    }
}

/// Where a start stands after a series of events.
pub open spec fn startup_after(mount_path: Vec<u8>, events: Seq<StartupEvent>) -> Startup
    decreases events.len(),
{
    if events.len() == 0 {
        Startup::begin_spec(mount_path)
    } else {
        startup_after(mount_path, events.drop_last()).advance_spec(events.last())
    }
}

/// Some event of the series created the file system.
pub open spec fn file_system_created(events: Seq<StartupEvent>) -> bool {
    events.contains(StartupEvent::FileSystemCreated { created: true })
}

/// The file system must be created before the device is mounted: whatever
/// happens, a start that gets as far as mounting, or further, has seen the file
/// system created.
pub proof fn law_file_system_before_mount(mount_path: Vec<u8>, events: Seq<StartupEvent>)
    ensures
        startup_after(mount_path, events) is Mount || startup_after(mount_path, events) is Up
            || startup_after(mount_path, events) == Startup::Failed(
            StartupFailure::DeviceNotMounted,
        ) ==> file_system_created(events),
    decreases events.len(),
{
    if events.len() > 0 {
        let earlier = events.drop_last();
        law_file_system_before_mount(mount_path, earlier);
        if file_system_created(earlier) {
            let created = StartupEvent::FileSystemCreated { created: true };
            let k = choose|k: int| 0 <= k < earlier.len() && earlier[k] == created;
            assert(events[k] == created);
        }
        if events.last() == (StartupEvent::FileSystemCreated { created: true }) {
            assert(events[events.len() - 1] == events.last());
        }
    }
}

/// A session comes up exactly where the mount path is a directory, its full
/// path is found, the file system is created and the device is mounted; and
/// then at that full path, on that device, with protocol 7.8.
pub proof fn law_session_comes_up(
    mount_path: Vec<u8>,
    is_dir: bool,
    full_mount_path: Option<Vec<u8>>,
    created: bool,
    fuse_fd: Option<i32>,
)
    ensures
        ({
            let end = Startup::begin_spec(mount_path).advance_spec(
                StartupEvent::DirectoryChecked { is_dir },
            ).advance_spec(StartupEvent::Canonicalized { full_mount_path }).advance_spec(
                StartupEvent::FileSystemCreated { created },
            ).advance_spec(StartupEvent::Mounted { fuse_fd });
            &&& end is Up <==> is_dir && full_mount_path is Some && created && fuse_fd is Some
            &&& end is Up ==> end == Startup::Up(
                Session::new_spec(full_mount_path->0, fuse_fd->0),
            )
            &&& end is NotADirectory <==> !is_dir
        }),
{
}

/// A session is created at the path and on the device it is asked for, with the
/// lowest protocol.
pub proof fn law_new_session(mountpoint: Vec<u8>, fuse_fd: i32)
    ensures
        ({
            let session = Session::new_spec(mountpoint, fuse_fd);
            &&& session.mountpoint@ == mountpoint@
            &&& session.fuse_fd == fuse_fd
            &&& session.proto_major == 7
            &&& session.proto_minor == 8
        }),
{
}

/// At its end any session is unmounted exactly where its connection is not
/// destroyed, and nowhere but at its own path.
pub proof fn law_unmounted_at_its_own_path(session: Session, lifecycle: Lifecycle)
    ensures
        session.path_to_unmount_spec(lifecycle) is None <==> lifecycle.destroyed,
        session.path_to_unmount_spec(lifecycle) matches Some(path) ==> path@
            == session.mountpoint@,
{
}

/// Whether an event is about what a start has to do next.
pub open spec fn is_awaited(startup: Startup, event: StartupEvent) -> bool {
    ||| startup is CheckDirectory && event is DirectoryChecked
    ||| startup is Canonicalize && event is Canonicalized
    ||| startup is CreateFileSystem && event is FileSystemCreated
    ||| startup is Mount && event is Mounted
}

/// A start moves on with each event that it awaits, and with no other: a session
/// that is up, or that has failed, stays so.
pub proof fn law_startup_moves_on(startup: Startup, event: StartupEvent)
    ensures
        is_awaited(startup, event) <==> startup.advance_spec(event) != startup,
        startup is Up || startup is Failed || startup is NotADirectory ==> startup.advance_spec(
            event,
        ) == startup,
{
}

/// A start hands its path on from step to step: the full path, once it is found,
/// is the one that the file system is created for, the device is mounted at and
/// the session has.
pub proof fn law_startup_keeps_the_path(startup: Startup, event: StartupEvent)
    requires
        is_awaited(startup, event),
    ensures
        match (startup, startup.advance_spec(event)) {
            (
                Startup::CheckDirectory { mount_path },
                Startup::Canonicalize { mount_path: next },
            ) => next@ == mount_path@ && event == (StartupEvent::DirectoryChecked { is_dir: true }),
            (
                Startup::CheckDirectory { mount_path },
                Startup::NotADirectory { mount_path: next },
            ) => next@ == mount_path@ && event == (StartupEvent::DirectoryChecked {
                is_dir: false,
            }),
            (
                Startup::Canonicalize { mount_path },
                Startup::CreateFileSystem { full_mount_path },
            ) => event matches StartupEvent::Canonicalized { full_mount_path: Some(found) }
                && full_mount_path@ == found@,
            (
                Startup::Canonicalize { mount_path },
                Startup::Failed(StartupFailure::MountPathNotFound { mount_path: missed }),
            ) => missed@ == mount_path@ && event matches StartupEvent::Canonicalized {
                full_mount_path: None,
            },
            (
                Startup::CreateFileSystem { full_mount_path },
                Startup::Mount { full_mount_path: next },
            ) => next@ == full_mount_path@ && event == (StartupEvent::FileSystemCreated {
                created: true,
            }),
            (
                Startup::CreateFileSystem { full_mount_path },
                Startup::Failed(StartupFailure::FileSystemNotCreated),
            ) => event == (StartupEvent::FileSystemCreated { created: false }),
            (Startup::Mount { full_mount_path }, Startup::Up(session)) => {
                &&& event == (StartupEvent::Mounted { fuse_fd: Some(session.fuse_fd) })
                &&& session.mountpoint@ == full_mount_path@
                &&& session.proto_major == 7
                &&& session.proto_minor == 8
            },
            (
                Startup::Mount { full_mount_path },
                Startup::Failed(StartupFailure::DeviceNotMounted),
            ) => event matches StartupEvent::Mounted { fuse_fd: None },
            _ => false,
        },
{
}

/// A start begins with the question whether the path it is asked for is a
/// directory.
pub proof fn law_startup_begins_with_the_path(mount_path: Vec<u8>)
    ensures
        Startup::begin_spec(mount_path) matches Startup::CheckDirectory { mount_path: asked }
            && asked@ == mount_path@,
{
}

} // verus!
