//! Requests of the kernel, as far as the session reads them.

use vstd::prelude::*;

verus! {

/// The major version of the ABI that replies are written in.
pub const FUSE_KERNEL_VERSION: u32 = 7;

/// The lowest minor version of ABI 7 that is supported.
pub const FUSE_LOWEST_MINOR_VERSION: u32 = 8;

/// The `mode` field of a set-attribute request is meant.
pub const FATTR_MODE: u32 = 0x1;

/// The `uid` field of a set-attribute request is meant.
pub const FATTR_UID: u32 = 0x2;

/// The `gid` field of a set-attribute request is meant.
pub const FATTR_GID: u32 = 0x4;

/// The `size` field of a set-attribute request is meant.
pub const FATTR_SIZE: u32 = 0x8;

/// The access time of a set-attribute request is meant.
pub const FATTR_ATIME: u32 = 0x10;

/// The modification time of a set-attribute request is meant.
pub const FATTR_MTIME: u32 = 0x20;

/// The `fh` field of a set-attribute request is meant.
pub const FATTR_FH: u32 = 0x40;

/// The creation time of a set-attribute request is meant; macOS only.
pub const FATTR_CRTIME: u32 = 0x1000_0000;

/// The change time of a set-attribute request is meant; macOS only.
pub const FATTR_CHGTIME: u32 = 0x2000_0000;

/// The backup time of a set-attribute request is meant; macOS only.
pub const FATTR_BKUPTIME: u32 = 0x4000_0000;

/// The `flags` field of a set-attribute request is meant; macOS only.
pub const FATTR_FLAGS: u32 = 0x8000_0000;

/// The kernel may read asynchronously.
pub const FUSE_ASYNC_READ: u32 = 0x1;

/// File names do not distinguish case; macOS only.
pub const FUSE_CASE_INSENSITIVE: u32 = 0x2000_0000;

/// The volume can be renamed; macOS only.
pub const FUSE_VOL_RENAME: u32 = 0x4000_0000;

/// The extra times of macOS are supported; macOS only.
pub const FUSE_XTIMES: u32 = 0x8000_0000;

/// A release request asks for a flush.
pub const FUSE_RELEASE_FLUSH: u32 = 0x1;

/// An fsync request asks for the data only.
pub const FUSE_FSYNC_DATASYNC: u32 = 0x1;

/// Whether a word holds a flag.
pub open spec fn has_flag_spec(word: u32, flag: u32) -> bool {
    word & flag != 0
}

/// Whether a word holds a flag.
pub fn has_flag(word: u32, flag: u32) -> (r: bool)
    ensures
        r == has_flag_spec(word, flag),
{
    word & flag != 0
}

/// The argument of the request that opens a session.
#[derive(Debug, Clone, Copy, PartialEq, Eq)]
pub struct FuseInitIn {
    pub major: u32,
    pub minor: u32,
    pub max_readahead: u32,
    pub flags: u32,
}

#[derive(Debug, Clone, Copy, PartialEq, Eq)]
pub struct FuseForgetIn {
    pub nlookup: u64,
}

/// The argument of a set-attribute request: `valid` says which of the other
/// fields are meant. The fields from `bkuptime` on are those of macOS.
#[derive(Debug, Clone, Copy, PartialEq, Eq)]
pub struct FuseSetAttrIn {
    pub valid: u32,
    pub fh: u64,
    pub size: u64,
    pub atime: u64,
    pub mtime: u64,
    pub atimensec: u32,
    pub mtimensec: u32,
    pub mode: u32,
    pub uid: u32,
    pub gid: u32,
    pub bkuptime: u64,
    pub chgtime: u64,
    pub crtime: u64,
    pub bkuptimensec: u32,
    pub chgtimensec: u32,
    pub crtimensec: u32,
    pub flags: u32,
}

#[derive(Debug, Clone, Copy, PartialEq, Eq)]
pub struct FuseMkNodIn {
    pub mode: u32,
    pub rdev: u32,
}

#[derive(Debug, Clone, Copy, PartialEq, Eq)]
pub struct FuseMkDirIn {
    pub mode: u32,
}

#[derive(Debug, Clone, Copy, PartialEq, Eq)]
pub struct FuseRenameIn {
    pub newdir: u64,
}

#[derive(Debug, Clone, Copy, PartialEq, Eq)]
pub struct FuseLinkIn {
    pub oldnodeid: u64,
}

#[derive(Debug, Clone, Copy, PartialEq, Eq)]
pub struct FuseOpenIn {
    pub flags: u32,
}

#[derive(Debug, Clone, Copy, PartialEq, Eq)]
pub struct FuseReadIn {
    pub fh: u64,
    pub offset: u64,
    pub size: u32,
}

#[derive(Debug, Clone, Copy, PartialEq, Eq)]
pub struct FuseWriteIn {
    pub fh: u64,
    pub offset: u64,
    pub size: u32,
    pub write_flags: u32,
}

#[derive(Debug, Clone, Copy, PartialEq, Eq)]
pub struct FuseFlushIn {
    pub fh: u64,
    pub lock_owner: u64,
}

#[derive(Debug, Clone, Copy, PartialEq, Eq)]
pub struct FuseReleaseIn {
    pub fh: u64,
    pub flags: u32,
    pub release_flags: u32,
    pub lock_owner: u64,
}

#[derive(Debug, Clone, Copy, PartialEq, Eq)]
pub struct FuseFSyncIn {
    pub fh: u64,
    pub fsync_flags: u32,
}

/// The argument of a request that sets an extended attribute. `position` is a
/// field of macOS.
#[derive(Debug, Clone, Copy, PartialEq, Eq)]
pub struct FuseSetXAttrIn {
    pub size: u32,
    pub flags: u32,
    pub position: u32,
}

#[derive(Debug, Clone, Copy, PartialEq, Eq)]
pub struct FuseGetXAttrIn {
    pub size: u32,
}

#[derive(Debug, Clone, Copy, PartialEq, Eq)]
pub struct FuseAccessIn {
    pub mask: u32,
}

#[derive(Debug, Clone, Copy, PartialEq, Eq)]
pub struct FuseCreateIn {
    pub mode: u32,
    pub flags: u32,
}

#[derive(Debug, Clone, Copy, PartialEq, Eq)]
pub struct FuseFileLock {
    pub start: u64,
    pub end: u64,
    pub typ: u32,
    pub pid: u32,
}

#[derive(Debug, Clone, Copy, PartialEq, Eq)]
pub struct FuseLockIn {
    pub fh: u64,
    pub owner: u64,
    pub lk: FuseFileLock,
}

#[derive(Debug, Clone, Copy, PartialEq, Eq)]
pub struct FuseBMapIn {
    pub block: u64,
    pub blocksize: u32,
}

#[derive(Debug, Clone, Copy, PartialEq, Eq)]
pub struct FuseExchangeIn {
    pub olddir: u64,
    pub newdir: u64,
    pub options: u64,
}

/// What a request asks for. File names and link targets are the bytes that the
/// kernel sent.
#[derive(Debug, Clone, PartialEq, Eq)]
pub enum Operation {
    Init { arg: FuseInitIn },
    Destroy,
    Interrupt,
    Lookup { name: Vec<u8> },
    Forget { arg: FuseForgetIn },
    GetAttr,
    SetAttr { arg: FuseSetAttrIn },
    ReadLink,
    MkNod { arg: FuseMkNodIn, name: Vec<u8> },
    MkDir { arg: FuseMkDirIn, name: Vec<u8> },
    Unlink { name: Vec<u8> },
    RmDir { name: Vec<u8> },
    SymLink { name: Vec<u8>, link: Vec<u8> },
    Rename { arg: FuseRenameIn, oldname: Vec<u8>, newname: Vec<u8> },
    Link { arg: FuseLinkIn, name: Vec<u8> },
    Open { arg: FuseOpenIn },
    Read { arg: FuseReadIn },
    Write { arg: FuseWriteIn, data: Vec<u8> },
    Flush { arg: FuseFlushIn },
    Release { arg: FuseReleaseIn },
    FSync { arg: FuseFSyncIn },
    OpenDir { arg: FuseOpenIn },
    ReadDir { arg: FuseReadIn },
    ReleaseDir { arg: FuseReleaseIn },
    FSyncDir { arg: FuseFSyncIn },
    StatFs,
    SetXAttr { arg: FuseSetXAttrIn, name: Vec<u8>, value: Vec<u8> },
    GetXAttr { arg: FuseGetXAttrIn, name: Vec<u8> },
    ListXAttr { arg: FuseGetXAttrIn },
    RemoveXAttr { name: Vec<u8> },
    Access { arg: FuseAccessIn },
    Create { arg: FuseCreateIn, name: Vec<u8> },
    GetLk { arg: FuseLockIn },
    SetLk { arg: FuseLockIn },
    SetLkW { arg: FuseLockIn },
    BMap { arg: FuseBMapIn },
    /// From ABI 7.11 on.
    IoCtl,
    /// From ABI 7.11 on.
    Poll,
    /// From ABI 7.15 on.
    NotifyReply,
    /// From ABI 7.16 on.
    BatchForget,
    /// From ABI 7.19 on.
    FAllocate,
    /// From ABI 7.21 on.
    ReadDirPlus,
    /// From ABI 7.23 on.
    Rename2,
    /// From ABI 7.11 on.
    CuseInit,
    /// macOS only.
    SetVolName { name: Vec<u8> },
    /// macOS only.
    Exchange { arg: FuseExchangeIn, oldname: Vec<u8>, newname: Vec<u8> },
    /// macOS only.
    GetXTimes,
}

/// A request of the kernel.
#[derive(Debug, Clone, PartialEq, Eq)]
pub struct Request {
    /// The number that its reply has to carry.
    pub unique: u64,
    /// The node that it is about.
    pub nodeid: u64,
    /// What it asks for.
    pub operation: Operation,
}

} // verus!
