//! The kernel a session talks to, and the limits that follow from it.

use vstd::prelude::*;

verus! {

/// The operating system whose kernel is on the other end of the device.
#[derive(Debug, Clone, Copy, PartialEq, Eq, Structural)]
pub enum Os {
    Linux,
    MacOs,
}

/// What a session is built for.
#[derive(Debug, Clone, Copy, PartialEq, Eq, Structural)]
pub struct Target {
    /// The kernel's operating system.
    pub os: Os,
    /// The minor version of the ABI, `7.abi_minor`, that replies are written in.
    pub abi_minor: u32,
}

/// Max background pending requests under processing, and with that the number
/// of request buffers of a session.
pub const MAX_BACKGROUND: u16 = 10;

/// The alignment of a request buffer, 4 KiB.
pub const PAGE_SIZE: usize = 4096;

/// What a request buffer holds beyond the largest write: room for the headers.
pub const HEADER_ROOM: u32 = 512;

impl Os {
    /// The max size of write requests from the kernel: the FUSE default, which
    /// is 16 MiB on macOS and 128 KiB on other systems.
    pub open spec fn max_write_size_spec(self) -> u32 {
        match self {
            Os::Linux => 131072,
            Os::MacOs => 16777216,
        }
    }

    /// The max size of write requests from the kernel.
    pub fn max_write_size(self) -> (size: u32)
        ensures
            size == self.max_write_size_spec(),
    {
        match self {
            Os::Linux => 128 * 1024,
            Os::MacOs => 16 * 1024 * 1024,
        }
    }

    /// The size of a buffer for one request: the largest write and some extra
    /// space.
    pub open spec fn buffer_size_spec(self) -> int {
        self.max_write_size_spec() + HEADER_ROOM
    }

    /// The size of a buffer for one request.
    pub fn buffer_size(self) -> (size: usize)
        ensures
            size == self.buffer_size_spec(),
    {
        (self.max_write_size() + HEADER_ROOM) as usize
    }
}

/// The kernel's largest write is 128 KiB on Linux and 16 MiB on macOS, and a
/// request buffer holds 512 bytes more than that.
pub proof fn law_buffers_hold_the_largest_write(os: Os)
    ensures
        os is Linux ==> os.max_write_size_spec() == 128 * 1024,
        os is MacOs ==> os.max_write_size_spec() == 16 * 1024 * 1024,
        os.buffer_size_spec() == os.max_write_size_spec() + 512,
{
}

} // verus!
