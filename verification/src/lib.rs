//! The decisions of a FUSE session, as verified functions on plain values.
//!
//! The crate holds no I/O: whoever drives a session reads the device, calls the
//! file system and sends the replies, and asks the functions here what to do
//! next.

pub mod aligned_bytes;
pub mod dispatch;
pub mod errno;
pub mod init;
pub mod params;
pub mod pool;
pub mod protocol;
pub mod run;
pub mod serving;
pub mod session;
pub mod target;
