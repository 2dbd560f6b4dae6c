use async_fuse::errno::{reply_errno, system_error_of, ErrorName, ReadErrno, ReplyErrno};
use async_fuse::target::Os;
use nix::errno::Errno;

#[test]
fn read_error_numbers_are_those_of_the_system() {
    assert_eq!(ReadErrno::ENOENT.number(Os::Linux), libc::ENOENT);
    assert_eq!(ReadErrno::EINTR.number(Os::Linux), libc::EINTR);
    assert_eq!(ReadErrno::EAGAIN.number(Os::Linux), libc::EAGAIN);
    assert_eq!(ReadErrno::ENODEV.number(Os::Linux), libc::ENODEV);
    assert_eq!(ReadErrno::ENOENT.number(Os::MacOs), 2);
    assert_eq!(ReadErrno::EINTR.number(Os::MacOs), 4);
    assert_eq!(ReadErrno::EAGAIN.number(Os::MacOs), 35);
    assert_eq!(ReadErrno::ENODEV.number(Os::MacOs), 19);
}

#[test]
fn system_error_is_found_inside_a_failure() {
    let err = anyhow::Error::new(nix::Error::Sys(Errno::ENOENT));
    assert_eq!(system_error_of(&err), Some(2));
    let err = anyhow::Error::new(nix::Error::Sys(Errno::ENOTEMPTY)).context("failed to remove");
    assert_eq!(system_error_of(&err), Some(libc::ENOTEMPTY));
}

#[test]
fn other_failures_hold_no_system_error() {
    let err = anyhow::Error::new(nix::Error::InvalidPath);
    assert_eq!(system_error_of(&err), None);
    let err = anyhow::Error::new(nix::Error::UnsupportedOperation);
    assert_eq!(system_error_of(&err), None);
    let err = anyhow::Error::msg("no such thing");
    assert_eq!(system_error_of(&err), None);
    let err = anyhow::Error::new(std::io::Error::from_raw_os_error(5));
    assert_eq!(system_error_of(&err), None);
}

#[test]
fn reply_carries_the_system_error_or_einval() {
    assert_eq!(reply_errno(Some(2)), ReplyErrno::Number(2));
    assert_eq!(reply_errno(Some(0)), ReplyErrno::Number(0));
    assert_eq!(reply_errno(Some(133)), ReplyErrno::Number(133));
    assert_eq!(reply_errno(None), ReplyErrno::Named(ErrorName::EINVAL));
}
