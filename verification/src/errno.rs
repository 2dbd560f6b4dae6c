//! Error numbers: what a failure is reported as.

use vstd::prelude::*;
use crate::target::Os;

verus! {

/// The system errors that a session answers with of its own accord. Their
/// numbers differ from machine to machine, and are those of the system's C
/// library.
#[derive(Debug, Clone, Copy, PartialEq, Eq, Structural)]
pub enum ErrorName {
    /// Input/output error.
    EIO,
    /// Invalid argument.
    EINVAL,
    /// Function not implemented.
    ENOSYS,
    /// Protocol error.
    EPROTO,
}

/// The error that a request is answered with.
#[derive(Debug, Clone, Copy, PartialEq, Eq)]
pub enum ReplyErrno {
    /// The number of this system error.
    Named(ErrorName),
    /// A number that came from the system.
    Number(i32),
}

/// The system errors by which a failed read of the device is told from another.
#[derive(Debug, Clone, Copy, PartialEq, Eq, Structural)]
pub enum ReadErrno {
    /// No such file or directory.
    ENOENT,
    /// Interrupted system call.
    EINTR,
    /// Try again.
    EAGAIN,
    /// No such device.
    ENODEV,
}

impl ReadErrno {
    /// The number of the error, which is the same on every architecture of an
    /// operating system.
    pub open spec fn number_spec(self, os: Os) -> i32 {
        match self {
            ReadErrno::ENOENT => 2,
            ReadErrno::EINTR => 4,
            ReadErrno::EAGAIN => if os == Os::Linux { 11 } else { 35 },
            ReadErrno::ENODEV => 19,
        }
    }

    /// The number of the error.
    pub fn number(self, os: Os) -> (number: i32)
        ensures
            number == self.number_spec(os),
    {
        match (self, os) {
            (ReadErrno::ENOENT, _) => 2,
            (ReadErrno::EINTR, _) => 4,
            (ReadErrno::EAGAIN, Os::Linux) => 11,
            (ReadErrno::EAGAIN, Os::MacOs) => 35,
            (ReadErrno::ENODEV, _) => 19,
        }
    }
}

/// Stands for `anyhow::Error`, which is carried through unread.
#[verifier::external_type_specification]
#[verifier::external_body]
pub struct ExAnyhowError(anyhow::Error);

/// Stands for `nix::Error`, which is carried through unread.
#[verifier::external_type_specification]
#[verifier::external_body]
pub struct ExNixError(nix::Error);

/// The `nix::Error` inside an error, if there is one inside.
pub uninterp spec fn nix_cause(err: anyhow::Error) -> Option<nix::Error>;

/// The number of the system error that a `nix::Error` holds, if it holds one.
pub uninterp spec fn system_errno(err: nix::Error) -> Option<i32>;

/// Calls `anyhow::Error::downcast_ref` for `nix::Error`. The result is a
/// function of the error alone.
#[verifier::external_body]
fn downcast_nix(err: &anyhow::Error) -> (cause: Option<nix::Error>)
    ensures
        cause == nix_cause(*err),
{
    err.downcast_ref::<nix::Error>().copied()
}

/// Calls `nix::Error::as_errno` and takes the number of the `Errno` that it
/// gives. The result is a function of the error alone.
#[verifier::external_body]
pub(crate) fn as_errno(err: nix::Error) -> (number: Option<i32>)
    ensures
        number == system_errno(err),
{
    err.as_errno().map(|errno| errno as i32)
}

/// Stands for `std::io::Error`, which is carried through unread.
#[verifier::external_type_specification]
#[verifier::external_body]
pub struct ExIoError(std::io::Error);

/// The system error that an I/O error represents, if it represents one.
pub uninterp spec fn os_error(err: std::io::Error) -> Option<i32>;

/// `std::io::Error::from_raw_os_error`: an I/O error that represents the system
/// error with this number. It is what `nix` makes of an `Errno`.
pub assume_specification[ std::io::Error::from_raw_os_error ](code: i32) -> (err: std::io::Error)
    ensures
        os_error(err) == Some(code),
;

/// `std::io::Error::raw_os_error`: the number of the system error that an I/O
/// error represents.
pub assume_specification[ std::io::Error::raw_os_error ](err: &std::io::Error) -> (code: Option<
    i32,
>)
    ensures
        code == os_error(*err),
;

/// The error that a failed request is answered with: the number of the system
/// error behind the failure, and `EINVAL` where there is none.
pub open spec fn reply_errno_spec(system_error: Option<i32>) -> ReplyErrno {
    match system_error {
        Some(number) => ReplyErrno::Number(number),
        None => ReplyErrno::Named(ErrorName::EINVAL),
    }
}

/// The error that a failed request is answered with.
pub fn reply_errno(system_error: Option<i32>) -> (error: ReplyErrno)
    ensures
        error == reply_errno_spec(system_error),
{
    match system_error {
        Some(errno) => match std::io::Error::from_raw_os_error(errno).raw_os_error() {
            Some(number) => ReplyErrno::Number(number),
            None => ReplyErrno::Named(ErrorName::EINVAL),
        },
        None => ReplyErrno::Named(ErrorName::EINVAL),
    }
}

/// The number of the system error behind a failure: that of the `nix::Error`
/// inside, if there is one inside and it holds one.
pub open spec fn system_error_behind(err: anyhow::Error) -> Option<i32> {
    match nix_cause(err) {
        Some(nix_error) => system_errno(nix_error),
        None => None,
    }
}

/// The number of the system error behind a failure.
pub fn system_error_of(err: &anyhow::Error) -> (number: Option<i32>)
    ensures
        number == system_error_behind(*err),
{
    match downcast_nix(err) {
        Some(nix_error) => as_errno(nix_error),
        None => None,
    }
}

/// The errors of a failed read have the numbers that Linux and macOS give them,
/// which differ in one; and no two of them have the same number.
pub proof fn law_read_error_numbers(one: ReadErrno, other: ReadErrno, os: Os)
    ensures
        one is ENOENT ==> one.number_spec(os) == 2,
        one is EINTR ==> one.number_spec(os) == 4,
        one is EAGAIN && os is Linux ==> one.number_spec(os) == 11,
        one is EAGAIN && os is MacOs ==> one.number_spec(os) == 35,
        one is ENODEV ==> one.number_spec(os) == 19,
        one.number_spec(os) == other.number_spec(os) <==> one == other,
{
}

/// A failure is reported as the system error behind it, under its very number,
/// and as `EINVAL` exactly where there is none.
pub proof fn law_system_errors_are_reported(system_error: Option<i32>, number: i32)
    ensures
        reply_errno_spec(system_error) == ReplyErrno::Number(number) <==> system_error == Some(
            number,
        ),
        reply_errno_spec(system_error) == ReplyErrno::Named(ErrorName::EINVAL)
            <==> system_error is None,
        reply_errno_spec(system_error) is Number || reply_errno_spec(system_error)
            == ReplyErrno::Named(ErrorName::EINVAL),
{
}

/// The system error behind a failure is that of the `nix::Error` inside it: there
/// is one exactly where such an error is inside and holds one.
pub proof fn law_system_error_is_the_cause(err: anyhow::Error, number: i32)
    ensures
        system_error_behind(err) == Some(number) <==> nix_cause(err) is Some && system_errno(
            nix_cause(err)->0,
        ) == Some(number),
{
}

} // verus!
