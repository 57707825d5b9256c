//! The message an I/O failure converts to: a fixed summary, one curated
//! reason per failure kind, and a subtlety for the kinds that deserve one.

use std::io::ErrorKind;
use vstd::prelude::*;

use crate::styled::ReportModel;
use crate::styled::UserError;

verus! {

/// What the message reads from a `std::io::Error`: which kind of failure
/// it reports.
#[derive(Clone, Copy)]
pub enum IoErrorKind {
    NotFound,
    PermissionDenied,
    ConnectionRefused,
    ConnectionReset,
    ConnectionAborted,
    NotConnected,
    AddrInUse,
    AddrNotAvailable,
    BrokenPipe,
    AlreadyExists,
    WouldBlock,
    InvalidInput,
    InvalidData,
    TimedOut,
    WriteZero,
    Interrupted,
    UnexpectedEof,
    Other,
}

#[verifier::external_type_specification]
#[verifier::external_body]
pub struct ExIoError(std::io::Error);

/// Relies on `std::io::Error::kind`: the kind the error reports, each
/// foreign kind mapped to its namesake here and any remaining one to
/// `Other`.
#[verifier::external_body]
fn io_kind_of(e: &std::io::Error) -> (k: IoErrorKind) {
    match e.kind() {
        ErrorKind::NotFound => IoErrorKind::NotFound, ErrorKind::PermissionDenied => IoErrorKind::PermissionDenied,
        ErrorKind::ConnectionRefused => IoErrorKind::ConnectionRefused, ErrorKind::ConnectionReset => IoErrorKind::ConnectionReset,
        ErrorKind::ConnectionAborted => IoErrorKind::ConnectionAborted, ErrorKind::NotConnected => IoErrorKind::NotConnected,
        ErrorKind::AddrInUse => IoErrorKind::AddrInUse, ErrorKind::AddrNotAvailable => IoErrorKind::AddrNotAvailable,
        ErrorKind::BrokenPipe => IoErrorKind::BrokenPipe, ErrorKind::AlreadyExists => IoErrorKind::AlreadyExists,
        ErrorKind::WouldBlock => IoErrorKind::WouldBlock, ErrorKind::InvalidInput => IoErrorKind::InvalidInput,
        ErrorKind::InvalidData => IoErrorKind::InvalidData, ErrorKind::TimedOut => IoErrorKind::TimedOut,
        ErrorKind::WriteZero => IoErrorKind::WriteZero, ErrorKind::Interrupted => IoErrorKind::Interrupted,
        ErrorKind::UnexpectedEof => IoErrorKind::UnexpectedEof, _ => IoErrorKind::Other,
    }
}

/// The curated reason shown for each kind of I/O failure.
pub open spec fn spec_io_reason(k: IoErrorKind) -> Seq<char> {
    match k {
        IoErrorKind::NotFound => "File not found"@,
        IoErrorKind::PermissionDenied => "Insufficient permissions"@,
        IoErrorKind::ConnectionRefused => "Connection refused by the remote server"@,
        IoErrorKind::ConnectionReset => "Connection reset by the remote server"@,
        IoErrorKind::ConnectionAborted => "Connection aborted by the remote server"@,
        IoErrorKind::NotConnected => "The network operation failed because it was not connected yet"@,
        IoErrorKind::AddrInUse => "Socket could not be bound because the address is already in use"@,
        IoErrorKind::AddrNotAvailable => "Address not available"@,
        IoErrorKind::BrokenPipe => "Requested pipe was broken"@,
        IoErrorKind::AlreadyExists => "File already exists"@,
        IoErrorKind::WouldBlock => "Operation needs to block to complete, but the blocking operation was requested to not occur"@,
        IoErrorKind::InvalidInput => "Incorrect parameter provided"@,
        IoErrorKind::InvalidData => "Invalid or malformed data"@,
        IoErrorKind::TimedOut => "Operation timed out"@,
        IoErrorKind::WriteZero => "Call to `write` returned `Ok(0)`"@,
        IoErrorKind::Interrupted => "Operation was interrupted"@,
        IoErrorKind::UnexpectedEof => "Encountered 'EOF' prematurely"@,
        IoErrorKind::Other => "Operation encountered an unexpected error"@,
    }
}

/// The subtlety shown for the kinds of I/O failure that carry one.
pub open spec fn spec_io_subtlety(k: IoErrorKind) -> Option<Seq<char>> {
    match k {
        IoErrorKind::InvalidData => Some(
            "For example, a function that reads a file into a string will error with InvalidData if the file's contents are not valid UTF-8"@,
        ),
        IoErrorKind::WriteZero => Some(
            "This typically means that an operation could only succeed if it wrote a particular number of bytes but only a smaller number of bytes could be written."@,
        ),
        IoErrorKind::Interrupted => Some("Interrupted operations can typically be retried."@),
        IoErrorKind::UnexpectedEof => Some(
            "This typically means that an operation could only succeed if it read a particular number of bytes but only a smaller number of bytes could be read."@,
        ),
        _ => None,
    }
}

/// The whole message for each kind of I/O failure.
pub open spec fn spec_io_message(k: IoErrorKind) -> ReportModel {
    ReportModel {
        summary: "I/O Error"@,
        reasons: Some(seq![spec_io_reason(k)]),
        subtleties: match spec_io_subtlety(k) {
            Some(s) => Some(seq![s]),
            None => None,
        },
    }
}

impl UserError {
    /// Builds the message for an I/O failure of kind `k`: the summary
    /// `I/O Error`, the kind's curated reason, and its subtlety if it has
    /// one.
    pub fn from_io_kind(k: IoErrorKind) -> (r: UserError)
        ensures
            r@ == spec_io_message(k),
    {
        let reason: &str = match k {
            IoErrorKind::NotFound => "File not found",
            IoErrorKind::PermissionDenied => "Insufficient permissions",
            IoErrorKind::ConnectionRefused => "Connection refused by the remote server",
            IoErrorKind::ConnectionReset => "Connection reset by the remote server",
            IoErrorKind::ConnectionAborted => "Connection aborted by the remote server",
            IoErrorKind::NotConnected => "The network operation failed because it was not connected yet",
            IoErrorKind::AddrInUse => "Socket could not be bound because the address is already in use",
            IoErrorKind::AddrNotAvailable => "Address not available",
            IoErrorKind::BrokenPipe => "Requested pipe was broken",
            IoErrorKind::AlreadyExists => "File already exists",
            IoErrorKind::WouldBlock => "Operation needs to block to complete, but the blocking operation was requested to not occur",
            IoErrorKind::InvalidInput => "Incorrect parameter provided",
            IoErrorKind::InvalidData => "Invalid or malformed data",
            IoErrorKind::TimedOut => "Operation timed out",
            IoErrorKind::WriteZero => "Call to `write` returned `Ok(0)`",
            IoErrorKind::Interrupted => "Operation was interrupted",
            IoErrorKind::UnexpectedEof => "Encountered 'EOF' prematurely",
            IoErrorKind::Other => "Operation encountered an unexpected error",
        };
        let subtlety: Option<&str> = match k {
            IoErrorKind::InvalidData => Some(
                "For example, a function that reads a file into a string will error with InvalidData if the file's contents are not valid UTF-8",
            ),
            IoErrorKind::WriteZero => Some(
                "This typically means that an operation could only succeed if it wrote a particular number of bytes but only a smaller number of bytes could be written.",
            ),
            IoErrorKind::Interrupted => Some("Interrupted operations can typically be retried."),
            IoErrorKind::UnexpectedEof => Some(
                "This typically means that an operation could only succeed if it read a particular number of bytes but only a smaller number of bytes could be read.",
            ),
            _ => None,
        };
        let subtleties: Option<Vec<String>> = match subtlety {
            Some(s) => Some(vec![s.to_owned()]),
            None => None,
        };
        let r = UserError::assemble("I/O Error".to_owned(), Some(vec![reason.to_owned()]), subtleties);
        proof {
            assert(r@.reasons->Some_0 =~= seq![spec_io_reason(k)]);
            if spec_io_subtlety(k) is Some {
                assert(r@.subtleties->Some_0 =~= seq![spec_io_subtlety(k)->Some_0]);
            }
        }
        r
    }

    /// Builds the message for the I/O failure `e`: whatever kind came
    /// back, the message is that kind's curated one.
    pub fn from_io_error(e: &std::io::Error) -> (r: UserError)
        ensures
            r@.summary == "I/O Error"@,
            exists|k: IoErrorKind| r@ == #[trigger] spec_io_message(k),
    {
        let k = io_kind_of(e);
        let r = UserError::from_io_kind(k);
        r
    }
}

} // verus!
