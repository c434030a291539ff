//! The kinds of failure that the filesystem reports.

use vstd::prelude::*;

verus! {

/// Why an operation failed. Every failure is one of these kinds; callers
/// branch on the kind, never on a message.
#[derive(Clone, Copy, Debug, PartialEq, Eq, Structural)]
pub enum FsError {
    /// The name does not resolve to anything.
    NoEntry,
    /// The name is already bound in the directory.
    AlreadyExists,
    /// A directory-only operation was asked of something else.
    NotDirectory,
    /// A file-only operation was asked of a directory.
    IsDirectory,
    /// The backing store lacks the capability.
    NotSupported,
    /// A required argument is missing.
    InvalidArgument,
    /// The backing store failed.
    IoError,
}

/// What every operation of the filesystem returns.
pub type FsResult<T> = Result<T, FsError>;

} // verus!
