use crate::error::EzError;
use vstd::prelude::*;

verus! {

/// What the per-child type query of a directory listing reported.
#[derive(Clone, Copy, Debug, PartialEq, Eq)]
pub enum ChildKind {
    /// A regular file.
    File,
    /// A directory.
    Dir,
    /// Anything else: a symbolic link, a device, and so on.
    Other,
}

/// One child of a directory, as the platform enumeration reported it: the
/// child's path and the outcome of its type query. `kind` is `None` when the
/// type could not be determined at all.
#[derive(Debug)]
pub struct RawChild {
    pub path: String,
    pub kind: Option<ChildKind>,
}

/// Permission bits of a file, reduced to what this library reads of them.
#[derive(Clone, Copy, Debug, PartialEq, Eq)]
pub struct EzPermissions {
    pub readonly: bool,
}

/// A snapshot of a file's metadata, captured when its handle was opened or
/// created; it is never refreshed afterwards. Timestamps count nanoseconds
/// since the platform's epoch; `None` means the platform could not report
/// that timestamp.
#[derive(Clone, Copy, Debug, PartialEq, Eq)]
pub struct EzMetadata {
    pub accessed: Option<u64>,
    pub created: Option<u64>,
    pub modified: Option<u64>,
    pub permissions: EzPermissions,
}

/// The platform filesystem collaborator. The library calls the platform only
/// through this trait; `main`-side code implements it with real filesystem
/// calls, tests with an in-memory table.
///
/// The methods carry no contracts on purpose: nothing is assumed of an
/// implementation, and every contract of the library holds whatever the
/// provider answers. Open files are named by plain `u64` handle tokens that
/// the provider hands out and interprets.
pub trait FsProvider {
    /// Whether `path` names a directory.
    fn is_directory(&mut self, path: &str) -> bool;

    /// The immediate children of the directory at `path`, in enumeration
    /// order. Fails as a whole when the directory cannot be listed; each
    /// child's type query may fail individually (`kind == None`).
    fn list_children(&mut self, path: &str) -> Result<Vec<RawChild>, EzError>;

    /// Opens the file at `path` for reading and returns its handle token.
    fn open_read(&mut self, path: &str) -> Result<u64, EzError>;

    /// Creates (or truncates) the file at `path` for writing and returns its
    /// handle token.
    fn create_write(&mut self, path: &str) -> Result<u64, EzError>;

    /// The metadata of the open file named by `handle`.
    fn stat(&mut self, handle: u64) -> Result<EzMetadata, EzError>;

    /// Reads the remaining contents of the open file named by `handle`.
    fn read_handle(&mut self, handle: u64) -> Result<Vec<u8>, EzError>;

    /// Writes `data` to the open file named by `handle`; returns how many
    /// bytes were accepted.
    fn write_handle(&mut self, handle: u64, data: &[u8]) -> Result<usize, EzError>;

    /// Flushes buffered writes of the open file named by `handle`.
    fn flush_handle(&mut self, handle: u64) -> Result<(), EzError>;
}

} // verus!
