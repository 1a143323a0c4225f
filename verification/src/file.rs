use crate::error::EzError;
use crate::provider::EzMetadata;
use crate::provider::EzPermissions;
use crate::provider::FsProvider;
use vstd::prelude::*;

verus! {

/// The mode a file handle was last opened in.
#[derive(Clone, Copy, Debug, PartialEq, Eq)]
pub enum FileMode {
    /// Opened read-only.
    Read,
    /// Opened write-only; creating or reopening in this mode truncates.
    Write,
}

/// An open file: its path, the provider's handle token, the mode the handle
/// is in, and the metadata snapshot captured when the handle was first
/// opened or created. The snapshot is never refreshed, not even by a mode
/// switch.
///
/// The fields are public so that contracts can speak of them directly; the
/// type has no internal invariant beyond its fields.
#[derive(Debug)]
pub struct EzFile {
    pub path: String,
    pub handle: u64,
    pub mode: FileMode,
    pub meta: EzMetadata,
}

impl EzFile {
    /// Opens the file at `path` read-only and snapshots its metadata.
    /// Fails exactly when the provider's open or stat call fails.
    pub fn open<F: FsProvider>(path: &str, fs: &mut F) -> (r: Result<EzFile, EzError>)
        ensures
            r matches Ok(f) ==> f.path@ == path@ && f.mode == FileMode::Read,
    {
        let handle = match fs.open_read(path) {
            Ok(h) => h,
            Err(e) => {
                return Err(e);
            },
        };
        let meta = match fs.stat(handle) {
            Ok(m) => m,
            Err(e) => {
                return Err(e);
            },
        };
        Ok(EzFile { path: path.to_owned(), handle, mode: FileMode::Read, meta })
    }

    /// Creates (or truncates) the file at `path` write-only and snapshots its
    /// metadata. Fails exactly when the provider's create or stat call fails.
    pub fn create<F: FsProvider>(path: &str, fs: &mut F) -> (r: Result<EzFile, EzError>)
        ensures
            r matches Ok(f) ==> f.path@ == path@ && f.mode == FileMode::Write,
    {
        let handle = match fs.create_write(path) {
            Ok(h) => h,
            Err(e) => {
                return Err(e);
            },
        };
        let meta = match fs.stat(handle) {
            Ok(m) => m,
            Err(e) => {
                return Err(e);
            },
        };
        Ok(EzFile { path: path.to_owned(), handle, mode: FileMode::Write, meta })
    }

    /// Deconstructs the wrapper into its path, handle token and metadata
    /// snapshot.
    pub fn into_raw(self) -> (r: (String, u64, EzMetadata))
        ensures
            r.0 == self.path,
            r.1 == self.handle,
            r.2 == self.meta,
    {
        (self.path, self.handle, self.meta)
    }

    /// The last access time of the snapshot, when the platform reported one.
    pub fn accessed(&self) -> (r: Result<u64, EzError>)
        ensures
            r matches Ok(t) ==> self.meta.accessed == Some(t),
            r is Err <==> self.meta.accessed is None,
    {
        match self.meta.accessed {
            Some(t) => Ok(t),
            None => Err(EzError::new("Access time is not available")),
        }
    }

    /// The creation time of the snapshot, when the platform reported one.
    pub fn created(&self) -> (r: Result<u64, EzError>)
        ensures
            r matches Ok(t) ==> self.meta.created == Some(t),
            r is Err <==> self.meta.created is None,
    {
        match self.meta.created {
            Some(t) => Ok(t),
            None => Err(EzError::new("Creation time is not available")),
        }
    }

    /// The last modification time of the snapshot, when the platform
    /// reported one.
    pub fn modified(&self) -> (r: Result<u64, EzError>)
        ensures
            r matches Ok(t) ==> self.meta.modified == Some(t),
            r is Err <==> self.meta.modified is None,
    {
        match self.meta.modified {
            Some(t) => Ok(t),
            None => Err(EzError::new("Modification time is not available")),
        }
    }

    /// The permissions of the snapshot.
    pub fn permissions(&self) -> (r: EzPermissions)
        ensures
            r == self.meta.permissions,
    {
        self.meta.permissions
    }

    /// The path of the file.
    pub fn path(&self) -> (r: &str)
        ensures
            r@ == self.path@,
    {
        self.path.as_str()
    }

    /// The mode the handle is currently in.
    pub fn mode(&self) -> (r: FileMode)
        ensures
            r == self.mode,
    {
        self.mode
    }

    /// Reopens the same path write-only, replacing the handle. This happens
    /// unconditionally, also when the handle already is in write mode; the
    /// reopening then still truncates the file. The metadata snapshot is
    /// kept as it was.
    pub fn to_write<F: FsProvider>(&mut self, fs: &mut F) -> (r: Result<(), EzError>)
        ensures
            r is Ok ==> final(self).mode == FileMode::Write,
            r is Err ==> *final(self) == *old(self),
            final(self).path == old(self).path,
            final(self).meta == old(self).meta,
    {
        match fs.create_write(self.path.as_str()) {
            Ok(h) => {
                self.handle = h;
                self.mode = FileMode::Write;
                Ok(())
            },
            Err(e) => Err(e),
        }
    }

    /// Reopens the same path read-only, replacing the handle. This happens
    /// unconditionally, also when the handle already is in read mode. The
    /// metadata snapshot is kept as it was.
    pub fn to_read<F: FsProvider>(&mut self, fs: &mut F) -> (r: Result<(), EzError>)
        ensures
            r is Ok ==> final(self).mode == FileMode::Read,
            r is Err ==> *final(self) == *old(self),
            final(self).path == old(self).path,
            final(self).meta == old(self).meta,
    {
        match fs.open_read(self.path.as_str()) {
            Ok(h) => {
                self.handle = h;
                self.mode = FileMode::Read;
                Ok(())
            },
            Err(e) => Err(e),
        }
    }

    /// Reads the remaining contents of the handle. Delegates to the
    /// provider; what comes back is whatever the provider answered for this
    /// handle.
    pub fn read<F: FsProvider>(&self, fs: &mut F) -> Result<Vec<u8>, EzError> {
        fs.read_handle(self.handle)
    }

    /// Writes `data` through the handle; returns how many bytes the provider
    /// accepted.
    pub fn write<F: FsProvider>(&self, fs: &mut F, data: &[u8]) -> Result<usize, EzError> {
        fs.write_handle(self.handle, data)
    }

    /// Flushes buffered writes of the handle.
    pub fn flush<F: FsProvider>(&self, fs: &mut F) -> Result<(), EzError> {
        fs.flush_handle(self.handle)
    }
}

} // verus!
