//! A small abstraction layer over a filesystem: an open-file wrapper that
//! carries a metadata snapshot, and a lazily scanned directory tree with
//! depth-bounded recursive walking and flattening into a list of files.
//!
//! All platform calls go through the [`FsProvider`] collaborator trait, so the
//! tree logic itself is fully verified: what a provider answers is never
//! assumed, and every contract holds for every possible answer.

mod dir;
mod error;
mod file;
mod provider;

pub use dir::classify_child;
pub use dir::entries_from_outcomes;
pub use dir::EzDir;
pub use dir::EzEntry;
pub use dir::ScanOutcome;
pub use error::EzError;
pub use file::EzFile;
pub use file::FileMode;
pub use provider::ChildKind;
pub use provider::EzMetadata;
pub use provider::EzPermissions;
pub use provider::FsProvider;
pub use provider::RawChild;
