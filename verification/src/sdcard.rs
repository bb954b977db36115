//! Value types of the storage-card directory interface.
//!
//! The card itself — volumes, block devices, asynchronous directory
//! walks — is an external collaborator; these are only the plain values
//! that cross its boundary.

use vstd::prelude::*;

verus! {

/// Failures the storage-card resource manager reports.
#[derive(Clone, Copy, PartialEq, Eq, Structural, Debug)]
pub enum SDCardError {
    NoSuchVolume,
    InternalError,
    NoDirectorySpecified,
    NotYetImplemented,
    MaxOpenDirs,
    InconsistencyError,
    TrailingEntries,
    NotFound,
}

/// A handle onto an open directory slot.
#[derive(Clone, Copy, PartialEq, Eq, Structural, Debug)]
pub struct DirectoryRef {
    pub idx: u8,
}

/// Whether a directory entry is a file or a directory.
#[derive(Clone, Copy, PartialEq, Eq, Structural, Debug)]
pub enum SDEntryType {
    FILE,
    DIRECTORY,
}

/// One directory entry: its name, kind and size in bytes.
#[derive(Clone, Debug)]
pub struct SDDirEntry {
    pub name: String,
    pub entry_type: SDEntryType,
    pub size: u32,
}

} // verus!
