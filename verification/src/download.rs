//! The wheels that the database hands out, and what the build backend
//! hands in.

use vstd::prelude::*;
use crate::cache::CacheEntry;
use crate::dist::{Dist, WheelFilename};

verus! {

/// A path that the database names without reading the disk.
#[derive(Debug, PartialEq, Eq)]
pub enum WheelPath {
    /// A path as the build backend reported it.
    Exact(String),
    /// The entry of a directory with the given file name: the directory
    /// first, then the name.
    Child(String, String),
    /// The entry of a directory that is named by the digest of a path: the
    /// directory first, then the path that is digested.
    Digest(String, String),
}

/// A wheel that lies unpacked in the cache and is known to be fresh.
#[derive(Debug, PartialEq, Eq)]
pub struct UnzippedWheel {
    pub dist: Dist,
    pub filename: WheelFilename,
    /// The canonical path of the unpacked wheel.
    pub archive: String,
}

/// A wheel file on disk that has not been unpacked yet.
#[derive(Debug, PartialEq, Eq)]
pub struct DiskWheel {
    pub dist: Dist,
    pub filename: WheelFilename,
    /// The path of the wheel file.
    pub path: String,
    /// The entry of the cache that the wheel is to be unpacked into.
    pub target: CacheEntry,
}

/// A wheel file that was built from source in this call and has not been
/// unpacked yet.
#[derive(Debug, PartialEq, Eq)]
pub struct BuiltWheel {
    pub dist: Dist,
    pub filename: WheelFilename,
    /// The path of the wheel file.
    pub path: WheelPath,
    /// The directory that the wheel is to be unpacked into.
    pub target: WheelPath,
}

/// A wheel on this machine.
#[derive(Debug, PartialEq, Eq)]
pub enum LocalWheel {
    Unzipped(UnzippedWheel),
    Disk(DiskWheel),
    Built(BuiltWheel),
}

impl LocalWheel {
    /// The distribution that the wheel was made for.
    pub open spec fn spec_remote(self) -> Dist {
        match self {
            LocalWheel::Unzipped(wheel) => wheel.dist,
            LocalWheel::Disk(wheel) => wheel.dist,
            LocalWheel::Built(wheel) => wheel.dist,
        }
    }

    /// The distribution that the wheel was made for.
    pub fn remote(&self) -> (r: &Dist)
        ensures
            *r == self.spec_remote(),
    {
        match self {
            LocalWheel::Unzipped(wheel) => &wheel.dist,
            LocalWheel::Disk(wheel) => &wheel.dist,
            LocalWheel::Built(wheel) => &wheel.dist,
        }
    }

    /// The parsed filename of the wheel.
    pub open spec fn spec_filename(self) -> WheelFilename {
        match self {
            LocalWheel::Unzipped(wheel) => wheel.filename,
            LocalWheel::Disk(wheel) => wheel.filename,
            LocalWheel::Built(wheel) => wheel.filename,
        }
    }

    /// The parsed filename of the wheel.
    pub fn filename(&self) -> (r: &WheelFilename)
        ensures
            *r == self.spec_filename(),
    {
        match self {
            LocalWheel::Unzipped(wheel) => &wheel.filename,
            LocalWheel::Disk(wheel) => &wheel.filename,
            LocalWheel::Built(wheel) => &wheel.filename,
        }
    }
}

/// What the build backend reports of a wheel it has built from a source
/// distribution.
#[derive(Debug, PartialEq, Eq)]
pub struct BuiltWheelMetadata {
    /// The path of the wheel file.
    pub path: String,
    /// The directory that the wheel is to be unpacked into.
    pub target: String,
    pub filename: WheelFilename,
}

/// What the build backend reports of a wheel it has built from a source
/// tree that is installed in place. `M` is the metadata of the package,
/// which the database hands on unread.
#[derive(Debug, PartialEq, Eq)]
pub struct EditableWheel<M> {
    pub dist: Dist,
    /// The name of the wheel file in the directory it was built into.
    pub disk_filename: String,
    pub filename: WheelFilename,
    pub metadata: M,
}

} // verus!
