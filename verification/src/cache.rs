//! What the database knows of the cache: which entry a wheel belongs to,
//! when an unpacked wheel is still fresh, and what the HTTP cache is told.

use vstd::prelude::*;
use crate::dist::{IndexUrl, PackageName, WheelFilename};

verus! {

/// The part of the cache an entry lives in.
#[derive(Debug, PartialEq, Eq, Clone, Copy, Structural)]
pub enum CacheBucket {
    /// Wheels that were downloaded.
    Wheels,
    /// Wheels that were built from source.
    BuiltWheels,
}

/// Where a wheel came from, as far as the cache tells wheels apart: the
/// index, or the URL or path of the wheel itself.
#[derive(Debug, PartialEq, Eq)]
pub enum WheelCache {
    Index(IndexUrl),
    Url(String),
}

impl Clone for WheelCache {
    fn clone(&self) -> (r: Self)
        ensures
            r == *self,
    {
        match self {
            WheelCache::Index(index) => WheelCache::Index(index.clone()),
            WheelCache::Url(url) => WheelCache::Url(url.clone()),
        }
    }
}

/// The key of an entry below the directory of its package.
#[derive(Debug, PartialEq, Eq)]
pub enum EntryFile {
    /// The unpacked wheel.
    Archive(WheelFilename),
    /// What the HTTP cache remembers of the request for the wheel.
    Http(WheelFilename),
}

impl Clone for EntryFile {
    fn clone(&self) -> (r: Self)
        ensures
            r == *self,
    {
        match self {
            EntryFile::Archive(filename) => EntryFile::Archive(filename.clone()),
            EntryFile::Http(filename) => EntryFile::Http(filename.clone()),
        }
    }
}

impl EntryFile {
    /// The name of the file: the stem of the wheel, with `.http` behind it
    /// for the entry of the HTTP cache.
    pub open spec fn spec_name(self) -> Seq<char> {
        match self {
            EntryFile::Archive(filename) => filename.spec_stem(),
            EntryFile::Http(filename) => filename.spec_stem() + ".http"@,
        }
    }

    /// The name of the file.
    pub fn name(&self) -> (text: String)
        ensures
            text@ == self.spec_name(),
    {
        match self {
            EntryFile::Archive(filename) => filename.stem(),
            EntryFile::Http(filename) => filename.stem().concat(".http"),
        }
    }
}

/// An entry of the cache: a bucket, the directory of a package below the
/// place the wheel came from, and a key. The cache maps it to a path.
#[derive(Debug, PartialEq, Eq)]
pub struct CacheEntry {
    pub bucket: CacheBucket,
    pub shard: WheelCache,
    pub package: PackageName,
    pub file: EntryFile,
}

impl Clone for CacheEntry {
    fn clone(&self) -> (r: Self)
        ensures
            r == *self,
    {
        CacheEntry {
            bucket: self.bucket,
            shard: self.shard.clone(),
            package: self.package.clone(),
            file: self.file.clone(),
        }
    }
}

impl CacheEntry {
    /// The entry of a downloaded wheel: keyed by where the wheel came from,
    /// by the package and by the filename, and by nothing else.
    pub open spec fn spec_wheel(shard: WheelCache, filename: WheelFilename) -> CacheEntry {
        CacheEntry {
            bucket: CacheBucket::Wheels,
            shard,
            package: filename.name,
            file: EntryFile::Archive(filename),
        }
    }

    /// The entry of a downloaded wheel.
    pub fn wheel(shard: WheelCache, filename: &WheelFilename) -> (r: CacheEntry)
        ensures
            r == CacheEntry::spec_wheel(shard, *filename),
    {
        CacheEntry {
            bucket: CacheBucket::Wheels,
            shard,
            package: filename.name.clone(),
            file: EntryFile::Archive(filename.clone()),
        }
    }

    /// The entry beside this one with another key.
    pub open spec fn spec_with_file(self, file: EntryFile) -> CacheEntry {
        CacheEntry { bucket: self.bucket, shard: self.shard, package: self.package, file }
    }

    /// The entry beside this one with another key.
    pub fn with_file(&self, file: EntryFile) -> (r: CacheEntry)
        ensures
            r == self.spec_with_file(file),
    {
        CacheEntry {
            bucket: self.bucket,
            shard: self.shard.clone(),
            package: self.package.clone(),
            file,
        }
    }
}

/// A point in time: whole seconds since the epoch, and the nanoseconds of
/// the second that has begun.
#[derive(Debug, PartialEq, Eq, Clone, Copy, Structural)]
pub struct Timestamp {
    pub seconds: u64,
    pub nanos: u32,
}

impl Timestamp {
    /// The nanoseconds since the epoch.
    pub open spec fn as_nanos(self) -> int {
        self.seconds * 1_000_000_000 + self.nanos
    }

    /// Whether the nanoseconds are less than a second.
    pub open spec fn wf(self) -> bool {
        self.nanos < 1_000_000_000
    }

    /// Whether this point is no later than `other`: seconds first, then
    /// nanoseconds.
    pub open spec fn spec_le(self, other: Timestamp) -> bool {
        self.seconds < other.seconds || (self.seconds == other.seconds && self.nanos
            <= other.nanos)
    }

    /// Whether this point is no later than `other`.
    pub fn le(&self, other: &Timestamp) -> (r: bool)
        ensures
            r == self.spec_le(*other),
    {
        self.seconds < other.seconds || (self.seconds == other.seconds && self.nanos
            <= other.nanos)
    }

    /// On well-formed timestamps the order is that of the nanoseconds since
    /// the epoch.
    pub proof fn lemma_le_is_order_of_nanos(self, other: Timestamp)
        requires
            self.wf(),
            other.wf(),
        ensures
            self.spec_le(other) <==> self.as_nanos() <= other.as_nanos(),
    {
    }
}

/// When a source was last modified.
#[derive(Debug, PartialEq, Eq, Clone, Copy, Structural)]
pub enum ArchiveTimestamp {
    /// The modification time of the file itself.
    Exact(Timestamp),
    /// For a directory: the modification time of the file that stands for
    /// it.
    Approximate(Timestamp),
}

impl ArchiveTimestamp {
    pub open spec fn spec_timestamp(self) -> Timestamp {
        match self {
            ArchiveTimestamp::Exact(timestamp) => timestamp,
            ArchiveTimestamp::Approximate(timestamp) => timestamp,
        }
    }

    /// The point in time, exact or not.
    pub fn timestamp(&self) -> (r: Timestamp)
        ensures
            r == self.spec_timestamp(),
    {
        match self {
            ArchiveTimestamp::Exact(timestamp) => *timestamp,
            ArchiveTimestamp::Approximate(timestamp) => *timestamp,
        }
    }
}

/// Whether an unpacked wheel that was created at `created_at` is fresh for
/// a source that was modified at `modified_at`: the source has a
/// modification time, and the wheel was created at or after it.
pub open spec fn spec_up_to_date(
    modified_at: Option<ArchiveTimestamp>,
    created_at: Timestamp,
) -> bool {
    match modified_at {
        Some(modified_at) => modified_at.spec_timestamp().spec_le(created_at),
        None => false,
    }
}

/// Whether an unpacked wheel may be used again for its source.
pub fn up_to_date(modified_at: Option<ArchiveTimestamp>, created_at: Timestamp) -> (r: bool)
    ensures
        r == spec_up_to_date(modified_at, created_at),
{
    match modified_at {
        Some(modified_at) => modified_at.timestamp().le(&created_at),
        None => false,
    }
}

/// What the cache says of an entry of the HTTP cache.
#[derive(Debug, PartialEq, Eq, Clone, Copy, Structural)]
pub enum Freshness {
    /// The entry is there and may be used.
    Fresh,
    /// The entry is there and has to be checked against the server.
    Stale,
    /// There is no entry.
    Missing,
}

/// What the HTTP cache is told to do with the response it holds.
#[derive(Debug, PartialEq, Eq, Clone, Copy, Structural)]
pub enum CacheControl {
    /// Go by the headers of the cached response.
    RespectHeaders,
    /// Check the cached response against the server.
    MustRevalidate,
    /// Use the cached response, however old.
    AllowStale,
}

impl CacheControl {
    /// What follows from an entry's freshness: only a stale entry has to be
    /// checked again.
    pub open spec fn spec_from(freshness: Freshness) -> CacheControl {
        match freshness {
            Freshness::Fresh => CacheControl::RespectHeaders,
            Freshness::Stale => CacheControl::MustRevalidate,
            Freshness::Missing => CacheControl::RespectHeaders,
        }
    }

    /// What follows from an entry's freshness.
    pub fn from_freshness(freshness: Freshness) -> (r: CacheControl)
        ensures
            r == CacheControl::spec_from(freshness),
    {
        match freshness {
            Freshness::Fresh => CacheControl::RespectHeaders,
            Freshness::Stale => CacheControl::MustRevalidate,
            Freshness::Missing => CacheControl::RespectHeaders,
        }
    }
}

/// Whether the network may be used.
#[derive(Debug, PartialEq, Eq, Clone, Copy, Structural)]
pub enum Connectivity {
    Online,
    Offline,
}

} // verus!
