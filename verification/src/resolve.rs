//! Resolving a distribution to a wheel, one step at a time. A step says what
//! the caller has to do next: read the disk, ask the cache, fetch, wait for a
//! lock, build. The caller does it and hands the outcome to the step, which
//! answers with the next one, until the last step holds the wheel or the
//! failure.

use vstd::prelude::*;
use crate::cache::{spec_up_to_date, up_to_date, ArchiveTimestamp, CacheControl, CacheEntry, Connectivity, Freshness, Timestamp};
use crate::dist::{BuiltDist, Dist, SourceDist};
use crate::download::{BuiltWheel, BuiltWheelMetadata, DiskWheel, LocalWheel, UnzippedWheel, WheelPath};
use crate::error::{Error, IoError, IoErrorKind};
use crate::fetch::{spec_cache_control, Download, FetchFailure, Strategy};

verus! {

/// A wheel file on this machine whose unpacked copy is looked for in the
/// cache: the caller resolves `entry` to the canonical path of what is
/// there.
#[derive(Debug, PartialEq, Eq)]
pub struct LocalProbe {
    pub dist: BuiltDist,
    /// The path of the wheel file.
    pub path: String,
    /// The entry of the cache that the wheel is unpacked into.
    pub entry: CacheEntry,
}

/// An unpacked copy was found: the caller reads when the wheel file at
/// `path` was last modified, and when the copy at `archive` was made.
#[derive(Debug, PartialEq, Eq)]
pub struct LocalCheck {
    pub dist: BuiltDist,
    pub path: String,
    pub entry: CacheEntry,
    /// The canonical path of the unpacked copy.
    pub archive: String,
}

/// A source distribution that waits for its lock: the caller takes the
/// lock with the token `token` and keeps it until the last step.
#[derive(Debug, PartialEq, Eq)]
pub struct Queued {
    pub dist: SourceDist,
    pub token: usize,
}

/// A source distribution whose lock is held: the caller has the build
/// backend fetch and build it.
#[derive(Debug, PartialEq, Eq)]
pub struct Building {
    pub dist: SourceDist,
    pub token: usize,
}

/// A wheel was built, and the lock is still held: the caller resolves the
/// directory `built.target` to its canonical path.
#[derive(Debug, PartialEq, Eq)]
pub struct BuiltProbe {
    pub dist: SourceDist,
    pub token: usize,
    pub built: BuiltWheelMetadata,
}

/// What the caller has to do next for a wheel, or how the resolution
/// ended.
#[derive(Debug, PartialEq, Eq)]
pub enum WheelStep {
    Done(Result<LocalWheel, Error>),
    Canonicalize(LocalProbe),
    Timestamps(LocalCheck),
    /// Ask the cache how fresh the entry of the HTTP cache is.
    Freshness(Download),
    /// Send the request through the HTTP cache, and unpack the response
    /// into the cache by the steps of the strategy.
    Fetch(Download, CacheControl),
    Lock(Queued),
    Build(Building),
    CanonicalizeTarget(BuiltProbe),
}

/// The wheel file at `path`, still to be unpacked into `entry`.
pub open spec fn spec_disk_wheel(dist: BuiltDist, path: String, entry: CacheEntry) -> LocalWheel {
    LocalWheel::Disk(
        DiskWheel { dist: Dist::Built(dist), filename: dist.spec_filename(), path, target: entry },
    )
}

/// The unpacked wheel at `archive`.
pub open spec fn spec_unzipped_wheel(dist: BuiltDist, archive: String) -> LocalWheel {
    LocalWheel::Unzipped(
        UnzippedWheel { dist: Dist::Built(dist), filename: dist.spec_filename(), archive },
    )
}

fn disk_wheel(dist: BuiltDist, path: String, entry: CacheEntry) -> (r: LocalWheel)
    ensures
        r == spec_disk_wheel(dist, path, entry),
{
    let filename = dist.filename().clone();
    LocalWheel::Disk(DiskWheel { dist: Dist::Built(dist), filename, path, target: entry })
}

fn unzipped_wheel(dist: BuiltDist, archive: String) -> (r: LocalWheel)
    ensures
        r == spec_unzipped_wheel(dist, archive),
{
    let filename = dist.filename().clone();
    LocalWheel::Unzipped(UnzippedWheel { dist: Dist::Built(dist), filename, archive })
}

impl LocalProbe {
    /// What follows once the entry was looked for. If it is there, its age
    /// is checked next. If nothing is there, the wheel file itself is the
    /// answer, to be unpacked into the entry. Any other failure of the
    /// disk is a failure to read the cache.
    pub open spec fn spec_resume(self, found: Result<String, IoError>) -> WheelStep {
        match found {
            Ok(archive) => WheelStep::Timestamps(
                LocalCheck { dist: self.dist, path: self.path, entry: self.entry, archive },
            ),
            Err(err) => if err.kind == IoErrorKind::NotFound {
                WheelStep::Done(Ok(spec_disk_wheel(self.dist, self.path, self.entry)))
            } else {
                WheelStep::Done(Err(Error::CacheRead(err)))
            },
        }
    }

    /// What follows once the entry was looked for.
    pub fn resume(self, found: Result<String, IoError>) -> (step: WheelStep)
        ensures
            step == self.spec_resume(found),
    {
        match found {
            Ok(archive) => WheelStep::Timestamps(
                LocalCheck { dist: self.dist, path: self.path, entry: self.entry, archive },
            ),
            Err(err) => if matches!(err.kind, IoErrorKind::NotFound) {
                WheelStep::Done(Ok(disk_wheel(self.dist, self.path, self.entry)))
            } else {
                WheelStep::Done(Err(Error::CacheRead(err)))
            },
        }
    }
}

impl LocalCheck {
    /// What follows once the two times were read: the unpacked copy if it
    /// is fresh for the wheel file, else the wheel file, to be unpacked
    /// anew. A failure to read either time is a failure to read the cache.
    pub open spec fn spec_resume(
        self,
        times: Result<(Option<ArchiveTimestamp>, Timestamp), IoError>,
    ) -> WheelStep {
        match times {
            Ok((modified_at, created_at)) => if spec_up_to_date(modified_at, created_at) {
                WheelStep::Done(Ok(spec_unzipped_wheel(self.dist, self.archive)))
            } else {
                WheelStep::Done(Ok(spec_disk_wheel(self.dist, self.path, self.entry)))
            },
            Err(err) => WheelStep::Done(Err(Error::CacheRead(err))),
        }
    }

    /// What follows once the two times were read: when the wheel file was
    /// last modified, if that can be told, and when the copy was made.
    pub fn resume(
        self,
        times: Result<(Option<ArchiveTimestamp>, Timestamp), IoError>,
    ) -> (step: WheelStep)
        ensures
            step == self.spec_resume(times),
    {
        match times {
            Ok((modified_at, created_at)) => if up_to_date(modified_at, created_at) {
                WheelStep::Done(Ok(unzipped_wheel(self.dist, self.archive)))
            } else {
                WheelStep::Done(Ok(disk_wheel(self.dist, self.path, self.entry)))
            },
            Err(err) => WheelStep::Done(Err(Error::CacheRead(err))),
        }
    }
}

impl Download {
    /// The first step of a fetch. Online, the cache is asked for the
    /// freshness of the HTTP entry; offline, the request is sent at once and
    /// takes what the HTTP cache holds.
    pub open spec fn spec_begin(self) -> WheelStep {
        match self.connectivity {
            Connectivity::Online => WheelStep::Freshness(self),
            Connectivity::Offline => WheelStep::Fetch(self, CacheControl::AllowStale),
        }
    }

    /// The first step of a fetch.
    pub fn begin(self) -> (step: WheelStep)
        ensures
            step == self.spec_begin(),
    {
        match self.connectivity {
            Connectivity::Online => WheelStep::Freshness(self),
            Connectivity::Offline => WheelStep::Fetch(self, CacheControl::AllowStale),
        }
    }

    /// What follows once the cache has answered: the request, with what
    /// the answer means for the HTTP cache. A failure to answer is a
    /// failure to read the cache.
    pub open spec fn spec_on_freshness(self, freshness: Result<Freshness, IoError>) -> WheelStep {
        match freshness {
            Ok(freshness) => WheelStep::Fetch(
                self,
                spec_cache_control(self.connectivity, freshness),
            ),
            Err(err) => WheelStep::Done(Err(Error::CacheRead(err))),
        }
    }

    /// What follows once the cache has answered.
    pub fn on_freshness(self, freshness: Result<Freshness, IoError>) -> (step: WheelStep)
        ensures
            step == self.spec_on_freshness(freshness),
    {
        match freshness {
            Ok(freshness) => {
                let cache_control = match self.connectivity {
                    Connectivity::Online => CacheControl::from_freshness(freshness),
                    Connectivity::Offline => CacheControl::AllowStale,
                };
                WheelStep::Fetch(self, cache_control)
            },
            Err(err) => WheelStep::Done(Err(Error::CacheRead(err))),
        }
    }

    /// The same fetch by the other strategy.
    pub open spec fn spec_buffered(self) -> Download {
        Download {
            dist: self.dist,
            url: self.url,
            wheel_entry: self.wheel_entry,
            strategy: Strategy::Buffered,
            connectivity: self.connectivity,
        }
    }

    /// What follows once the fetch has ended. The unpacked wheel is the
    /// answer. If streaming failed because the remote cannot stream, the
    /// fetch begins again, buffered: once, and for no other failure.
    pub open spec fn spec_on_fetched(self, fetched: Result<String, FetchFailure>) -> WheelStep {
        match fetched {
            Ok(archive) => WheelStep::Done(Ok(spec_unzipped_wheel(self.dist, archive))),
            Err(failure) => if self.strategy == Strategy::Stream
                && failure.spec_into_error().spec_is_http_streaming_unsupported() {
                self.spec_buffered().spec_begin()
            } else {
                WheelStep::Done(Err(failure.spec_into_error()))
            },
        }
    }

    /// What follows once the fetch has ended, with the canonical path of
    /// the unpacked wheel or with what went wrong.
    pub fn on_fetched(self, fetched: Result<String, FetchFailure>) -> (step: WheelStep)
        ensures
            step == self.spec_on_fetched(fetched),
    {
        match fetched {
            Ok(archive) => WheelStep::Done(Ok(unzipped_wheel(self.dist, archive))),
            Err(failure) => {
                let err = failure.into_error();
                if matches!(self.strategy, Strategy::Stream) && err.is_http_streaming_unsupported() {
                    let buffered = Download {
                        dist: self.dist,
                        url: self.url,
                        wheel_entry: self.wheel_entry,
                        strategy: Strategy::Buffered,
                        connectivity: self.connectivity,
                    };
                    buffered.begin()
                } else {
                    WheelStep::Done(Err(err))
                }
            },
        }
    }
}

impl Queued {
    /// What follows once the lock is held: the build.
    pub open spec fn spec_resume(self) -> WheelStep {
        WheelStep::Build(Building { dist: self.dist, token: self.token })
    }

    /// What follows once the lock is held.
    pub fn resume(self) -> (step: WheelStep)
        ensures
            step == self.spec_resume(),
    {
        WheelStep::Build(Building { dist: self.dist, token: self.token })
    }
}

impl Building {
    /// What follows once the build backend has answered: its failure as
    /// it is, or a look at the directory that the wheel is unpacked into.
    pub open spec fn spec_resume(self, built: Result<BuiltWheelMetadata, Error>) -> WheelStep {
        match built {
            Ok(built) => WheelStep::CanonicalizeTarget(
                BuiltProbe { dist: self.dist, token: self.token, built },
            ),
            Err(err) => WheelStep::Done(Err(err)),
        }
    }

    /// What follows once the build backend has answered.
    pub fn resume(self, built: Result<BuiltWheelMetadata, Error>) -> (step: WheelStep)
        ensures
            step == self.spec_resume(built),
    {
        match built {
            Ok(built) => WheelStep::CanonicalizeTarget(
                BuiltProbe { dist: self.dist, token: self.token, built },
            ),
            Err(err) => WheelStep::Done(Err(err)),
        }
    }
}

impl BuiltProbe {
    /// What follows once the directory was looked for. If it is there, the
    /// wheel was unpacked before and is used as it is: a build has a
    /// directory of its own, so what is there cannot be stale. If nothing
    /// is there, the wheel file is the answer, to be unpacked. Any other
    /// failure of the disk is a failure to read the cache.
    pub open spec fn spec_resume(self, found: Result<String, IoError>) -> WheelStep {
        match found {
            Ok(archive) => WheelStep::Done(
                Ok(
                    LocalWheel::Unzipped(
                        UnzippedWheel {
                            dist: Dist::Source(self.dist),
                            filename: self.built.filename,
                            archive,
                        },
                    ),
                ),
            ),
            Err(err) => if err.kind == IoErrorKind::NotFound {
                WheelStep::Done(
                    Ok(
                        LocalWheel::Built(
                            BuiltWheel {
                                dist: Dist::Source(self.dist),
                                filename: self.built.filename,
                                path: WheelPath::Exact(self.built.path),
                                target: WheelPath::Exact(self.built.target),
                            },
                        ),
                    ),
                )
            } else {
                WheelStep::Done(Err(Error::CacheRead(err)))
            },
        }
    }

    /// What follows once the directory was looked for.
    pub fn resume(self, found: Result<String, IoError>) -> (step: WheelStep)
        ensures
            step == self.spec_resume(found),
    {
        match found {
            Ok(archive) => WheelStep::Done(
                Ok(
                    LocalWheel::Unzipped(
                        UnzippedWheel {
                            dist: Dist::Source(self.dist),
                            filename: self.built.filename,
                            archive,
                        },
                    ),
                ),
            ),
            Err(err) => if matches!(err.kind, IoErrorKind::NotFound) {
                WheelStep::Done(
                    Ok(
                        LocalWheel::Built(
                            BuiltWheel {
                                dist: Dist::Source(self.dist),
                                filename: self.built.filename,
                                path: WheelPath::Exact(self.built.path),
                                target: WheelPath::Exact(self.built.target),
                            },
                        ),
                    ),
                )
            } else {
                WheelStep::Done(Err(Error::CacheRead(err)))
            },
        }
    }
}

impl WheelStep {
    /// The token of the lock that is held during the step, if one is.
    pub open spec fn spec_held(self) -> Option<usize> {
        match self {
            WheelStep::Build(building) => Some(building.token),
            WheelStep::CanonicalizeTarget(probe) => Some(probe.token),
            _ => None,
        }
    }

    /// The token of the lock that is held during the step, if one is.
    pub fn held(&self) -> (r: Option<usize>)
        ensures
            r == self.spec_held(),
    {
        match self {
            WheelStep::Build(building) => Some(building.token),
            WheelStep::CanonicalizeTarget(probe) => Some(probe.token),
            _ => None,
        }
    }
}

} // verus!
