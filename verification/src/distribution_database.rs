//! The database itself: its settings, its locks, and the first step of each
//! of its operations.

use vstd::prelude::*;
use crate::cache::{CacheEntry, Connectivity, WheelCache};
use crate::dist::{BuildableSource, BuiltDist, Dist, FileLocation, IndexUrl, LocalEditable, SourceDist};
use crate::download::{BuiltWheel, EditableWheel, LocalWheel, WheelPath};
use crate::error::{ClientError, Error, IoError, ReqwestError};
use crate::fetch::{response_error, spec_response_error, Download, Encoding, Method, Request, Strategy};
use crate::locks::{spec_acquire, spec_token, Locks};
use crate::policy::{NoBinary, NoBuild};
use crate::resolve::{LocalProbe, Queued, WheelStep};
use crate::web::{base_url_join_relative, parse_url, parsed_url, spec_base_url_join_relative};

verus! {

/// The indexes that distributions are looked for in.
#[derive(Debug, PartialEq, Eq)]
pub struct IndexLocations {
    pub index: Option<IndexUrl>,
    pub extra_index: Vec<IndexUrl>,
    pub no_index: bool,
}

/// What the database reads of the registry client.
#[derive(Debug, PartialEq, Eq)]
pub struct ClientOptions {
    pub connectivity: Connectivity,
    /// The seconds after which a request times out.
    pub timeout: u64,
}

/// What the database reads of the build context.
#[derive(Debug, PartialEq, Eq)]
pub struct BuildOptions {
    pub no_binary: NoBinary,
    pub no_build: NoBuild,
    pub index_locations: IndexLocations,
}

/// A source that waits for its lock before its metadata is built: the
/// caller takes the lock with the token `token` and keeps it until the last
/// step.
#[derive(Debug, PartialEq, Eq)]
pub struct QueuedMetadata {
    pub source: BuildableSource,
    pub token: usize,
}

/// A source whose lock is held: the caller has the build backend fetch it
/// and build its metadata.
#[derive(Debug, PartialEq, Eq)]
pub struct BuildingMetadata {
    pub source: BuildableSource,
    pub token: usize,
}

/// What the caller has to do next for the metadata of a package, or how the
/// resolution ended. `M` is the metadata, which the database hands on
/// unread.
#[derive(Debug, PartialEq, Eq)]
pub enum MetadataStep<M> {
    Done(Result<M, Error>),
    /// Ask the registry client for the metadata of the wheel alone.
    Fetch(BuiltDist),
    /// Do the step for the whole wheel. It is never the last one.
    Wheel(WheelStep),
    /// Read the metadata out of the wheel.
    Read(LocalWheel),
    Lock(QueuedMetadata),
    Build(BuildingMetadata),
}

impl<M> MetadataStep<M> {
    /// Whether a step for the whole wheel is one that is still to be done.
    pub open spec fn wf(self) -> bool {
        self matches MetadataStep::Wheel(step) ==> !(step is Done)
    }

    /// The step for the metadata that a step for the whole wheel stands
    /// for: once the wheel is there, its metadata is read; a failure ends
    /// the resolution; any other step is done as it is.
    pub open spec fn spec_from_wheel(step: WheelStep) -> MetadataStep<M> {
        match step {
            WheelStep::Done(Ok(wheel)) => MetadataStep::Read(wheel),
            WheelStep::Done(Err(err)) => MetadataStep::Done(Err(err)),
            _ => MetadataStep::Wheel(step),
        }
    }

    /// The step for the metadata that a step for the whole wheel stands
    /// for.
    pub fn from_wheel(step: WheelStep) -> (r: MetadataStep<M>)
        ensures
            r == Self::spec_from_wheel(step),
            r.wf(),
    {
        match step {
            WheelStep::Done(Ok(wheel)) => MetadataStep::Read(wheel),
            WheelStep::Done(Err(err)) => MetadataStep::Done(Err(err)),
            _ => MetadataStep::Wheel(step),
        }
    }

    /// The last step, once the metadata was read out of the wheel or the
    /// build backend has answered: what came back is the answer.
    pub fn finish(outcome: Result<M, Error>) -> (r: MetadataStep<M>)
        ensures
            r == MetadataStep::Done(outcome),
    {
        MetadataStep::Done(outcome)
    }
}

impl QueuedMetadata {
    /// What follows once the lock is held: the build of the metadata.
    pub fn resume<M>(self) -> (step: MetadataStep<M>)
        ensures
            step == MetadataStep::<M>::Build(
                BuildingMetadata { source: self.source, token: self.token },
            ),
    {
        MetadataStep::Build(BuildingMetadata { source: self.source, token: self.token })
    }
}

/// Where a wheel is, and which entry of the cache it is unpacked into.
#[derive(Debug, PartialEq, Eq)]
pub enum Located {
    /// A wheel file on this machine.
    Local { path: String, entry: CacheEntry },
    /// A wheel behind a URL, parsed and written out again.
    Remote { url: String, entry: CacheEntry },
}

/// Where a wheel is. A wheel of a registry has the URL that its file
/// location gives, relative to a base or absolute, and an entry below its
/// index; where the location is a file on this machine, it is that file, with
/// an entry below the URL of the file. A wheel behind a URL, and a wheel on
/// this machine, have an entry below their URL. Every entry is that of the
/// package and of the filename. A URL that does not parse, or cannot be
/// joined, is a failure.
pub open spec fn spec_locate(dist: BuiltDist) -> Result<Located, Error> {
    match dist {
        BuiltDist::Registry(wheel) => {
            let entry = CacheEntry::spec_wheel(WheelCache::Index(wheel.index), wheel.filename);
            match wheel.file {
                FileLocation::RelativeUrl(base, url) => match spec_base_url_join_relative(
                    base,
                    url,
                ) {
                    Ok(url) => Ok(Located::Remote { url, entry }),
                    Err(err) => Err(Error::JoinRelativeUrl(err)),
                },
                FileLocation::AbsoluteUrl(url) => match parsed_url(url@) {
                    Ok(parsed) => Ok(Located::Remote { url: parsed, entry }),
                    Err(err) => Err(Error::Url(url, err)),
                },
                FileLocation::Path(file) => Ok(
                    Located::Local {
                        path: file.path,
                        entry: CacheEntry::spec_wheel(WheelCache::Url(file.url), wheel.filename),
                    },
                ),
            }
        },
        BuiltDist::DirectUrl(wheel) => Ok(
            Located::Remote {
                url: wheel.url,
                entry: CacheEntry::spec_wheel(WheelCache::Url(wheel.url), wheel.filename),
            },
        ),
        BuiltDist::Path(wheel) => Ok(
            Located::Local {
                path: wheel.path,
                entry: CacheEntry::spec_wheel(WheelCache::Url(wheel.url), wheel.filename),
            },
        ),
    }
}

/// Where a wheel is, and which entry of the cache it is unpacked into.
pub fn locate(dist: &BuiltDist) -> (r: Result<Located, Error>)
    ensures
        r == spec_locate(*dist),
{
    match dist {
        BuiltDist::Registry(wheel) => {
            match &wheel.file {
                FileLocation::RelativeUrl(base, url) => match base_url_join_relative(base, url) {
                    Ok(url) => Ok(
                        Located::Remote {
                            url,
                            entry: CacheEntry::wheel(
                                WheelCache::Index(wheel.index.clone()),
                                &wheel.filename,
                            ),
                        },
                    ),
                    Err(err) => Err(Error::JoinRelativeUrl(err)),
                },
                FileLocation::AbsoluteUrl(url) => match parse_url(url.as_str()) {
                    Ok(parsed) => Ok(
                        Located::Remote {
                            url: parsed,
                            entry: CacheEntry::wheel(
                                WheelCache::Index(wheel.index.clone()),
                                &wheel.filename,
                            ),
                        },
                    ),
                    Err(err) => Err(Error::Url(url.clone(), err)),
                },
                FileLocation::Path(file) => Ok(
                    Located::Local {
                        path: file.path.clone(),
                        entry: CacheEntry::wheel(
                            WheelCache::Url(file.url.clone()),
                            &wheel.filename,
                        ),
                    },
                ),
            }
        },
        BuiltDist::DirectUrl(wheel) => Ok(
            Located::Remote {
                url: wheel.url.clone(),
                entry: CacheEntry::wheel(WheelCache::Url(wheel.url.clone()), &wheel.filename),
            },
        ),
        BuiltDist::Path(wheel) => Ok(
            Located::Local {
                path: wheel.path.clone(),
                entry: CacheEntry::wheel(WheelCache::Url(wheel.url.clone()), &wheel.filename),
            },
        ),
    }
}

/// Turns distributions into wheels and into metadata, with the cache in
/// between. For a wheel, the wheel is fetched, or the source distribution
/// is fetched and built. For metadata, the metadata is fetched from the
/// remote wheel, or built from the source distribution. Source
/// distributions are built one at a time for each location.
pub struct DistributionDatabase {
    pub connectivity: Connectivity,
    pub timeout: u64,
    pub no_binary: NoBinary,
    pub no_build: NoBuild,
    pub index_locations: IndexLocations,
    pub locks: Locks,
}

impl DistributionDatabase {
    /// Whether the table of locks is in order.
    pub open spec fn wf(self) -> bool {
        self.locks.wf()
    }

    /// Whether `other` has the settings of this database.
    pub open spec fn same_settings(self, other: DistributionDatabase) -> bool {
        &&& other.connectivity == self.connectivity
        &&& other.timeout == self.timeout
        &&& other.no_binary == self.no_binary
        &&& other.no_build == self.no_build
        &&& other.index_locations == self.index_locations
    }

    /// A database with the settings of the client and of the build context,
    /// and without locks.
    pub fn new(client: ClientOptions, build_context: BuildOptions) -> (db: Self)
        ensures
            db.wf(),
            db.connectivity == client.connectivity,
            db.timeout == client.timeout,
            db.no_binary == build_context.no_binary,
            db.no_build == build_context.no_build,
            db.index_locations == build_context.index_locations,
            db.locks@.len() == 0,
    {
        DistributionDatabase {
            connectivity: client.connectivity,
            timeout: client.timeout,
            no_binary: build_context.no_binary,
            no_build: build_context.no_build,
            index_locations: build_context.index_locations,
            locks: Locks::new(),
        }
    }

    /// The indexes that distributions are looked for in.
    pub fn index_locations(&self) -> (r: &IndexLocations)
        ensures
            *r == self.index_locations,
    {
        &self.index_locations
    }

    /// The I/O failure that a failure of a response's body becomes: a
    /// timeout is told apart, and its message names the timeout of this
    /// database.
    pub fn handle_response_errors(&self, err: ReqwestError) -> (r: IoError)
        ensures
            spec_response_error(self.timeout, err, r),
    {
        response_error(self.timeout, err)
    }

    /// The request for a URL: a GET that asks for the bytes as they are.
    pub fn request(&self, url: String) -> (r: Request)
        ensures
            r == (Request { method: Method::Get, url, accept_encoding: Encoding::Identity }),
    {
        Request { method: Method::Get, url, accept_encoding: Encoding::Identity }
    }

    /// The fetch of the wheel at `url` into `wheel_entry`, by `strategy`.
    pub open spec fn spec_download(
        self,
        url: String,
        wheel_entry: CacheEntry,
        dist: BuiltDist,
        strategy: Strategy,
    ) -> Download {
        Download { dist, url, wheel_entry, strategy, connectivity: self.connectivity }
    }

    /// The first step of fetching a wheel while unpacking it.
    pub fn stream_wheel(&self, url: String, wheel_entry: CacheEntry, dist: BuiltDist) -> (step:
        WheelStep)
        ensures
            step == self.spec_download(url, wheel_entry, dist, Strategy::Stream).spec_begin(),
    {
        let download = Download {
            dist,
            url,
            wheel_entry,
            strategy: Strategy::Stream,
            connectivity: self.connectivity,
        };
        download.begin()
    }

    /// The first step of fetching a wheel to disk and unpacking it then.
    pub fn download_wheel(&self, url: String, wheel_entry: CacheEntry, dist: BuiltDist) -> (step:
        WheelStep)
        ensures
            step == self.spec_download(url, wheel_entry, dist, Strategy::Buffered).spec_begin(),
    {
        let download = Download {
            dist,
            url,
            wheel_entry,
            strategy: Strategy::Buffered,
            connectivity: self.connectivity,
        };
        download.begin()
    }

    /// The first step for a wheel. A policy against wheels for the package
    /// ends the resolution before anything is read or fetched. A wheel on
    /// this machine is looked for in the cache; a wheel behind a URL is
    /// streamed into the cache, and a URL that cannot be had ends the
    /// resolution.
    pub open spec fn spec_get_wheel(self, dist: BuiltDist) -> WheelStep {
        if self.no_binary.spec_forbids(dist.spec_name()) {
            WheelStep::Done(Err(Error::NoBinary))
        } else {
            match spec_locate(dist) {
                Ok(Located::Local { path, entry }) => WheelStep::Canonicalize(
                    LocalProbe { dist, path, entry },
                ),
                Ok(Located::Remote { url, entry }) => self.spec_download(
                    url,
                    entry,
                    dist,
                    Strategy::Stream,
                ).spec_begin(),
                Err(err) => WheelStep::Done(Err(err)),
            }
        }
    }

    /// The first step for a wheel: out of the cache, or from its URL.
    pub fn get_wheel(&self, dist: &BuiltDist) -> (step: WheelStep)
        ensures
            step == self.spec_get_wheel(*dist),
    {
        if self.no_binary.forbids(dist.name()) {
            return WheelStep::Done(Err(Error::NoBinary));
        }
        match locate(dist) {
            Ok(Located::Local { path, entry }) => WheelStep::Canonicalize(
                LocalProbe { dist: dist.clone(), path, entry },
            ),
            Ok(Located::Remote { url, entry }) => self.stream_wheel(url, entry, dist.clone()),
            Err(err) => WheelStep::Done(Err(err)),
        }
    }

    /// The first step for a source distribution. A policy against building
    /// the package ends the resolution before anything is read or fetched.
    /// Else the build waits for the lock of the location.
    pub open spec fn spec_build_wheel(self, dist: SourceDist) -> WheelStep {
        if self.no_build.spec_forbids(Some(dist.spec_name())) {
            WheelStep::Done(Err(Error::NoBuild))
        } else {
            WheelStep::Lock(
                Queued {
                    dist,
                    token: spec_token(self.locks@, dist.spec_resource_id()@) as usize,
                },
            )
        }
    }

    /// The first step for a source distribution: the wheel is built, unless
    /// it was built before. The lock of the location is made if there is
    /// none yet.
    pub fn build_wheel(&mut self, dist: &SourceDist) -> (step: WheelStep)
        requires
            old(self).wf(),
        ensures
            final(self).wf(),
            old(self).same_settings(*final(self)),
            step == old(self).spec_build_wheel(*dist),
            final(self).locks@ == if old(self).no_build.spec_forbids(Some(dist.spec_name())) {
                old(self).locks@
            } else {
                spec_acquire(old(self).locks@, dist.spec_resource_id()@)
            },
    {
        if self.no_build.forbids(Some(dist.name())) {
            return WheelStep::Done(Err(Error::NoBuild));
        }
        let token = self.locks.acquire(dist.resource_id());
        WheelStep::Lock(Queued { dist: dist.clone(), token })
    }

    /// The first step for a distribution: a wheel is fetched, a source
    /// distribution is fetched and built.
    pub open spec fn spec_get_or_build_wheel(self, dist: Dist) -> WheelStep {
        match dist {
            Dist::Built(built) => self.spec_get_wheel(built),
            Dist::Source(source) => self.spec_build_wheel(source),
        }
    }

    /// The locks after the first step for a wheel of `dist`: a source
    /// distribution that may be built has its lock, and nothing else has
    /// changed.
    pub open spec fn spec_locks_after(self, dist: Dist) -> Seq<crate::dist::ResourceIdView> {
        match dist {
            Dist::Built(_) => self.locks@,
            Dist::Source(source) => if self.no_build.spec_forbids(Some(source.spec_name())) {
                self.locks@
            } else {
                spec_acquire(self.locks@, source.spec_resource_id()@)
            },
        }
    }

    /// The first step for a distribution: either the wheel is fetched, or
    /// the source distribution is fetched and built.
    pub fn get_or_build_wheel(&mut self, dist: &Dist) -> (step: WheelStep)
        requires
            old(self).wf(),
        ensures
            final(self).wf(),
            old(self).same_settings(*final(self)),
            step == old(self).spec_get_or_build_wheel(*dist),
            final(self).locks@ == old(self).spec_locks_after(*dist),
    {
        match dist {
            Dist::Built(built) => self.get_wheel(built),
            Dist::Source(source) => self.build_wheel(source),
        }
    }

    /// The first step for the metadata of a wheel: the registry client is
    /// asked for the metadata alone.
    pub fn get_wheel_metadata<M>(&self, dist: &BuiltDist) -> (step: MetadataStep<M>)
        ensures
            step == MetadataStep::<M>::Fetch(*dist),
    {
        MetadataStep::Fetch(dist.clone())
    }

    /// What follows once the registry client has answered. Its metadata is
    /// the answer. If it failed because the remote cannot stream, the whole
    /// wheel is resolved and the metadata read out of it. Any other failure
    /// is the client's.
    pub open spec fn spec_on_wheel_metadata<M>(
        self,
        dist: BuiltDist,
        fetched: Result<M, ClientError>,
    ) -> MetadataStep<M> {
        match fetched {
            Ok(metadata) => MetadataStep::Done(Ok(metadata)),
            Err(err) => if err.streaming_unsupported {
                MetadataStep::spec_from_wheel(self.spec_get_wheel(dist))
            } else {
                MetadataStep::Done(Err(Error::Client(err)))
            },
        }
    }

    /// What follows once the registry client has answered the question for
    /// the metadata of `dist`.
    pub fn on_wheel_metadata<M>(&self, dist: BuiltDist, fetched: Result<M, ClientError>) -> (step:
        MetadataStep<M>)
        ensures
            step == self.spec_on_wheel_metadata(dist, fetched),
            step.wf(),
    {
        match fetched {
            Ok(metadata) => MetadataStep::Done(Ok(metadata)),
            Err(err) => if err.streaming_unsupported {
                MetadataStep::from_wheel(self.get_wheel(&dist))
            } else {
                MetadataStep::Done(Err(Error::Client(err)))
            },
        }
    }

    /// The first step for the metadata of a source. A policy against
    /// building the package ends the resolution before anything is read or
    /// fetched. Else the build waits for the lock of the location.
    pub open spec fn spec_build_wheel_metadata<M>(self, source: BuildableSource) -> MetadataStep<M> {
        if self.no_build.spec_forbids(source.spec_name()) {
            MetadataStep::Done(Err(Error::NoBuild))
        } else {
            MetadataStep::Lock(
                QueuedMetadata {
                    source,
                    token: spec_token(self.locks@, source.spec_resource_id()@) as usize,
                },
            )
        }
    }

    /// The first step for the metadata of a source: the metadata is built,
    /// unless it was built before. The lock of the location is made if
    /// there is none yet.
    pub fn build_wheel_metadata<M>(&mut self, source: &BuildableSource) -> (step: MetadataStep<M>)
        requires
            old(self).wf(),
        ensures
            final(self).wf(),
            old(self).same_settings(*final(self)),
            step == old(self).spec_build_wheel_metadata::<M>(*source),
            final(self).locks@ == if old(self).no_build.spec_forbids(source.spec_name()) {
                old(self).locks@
            } else {
                spec_acquire(old(self).locks@, source.spec_resource_id()@)
            },
    {
        if self.no_build.forbids(source.name()) {
            return MetadataStep::Done(Err(Error::NoBuild));
        }
        let token = self.locks.acquire(source.resource_id());
        MetadataStep::Lock(QueuedMetadata { source: source.clone(), token })
    }

    /// The first step for the metadata of a distribution: that of a wheel
    /// is fetched, that of a source distribution is built.
    pub open spec fn spec_get_or_build_wheel_metadata<M>(self, dist: Dist) -> MetadataStep<M> {
        match dist {
            Dist::Built(built) => MetadataStep::Fetch(built),
            Dist::Source(source) => self.spec_build_wheel_metadata(BuildableSource::Dist(source)),
        }
    }

    /// The first step for the metadata of a distribution: either the
    /// metadata of the wheel is fetched, or the source distribution is
    /// fetched and its metadata built.
    pub fn get_or_build_wheel_metadata<M>(&mut self, dist: &Dist) -> (step: MetadataStep<M>)
        requires
            old(self).wf(),
        ensures
            final(self).wf(),
            old(self).same_settings(*final(self)),
            step == old(self).spec_get_or_build_wheel_metadata::<M>(*dist),
            final(self).locks@ == old(self).spec_locks_after(*dist),
    {
        match dist {
            Dist::Built(built) => self.get_wheel_metadata(built),
            Dist::Source(source) => self.build_wheel_metadata(
                &BuildableSource::Dist(source.clone()),
            ),
        }
    }

    /// The wheel of a source tree that is installed in place, once the
    /// build backend has answered. The wheel file lies in the directory it
    /// was built into, under the name the backend gave it; it is unpacked
    /// into the entry of that directory that is named by the digest of the
    /// path of the source tree. A failure of the backend is handed on as it
    /// is.
    pub open spec fn spec_build_wheel_editable<M>(
        self,
        editable: LocalEditable,
        editable_wheel_dir: String,
        built: Result<EditableWheel<M>, Error>,
    ) -> Result<(LocalWheel, M), Error> {
        match built {
            Ok(built) => Ok(
                (
                    LocalWheel::Built(
                        BuiltWheel {
                            dist: built.dist,
                            filename: built.filename,
                            path: WheelPath::Child(editable_wheel_dir, built.disk_filename),
                            target: WheelPath::Digest(editable_wheel_dir, editable.path),
                        },
                    ),
                    built.metadata,
                ),
            ),
            Err(err) => Err(err),
        }
    }

    /// The wheel of a source tree that is installed in place, once the
    /// build backend has built it into `editable_wheel_dir`.
    pub fn build_wheel_editable<M>(
        &self,
        editable: &LocalEditable,
        editable_wheel_dir: &String,
        built: Result<EditableWheel<M>, Error>,
    ) -> (r: Result<(LocalWheel, M), Error>)
        ensures
            r == self.spec_build_wheel_editable(*editable, *editable_wheel_dir, built),
    {
        match built {
            Ok(built) => Ok(
                (
                    LocalWheel::Built(
                        BuiltWheel {
                            dist: built.dist,
                            filename: built.filename,
                            path: WheelPath::Child(editable_wheel_dir.clone(), built.disk_filename),
                            target: WheelPath::Digest(
                                editable_wheel_dir.clone(),
                                editable.path.clone(),
                            ),
                        },
                    ),
                    built.metadata,
                ),
            ),
            Err(err) => Err(err),
        }
    }
}

} // verus!
