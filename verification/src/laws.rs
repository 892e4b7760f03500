//! What holds of every resolution of a wheel, proved of the steps as the
//! database takes them.

use vstd::prelude::*;
use crate::cache::{spec_up_to_date, ArchiveTimestamp, CacheControl, CacheEntry, Connectivity, Freshness, Timestamp};
use crate::dist::{BuildableSource, BuiltDist, Dist, ResourceIdView, SourceDist};
use crate::distribution_database::{spec_locate, DistributionDatabase, Located, MetadataStep};
use crate::download::LocalWheel;
use crate::error::{Error, ErrorKind, IoError, IoErrorKind};
use crate::fetch::{spec_cache_control, Download, FetchFailure, Strategy};
use crate::locks::{lemma_acquire, lemma_acquire_all, spec_acquire, spec_acquire_all};
use crate::policy::{NoBinary, NoBuild};
use crate::resolve::{spec_disk_wheel, spec_unzipped_wheel, Queued, WheelStep};
use crate::world::{Work, World};

verus! {

/// A fresh copy in the cache is the answer, and is the answer again. For a
/// wheel on this machine whose unpacked copy is in the cache and was made at
/// or after the last change of the wheel file, the resolution ends with
/// that copy. It reads the disk twice and does nothing else: no question to
/// the cache, no request, no lock, no build. It leaves the database as it
/// was, so a second resolution in the same world takes the same steps to
/// the same wheel.
pub proof fn lemma_fresh_copy_is_used_again(
    db: DistributionDatabase,
    after: DistributionDatabase,
    dist: BuiltDist,
    world: World,
    path: String,
    entry: CacheEntry,
    archive: String,
    modified_at: Option<ArchiveTimestamp>,
    created_at: Timestamp,
)
    requires
        !db.no_binary.spec_forbids(dist.spec_name()),
        spec_locate(dist) == Ok::<Located, Error>(Located::Local { path, entry }),
        (world.canonical_entry)(entry) == Ok::<String, IoError>(archive),
        (world.timestamps)(path, archive) == Ok::<(Option<ArchiveTimestamp>, Timestamp), IoError>(
            (modified_at, created_at),
        ),
        spec_up_to_date(modified_at, created_at),
        db.same_settings(after),
        after.locks@ == db.spec_locks_after(Dist::Built(dist)),
    ensures
        ({
            let first = db.spec_get_or_build_wheel(Dist::Built(dist));
            let trace = first.spec_trace(world);
            &&& first.spec_outcome(world) == Ok::<_, Error>(spec_unzipped_wheel(dist, archive))
            &&& trace.len() == 2
            &&& trace[0].spec_work() == Some(Work::Disk)
            &&& trace[1].spec_work() == Some(Work::Disk)
            &&& after.locks@ == db.locks@
            &&& after.spec_get_or_build_wheel(Dist::Built(dist)) == first
        }),
{
    reveal_with_fuel(WheelStep::spec_outcome, 3);
    reveal_with_fuel(WheelStep::spec_trace, 3);
}

/// A stale copy in the cache is not the answer. For a wheel on this machine
/// whose unpacked copy is older than the last change of the wheel file, or
/// whose last change cannot be told, the resolution ends with the wheel
/// file as it is now, to be unpacked into the entry anew.
pub proof fn lemma_stale_copy_is_not_used(
    db: DistributionDatabase,
    dist: BuiltDist,
    world: World,
    path: String,
    entry: CacheEntry,
    archive: String,
    modified_at: Option<ArchiveTimestamp>,
    created_at: Timestamp,
)
    requires
        !db.no_binary.spec_forbids(dist.spec_name()),
        spec_locate(dist) == Ok::<Located, Error>(Located::Local { path, entry }),
        (world.canonical_entry)(entry) == Ok::<String, IoError>(archive),
        (world.timestamps)(path, archive) == Ok::<(Option<ArchiveTimestamp>, Timestamp), IoError>(
            (modified_at, created_at),
        ),
        !spec_up_to_date(modified_at, created_at),
    ensures
        ({
            let first = db.spec_get_or_build_wheel(Dist::Built(dist));
            &&& first.spec_outcome(world) == Ok::<_, Error>(spec_disk_wheel(dist, path, entry))
            &&& first.spec_outcome(world) != Ok::<_, Error>(spec_unzipped_wheel(dist, archive))
        }),
{
    reveal_with_fuel(WheelStep::spec_outcome, 3);
}

/// A copy in the cache is trusted only on proof of freshness, and a missing
/// copy is no failure. For a wheel on this machine, in every world: the
/// resolution ends with the unpacked copy only if the copy is there, both
/// times could be read and the copy is fresh; if nothing lies at the entry,
/// it ends with the wheel file; and it fails only because the cache could not
/// be read.
pub proof fn lemma_copy_is_trusted_only_when_fresh(
    db: DistributionDatabase,
    dist: BuiltDist,
    world: World,
    path: String,
    entry: CacheEntry,
)
    requires
        !db.no_binary.spec_forbids(dist.spec_name()),
        spec_locate(dist) == Ok::<Located, Error>(Located::Local { path, entry }),
    ensures
        ({
            let outcome = db.spec_get_or_build_wheel(Dist::Built(dist)).spec_outcome(world);
            let found = (world.canonical_entry)(entry);
            &&& outcome matches Ok(LocalWheel::Unzipped(wheel)) ==> {
                &&& found matches Ok(archive)
                &&& wheel.archive == archive
                &&& (world.timestamps)(path, archive) matches Ok((modified_at, created_at))
                &&& spec_up_to_date(modified_at, created_at)
            }
            &&& (found matches Err(err) && err.kind == IoErrorKind::NotFound) ==> outcome == Ok::<
                _,
                Error,
            >(spec_disk_wheel(dist, path, entry))
            &&& outcome is Err ==> outcome matches Err(Error::CacheRead(_))
        }),
{
    reveal_with_fuel(WheelStep::spec_outcome, 3);
}

/// A change of the wheel file after its copy was made makes the copy
/// stale, whatever was true before.
pub proof fn lemma_later_change_is_stale(modified_at: ArchiveTimestamp, created_at: Timestamp)
    requires
        created_at.spec_le(modified_at.spec_timestamp()),
        created_at != modified_at.spec_timestamp(),
    ensures
        !spec_up_to_date(Some(modified_at), created_at),
{
}

/// The policy against wheels comes first. Where it forbids a wheel for the
/// package, as it does for every package when it is set to all, the
/// resolution of a wheel ends at its first step with the rejection: in every
/// world, nothing is read, asked, fetched, locked or built.
pub proof fn lemma_no_binary_comes_first(db: DistributionDatabase, dist: BuiltDist, world: World)
    requires
        db.no_binary == NoBinary::All || db.no_binary.spec_forbids(dist.spec_name()),
    ensures
        ({
            let first = db.spec_get_or_build_wheel(Dist::Built(dist));
            &&& first == WheelStep::Done(Err(Error::NoBinary))
            &&& first.spec_outcome(world) == Err::<LocalWheel, _>(Error::NoBinary)
            &&& Error::NoBinary.spec_kind() == ErrorKind::PolicyRejection
            &&& first.spec_trace(world).len() == 0
            &&& db.spec_locks_after(Dist::Built(dist)) == db.locks@
        }),
{
}

/// The policy against builds comes first. Where it forbids to build the
/// package, as it does for every source when it is set to all, the
/// resolution of a wheel and that of the metadata end at their first step
/// with the rejection, and no lock is made.
pub proof fn lemma_no_build_comes_first<M>(
    db: DistributionDatabase,
    source: SourceDist,
    world: World,
)
    requires
        db.no_build == NoBuild::All || db.no_build.spec_forbids(Some(source.spec_name())),
    ensures
        ({
            let first = db.spec_get_or_build_wheel(Dist::Source(source));
            &&& first == WheelStep::Done(Err(Error::NoBuild))
            &&& first.spec_trace(world).len() == 0
            &&& Error::NoBuild.spec_kind() == ErrorKind::PolicyRejection
            &&& db.spec_get_or_build_wheel_metadata::<M>(Dist::Source(source))
                == MetadataStep::<M>::Done(Err(Error::NoBuild))
            &&& db.spec_build_wheel_metadata::<M>(BuildableSource::Dist(source))
                == MetadataStep::<M>::Done(Err(Error::NoBuild))
            &&& db.spec_locks_after(Dist::Source(source)) == db.locks@
        }),
{
}

/// Offline, what the HTTP cache holds is taken, however old. No fetch asks
/// the cache for freshness, and every request is sent with the word to
/// allow a stale response: so the answer to the question of freshness, and
/// a failure to answer it, change nothing.
pub proof fn lemma_offline_allows_stale(download: Download, world: World)
    requires
        download.connectivity == Connectivity::Offline,
    ensures
        ({
            let trace = download.spec_begin().spec_trace(world);
            &&& trace.len() >= 1
            &&& trace[0] == WheelStep::Fetch(download, CacheControl::AllowStale)
            &&& forall|i: int|
                0 <= i < trace.len() ==> (#[trigger] trace[i] matches WheelStep::Fetch(_, control)
                    && control == CacheControl::AllowStale)
            &&& forall|freshness: Freshness| #[trigger]
                spec_cache_control(download.connectivity, freshness) == CacheControl::AllowStale
        }),
{
    reveal_with_fuel(WheelStep::spec_trace, 3);
}

/// Offline, a wheel behind a URL that the HTTP cache holds is resolved
/// with one request and nothing else, and the wheel it unpacks is the
/// answer.
pub proof fn lemma_offline_resolves_from_the_cache(
    db: DistributionDatabase,
    dist: BuiltDist,
    world: World,
    url: String,
    entry: CacheEntry,
    archive: String,
)
    requires
        db.connectivity == Connectivity::Offline,
        !db.no_binary.spec_forbids(dist.spec_name()),
        spec_locate(dist) == Ok::<Located, Error>(Located::Remote { url, entry }),
        (world.fetch)(
            db.spec_download(url, entry, dist, Strategy::Stream),
            CacheControl::AllowStale,
        ) == Ok::<String, FetchFailure>(archive),
    ensures
        ({
            let first = db.spec_get_or_build_wheel(Dist::Built(dist));
            &&& first.spec_outcome(world) == Ok::<_, Error>(spec_unzipped_wheel(dist, archive))
            &&& first.spec_trace(world) == seq![
                WheelStep::Fetch(
                    db.spec_download(url, entry, dist, Strategy::Stream),
                    CacheControl::AllowStale,
                ),
            ]
        }),
{
    reveal_with_fuel(WheelStep::spec_outcome, 3);
    reveal_with_fuel(WheelStep::spec_trace, 3);
    let first = db.spec_get_or_build_wheel(Dist::Built(dist));
    assert(first.spec_trace(world) =~= seq![first]);
}

/// The two strategies ask for the same thing: the same request, the same
/// entry of the HTTP cache and of the wheel, the same package, and the same
/// word to the HTTP cache for the same freshness.
pub proof fn lemma_strategies_share_their_request(download: Download, freshness: Freshness)
    ensures
        ({
            let buffered = download.spec_buffered();
            &&& buffered.spec_request() == download.spec_request()
            &&& buffered.spec_http_entry() == download.spec_http_entry()
            &&& buffered.wheel_entry == download.wheel_entry
            &&& buffered.spec_package() == download.spec_package()
            &&& buffered.spec_on_freshness(Ok(freshness)) matches WheelStep::Fetch(_, control)
            &&& download.spec_on_freshness(Ok(freshness)) == WheelStep::Fetch(download, control)
        }),
{
}

/// Falling back gives the wheel that streaming would have given. Take two
/// worlds that differ in the remote alone: in one, streaming unpacks the
/// wheel; in the other, streaming fails because the remote cannot stream,
/// and the buffered fetch unpacks the same wheel. Every resolution that
/// begins with the streamed fetch ends the same in both. Where the cache
/// answers the question of freshness, or none is asked, it ends with that
/// wheel.
pub proof fn lemma_fallback_gives_the_streamed_wheel(
    download: Download,
    streaming: World,
    refusing: World,
    failure: FetchFailure,
    archive: String,
)
    requires
        download.strategy == Strategy::Stream,
        streaming.freshness == refusing.freshness,
        failure.spec_into_error().spec_kind() == ErrorKind::CapabilityFallback,
        forall|control: CacheControl| #[trigger]
            (streaming.fetch)(download, control) == Ok::<String, FetchFailure>(archive),
        forall|control: CacheControl| #[trigger]
            (refusing.fetch)(download, control) == Err::<String, FetchFailure>(failure),
        forall|control: CacheControl| #[trigger]
            (refusing.fetch)(download.spec_buffered(), control) == Ok::<String, FetchFailure>(
                archive,
            ),
    ensures
        download.spec_begin().spec_outcome(refusing) == download.spec_begin().spec_outcome(
            streaming,
        ),
        (download.connectivity == Connectivity::Offline || (streaming.freshness)(
            download.spec_http_entry(),
            download.spec_package(),
        ) is Ok) ==> download.spec_begin().spec_outcome(refusing) == Ok::<_, Error>(
            spec_unzipped_wheel(download.dist, archive),
        ),
{
    reveal_with_fuel(WheelStep::spec_outcome, 5);
    let buffered = download.spec_buffered();
    assert(buffered.spec_http_entry() == download.spec_http_entry());
    assert(buffered.spec_package() == download.spec_package());
}

/// Only a remote that cannot stream is answered by the other strategy; the
/// buffered fetch is never begun again. Whatever else goes wrong in a
/// fetch ends the resolution with that failure.
pub proof fn lemma_only_a_capability_falls_back(
    download: Download,
    failure: FetchFailure,
)
    ensures
        ({
            let next = download.spec_on_fetched(Err(failure));
            let err = failure.spec_into_error();
            if download.strategy == Strategy::Stream && err.spec_kind()
                == ErrorKind::CapabilityFallback {
                next == download.spec_buffered().spec_begin()
            } else {
                next == WheelStep::Done(Err(err))
            }
        }),
{
}

/// A build runs under its lock. Once the lock of a source distribution was
/// taken, every step that follows is done while it is held: the build, and
/// the look at the directory of the wheel.
pub proof fn lemma_build_runs_under_its_lock(queued: Queued, world: World)
    ensures
        ({
            let trace = WheelStep::Lock(queued).spec_trace(world);
            &&& trace.len() >= 2
            &&& trace[0] == WheelStep::Lock(queued)
            &&& trace[1] == WheelStep::Build(
                crate::resolve::Building { dist: queued.dist, token: queued.token },
            )
            &&& forall|i: int|
                1 <= i < trace.len() ==> (#[trigger] trace[i]).spec_held() == Some(queued.token)
        }),
{
    reveal_with_fuel(WheelStep::spec_trace, 4);
}

/// All who ask for one source take the same steps. After a first caller has
/// asked for the wheel of a source distribution, and any number of others
/// have asked for locks of their own, a later caller for the same source is
/// told to wait for the very lock of the first, and to do what the first
/// did: so in one world both get the same answer, and while one of them
/// builds, the other waits.
pub proof fn lemma_callers_of_one_source_share_lock_and_answer(
    first: DistributionDatabase,
    later: DistributionDatabase,
    dist: SourceDist,
    others: Seq<ResourceIdView>,
    world: World,
)
    requires
        first.wf(),
        first.same_settings(later),
        later.locks@ == spec_acquire_all(
            first.spec_locks_after(Dist::Source(dist)),
            others,
            others.len(),
        ),
    ensures
        later.spec_get_or_build_wheel(Dist::Source(dist)) == first.spec_get_or_build_wheel(
            Dist::Source(dist),
        ),
        later.spec_get_or_build_wheel(Dist::Source(dist)).spec_outcome(world)
            == first.spec_get_or_build_wheel(Dist::Source(dist)).spec_outcome(world),
        first.spec_get_or_build_wheel(Dist::Source(dist)) matches WheelStep::Lock(queued) ==> {
            &&& queued.token < later.locks@.len()
            &&& later.locks@[queued.token as int] == dist.spec_resource_id()@
        },
{
    first.locks.lemma_len_fits();
    if !first.no_build.spec_forbids(Some(dist.spec_name())) {
        let id = dist.spec_resource_id()@;
        let table = spec_acquire(first.locks@, id);
        lemma_acquire(first.locks@, id);
        lemma_acquire_all(table, others, 0, others.len());
        let token = crate::locks::spec_token(first.locks@, id);
        assert(later.locks@[token] == later.locks@.subrange(0, table.len() as int)[token]);
        assert(later.locks@[token] == id);
    }
}

} // verus!
