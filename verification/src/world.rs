//! A resolution from its first step to its last, against a world that
//! answers every question the steps ask. The world is a mathematical one: it
//! says what the disk, the cache, the network and the build backend would
//! answer, and gives the same answer to the same question.

use vstd::prelude::*;
use crate::cache::{ArchiveTimestamp, CacheControl, CacheEntry, Freshness, Timestamp};
use crate::dist::{PackageName, SourceDist};
use crate::download::{BuiltWheelMetadata, LocalWheel};
use crate::error::{Error, IoError};
use crate::fetch::{Download, FetchFailure};
use crate::resolve::WheelStep;

verus! {

/// What the surroundings of the database answer.
pub struct World {
    /// The canonical path of what lies at an entry of the cache.
    pub canonical_entry: spec_fn(CacheEntry) -> Result<String, IoError>,
    /// The canonical path of a directory.
    pub canonical_path: spec_fn(String) -> Result<String, IoError>,
    /// When the file at the first path was last modified, and when what
    /// lies at the second path was made.
    pub timestamps: spec_fn(String, String) -> Result<
        (Option<ArchiveTimestamp>, Timestamp),
        IoError,
    >,
    /// How fresh an entry of the HTTP cache is for a package.
    pub freshness: spec_fn(CacheEntry, PackageName) -> Result<Freshness, IoError>,
    /// The canonical path of the wheel that a fetch unpacks.
    pub fetch: spec_fn(Download, CacheControl) -> Result<String, FetchFailure>,
    /// The wheel that the build backend builds.
    pub build: spec_fn(SourceDist) -> Result<BuiltWheelMetadata, Error>,
}

/// What a step asks of the caller.
pub enum Work {
    /// Reading names and times from the disk.
    Disk,
    /// Asking the cache.
    Cache,
    /// Using the network.
    Network,
    /// Waiting for a lock.
    Lock,
    /// Running the build backend.
    Build,
}

impl WheelStep {
    /// What the step asks of the caller; nothing, where it is the last.
    pub open spec fn spec_work(self) -> Option<Work> {
        match self {
            WheelStep::Done(_) => None,
            WheelStep::Canonicalize(_) => Some(Work::Disk),
            WheelStep::Timestamps(_) => Some(Work::Disk),
            WheelStep::Freshness(_) => Some(Work::Cache),
            WheelStep::Fetch(_, _) => Some(Work::Network),
            WheelStep::Lock(_) => Some(Work::Lock),
            WheelStep::Build(_) => Some(Work::Build),
            WheelStep::CanonicalizeTarget(_) => Some(Work::Disk),
        }
    }

    /// The step that follows in `world`. The last step is followed by
    /// itself.
    pub open spec fn spec_advance(self, world: World) -> WheelStep {
        match self {
            WheelStep::Done(_) => self,
            WheelStep::Canonicalize(probe) => probe.spec_resume(
                (world.canonical_entry)(probe.entry),
            ),
            WheelStep::Timestamps(check) => check.spec_resume(
                (world.timestamps)(check.path, check.archive),
            ),
            WheelStep::Freshness(download) => download.spec_on_freshness(
                (world.freshness)(download.spec_http_entry(), download.spec_package()),
            ),
            WheelStep::Fetch(download, cache_control) => download.spec_on_fetched(
                (world.fetch)(download, cache_control),
            ),
            WheelStep::Lock(queued) => queued.spec_resume(),
            WheelStep::Build(building) => building.spec_resume((world.build)(building.dist)),
            WheelStep::CanonicalizeTarget(probe) => probe.spec_resume(
                (world.canonical_path)(probe.built.target),
            ),
        }
    }

    /// A bound on the steps that are still to come.
    pub open spec fn spec_steps_left(self) -> nat {
        match self {
            WheelStep::Done(_) => 0,
            WheelStep::Canonicalize(_) => 2,
            WheelStep::Timestamps(_) => 1,
            WheelStep::Freshness(download) => match download.strategy {
                crate::fetch::Strategy::Stream => 4,
                crate::fetch::Strategy::Buffered => 2,
            },
            WheelStep::Fetch(download, _) => match download.strategy {
                crate::fetch::Strategy::Stream => 3,
                crate::fetch::Strategy::Buffered => 1,
            },
            WheelStep::Lock(_) => 3,
            WheelStep::Build(_) => 2,
            WheelStep::CanonicalizeTarget(_) => 1,
        }
    }

    /// How a resolution that stands at this step ends in `world`.
    pub open spec fn spec_outcome(self, world: World) -> Result<LocalWheel, Error>
        decreases self.spec_steps_left(),
    {
        match self {
            WheelStep::Done(outcome) => outcome,
            _ => self.spec_advance(world).spec_outcome(world),
        }
    }

    /// The steps that a resolution that stands at this step asks for in
    /// `world`, in their order, the last step left out.
    pub open spec fn spec_trace(self, world: World) -> Seq<WheelStep>
        decreases self.spec_steps_left(),
    {
        match self {
            WheelStep::Done(_) => Seq::empty(),
            _ => seq![self] + self.spec_advance(world).spec_trace(world),
        }
    }
}

/// Every step but the last brings the resolution nearer to its end: no
/// resolution goes on for ever, and none takes more than four steps.
pub proof fn lemma_every_step_counts(step: WheelStep, world: World)
    ensures
        step.spec_steps_left() <= 4,
        !(step is Done) ==> step.spec_advance(world).spec_steps_left() < step.spec_steps_left(),
        step.spec_trace(world).len() <= step.spec_steps_left(),
    decreases step.spec_steps_left(),
{
    if !(step is Done) {
        lemma_every_step_counts(step.spec_advance(world), world);
    }
}

} // verus!
