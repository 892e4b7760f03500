use uv_distribution::cache::{
    ArchiveTimestamp, CacheControl, CacheEntry, Connectivity, EntryFile, Freshness, Timestamp,
    WheelCache,
};
use uv_distribution::dist::{
    BuiltDist, DirectUrlBuiltDist, DirectUrlSourceDist, Dist, FileLocation, IndexUrl, LocalFile,
    PackageName, PathBuiltDist, RegistryBuiltDist, SourceDist, WheelFilename,
};
use uv_distribution::distribution_database::{
    locate, BuildOptions, ClientOptions, DistributionDatabase, IndexLocations, Located,
};
use uv_distribution::download::{
    BuiltWheel, BuiltWheelMetadata, DiskWheel, LocalWheel, UnzippedWheel, WheelPath,
};
use uv_distribution::error::{
    ClientError, Error, ErrorKind, ExtractError, IoError, IoErrorKind, ReqwestError,
};
use uv_distribution::fetch::{Download, Encoding, FetchFailure, Method, Request, Stage, Strategy};
use uv_distribution::policy::{NoBinary, NoBuild};
use uv_distribution::resolve::{Building, BuiltProbe, LocalCheck, LocalProbe, Queued, WheelStep};

fn text(s: &str) -> String {
    s.to_string()
}

fn name(s: &str) -> PackageName {
    PackageName::new(text(s))
}

fn filename(package: &str) -> WheelFilename {
    WheelFilename {
        name: name(package),
        version: text("1.0"),
        python_tag: text("py3"),
        abi_tag: text("none"),
        platform_tag: text("any"),
    }
}

fn database(connectivity: Connectivity, no_binary: NoBinary, no_build: NoBuild) -> DistributionDatabase {
    DistributionDatabase::new(
        ClientOptions { connectivity, timeout: 30 },
        BuildOptions {
            no_binary,
            no_build,
            index_locations: IndexLocations {
                index: Some(IndexUrl::Pypi(text("https://pypi.org/simple"))),
                extra_index: Vec::new(),
                no_index: false,
            },
        },
    )
}

fn online() -> DistributionDatabase {
    database(Connectivity::Online, NoBinary::Off, NoBuild::Off)
}

fn path_wheel() -> BuiltDist {
    BuiltDist::Path(PathBuiltDist {
        filename: filename("foo"),
        url: text("file:///wheels/foo-1.0-py3-none-any.whl"),
        path: text("/wheels/foo-1.0-py3-none-any.whl"),
    })
}

fn path_entry() -> CacheEntry {
    CacheEntry::wheel(
        WheelCache::Url(text("file:///wheels/foo-1.0-py3-none-any.whl")),
        &filename("foo"),
    )
}

fn url_wheel() -> BuiltDist {
    BuiltDist::DirectUrl(DirectUrlBuiltDist {
        filename: filename("foo"),
        url: text("https://example.org/foo-1.0-py3-none-any.whl"),
    })
}

fn registry_wheel(file: FileLocation) -> BuiltDist {
    BuiltDist::Registry(RegistryBuiltDist {
        filename: filename("foo"),
        file,
        index: IndexUrl::Pypi(text("https://pypi.org/simple")),
    })
}

fn source() -> SourceDist {
    SourceDist::DirectUrl(DirectUrlSourceDist {
        name: name("bar"),
        url: text("https://example.org/bar-1.0.tar.gz"),
    })
}

fn at(seconds: u64) -> Timestamp {
    Timestamp { seconds, nanos: 0 }
}

fn io(kind: IoErrorKind) -> IoError {
    IoError { kind, message: text("disk") }
}

fn unzipped(dist: BuiltDist, archive: &str) -> LocalWheel {
    LocalWheel::Unzipped(UnzippedWheel {
        filename: dist.filename().clone(),
        dist: Dist::Built(dist),
        archive: text(archive),
    })
}

/// A world for the tests: what the disk, the cache, the remote and the
/// build backend answer, and a count of what was asked of them.
struct World {
    archive: Result<String, IoError>,
    times: Result<(Option<ArchiveTimestamp>, Timestamp), IoError>,
    freshness: Result<Freshness, IoError>,
    can_stream: bool,
    built_before: bool,
    disk: usize,
    cache: usize,
    requests: Vec<(Strategy, CacheControl)>,
    locks: Vec<usize>,
    builds: usize,
}

fn world() -> World {
    World {
        archive: Ok(text("/cache/archive-v0/abc")),
        times: Ok((Some(ArchiveTimestamp::Exact(at(100))), at(200))),
        freshness: Ok(Freshness::Fresh),
        can_stream: true,
        built_before: false,
        disk: 0,
        cache: 0,
        requests: Vec::new(),
        locks: Vec::new(),
        builds: 0,
    }
}

fn streaming_unsupported() -> FetchFailure {
    FetchFailure::Extract(ExtractError {
        streaming_unsupported: true,
        message: text("data descriptors"),
    })
}

fn drive(mut step: WheelStep, world: &mut World) -> Result<LocalWheel, Error> {
    loop {
        step = match step {
            WheelStep::Done(outcome) => return outcome,
            WheelStep::Canonicalize(probe) => {
                world.disk += 1;
                probe.resume(world.archive.clone_result())
            }
            WheelStep::Timestamps(check) => {
                world.disk += 1;
                check.resume(match &world.times {
                    Ok(times) => Ok(*times),
                    Err(err) => Err(io(err.kind)),
                })
            }
            WheelStep::Freshness(download) => {
                world.cache += 1;
                download.on_freshness(match &world.freshness {
                    Ok(freshness) => Ok(*freshness),
                    Err(err) => Err(io(err.kind)),
                })
            }
            WheelStep::Fetch(download, control) => {
                world.requests.push((download.strategy, control));
                let fetched = if download.strategy == Strategy::Stream && !world.can_stream {
                    Err(streaming_unsupported())
                } else {
                    Ok(text("/cache/archive-v0/fetched"))
                };
                download.on_fetched(fetched)
            }
            WheelStep::Lock(queued) => {
                world.locks.push(queued.token);
                queued.resume()
            }
            WheelStep::Build(building) => {
                world.builds += 1;
                building.resume(Ok(BuiltWheelMetadata {
                    path: text("/cache/built/bar.whl"),
                    target: text("/cache/built/bar"),
                    filename: filename("bar"),
                }))
            }
            WheelStep::CanonicalizeTarget(probe) => {
                world.disk += 1;
                probe.resume(if world.built_before {
                    Ok(text("/cache/archive-v0/bar"))
                } else {
                    Err(io(IoErrorKind::NotFound))
                })
            }
        };
    }
}

trait CloneResult {
    fn clone_result(&self) -> Result<String, IoError>;
}

impl CloneResult for Result<String, IoError> {
    fn clone_result(&self) -> Result<String, IoError> {
        match self {
            Ok(path) => Ok(path.clone()),
            Err(err) => Err(IoError { kind: err.kind, message: err.message.clone() }),
        }
    }
}

#[test]
fn a_fresh_copy_is_used_twice_without_network_or_build() {
    let mut db = online();
    let mut world = world();
    let dist = Dist::Built(path_wheel());
    let first = drive(db.get_or_build_wheel(&dist), &mut world);
    assert_eq!(first, Ok(unzipped(path_wheel(), "/cache/archive-v0/abc")));
    assert_eq!(world.disk, 2);
    let second = drive(db.get_or_build_wheel(&dist), &mut world);
    assert_eq!(second, first);
    assert_eq!(world.disk, 4);
    assert_eq!(world.cache, 0);
    assert!(world.requests.is_empty());
    assert!(world.locks.is_empty());
    assert_eq!(world.builds, 0);
    assert_eq!(db.locks.len(), 0);
}

#[test]
fn a_copy_made_at_the_time_of_the_last_change_is_fresh() {
    let mut db = online();
    let mut world = world();
    world.times = Ok((Some(ArchiveTimestamp::Exact(at(200))), at(200)));
    let got = drive(db.get_or_build_wheel(&Dist::Built(path_wheel())), &mut world);
    assert_eq!(got, Ok(unzipped(path_wheel(), "/cache/archive-v0/abc")));
}

#[test]
fn a_later_change_of_the_wheel_file_makes_the_copy_stale() {
    let mut db = online();
    let mut world = world();
    let dist = Dist::Built(path_wheel());
    let before = drive(db.get_or_build_wheel(&dist), &mut world);
    assert_eq!(before, Ok(unzipped(path_wheel(), "/cache/archive-v0/abc")));

    world.times = Ok((Some(ArchiveTimestamp::Exact(at(201))), at(200)));
    let after = drive(db.get_or_build_wheel(&dist), &mut world);
    assert_eq!(
        after,
        Ok(LocalWheel::Disk(DiskWheel {
            dist: Dist::Built(path_wheel()),
            filename: filename("foo"),
            path: text("/wheels/foo-1.0-py3-none-any.whl"),
            target: path_entry(),
        }))
    );
    assert!(world.requests.is_empty());
    assert_eq!(world.builds, 0);
}

#[test]
fn a_wheel_file_without_a_modification_time_is_unpacked_anew() {
    let mut db = online();
    let mut world = world();
    world.times = Ok((None, at(200)));
    let got = drive(db.get_or_build_wheel(&Dist::Built(path_wheel())), &mut world);
    assert!(matches!(got, Ok(LocalWheel::Disk(_))));
}

#[test]
fn a_wheel_that_was_never_unpacked_is_handed_out_as_a_file() {
    let mut db = online();
    let mut world = world();
    world.archive = Err(io(IoErrorKind::NotFound));
    let got = drive(db.get_or_build_wheel(&Dist::Built(path_wheel())), &mut world);
    assert_eq!(
        got,
        Ok(LocalWheel::Disk(DiskWheel {
            dist: Dist::Built(path_wheel()),
            filename: filename("foo"),
            path: text("/wheels/foo-1.0-py3-none-any.whl"),
            target: path_entry(),
        }))
    );
    assert_eq!(world.disk, 1);
}

#[test]
fn a_cache_that_cannot_be_read_fails_the_resolution() {
    let mut db = online();
    let mut world = world();
    world.archive = Err(io(IoErrorKind::Other));
    let got = drive(db.get_or_build_wheel(&Dist::Built(path_wheel())), &mut world);
    assert_eq!(got, Err(Error::CacheRead(io(IoErrorKind::Other))));

    let mut world = self::world();
    world.times = Err(io(IoErrorKind::Other));
    let got = drive(db.get_or_build_wheel(&Dist::Built(path_wheel())), &mut world);
    assert_eq!(got, Err(Error::CacheRead(io(IoErrorKind::Other))));

    let mut world = self::world();
    world.times = Err(io(IoErrorKind::NotFound));
    let got = drive(db.get_or_build_wheel(&Dist::Built(path_wheel())), &mut world);
    assert_eq!(got, Err(Error::CacheRead(io(IoErrorKind::NotFound))));
}

#[test]
fn a_mirror_on_disk_is_handled_like_a_wheel_on_this_machine() {
    let file = LocalFile::new(text("/mirror/foo-1.0-py3-none-any.whl")).unwrap();
    let dist = registry_wheel(FileLocation::Path(file));
    let db = online();
    let step = db.get_wheel(&dist);
    assert_eq!(
        step,
        WheelStep::Canonicalize(LocalProbe {
            dist: dist.clone(),
            path: text("/mirror/foo-1.0-py3-none-any.whl"),
            entry: CacheEntry::wheel(
                WheelCache::Url(text("file:///mirror/foo-1.0-py3-none-any.whl")),
                &filename("foo"),
            ),
        })
    );
    let mut world = world();
    assert_eq!(drive(step, &mut world), Ok(unzipped(dist, "/cache/archive-v0/abc")));
}

#[test]
fn locating_wheels() {
    assert_eq!(
        locate(&url_wheel()),
        Ok(Located::Remote {
            url: text("https://example.org/foo-1.0-py3-none-any.whl"),
            entry: CacheEntry::wheel(
                WheelCache::Url(text("https://example.org/foo-1.0-py3-none-any.whl")),
                &filename("foo"),
            ),
        })
    );
    assert_eq!(
        locate(&path_wheel()),
        Ok(Located::Local { path: text("/wheels/foo-1.0-py3-none-any.whl"), entry: path_entry() })
    );
    let index_entry = CacheEntry::wheel(
        WheelCache::Index(IndexUrl::Pypi(text("https://pypi.org/simple"))),
        &filename("foo"),
    );
    assert_eq!(
        locate(&registry_wheel(FileLocation::AbsoluteUrl(text(
            "HTTPS://Files.Example.org/a/../foo-1.0-py3-none-any.whl"
        )))),
        Ok(Located::Remote {
            url: text("https://files.example.org/foo-1.0-py3-none-any.whl"),
            entry: index_entry.clone(),
        })
    );
    assert_eq!(
        locate(&registry_wheel(FileLocation::RelativeUrl(
            text("https://pypi.org/simple/foo/"),
            text("../../packages/foo-1.0-py3-none-any.whl"),
        ))),
        Ok(Located::Remote {
            url: text("https://pypi.org/packages/foo-1.0-py3-none-any.whl"),
            entry: index_entry,
        })
    );
}

#[test]
fn a_url_that_does_not_parse_fails_before_anything_is_asked() {
    let db = online();
    let dist = registry_wheel(FileLocation::AbsoluteUrl(text("foo-1.0-py3-none-any.whl")));
    assert_eq!(
        db.get_wheel(&dist),
        WheelStep::Done(Err(Error::Url(
            text("foo-1.0-py3-none-any.whl"),
            url::ParseError::RelativeUrlWithoutBase,
        )))
    );
    let dist = registry_wheel(FileLocation::RelativeUrl(text("simple/foo/"), text("foo.whl")));
    match db.get_wheel(&dist) {
        WheelStep::Done(Err(err @ Error::JoinRelativeUrl(_))) => {
            assert_eq!(err.kind(), ErrorKind::Network);
            assert_eq!(err.message(), "Failed to parse URL: `simple/foo/`");
        }
        other => panic!("unexpected: {:?}", other),
    }
}

#[test]
fn no_binary_rejects_every_wheel_before_any_work() {
    let mut db = database(Connectivity::Online, NoBinary::All, NoBuild::Off);
    for dist in [
        path_wheel(),
        url_wheel(),
        registry_wheel(FileLocation::AbsoluteUrl(text("not a url"))),
    ] {
        let mut world = world();
        let step = db.get_or_build_wheel(&Dist::Built(dist));
        assert_eq!(step, WheelStep::Done(Err(Error::NoBinary)));
        let got = drive(step, &mut world);
        assert_eq!(got.as_ref().map_err(|err| err.kind()), Err(ErrorKind::PolicyRejection));
        assert_eq!(world.disk + world.cache + world.builds, 0);
        assert!(world.requests.is_empty());
    }
}

#[test]
fn no_binary_for_a_package_rejects_that_package_alone() {
    let db = database(Connectivity::Online, NoBinary::Packages(vec![name("foo")]), NoBuild::Off);
    assert_eq!(db.get_wheel(&url_wheel()), WheelStep::Done(Err(Error::NoBinary)));
    let other = BuiltDist::DirectUrl(DirectUrlBuiltDist {
        filename: filename("other"),
        url: text("https://example.org/other-1.0-py3-none-any.whl"),
    });
    assert!(matches!(db.get_wheel(&other), WheelStep::Freshness(_)));
}

#[test]
fn online_a_wheel_is_streamed_after_the_cache_was_asked() {
    let mut db = online();
    let mut world = world();
    world.freshness = Ok(Freshness::Stale);
    let got = drive(db.get_or_build_wheel(&Dist::Built(url_wheel())), &mut world);
    assert_eq!(got, Ok(unzipped(url_wheel(), "/cache/archive-v0/fetched")));
    assert_eq!(world.cache, 1);
    assert_eq!(world.requests, vec![(Strategy::Stream, CacheControl::MustRevalidate)]);
    assert_eq!(world.disk, 0);
}

#[test]
fn online_a_fresh_or_missing_entry_goes_by_the_headers() {
    for freshness in [Freshness::Fresh, Freshness::Missing] {
        let mut db = online();
        let mut world = world();
        world.freshness = Ok(freshness);
        drive(db.get_or_build_wheel(&Dist::Built(url_wheel())), &mut world).unwrap();
        assert_eq!(world.requests, vec![(Strategy::Stream, CacheControl::RespectHeaders)]);
    }
}

#[test]
fn a_cache_that_cannot_tell_freshness_fails_the_fetch() {
    let mut db = online();
    let mut world = world();
    world.freshness = Err(io(IoErrorKind::Other));
    let got = drive(db.get_or_build_wheel(&Dist::Built(url_wheel())), &mut world);
    assert_eq!(got, Err(Error::CacheRead(io(IoErrorKind::Other))));
    assert!(world.requests.is_empty());
}

#[test]
fn offline_a_stale_response_is_taken_without_asking() {
    let mut db = database(Connectivity::Offline, NoBinary::Off, NoBuild::Off);
    let mut world = world();
    world.freshness = Ok(Freshness::Stale);
    let got = drive(db.get_or_build_wheel(&Dist::Built(url_wheel())), &mut world);
    assert_eq!(got, Ok(unzipped(url_wheel(), "/cache/archive-v0/fetched")));
    assert_eq!(world.cache, 0);
    assert_eq!(world.requests, vec![(Strategy::Stream, CacheControl::AllowStale)]);
}

#[test]
fn offline_the_fallback_allows_stale_too() {
    let mut db = database(Connectivity::Offline, NoBinary::Off, NoBuild::Off);
    let mut world = world();
    world.can_stream = false;
    world.freshness = Err(io(IoErrorKind::Other));
    let got = drive(db.get_or_build_wheel(&Dist::Built(url_wheel())), &mut world);
    assert_eq!(got, Ok(unzipped(url_wheel(), "/cache/archive-v0/fetched")));
    assert_eq!(
        world.requests,
        vec![
            (Strategy::Stream, CacheControl::AllowStale),
            (Strategy::Buffered, CacheControl::AllowStale)
        ]
    );
    assert_eq!(world.cache, 0);
}

#[test]
fn a_remote_that_cannot_stream_is_fetched_buffered_with_the_same_result() {
    let dist = registry_wheel(FileLocation::AbsoluteUrl(text(
        "https://files.example.org/foo-1.0-py3-none-any.whl",
    )));
    let mut db = online();
    let mut streaming = world();
    let streamed = drive(db.get_or_build_wheel(&Dist::Built(dist.clone())), &mut streaming);

    let mut refusing = world();
    refusing.can_stream = false;
    let buffered = drive(db.get_or_build_wheel(&Dist::Built(dist.clone())), &mut refusing);

    assert_eq!(streamed, Ok(unzipped(dist, "/cache/archive-v0/fetched")));
    assert_eq!(buffered, streamed);
    assert_eq!(streaming.requests, vec![(Strategy::Stream, CacheControl::RespectHeaders)]);
    assert_eq!(
        refusing.requests,
        vec![
            (Strategy::Stream, CacheControl::RespectHeaders),
            (Strategy::Buffered, CacheControl::RespectHeaders)
        ]
    );
    assert_eq!(refusing.cache, 2);
}

fn download(strategy: Strategy) -> Download {
    Download {
        dist: url_wheel(),
        url: text("https://example.org/foo-1.0-py3-none-any.whl"),
        wheel_entry: CacheEntry::wheel(
            WheelCache::Url(text("https://example.org/foo-1.0-py3-none-any.whl")),
            &filename("foo"),
        ),
        strategy,
        connectivity: Connectivity::Online,
    }
}

#[test]
fn the_client_too_can_say_that_the_remote_cannot_stream() {
    let failure =
        FetchFailure::Client(ClientError { streaming_unsupported: true, message: text("ranges") });
    assert_eq!(
        download(Strategy::Stream).on_fetched(Err(failure)),
        WheelStep::Freshness(download(Strategy::Buffered))
    );
}

#[test]
fn the_buffered_fetch_is_not_begun_again() {
    let step = download(Strategy::Buffered).on_fetched(Err(streaming_unsupported()));
    assert_eq!(
        step,
        WheelStep::Done(Err(Error::Extract(ExtractError {
            streaming_unsupported: true,
            message: text("data descriptors"),
        })))
    );
}

#[test]
fn any_other_failure_of_a_fetch_is_handed_on() {
    let failures = vec![
        (
            FetchFailure::Client(ClientError { streaming_unsupported: false, message: text("404") }),
            Error::Client(ClientError { streaming_unsupported: false, message: text("404") }),
        ),
        (
            FetchFailure::Extract(ExtractError { streaming_unsupported: false, message: text("crc") }),
            Error::Extract(ExtractError { streaming_unsupported: false, message: text("crc") }),
        ),
        (
            FetchFailure::Request(ReqwestError { timeout: false, message: text("builder") }),
            Error::Reqwest(ReqwestError { timeout: false, message: text("builder") }),
        ),
        (FetchFailure::Io(Stage::TempDir, io(IoErrorKind::Other)), Error::CacheWrite(io(IoErrorKind::Other))),
        (FetchFailure::Io(Stage::Persist, io(IoErrorKind::Other)), Error::CacheRead(io(IoErrorKind::Other))),
    ];
    for (failure, error) in failures {
        assert_eq!(
            download(Strategy::Stream).on_fetched(Err(failure)),
            WheelStep::Done(Err(error))
        );
    }
}

#[test]
fn both_strategies_send_the_same_request() {
    let stream = download(Strategy::Stream);
    let buffered = download(Strategy::Buffered);
    assert_eq!(stream.request(), buffered.request());
    assert_eq!(
        stream.request(),
        Request {
            method: Method::Get,
            url: text("https://example.org/foo-1.0-py3-none-any.whl"),
            accept_encoding: Encoding::Identity,
        }
    );
    assert_eq!(
        stream.request().headers(),
        vec![(text("accept-encoding"), text("identity"))]
    );
    assert_eq!(stream.http_entry(), buffered.http_entry());
    assert_eq!(stream.http_entry().file, EntryFile::Http(filename("foo")));
    assert_eq!(stream.http_entry().file.name(), "foo-1.0-py3-none-any.http");
    assert_eq!(stream.package(), &name("foo"));
    assert_eq!(online().request(text("https://a/b")).url, "https://a/b");
}

#[test]
fn the_steps_of_the_two_strategies() {
    assert_eq!(Strategy::Stream.stages(), vec![Stage::TempDir, Stage::Unzip, Stage::Persist]);
    assert_eq!(
        Strategy::Buffered.stages(),
        vec![
            Stage::TempFile,
            Stage::Copy,
            Stage::TempDir,
            Stage::Rewind,
            Stage::Unzip,
            Stage::Persist
        ]
    );
}

#[test]
fn stream_and_download_begin_with_their_strategy() {
    let db = online();
    let entry = path_entry();
    assert_eq!(
        db.stream_wheel(text("https://a/b.whl"), entry.clone(), url_wheel()),
        WheelStep::Freshness(Download {
            dist: url_wheel(),
            url: text("https://a/b.whl"),
            wheel_entry: entry.clone(),
            strategy: Strategy::Stream,
            connectivity: Connectivity::Online,
        })
    );
    let db = database(Connectivity::Offline, NoBinary::Off, NoBuild::Off);
    assert_eq!(
        db.download_wheel(text("https://a/b.whl"), entry.clone(), url_wheel()),
        WheelStep::Fetch(
            Download {
                dist: url_wheel(),
                url: text("https://a/b.whl"),
                wheel_entry: entry,
                strategy: Strategy::Buffered,
                connectivity: Connectivity::Offline,
            },
            CacheControl::AllowStale
        )
    );
}

#[test]
fn a_source_distribution_is_built_under_its_lock() {
    let mut db = online();
    let mut world = world();
    let step = db.get_or_build_wheel(&Dist::Source(source()));
    assert_eq!(step, WheelStep::Lock(Queued { dist: source(), token: 0 }));
    assert_eq!(step.held(), None);
    let got = drive(step, &mut world);
    assert_eq!(
        got,
        Ok(LocalWheel::Built(BuiltWheel {
            dist: Dist::Source(source()),
            filename: filename("bar"),
            path: WheelPath::Exact(text("/cache/built/bar.whl")),
            target: WheelPath::Exact(text("/cache/built/bar")),
        }))
    );
    assert_eq!(world.locks, vec![0]);
    assert_eq!(world.builds, 1);
    assert_eq!(world.disk, 1);
}

#[test]
fn a_wheel_that_was_unpacked_before_is_used_as_it_is() {
    let mut db = online();
    let mut world = world();
    world.built_before = true;
    let got = drive(db.get_or_build_wheel(&Dist::Source(source())), &mut world);
    assert_eq!(
        got,
        Ok(LocalWheel::Unzipped(UnzippedWheel {
            dist: Dist::Source(source()),
            filename: filename("bar"),
            archive: text("/cache/archive-v0/bar"),
        }))
    );
}

#[test]
fn the_steps_of_a_build_hold_the_lock() {
    let queued = Queued { dist: source(), token: 3 };
    let step = queued.resume();
    assert_eq!(step, WheelStep::Build(Building { dist: source(), token: 3 }));
    assert_eq!(step.held(), Some(3));
    let built = BuiltWheelMetadata {
        path: text("/b/bar.whl"),
        target: text("/b/bar"),
        filename: filename("bar"),
    };
    let step = Building { dist: source(), token: 3 }.resume(Ok(BuiltWheelMetadata {
        path: text("/b/bar.whl"),
        target: text("/b/bar"),
        filename: filename("bar"),
    }));
    assert_eq!(step.held(), Some(3));
    assert_eq!(step, WheelStep::CanonicalizeTarget(BuiltProbe { dist: source(), token: 3, built }));
    let failed = Building { dist: source(), token: 3 }
        .resume(Err(Error::Build(text("bar"), text("exit status 1"))));
    assert_eq!(failed, WheelStep::Done(Err(Error::Build(text("bar"), text("exit status 1")))));
    assert_eq!(failed.held(), None);
}

#[test]
fn a_target_that_cannot_be_read_fails_the_build() {
    let probe = BuiltProbe {
        dist: source(),
        token: 0,
        built: BuiltWheelMetadata {
            path: text("/b/bar.whl"),
            target: text("/b/bar"),
            filename: filename("bar"),
        },
    };
    assert_eq!(
        probe.resume(Err(io(IoErrorKind::Other))),
        WheelStep::Done(Err(Error::CacheRead(io(IoErrorKind::Other))))
    );
}

#[test]
fn no_build_rejects_a_source_before_any_work() {
    let mut db = database(Connectivity::Online, NoBinary::Off, NoBuild::All);
    let step = db.get_or_build_wheel(&Dist::Source(source()));
    assert_eq!(step, WheelStep::Done(Err(Error::NoBuild)));
    assert_eq!(db.locks.len(), 0);
    let mut db = database(Connectivity::Online, NoBinary::Off, NoBuild::Packages(vec![name("bar")]));
    assert_eq!(db.build_wheel(&source()), WheelStep::Done(Err(Error::NoBuild)));
    let mut db = database(Connectivity::Online, NoBinary::Off, NoBuild::Packages(vec![name("foo")]));
    assert!(matches!(db.build_wheel(&source()), WheelStep::Lock(_)));
}

#[test]
fn all_who_ask_for_one_location_get_one_lock() {
    let mut db = online();
    let mut tokens = Vec::new();
    for _ in 0..5 {
        match db.get_or_build_wheel(&Dist::Source(source())) {
            WheelStep::Lock(queued) => tokens.push(queued.token),
            other => panic!("unexpected: {:?}", other),
        }
    }
    assert_eq!(tokens, vec![0, 0, 0, 0, 0]);
    assert_eq!(db.locks.len(), 1);

    let other = SourceDist::DirectUrl(DirectUrlSourceDist {
        name: name("bar"),
        url: text("https://example.org/bar-2.0.tar.gz"),
    });
    assert_eq!(db.build_wheel(&other), WheelStep::Lock(Queued { dist: other, token: 1 }));
    assert_eq!(db.build_wheel(&source()), WheelStep::Lock(Queued { dist: source(), token: 0 }));
    assert_eq!(db.locks.len(), 2);

    let renamed = SourceDist::DirectUrl(DirectUrlSourceDist {
        name: name("another-name"),
        url: text("https://example.org/bar-1.0.tar.gz"),
    });
    assert_eq!(db.locks.token_of(&renamed.resource_id()), Some(0));
    assert_eq!(
        db.locks.token_of(&SourceDist::DirectUrl(DirectUrlSourceDist {
            name: name("bar"),
            url: text("https://example.org/bar-3.0.tar.gz"),
        })
        .resource_id()),
        None
    );
}

#[test]
fn local_steps_by_hand() {
    let probe = LocalProbe {
        dist: path_wheel(),
        path: text("/wheels/foo-1.0-py3-none-any.whl"),
        entry: path_entry(),
    };
    let step = probe.resume(Ok(text("/cache/x")));
    assert_eq!(
        step,
        WheelStep::Timestamps(LocalCheck {
            dist: path_wheel(),
            path: text("/wheels/foo-1.0-py3-none-any.whl"),
            entry: path_entry(),
            archive: text("/cache/x"),
        })
    );
    assert_eq!(db_settings_of(&online()), (Connectivity::Online, 30));
}

fn db_settings_of(db: &DistributionDatabase) -> (Connectivity, u64) {
    (db.connectivity, db.timeout)
}

#[test]
fn the_database_keeps_its_settings() {
    let db = database(Connectivity::Offline, NoBinary::All, NoBuild::Packages(vec![name("x")]));
    assert_eq!(db.connectivity, Connectivity::Offline);
    assert_eq!(db.timeout, 30);
    assert_eq!(db.no_binary, NoBinary::All);
    assert_eq!(db.no_build, NoBuild::Packages(vec![name("x")]));
    assert_eq!(
        db.index_locations(),
        &IndexLocations {
            index: Some(IndexUrl::Pypi(text("https://pypi.org/simple"))),
            extra_index: Vec::new(),
            no_index: false,
        }
    );
    let err = db.handle_response_errors(ReqwestError { timeout: true, message: text("slow") });
    assert_eq!(err.kind, IoErrorKind::TimedOut);
    assert_eq!(
        err.message,
        "Failed to download distribution due to network timeout. Try increasing UV_HTTP_TIMEOUT (current value: 30s)."
    );
}
