//! Fetching a wheel from a URL into the cache: the request, the two ways of
//! getting from the bytes of the response to an unpacked directory, and what
//! a failure on the way becomes.

use vstd::prelude::*;
use crate::cache::{CacheControl, CacheEntry, Connectivity, EntryFile, Freshness};
use crate::dist::{BuiltDist, PackageName};
use crate::error::{ClientError, Error, ExtractError, IoError, IoErrorKind, ReqwestError};

verus! {

/// How the bytes of a response become an unpacked wheel.
#[derive(Debug, PartialEq, Eq, Clone, Copy, Structural)]
pub enum Strategy {
    /// Unpack the archive while it arrives.
    Stream,
    /// Write the archive to a temporary file, then unpack that file.
    Buffered,
}

/// One step on the way from the response to the cache.
#[derive(Debug, PartialEq, Eq, Clone, Copy, Structural)]
pub enum Stage {
    /// Create a temporary file below the root of the cache.
    TempFile,
    /// Copy the body of the response into the temporary file.
    Copy,
    /// Create a temporary directory below the root of the cache.
    TempDir,
    /// Go back to the start of the temporary file.
    Rewind,
    /// Unpack the archive into the temporary directory.
    Unzip,
    /// Move the temporary directory to its place in the cache.
    Persist,
}

impl Strategy {
    /// The steps of the strategy, in their order.
    pub open spec fn spec_stages(self) -> Seq<Stage> {
        match self {
            Strategy::Stream => seq![Stage::TempDir, Stage::Unzip, Stage::Persist],
            Strategy::Buffered => seq![
                Stage::TempFile,
                Stage::Copy,
                Stage::TempDir,
                Stage::Rewind,
                Stage::Unzip,
                Stage::Persist,
            ],
        }
    }

    /// The steps of the strategy, in their order.
    pub fn stages(&self) -> (r: Vec<Stage>)
        ensures
            r@ == self.spec_stages(),
    {
        let mut r: Vec<Stage> = Vec::new();
        match self {
            Strategy::Stream => {},
            Strategy::Buffered => {
                r.push(Stage::TempFile);
                r.push(Stage::Copy);
            },
        }
        r.push(Stage::TempDir);
        match self {
            Strategy::Stream => {},
            Strategy::Buffered => {
                r.push(Stage::Rewind);
            },
        }
        r.push(Stage::Unzip);
        r.push(Stage::Persist);
        assert(r@ =~= self.spec_stages());
        r
    }
}

/// Whichever the strategy, the archive is unpacked once, into a temporary
/// directory that was made before; moving that directory into the cache is
/// the last step, and the only one that touches the place of the wheel.
pub proof fn lemma_unpack_then_persist(strategy: Strategy)
    ensures
        ({
            let stages = strategy.spec_stages();
            let n = stages.len() as int;
            &&& n >= 3
            &&& stages[n - 1] == Stage::Persist
            &&& stages[n - 2] == Stage::Unzip
            &&& forall|i: int| 0 <= i < n - 1 ==> #[trigger] stages[i] != Stage::Persist
            &&& forall|i: int| 0 <= i < n - 2 ==> #[trigger] stages[i] != Stage::Unzip
            &&& exists|i: int| 0 <= i < n - 2 && #[trigger] stages[i] == Stage::TempDir
        }),
{
    let stages = strategy.spec_stages();
    match strategy {
        Strategy::Stream => {
            assert(stages[0] == Stage::TempDir);
        },
        Strategy::Buffered => {
            assert(stages[2] == Stage::TempDir);
        },
    }
}

/// The method of a request.
#[derive(Debug, PartialEq, Eq, Clone, Copy, Structural)]
pub enum Method {
    Get,
}

/// The encodings that a request accepts for the body of the response.
#[derive(Debug, PartialEq, Eq, Clone, Copy, Structural)]
pub enum Encoding {
    /// The bytes as they are, so that sizes and ranges mean what they say.
    Identity,
}

/// A request for a wheel.
#[derive(Debug, PartialEq, Eq)]
pub struct Request {
    pub method: Method,
    pub url: String,
    pub accept_encoding: Encoding,
}

impl Request {
    /// The headers of the request, each with its name and its value.
    pub open spec fn spec_headers(self) -> Seq<(Seq<char>, Seq<char>)> {
        seq![("accept-encoding"@, "identity"@)]
    }

    /// The headers of the request, each with its name and its value.
    pub fn headers(&self) -> (r: Vec<(String, String)>)
        ensures
            r@.len() == self.spec_headers().len(),
            forall|i: int|
                0 <= i < r@.len() ==> (#[trigger] r@[i]).0@ == self.spec_headers()[i].0 && r@[i].1@
                    == self.spec_headers()[i].1,
    {
        let mut r: Vec<(String, String)> = Vec::new();
        match self.accept_encoding {
            Encoding::Identity => {
                r.push((String::from_str("accept-encoding"), String::from_str("identity")));
            },
        }
        r
    }
}

/// What went wrong while a wheel was fetched.
#[derive(Debug, PartialEq, Eq)]
pub enum FetchFailure {
    /// The request could not be made.
    Request(ReqwestError),
    /// The client failed.
    Client(ClientError),
    /// The filesystem failed in one of the steps.
    Io(Stage, IoError),
    /// The archive could not be unpacked.
    Extract(ExtractError),
}

impl FetchFailure {
    /// The failure of the database that this is. A step that writes below
    /// the root of the cache fails as a write to the cache; moving the
    /// result to its place fails as a read.
    pub open spec fn spec_into_error(self) -> Error {
        match self {
            FetchFailure::Request(err) => Error::Reqwest(err),
            FetchFailure::Client(err) => Error::Client(err),
            FetchFailure::Extract(err) => Error::Extract(err),
            FetchFailure::Io(stage, err) => match stage {
                Stage::Persist => Error::CacheRead(err),
                Stage::Unzip => Error::Extract(
                    ExtractError { streaming_unsupported: false, message: err.message },
                ),
                _ => Error::CacheWrite(err),
            },
        }
    }

    /// The failure of the database that this is.
    pub fn into_error(self) -> (r: Error)
        ensures
            r == self.spec_into_error(),
    {
        match self {
            FetchFailure::Request(err) => Error::Reqwest(err),
            FetchFailure::Client(err) => Error::Client(err),
            FetchFailure::Extract(err) => Error::Extract(err),
            FetchFailure::Io(stage, err) => match stage {
                Stage::Persist => Error::CacheRead(err),
                Stage::Unzip => Error::Extract(
                    ExtractError { streaming_unsupported: false, message: err.message },
                ),
                _ => Error::CacheWrite(err),
            },
        }
    }
}

/// What the HTTP cache is told for a request: offline, to use what it
/// holds, however old; online, what follows from the freshness of the
/// entry.
pub open spec fn spec_cache_control(connectivity: Connectivity, freshness: Freshness) -> CacheControl {
    match connectivity {
        Connectivity::Online => CacheControl::spec_from(freshness),
        Connectivity::Offline => CacheControl::AllowStale,
    }
}

/// A wheel that is being fetched from a URL.
#[derive(Debug, PartialEq, Eq)]
pub struct Download {
    pub dist: BuiltDist,
    /// The URL of the wheel, parsed and written out again.
    pub url: String,
    /// The entry of the cache that the wheel is unpacked into.
    pub wheel_entry: CacheEntry,
    pub strategy: Strategy,
    pub connectivity: Connectivity,
}

impl Download {
    /// The request for the wheel: a GET that asks for the bytes as they
    /// are.
    pub open spec fn spec_request(self) -> Request {
        Request { method: Method::Get, url: self.url, accept_encoding: Encoding::Identity }
    }

    /// The request for the wheel.
    pub fn request(&self) -> (r: Request)
        ensures
            r == self.spec_request(),
    {
        Request { method: Method::Get, url: self.url.clone(), accept_encoding: Encoding::Identity }
    }

    /// The entry of the HTTP cache for the request: the entry beside that
    /// of the wheel.
    pub open spec fn spec_http_entry(self) -> CacheEntry {
        self.wheel_entry.spec_with_file(EntryFile::Http(self.dist.spec_filename()))
    }

    /// The entry of the HTTP cache for the request.
    pub fn http_entry(&self) -> (r: CacheEntry)
        ensures
            r == self.spec_http_entry(),
    {
        self.wheel_entry.with_file(EntryFile::Http(self.dist.filename().clone()))
    }

    /// The package whose freshness the cache is asked for.
    pub open spec fn spec_package(self) -> PackageName {
        self.dist.spec_name()
    }

    /// The package whose freshness the cache is asked for.
    pub fn package(&self) -> (r: &PackageName)
        ensures
            *r == self.spec_package(),
    {
        self.dist.name()
    }
}

/// The decimal digit for a number below ten.
pub open spec fn digit(d: nat) -> char {
    if d == 0 {
        '0'
    } else if d == 1 {
        '1'
    } else if d == 2 {
        '2'
    } else if d == 3 {
        '3'
    } else if d == 4 {
        '4'
    } else if d == 5 {
        '5'
    } else if d == 6 {
        '6'
    } else if d == 7 {
        '7'
    } else if d == 8 {
        '8'
    } else {
        '9'
    }
}

/// A number in decimal, without leading zeros.
pub open spec fn spec_decimal(n: nat) -> Seq<char>
    decreases n,
{
    if n < 10 {
        seq![digit(n)]
    } else {
        spec_decimal(n / 10).push(digit(n % 10))
    }
}

fn digit_str(d: u64) -> (s: &'static str)
    requires
        d < 10,
    ensures
        s@ == seq![digit(d as nat)],
{
    proof {
        reveal_strlit("0");
        reveal_strlit("1");
        reveal_strlit("2");
        reveal_strlit("3");
        reveal_strlit("4");
        reveal_strlit("5");
        reveal_strlit("6");
        reveal_strlit("7");
        reveal_strlit("8");
        reveal_strlit("9");
    }
    let s = if d == 0 {
        "0"
    } else if d == 1 {
        "1"
    } else if d == 2 {
        "2"
    } else if d == 3 {
        "3"
    } else if d == 4 {
        "4"
    } else if d == 5 {
        "5"
    } else if d == 6 {
        "6"
    } else if d == 7 {
        "7"
    } else if d == 8 {
        "8"
    } else {
        "9"
    };
    assert(s@ =~= seq![digit(d as nat)]);
    s
}

/// A number in decimal, without leading zeros.
pub fn decimal(n: u64) -> (text: String)
    ensures
        text@ == spec_decimal(n as nat),
{
    let mut text = String::from_str(digit_str(n % 10));
    let mut rest: u64 = n / 10;
    while rest > 0
        invariant
            spec_decimal(n as nat) == if rest == 0 {
                text@
            } else {
                spec_decimal(rest as nat) + text@
            },
        decreases rest,
    {
        let head = String::from_str(digit_str(rest % 10));
        proof {
            let d = digit((rest % 10) as nat);
            if rest >= 10 {
                assert(spec_decimal((rest / 10) as nat).push(d) + text@ =~= spec_decimal(
                    (rest / 10) as nat,
                ) + (seq![d] + text@));
            }
        }
        text = head.concat(text.as_str());
        rest = rest / 10;
    }
    text
}

/// What a timeout of the network says of itself, with the timeout in
/// seconds that was in force.
pub open spec fn spec_timeout_message(timeout: u64) -> Seq<char> {
    "Failed to download distribution due to network timeout. Try increasing UV_HTTP_TIMEOUT (current value: "@
        + spec_decimal(timeout as nat) + "s)."@
}

/// The I/O failure that a failure of the response's body becomes: a
/// timeout is told apart and says how to go on; anything else keeps its
/// message.
pub open spec fn spec_response_error(timeout: u64, err: ReqwestError, r: IoError) -> bool {
    if err.timeout {
        r.kind == IoErrorKind::TimedOut && r.message@ == spec_timeout_message(timeout)
    } else {
        r.kind == IoErrorKind::Other && r.message == err.message
    }
}

/// The I/O failure that a failure of the response's body becomes, where
/// requests time out after `timeout` seconds.
pub fn response_error(timeout: u64, err: ReqwestError) -> (r: IoError)
    ensures
        spec_response_error(timeout, err, r),
{
    if err.timeout {
        let message = String::from_str(
            "Failed to download distribution due to network timeout. Try increasing UV_HTTP_TIMEOUT (current value: ",
        ).concat(decimal(timeout).as_str()).concat("s).");
        IoError { kind: IoErrorKind::TimedOut, message }
    } else {
        IoError { kind: IoErrorKind::Other, message: err.message }
    }
}

} // verus!
