//! Every way in which the database can fail, and what kind of failure each
//! one is.

use vstd::prelude::*;
use crate::dist::PackageName;
use crate::web::JoinRelativeError;

verus! {

/// What kind of I/O failure the filesystem reported, as far as the database
/// tells kinds apart.
#[derive(Debug, PartialEq, Eq, Clone, Copy, Structural)]
pub enum IoErrorKind {
    NotFound,
    TimedOut,
    Other,
}

/// A failure of the filesystem or of a stream.
#[derive(Debug, PartialEq, Eq)]
pub struct IoError {
    pub kind: IoErrorKind,
    pub message: String,
}

/// A failure of the HTTP client before or while it talked to a server.
#[derive(Debug, PartialEq, Eq)]
pub struct ReqwestError {
    /// Whether the request ran into its timeout.
    pub timeout: bool,
    pub message: String,
}

/// A failure of the request pipeline: of one of its layers, or of the
/// client below them.
#[derive(Debug, PartialEq, Eq)]
pub enum MiddlewareError {
    Middleware(String),
    Reqwest(ReqwestError),
}

/// A failure of the registry client.
#[derive(Debug, PartialEq, Eq)]
pub struct ClientError {
    /// Whether the server cannot serve the ranges that streaming asks for.
    pub streaming_unsupported: bool,
    pub message: String,
}

/// A failure to unpack an archive.
#[derive(Debug, PartialEq, Eq)]
pub struct ExtractError {
    /// Whether the archive uses a feature that cannot be unpacked while it
    /// is still arriving.
    pub streaming_unsupported: bool,
    pub message: String,
}

/// The failures of the database. A second text, where a variant has one, is
/// the message of the cause.
#[derive(Debug, PartialEq, Eq)]
pub enum Error {
    NoBuild,
    NoBinary,
    // Network
    Url(String, url::ParseError),
    JoinRelativeUrl(JoinRelativeError),
    Git(String),
    Reqwest(ReqwestError),
    Client(ClientError),
    // Cache
    CacheRead(IoError),
    CacheWrite(IoError),
    CacheDecode(String),
    CacheEncode(String),
    // Build
    Build(String, String),
    BuildEditable(String, String),
    WheelFilename(String),
    NameMismatch { given: PackageName, metadata: PackageName },
    Metadata(String),
    DistInfo(String),
    Zip(String),
    DirWithoutEntrypoint,
    Extract(ExtractError),
    NotFound(String),
    MissingPkgInfo,
    DynamicPkgInfo(String),
    MissingPyprojectToml,
    DynamicPyprojectToml(String),
    UnsupportedScheme(String),
    /// A layer of the request pipeline failed.
    ReqwestMiddlewareError(String),
    /// Another task panicked.
    Join(String),
}

/// The kinds of failure. Only a capability fallback is handled by the
/// database itself; every other kind goes to the caller as it is.
#[derive(Debug, PartialEq, Eq, Clone, Copy, Structural)]
pub enum ErrorKind {
    /// A policy forbids the operation. Trying again cannot help.
    PolicyRejection,
    /// The network, or a URL that was to be fetched.
    Network,
    /// The cache could not be read, written, decoded or encoded.
    CacheIo,
    /// The build backend produced no wheel.
    Build,
    /// A filename, a metadata document or an archive is malformed.
    Format,
    /// The remote cannot stream: the one failure that is answered by
    /// another strategy.
    CapabilityFallback,
    /// A task of the executor failed.
    Executor,
}

impl Error {
    /// The kind of the failure.
    pub open spec fn spec_kind(self) -> ErrorKind {
        match self {
            Error::NoBuild | Error::NoBinary => ErrorKind::PolicyRejection,
            Error::Client(err) => if err.streaming_unsupported {
                ErrorKind::CapabilityFallback
            } else {
                ErrorKind::Network
            },
            Error::Extract(err) => if err.streaming_unsupported {
                ErrorKind::CapabilityFallback
            } else {
                ErrorKind::Format
            },
            Error::Url(_, _) | Error::JoinRelativeUrl(_) | Error::Git(_) | Error::Reqwest(_)
            | Error::ReqwestMiddlewareError(_) => ErrorKind::Network,
            Error::CacheRead(_) | Error::CacheWrite(_) | Error::CacheDecode(_)
            | Error::CacheEncode(_) => ErrorKind::CacheIo,
            Error::Build(_, _) | Error::BuildEditable(_, _) | Error::NameMismatch { .. }
            | Error::DirWithoutEntrypoint | Error::NotFound(_) | Error::MissingPkgInfo
            | Error::DynamicPkgInfo(_) | Error::MissingPyprojectToml
            | Error::DynamicPyprojectToml(_) => ErrorKind::Build,
            Error::WheelFilename(_) | Error::Metadata(_) | Error::DistInfo(_) | Error::Zip(_)
            | Error::UnsupportedScheme(_) => ErrorKind::Format,
            Error::Join(_) => ErrorKind::Executor,
        }
    }

    /// The kind of the failure.
    pub fn kind(&self) -> (r: ErrorKind)
        ensures
            r == self.spec_kind(),
    {
        match self {
            Error::NoBuild | Error::NoBinary => ErrorKind::PolicyRejection,
            Error::Client(err) => if err.streaming_unsupported {
                ErrorKind::CapabilityFallback
            } else {
                ErrorKind::Network
            },
            Error::Extract(err) => if err.streaming_unsupported {
                ErrorKind::CapabilityFallback
            } else {
                ErrorKind::Format
            },
            Error::Url(_, _) | Error::JoinRelativeUrl(_) | Error::Git(_) | Error::Reqwest(_)
            | Error::ReqwestMiddlewareError(_) => ErrorKind::Network,
            Error::CacheRead(_) | Error::CacheWrite(_) | Error::CacheDecode(_)
            | Error::CacheEncode(_) => ErrorKind::CacheIo,
            Error::Build(_, _) | Error::BuildEditable(_, _) | Error::NameMismatch { .. }
            | Error::DirWithoutEntrypoint | Error::NotFound(_) | Error::MissingPkgInfo
            | Error::DynamicPkgInfo(_) | Error::MissingPyprojectToml
            | Error::DynamicPyprojectToml(_) => ErrorKind::Build,
            Error::WheelFilename(_) | Error::Metadata(_) | Error::DistInfo(_) | Error::Zip(_)
            | Error::UnsupportedScheme(_) => ErrorKind::Format,
            Error::Join(_) => ErrorKind::Executor,
        }
    }

    /// Whether the failure says that the remote cannot stream.
    pub open spec fn spec_is_http_streaming_unsupported(self) -> bool {
        self.spec_kind() == ErrorKind::CapabilityFallback
    }

    /// Whether the failure says that the remote cannot stream.
    pub fn is_http_streaming_unsupported(&self) -> (r: bool)
        ensures
            r == self.spec_is_http_streaming_unsupported(),
    {
        match self {
            Error::Client(err) => err.streaming_unsupported,
            Error::Extract(err) => err.streaming_unsupported,
            _ => false,
        }
    }

    /// Whether the failure is a timeout of the network: of a request, or of
    /// a stream that was being read into the cache.
    pub open spec fn spec_is_timeout(self) -> bool {
        match self {
            Error::Reqwest(err) => err.timeout,
            Error::CacheRead(err) => err.kind == IoErrorKind::TimedOut,
            Error::CacheWrite(err) => err.kind == IoErrorKind::TimedOut,
            _ => false,
        }
    }

    /// Whether the failure is a timeout of the network.
    pub fn is_timeout(&self) -> (r: bool)
        ensures
            r == self.spec_is_timeout(),
    {
        match self {
            Error::Reqwest(err) => err.timeout,
            Error::CacheRead(err) => matches!(err.kind, IoErrorKind::TimedOut),
            Error::CacheWrite(err) => matches!(err.kind, IoErrorKind::TimedOut),
            _ => false,
        }
    }

    /// What the failure says of itself.
    pub open spec fn spec_message(self) -> Seq<char> {
        match self {
            Error::NoBuild => "Building source distributions is disabled"@,
            Error::NoBinary => "Using pre-built wheels is disabled"@,
            Error::Url(url, _) => "Failed to parse URL: `"@ + url@ + "`"@,
            Error::JoinRelativeUrl(err) => "Failed to parse URL: `"@ + err.spec_original() + "`"@,
            Error::Git(_) => "Git operation failed"@,
            Error::Reqwest(err) => err.message@,
            Error::Client(err) => err.message@,
            Error::CacheRead(_) => "Failed to read from the distribution cache"@,
            Error::CacheWrite(_) => "Failed to write to the distribution cache"@,
            Error::CacheDecode(_) => "Failed to deserialize cache entry"@,
            Error::CacheEncode(_) => "Failed to serialize cache entry"@,
            Error::Build(what, _) => "Failed to build: "@ + what@,
            Error::BuildEditable(what, _) => "Failed to build editable: "@ + what@,
            Error::WheelFilename(_) => "Built wheel has an invalid filename"@,
            Error::NameMismatch { given, metadata } => "Package metadata name `"@ + metadata@
                + "` does not match given name `"@ + given@ + "`"@,
            Error::Metadata(_) => "Failed to parse metadata from built wheel"@,
            Error::DistInfo(_) => "Failed to read `dist-info` metadata from built wheel"@,
            Error::Zip(_) => "Failed to read zip archive from built wheel"@,
            Error::DirWithoutEntrypoint =>
                "Source distribution directory contains neither readable pyproject.toml nor setup.py"@,
            Error::Extract(_) => "Failed to extract archive"@,
            Error::NotFound(path) => "Source distribution not found at: "@ + path@,
            Error::MissingPkgInfo => "The source distribution is missing a `PKG-INFO` file"@,
            Error::DynamicPkgInfo(_) =>
                "The source distribution does not support static metadata in `PKG-INFO`"@,
            Error::MissingPyprojectToml =>
                "The source distribution is missing a `pyproject.toml` file"@,
            Error::DynamicPyprojectToml(_) =>
                "The source distribution does not support static metadata in `pyproject.toml`"@,
            Error::UnsupportedScheme(scheme) => "Unsupported scheme in URL: "@ + scheme@,
            Error::ReqwestMiddlewareError(message) => message@,
            Error::Join(_) => "The task executor is broken, did some other task panic?"@,
        }
    }

    /// What the failure says of itself.
    pub fn message(&self) -> (text: String)
        ensures
            text@ == self.spec_message(),
    {
        match self {
            Error::NoBuild => String::from_str("Building source distributions is disabled"),
            Error::NoBinary => String::from_str("Using pre-built wheels is disabled"),
            Error::Url(url, _) => String::from_str("Failed to parse URL: `").concat(
                url.as_str(),
            ).concat("`"),
            Error::JoinRelativeUrl(err) => {
                let original = err.original();
                String::from_str("Failed to parse URL: `").concat(original.as_str()).concat("`")
            },
            Error::Git(_) => String::from_str("Git operation failed"),
            Error::Reqwest(err) => err.message.clone(),
            Error::Client(err) => err.message.clone(),
            Error::CacheRead(_) => String::from_str("Failed to read from the distribution cache"),
            Error::CacheWrite(_) => String::from_str("Failed to write to the distribution cache"),
            Error::CacheDecode(_) => String::from_str("Failed to deserialize cache entry"),
            Error::CacheEncode(_) => String::from_str("Failed to serialize cache entry"),
            Error::Build(what, _) => String::from_str("Failed to build: ").concat(what.as_str()),
            Error::BuildEditable(what, _) => String::from_str("Failed to build editable: ").concat(
                what.as_str(),
            ),
            Error::WheelFilename(_) => String::from_str("Built wheel has an invalid filename"),
            Error::NameMismatch { given, metadata } => String::from_str(
                "Package metadata name `",
            ).concat(metadata.name.as_str()).concat("` does not match given name `").concat(
                given.name.as_str(),
            ).concat("`"),
            Error::Metadata(_) => String::from_str("Failed to parse metadata from built wheel"),
            Error::DistInfo(_) => String::from_str(
                "Failed to read `dist-info` metadata from built wheel",
            ),
            Error::Zip(_) => String::from_str("Failed to read zip archive from built wheel"),
            Error::DirWithoutEntrypoint => String::from_str(
                "Source distribution directory contains neither readable pyproject.toml nor setup.py",
            ),
            Error::Extract(_) => String::from_str("Failed to extract archive"),
            Error::NotFound(path) => String::from_str("Source distribution not found at: ").concat(
                path.as_str(),
            ),
            Error::MissingPkgInfo => String::from_str(
                "The source distribution is missing a `PKG-INFO` file",
            ),
            Error::DynamicPkgInfo(_) => String::from_str(
                "The source distribution does not support static metadata in `PKG-INFO`",
            ),
            Error::MissingPyprojectToml => String::from_str(
                "The source distribution is missing a `pyproject.toml` file",
            ),
            Error::DynamicPyprojectToml(_) => String::from_str(
                "The source distribution does not support static metadata in `pyproject.toml`",
            ),
            Error::UnsupportedScheme(scheme) => String::from_str(
                "Unsupported scheme in URL: ",
            ).concat(scheme.as_str()),
            Error::ReqwestMiddlewareError(message) => message.clone(),
            Error::Join(_) => String::from_str(
                "The task executor is broken, did some other task panic?",
            ),
        }
    }
}

impl From<ReqwestError> for Error {
    fn from(error: ReqwestError) -> (r: Self) {
        Error::Reqwest(error)
    }
}

impl vstd::std_specs::convert::FromSpecImpl<ReqwestError> for Error {
    open spec fn obeys_from_spec() -> bool {
        true
    }

    open spec fn from_spec(error: ReqwestError) -> Self {
        Error::Reqwest(error)
    }
}

impl From<MiddlewareError> for Error {
    fn from(error: MiddlewareError) -> (r: Self) {
        match error {
            MiddlewareError::Middleware(message) => Error::ReqwestMiddlewareError(message),
            MiddlewareError::Reqwest(error) => Error::Reqwest(error),
        }
    }
}

impl vstd::std_specs::convert::FromSpecImpl<MiddlewareError> for Error {
    open spec fn obeys_from_spec() -> bool {
        true
    }

    /// A failure of a layer keeps its message; a failure of the client is
    /// the same failure as if the client had been called directly.
    open spec fn from_spec(error: MiddlewareError) -> Self {
        match error {
            MiddlewareError::Middleware(message) => Error::ReqwestMiddlewareError(message),
            MiddlewareError::Reqwest(error) => Error::Reqwest(error),
        }
    }
}

} // verus!
