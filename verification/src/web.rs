//! URLs, as far as the database reads them: parsing an absolute URL, and
//! joining a relative reference onto a base.

use vstd::prelude::*;

verus! {

/// The error type of the `url` crate's parser, carried as an opaque value.
#[verifier::external_type_specification]
#[verifier::external_body]
pub struct ExParseError(url::ParseError);

/// What `url::Url::parse` returns for `input`: the serialization of the parsed
/// URL, or the parser's error.
pub uninterp spec fn parsed_url(input: Seq<char>) -> Result<String, url::ParseError>;

/// What `url::Url::join` returns for `reference` on the URL that `base` parses
/// to: the serialization of the joined URL; the parser's error where `base`
/// is no absolute URL or `reference` cannot be resolved against it.
pub uninterp spec fn joined_url(base: Seq<char>, reference: Seq<char>) -> Result<
    String,
    url::ParseError,
>;

/// Calls `url::Url::parse` and hands back the serialization of the URL. The
/// parser is a function of its input alone; the contract names its result.
#[verifier::external_body]
pub(crate) fn parse_url(input: &str) -> (r: Result<String, url::ParseError>)
    ensures
        r == parsed_url(input@),
{
    url::Url::parse(input).map(String::from)
}

/// Calls `url::Url::join` on the URL that `base` parses to. The base is
/// handed over as text, and parsed again to have a `Url` to join onto.
#[verifier::external_body]
pub(crate) fn join_url(base: &str, reference: &str) -> (r: Result<String, url::ParseError>)
    ensures
        r == joined_url(base@, reference@),
{
    url::Url::parse(base)?.join(reference).map(String::from)
}

/// Calls `url::Url::from_file_path`. Whether a path has a `file` URL is
/// decided by the platform's notion of an absolute path, so nothing is
/// claimed of the result.
#[verifier::external_body]
pub(crate) fn file_url(path: &str) -> (r: Option<String>) {
    url::Url::from_file_path(path).ok().map(String::from)
}

/// Why a relative URL could not be joined onto its base.
#[derive(Debug, PartialEq, Eq)]
pub enum JoinRelativeError {
    /// The base is no absolute URL.
    Base { base: String, source: url::ParseError },
    /// The reference cannot be resolved against the base.
    Reference { base: String, reference: String, source: url::ParseError },
}

impl JoinRelativeError {
    /// The text that failed to parse: the base alone, or base and reference
    /// with a slash between them.
    pub open spec fn spec_original(self) -> Seq<char> {
        match self {
            JoinRelativeError::Base { base, .. } => base@,
            JoinRelativeError::Reference { base, reference, .. } => base@ + seq!['/'] + reference@,
        }
    }

    /// The text that failed to parse.
    pub fn original(&self) -> (text: String)
        ensures
            text@ == self.spec_original(),
    {
        match self {
            JoinRelativeError::Base { base, .. } => base.clone(),
            JoinRelativeError::Reference { base, reference, .. } => {
                proof {
                    reveal_strlit("/");
                    assert("/"@ =~= seq!['/']);
                }
                base.clone().concat("/").concat(reference.as_str())
            },
        }
    }
}

/// The URL that `reference` names relative to `base`, as a spec function of
/// the two named results.
pub open spec fn spec_base_url_join_relative(base: String, reference: String) -> Result<
    String,
    JoinRelativeError,
> {
    match parsed_url(base@) {
        Err(source) => Err(JoinRelativeError::Base { base, source }),
        Ok(absolute) => match joined_url(absolute@, reference@) {
            Ok(url) => Ok(url),
            Err(source) => Err(JoinRelativeError::Reference { base, reference, source }),
        },
    }
}

/// Joins a relative URL onto a base URL. Fails where the base is no absolute
/// URL, and where the reference cannot be resolved against it.
pub fn base_url_join_relative(base: &String, reference: &String) -> (r: Result<
    String,
    JoinRelativeError,
>)
    ensures
        r == spec_base_url_join_relative(*base, *reference),
{
    match parse_url(base.as_str()) {
        Err(source) => Err(JoinRelativeError::Base { base: base.clone(), source }),
        Ok(absolute) => match join_url(absolute.as_str(), reference.as_str()) {
            Ok(url) => Ok(url),
            Err(source) => Err(
                JoinRelativeError::Reference {
                    base: base.clone(),
                    reference: reference.clone(),
                    source,
                },
            ),
        },
    }
}

} // verus!
