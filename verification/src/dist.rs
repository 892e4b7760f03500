//! Distributions: a package name, a parsed filename and the location the
//! package was resolved to.

use vstd::prelude::*;
use crate::web::file_url;

verus! {

/// The normalized name of a package.
#[derive(Debug, PartialEq, Eq)]
pub struct PackageName {
    pub name: String,
}

impl View for PackageName {
    type V = Seq<char>;

    open spec fn view(&self) -> Seq<char> {
        self.name@
    }
}

impl Clone for PackageName {
    fn clone(&self) -> (r: Self)
        ensures
            r == *self,
    {
        PackageName { name: self.name.clone() }
    }
}

impl PackageName {
    pub fn new(name: String) -> (r: Self)
        ensures
            r.name == name,
    {
        PackageName { name }
    }

    /// Whether two names spell the same package.
    pub fn same(&self, other: &PackageName) -> (r: bool)
        ensures
            r == (self@ == other@),
    {
        self.name == other.name
    }
}

/// Whether one of `packages` spells `name`.
pub open spec fn names_contain(packages: Seq<PackageName>, name: Seq<char>) -> bool {
    exists|i: int| 0 <= i < packages.len() && (#[trigger] packages[i])@ == name
}

/// Whether one of `packages` spells the name of `package`.
pub fn contains_name(packages: &Vec<PackageName>, package: &PackageName) -> (r: bool)
    ensures
        r == names_contain(packages@, package@),
{
    let mut i: usize = 0;
    while i < packages.len()
        invariant
            i <= packages.len(),
            forall|j: int| 0 <= j < i ==> (#[trigger] packages@[j])@ != package@,
        decreases packages.len() - i,
    {
        if packages[i].same(package) {
            return true;
        }
        i = i + 1;
    }
    false
}

/// The parsed name of a wheel file. Each tag field holds the tags of its
/// kind as the filename spells them, joined by dots.
#[derive(Debug, PartialEq, Eq)]
pub struct WheelFilename {
    pub name: PackageName,
    pub version: String,
    pub python_tag: String,
    pub abi_tag: String,
    pub platform_tag: String,
}

impl Clone for WheelFilename {
    fn clone(&self) -> (r: Self)
        ensures
            r == *self,
    {
        WheelFilename {
            name: self.name.clone(),
            version: self.version.clone(),
            python_tag: self.python_tag.clone(),
            abi_tag: self.abi_tag.clone(),
            platform_tag: self.platform_tag.clone(),
        }
    }
}

impl WheelFilename {
    /// The filename without its extension: name, version and the three tags,
    /// joined by hyphens.
    pub open spec fn spec_stem(self) -> Seq<char> {
        self.name@ + seq!['-'] + self.version@ + seq!['-'] + self.python_tag@ + seq!['-']
            + self.abi_tag@ + seq!['-'] + self.platform_tag@
    }

    /// The filename without its extension.
    pub fn stem(&self) -> (text: String)
        ensures
            text@ == self.spec_stem(),
    {
        proof {
            reveal_strlit("-");
            assert("-"@ =~= seq!['-']);
        }
        self.name.name.clone().concat("-").concat(self.version.as_str()).concat("-").concat(
            self.python_tag.as_str(),
        ).concat("-").concat(self.abi_tag.as_str()).concat("-").concat(self.platform_tag.as_str())
    }
}

/// A file on this machine, known by its path and by the `file` URL of that
/// path.
#[derive(Debug, PartialEq, Eq)]
pub struct LocalFile {
    pub path: String,
    pub url: String,
}

impl Clone for LocalFile {
    fn clone(&self) -> (r: Self)
        ensures
            r == *self,
    {
        LocalFile { path: self.path.clone(), url: self.url.clone() }
    }
}

impl LocalFile {
    /// The file at `path`, where the path has the URL `url`; nothing where it
    /// has none.
    pub fn from_parts(path: String, url: Option<String>) -> (r: Option<LocalFile>)
        ensures
            r == match url {
                Some(url) => Some(LocalFile { path, url }),
                None => None,
            },
    {
        match url {
            Some(url) => Some(LocalFile { path, url }),
            None => None,
        }
    }

    /// The file at `path`. A path has a `file` URL only if it is absolute:
    /// for any other path there is no such file.
    pub fn new(path: String) -> (r: Option<LocalFile>)
        ensures
            r matches Some(file) ==> file.path == path,
    {
        let url = file_url(path.as_str());
        LocalFile::from_parts(path, url)
    }
}

/// The index a registry distribution was found in.
#[derive(Debug, PartialEq, Eq)]
pub enum IndexUrl {
    Pypi(String),
    Url(String),
}

impl Clone for IndexUrl {
    fn clone(&self) -> (r: Self)
        ensures
            r == *self,
    {
        match self {
            IndexUrl::Pypi(url) => IndexUrl::Pypi(url.clone()),
            IndexUrl::Url(url) => IndexUrl::Url(url.clone()),
        }
    }
}

/// Where a file of a registry lives.
#[derive(Debug, PartialEq, Eq)]
pub enum FileLocation {
    /// A URL relative to a base: the base first, then the reference.
    RelativeUrl(String, String),
    /// An absolute URL, not parsed yet.
    AbsoluteUrl(String),
    /// A file on this machine, as a mirror on disk offers it.
    Path(LocalFile),
}

impl Clone for FileLocation {
    fn clone(&self) -> (r: Self)
        ensures
            r == *self,
    {
        match self {
            FileLocation::RelativeUrl(base, url) => FileLocation::RelativeUrl(
                base.clone(),
                url.clone(),
            ),
            FileLocation::AbsoluteUrl(url) => FileLocation::AbsoluteUrl(url.clone()),
            FileLocation::Path(file) => FileLocation::Path(file.clone()),
        }
    }
}

/// A wheel that a registry offers.
#[derive(Debug, PartialEq, Eq)]
pub struct RegistryBuiltDist {
    pub filename: WheelFilename,
    pub file: FileLocation,
    pub index: IndexUrl,
}

/// A wheel behind a URL.
#[derive(Debug, PartialEq, Eq)]
pub struct DirectUrlBuiltDist {
    pub filename: WheelFilename,
    pub url: String,
}

/// A wheel on this machine.
#[derive(Debug, PartialEq, Eq)]
pub struct PathBuiltDist {
    pub filename: WheelFilename,
    pub url: String,
    pub path: String,
}

/// A distribution that is a wheel already.
#[derive(Debug, PartialEq, Eq)]
pub enum BuiltDist {
    Registry(RegistryBuiltDist),
    DirectUrl(DirectUrlBuiltDist),
    Path(PathBuiltDist),
}

impl Clone for BuiltDist {
    fn clone(&self) -> (r: Self)
        ensures
            r == *self,
    {
        match self {
            BuiltDist::Registry(wheel) => BuiltDist::Registry(
                RegistryBuiltDist {
                    filename: wheel.filename.clone(),
                    file: wheel.file.clone(),
                    index: wheel.index.clone(),
                },
            ),
            BuiltDist::DirectUrl(wheel) => BuiltDist::DirectUrl(
                DirectUrlBuiltDist { filename: wheel.filename.clone(), url: wheel.url.clone() },
            ),
            BuiltDist::Path(wheel) => BuiltDist::Path(
                PathBuiltDist {
                    filename: wheel.filename.clone(),
                    url: wheel.url.clone(),
                    path: wheel.path.clone(),
                },
            ),
        }
    }
}

impl BuiltDist {
    /// The parsed filename of the wheel.
    pub open spec fn spec_filename(self) -> WheelFilename {
        match self {
            BuiltDist::Registry(wheel) => wheel.filename,
            BuiltDist::DirectUrl(wheel) => wheel.filename,
            BuiltDist::Path(wheel) => wheel.filename,
        }
    }

    /// The parsed filename of the wheel.
    pub fn filename(&self) -> (r: &WheelFilename)
        ensures
            *r == self.spec_filename(),
    {
        match self {
            BuiltDist::Registry(wheel) => &wheel.filename,
            BuiltDist::DirectUrl(wheel) => &wheel.filename,
            BuiltDist::Path(wheel) => &wheel.filename,
        }
    }

    /// The name of the package.
    pub open spec fn spec_name(self) -> PackageName {
        self.spec_filename().name
    }

    /// The name of the package.
    pub fn name(&self) -> (r: &PackageName)
        ensures
            *r == self.spec_name(),
    {
        &self.filename().name
    }
}

/// A source distribution that a registry offers.
#[derive(Debug, PartialEq, Eq)]
pub struct RegistrySourceDist {
    pub name: PackageName,
    pub file: FileLocation,
    pub index: IndexUrl,
}

/// A source distribution behind a URL.
#[derive(Debug, PartialEq, Eq)]
pub struct DirectUrlSourceDist {
    pub name: PackageName,
    pub url: String,
}

/// A source tree in a repository under version control.
#[derive(Debug, PartialEq, Eq)]
pub struct GitSourceDist {
    pub name: PackageName,
    pub url: String,
}

/// A source distribution on this machine.
#[derive(Debug, PartialEq, Eq)]
pub struct PathSourceDist {
    pub name: PackageName,
    pub url: String,
    pub path: String,
}

/// A distribution that has to be built into a wheel.
#[derive(Debug, PartialEq, Eq)]
pub enum SourceDist {
    Registry(RegistrySourceDist),
    DirectUrl(DirectUrlSourceDist),
    Git(GitSourceDist),
    Path(PathSourceDist),
}

impl Clone for SourceDist {
    fn clone(&self) -> (r: Self)
        ensures
            r == *self,
    {
        match self {
            SourceDist::Registry(sdist) => SourceDist::Registry(
                RegistrySourceDist {
                    name: sdist.name.clone(),
                    file: sdist.file.clone(),
                    index: sdist.index.clone(),
                },
            ),
            SourceDist::DirectUrl(sdist) => SourceDist::DirectUrl(
                DirectUrlSourceDist { name: sdist.name.clone(), url: sdist.url.clone() },
            ),
            SourceDist::Git(sdist) => SourceDist::Git(
                GitSourceDist { name: sdist.name.clone(), url: sdist.url.clone() },
            ),
            SourceDist::Path(sdist) => SourceDist::Path(
                PathSourceDist {
                    name: sdist.name.clone(),
                    url: sdist.url.clone(),
                    path: sdist.path.clone(),
                },
            ),
        }
    }
}

/// What a lock is taken on: the location a source was resolved to. Two
/// descriptions of one location share their lock, whatever the packages are
/// called.
#[derive(Debug, PartialEq, Eq)]
pub enum ResourceId {
    /// A URL relative to a base: the base first, then the reference.
    Relative(String, String),
    Url(String),
    Path(String),
}

/// A resource identity as plain text.
pub enum ResourceIdView {
    Relative(Seq<char>, Seq<char>),
    Url(Seq<char>),
    Path(Seq<char>),
}

impl View for ResourceId {
    type V = ResourceIdView;

    open spec fn view(&self) -> ResourceIdView {
        match *self {
            ResourceId::Relative(base, url) => ResourceIdView::Relative(base@, url@),
            ResourceId::Url(url) => ResourceIdView::Url(url@),
            ResourceId::Path(path) => ResourceIdView::Path(path@),
        }
    }
}

impl ResourceId {
    /// Whether two identities name one location.
    pub fn same(&self, other: &ResourceId) -> (r: bool)
        ensures
            r == (self@ == other@),
    {
        match (self, other) {
            (ResourceId::Relative(a, b), ResourceId::Relative(c, d)) => *a == *c && *b == *d,
            (ResourceId::Url(a), ResourceId::Url(b)) => *a == *b,
            (ResourceId::Path(a), ResourceId::Path(b)) => *a == *b,
            _ => false,
        }
    }
}

impl FileLocation {
    /// The identity of the location.
    pub open spec fn spec_resource_id(self) -> ResourceId {
        match self {
            FileLocation::RelativeUrl(base, url) => ResourceId::Relative(base, url),
            FileLocation::AbsoluteUrl(url) => ResourceId::Url(url),
            FileLocation::Path(file) => ResourceId::Path(file.path),
        }
    }

    /// The identity of the location.
    pub fn resource_id(&self) -> (r: ResourceId)
        ensures
            r == self.spec_resource_id(),
    {
        match self {
            FileLocation::RelativeUrl(base, url) => ResourceId::Relative(base.clone(), url.clone()),
            FileLocation::AbsoluteUrl(url) => ResourceId::Url(url.clone()),
            FileLocation::Path(file) => ResourceId::Path(file.path.clone()),
        }
    }
}

impl SourceDist {
    /// The name of the package.
    pub open spec fn spec_name(self) -> PackageName {
        match self {
            SourceDist::Registry(sdist) => sdist.name,
            SourceDist::DirectUrl(sdist) => sdist.name,
            SourceDist::Git(sdist) => sdist.name,
            SourceDist::Path(sdist) => sdist.name,
        }
    }

    /// The name of the package.
    pub fn name(&self) -> (r: &PackageName)
        ensures
            *r == self.spec_name(),
    {
        match self {
            SourceDist::Registry(sdist) => &sdist.name,
            SourceDist::DirectUrl(sdist) => &sdist.name,
            SourceDist::Git(sdist) => &sdist.name,
            SourceDist::Path(sdist) => &sdist.name,
        }
    }

    /// The identity of the location the source was resolved to. The name of
    /// the package is no part of it.
    pub open spec fn spec_resource_id(self) -> ResourceId {
        match self {
            SourceDist::Registry(sdist) => sdist.file.spec_resource_id(),
            SourceDist::DirectUrl(sdist) => ResourceId::Url(sdist.url),
            SourceDist::Git(sdist) => ResourceId::Url(sdist.url),
            SourceDist::Path(sdist) => ResourceId::Path(sdist.path),
        }
    }

    /// The identity of the location the source was resolved to.
    pub fn resource_id(&self) -> (r: ResourceId)
        ensures
            r == self.spec_resource_id(),
    {
        match self {
            SourceDist::Registry(sdist) => sdist.file.resource_id(),
            SourceDist::DirectUrl(sdist) => ResourceId::Url(sdist.url.clone()),
            SourceDist::Git(sdist) => ResourceId::Url(sdist.url.clone()),
            SourceDist::Path(sdist) => ResourceId::Path(sdist.path.clone()),
        }
    }
}

/// A distribution: a requirement resolved to a location.
#[derive(Debug, PartialEq, Eq)]
pub enum Dist {
    Built(BuiltDist),
    Source(SourceDist),
}

impl Clone for Dist {
    fn clone(&self) -> (r: Self)
        ensures
            r == *self,
    {
        match self {
            Dist::Built(built) => Dist::Built(built.clone()),
            Dist::Source(source) => Dist::Source(source.clone()),
        }
    }
}

impl Dist {
    /// The name of the package.
    pub open spec fn spec_name(self) -> PackageName {
        match self {
            Dist::Built(built) => built.spec_name(),
            Dist::Source(source) => source.spec_name(),
        }
    }

    /// The name of the package.
    pub fn name(&self) -> (r: &PackageName)
        ensures
            *r == self.spec_name(),
    {
        match self {
            Dist::Built(built) => built.name(),
            Dist::Source(source) => source.name(),
        }
    }
}

/// What can be built: a source distribution, or a source tree that no
/// requirement has named yet.
#[derive(Debug, PartialEq, Eq)]
pub enum BuildableSource {
    Dist(SourceDist),
    Path(String),
}

impl Clone for BuildableSource {
    fn clone(&self) -> (r: Self)
        ensures
            r == *self,
    {
        match self {
            BuildableSource::Dist(source) => BuildableSource::Dist(source.clone()),
            BuildableSource::Path(path) => BuildableSource::Path(path.clone()),
        }
    }
}

impl BuildableSource {
    /// The name of the package, where the source has one.
    pub open spec fn spec_name(self) -> Option<PackageName> {
        match self {
            BuildableSource::Dist(source) => Some(source.spec_name()),
            BuildableSource::Path(_) => None,
        }
    }

    /// The name of the package, where the source has one.
    pub fn name(&self) -> (r: Option<&PackageName>)
        ensures
            r.is_some() == self.spec_name().is_some(),
            r matches Some(name) ==> *name == self.spec_name().unwrap(),
    {
        match self {
            BuildableSource::Dist(source) => Some(source.name()),
            BuildableSource::Path(_) => None,
        }
    }

    /// The identity of the location of the source.
    pub open spec fn spec_resource_id(self) -> ResourceId {
        match self {
            BuildableSource::Dist(source) => source.spec_resource_id(),
            BuildableSource::Path(path) => ResourceId::Path(path),
        }
    }

    /// The identity of the location of the source.
    pub fn resource_id(&self) -> (r: ResourceId)
        ensures
            r == self.spec_resource_id(),
    {
        match self {
            BuildableSource::Dist(source) => source.resource_id(),
            BuildableSource::Path(path) => ResourceId::Path(path.clone()),
        }
    }
}

/// A source tree on this machine that is installed in place.
#[derive(Debug, PartialEq, Eq)]
pub struct LocalEditable {
    pub url: String,
    pub path: String,
}

} // verus!
