//! The two policies that are checked before anything is read, fetched or
//! built: whether wheels may be used, and whether sources may be built.

use vstd::prelude::*;
use crate::dist::{contains_name, names_contain, PackageName};

verus! {

/// Which packages must not be installed from a wheel that was built
/// elsewhere.
#[derive(Debug, PartialEq, Eq)]
pub enum NoBinary {
    /// Wheels are fine for every package.
    Off,
    /// No package may use a wheel.
    All,
    /// The named packages may not use a wheel.
    Packages(Vec<PackageName>),
}

impl NoBinary {
    /// Whether the policy forbids a wheel for the package `name`.
    pub open spec fn spec_forbids(self, name: PackageName) -> bool {
        match self {
            NoBinary::Off => false,
            NoBinary::All => true,
            NoBinary::Packages(packages) => names_contain(packages@, name@),
        }
    }

    /// Whether the policy forbids a wheel for the package `name`.
    pub fn forbids(&self, name: &PackageName) -> (r: bool)
        ensures
            r == self.spec_forbids(*name),
    {
        match self {
            NoBinary::Off => false,
            NoBinary::All => true,
            NoBinary::Packages(packages) => contains_name(packages, name),
        }
    }
}

/// Which packages must not be built from source.
#[derive(Debug, PartialEq, Eq)]
pub enum NoBuild {
    /// Every package may be built.
    Off,
    /// No package may be built.
    All,
    /// The named packages may not be built.
    Packages(Vec<PackageName>),
}

impl NoBuild {
    /// Whether the policy forbids building a source with the name `name`. A
    /// source without a name is forbidden only where nothing may be built.
    pub open spec fn spec_forbids(self, name: Option<PackageName>) -> bool {
        match self {
            NoBuild::Off => false,
            NoBuild::All => true,
            NoBuild::Packages(packages) => match name {
                Some(name) => names_contain(packages@, name@),
                None => false,
            },
        }
    }

    /// Whether the policy forbids building a source with the name `name`.
    pub fn forbids(&self, name: Option<&PackageName>) -> (r: bool)
        ensures
            r == self.spec_forbids(
                match name {
                    Some(name) => Some(*name),
                    None => None,
                },
            ),
    {
        match self {
            NoBuild::Off => false,
            NoBuild::All => true,
            NoBuild::Packages(packages) => match name {
                Some(name) => contains_name(packages, name),
                None => false,
            },
        }
    }
}

} // verus!
