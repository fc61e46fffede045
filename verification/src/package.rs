//! Package identities and the part of a manifest that the cache reads.

use crate::name::{Name, NameView};
use crate::resolution::{DirectRes, ResView};
use crate::version::{Version, VersionView};
use vstd::prelude::*;

verus! {

/// Mathematical value of a [`PackageId`].
pub struct PackageIdView {
    pub name: NameView,
    pub resolution: ResView,
}

/// A package name together with where the package comes from.
#[derive(Debug)]
pub struct PackageId {
    name: Name,
    resolution: DirectRes,
}

impl View for PackageId {
    type V = PackageIdView;

    closed spec fn view(&self) -> PackageIdView {
        PackageIdView { name: self.name@, resolution: self.resolution@ }
    }
}

impl Clone for PackageId {
    fn clone(&self) -> (r: Self)
        ensures
            r@ == self@,
            self.wf() ==> r.wf(),
    {
        PackageId { name: self.name.clone(), resolution: self.resolution.clone() }
    }
}

impl PackageId {
    /// The name is well-formed.
    pub closed spec fn wf(&self) -> bool {
        self.name.wf()
    }

    /// The identity of the package `name` that comes from `resolution`.
    pub fn new(name: Name, resolution: DirectRes) -> (id: PackageId)
        ensures
            id@ == (PackageIdView { name: name@, resolution: resolution@ }),
            name.wf() ==> id.wf(),
    {
        PackageId { name, resolution }
    }

    /// The package's name.
    pub fn name(&self) -> (n: &Name)
        ensures
            n@ == self@.name,
            self.wf() ==> n.wf(),
    {
        &self.name
    }

    /// Where the package comes from.
    pub fn resolution(&self) -> (r: &DirectRes)
        ensures
            r@ == self@.resolution,
    {
        &self.resolution
    }

    /// Two identities are the same when both components are.
    pub fn same(&self, other: &PackageId) -> (r: bool)
        ensures
            r == (self@ == other@),
    {
        self.name.same(&other.name) && self.resolution == other.resolution
    }
}

/// Mathematical value of a [`Manifest`].
pub struct ManifestView {
    pub name: NameView,
    pub version: VersionView,
}

/// What the cache reads of a parsed manifest: the package's name and
/// version.
#[derive(Debug)]
pub struct Manifest {
    name: Name,
    version: Version,
}

impl View for Manifest {
    type V = ManifestView;

    closed spec fn view(&self) -> ManifestView {
        ManifestView { name: self.name@, version: self.version@ }
    }
}

impl Clone for Manifest {
    fn clone(&self) -> (r: Self)
        ensures
            r@ == self@,
    {
        Manifest { name: self.name.clone(), version: self.version.clone() }
    }
}

impl Manifest {
    /// The manifest of the package `name` at `version`.
    pub fn new(name: Name, version: Version) -> (m: Manifest)
        ensures
            m@ == (ManifestView { name: name@, version: version@ }),
    {
        Manifest { name, version }
    }

    /// The declared name and version.
    pub fn summary(&self) -> (s: (&Name, &Version))
        ensures
            s.0@ == self@.name,
            s.1@ == self@.version,
    {
        (&self.name, &self.version)
    }
}

} // verus!
