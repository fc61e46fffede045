//! Sources: package directories on disk with their manifest and a
//! fingerprint of their contents.

use crate::digest::{fingerprint, sha256_hex};
use crate::error::{Error, ErrorKind, ErrorView, KindView};
use crate::lock::DirLock;
use crate::name::{qualified, NameView};
use crate::package::{Manifest, ManifestView, PackageId};
use crate::resolution::{DirectRes, ResView};
use std::sync::Arc;
use vstd::prelude::*;
use vstd::std_specs::cmp::PartialEqSpecImpl;
use vstd::string::*;

verus! {

/// What came of reading the manifest file of a source directory.
#[derive(Debug)]
pub enum ManifestLoad {
    /// The file could not be opened.
    Missing,
    /// The file was opened but could not be read as text.
    Unreadable,
    /// The text is not a manifest.
    Unparsable,
    /// The parsed manifest.
    Parsed(Manifest),
}

/// Mathematical value of a [`Source`].
pub struct SourceView {
    pub meta: ManifestView,
    pub location: ResView,
    pub path: Seq<char>,
    pub hash: Seq<char>,
}

#[derive(Debug)]
struct SourceInner {
    meta: Manifest,
    location: DirectRes,
    path: DirLock,
    hash: String,
}

/// A package directory on disk: its manifest, where it came from, the
/// claim on the directory, and the fingerprint of its contents. A source
/// is a handle: clones share one record and one claim.
#[derive(Debug)]
pub struct Source {
    inner: Arc<SourceInner>,
}

impl View for Source {
    type V = SourceView;

    closed spec fn view(&self) -> SourceView {
        SourceView {
            meta: self.inner.meta@,
            location: self.inner.location@,
            path: self.inner.path@,
            hash: self.inner.hash@,
        }
    }
}

/// A source that was turned down, with the claim on its directory, so that
/// the caller can release it.
#[derive(Debug)]
pub struct Rejected {
    pub error: Error,
    pub lock: DirLock,
}

/// The name under which the entries of a source directory are packed
/// before they are fingerprinted. It stands in place of the directory's
/// own name, which therefore leaves no trace in the content hash.
pub const ARCHIVE_ROOT: &'static str = "irrelevant";

/// The failure of the kind `kind` for the directory `path`, met while
/// working for `location`.
pub open spec fn failed(kind: KindView, path: Seq<char>, location: ResView) -> ErrorView {
    ErrorView { kind, path, resolution: Some(location.canonical()) }
}

/// What [`Source::from_folder`] makes of a directory: the first failure in
/// the order manifest, name, archive; else the source, whose hash is the
/// fingerprint of the archive. Names are compared segment by segment.
pub open spec fn folder_outcome(
    pkg_name: NameView,
    path: Seq<char>,
    location: ResView,
    manifest: ManifestLoad,
    archive: Option<Seq<u8>>,
) -> Result<SourceView, ErrorView> {
    match manifest {
        ManifestLoad::Missing => Err(failed(KindView::MissingManifest, path, location)),
        ManifestLoad::Unreadable => Err(failed(KindView::InvalidIndex, path, location)),
        ManifestLoad::Unparsable => Err(failed(KindView::InvalidIndex, path, location)),
        ManifestLoad::Parsed(m) => {
            if m@.name != pkg_name {
                Err(
                    failed(
                        KindView::NameMismatch {
                            declared: qualified(pkg_name.group, pkg_name.name),
                            found: qualified(m@.name.group, m@.name.name),
                        },
                        path,
                        location,
                    ),
                )
            } else {
                match archive {
                    None => Err(failed(KindView::Io, path, location)),
                    Some(bytes) => Ok(
                        SourceView { meta: m@, location, path, hash: fingerprint(bytes) },
                    ),
                }
            }
        },
    }
}

/// The bytes of an optional archive.
pub open spec fn archive_view(archive: Option<Vec<u8>>) -> Option<Seq<u8>> {
    match archive {
        Some(bytes) => Some(bytes@),
        None => None,
    }
}

fn reject(kind: ErrorKind, lock: DirLock, location: &DirectRes) -> (r: Rejected)
    ensures
        r.error@ == failed(kind@, lock@, location@),
        r.lock@ == lock@,
{
    let error = Error::within(kind, lock.path(), location.canonical_string());
    Rejected { error, lock }
}

/// Calls `Arc::clone`. Trusted: the new handle points to the same record.
#[verifier::external_body]
fn share(inner: &Arc<SourceInner>) -> (r: Arc<SourceInner>)
    ensures
        r == *inner,
{
    Arc::clone(inner)
}

/// Calls `Arc::try_unwrap`. Trusted: whichever way it goes, the record or
/// the handle that comes back is the one that went in.
#[verifier::external_body]
fn unshare(inner: Arc<SourceInner>) -> (r: Result<SourceInner, Arc<SourceInner>>)
    ensures
        match r {
            Ok(record) => record == *inner,
            Err(handle) => handle == inner,
        },
{
    Arc::try_unwrap(inner)
}

impl Clone for Source {
    fn clone(&self) -> (r: Self)
        ensures
            r@ == self@,
    {
        Source { inner: share(&self.inner) }
    }
}

impl PartialEq for Source {
    fn eq(&self, other: &Self) -> (r: bool) {
        self.inner.hash == other.inner.hash
    }
}

impl PartialEqSpecImpl for Source {
    open spec fn obeys_eq_spec() -> bool {
        true
    }

    open spec fn eq_spec(&self, other: &Self) -> bool {
        self@.hash == other@.hash
    }
}

impl Eq for Source {

}

impl Source {
    /// Checks the manifest that was read from a claimed directory against
    /// the package asked for, and fingerprints the directory's archive.
    ///
    /// `manifest` is what came of reading `elba.toml` in the directory;
    /// `archive` is the directory packed under [`ARCHIVE_ROOT`], or `None`
    /// where packing failed. The archive is looked at only once the
    /// manifest has passed. A failure names the directory and the
    /// resolution.
    pub fn from_folder(
        pkg: &PackageId,
        path: DirLock,
        location: DirectRes,
        manifest: ManifestLoad,
        archive: Option<Vec<u8>>,
    ) -> (r: Result<Source, Rejected>)
        ensures
            (match r {
                Ok(s) => Ok(s@),
                Err(e) => Err(e.error@),
            }) == folder_outcome(pkg@.name, path@, location@, manifest, archive_view(archive)),
            r matches Err(e) ==> e.lock@ == path@,
            r matches Ok(s) ==> s@.meta.name == pkg@.name && s@.hash.len() == 64,
    {
        let meta = match manifest {
            ManifestLoad::Missing => {
                return Err(reject(ErrorKind::MissingManifest, path, &location));
            },
            ManifestLoad::Unreadable => {
                return Err(reject(ErrorKind::InvalidIndex, path, &location));
            },
            ManifestLoad::Unparsable => {
                return Err(reject(ErrorKind::InvalidIndex, path, &location));
            },
            ManifestLoad::Parsed(m) => m,
        };
        if !meta.summary().0.same(pkg.name()) {
            let declared = pkg.name().as_text();
            let found = meta.summary().0.as_text();
            return Err(reject(ErrorKind::NameMismatch { declared, found }, path, &location));
        }
        let bytes = match archive {
            None => {
                return Err(reject(ErrorKind::Io, path, &location));
            },
            Some(bytes) => bytes,
        };
        let hash = sha256_hex(bytes.as_slice());
        Ok(Source { inner: Arc::new(SourceInner { meta, location, path, hash }) })
    }

    /// The package's manifest.
    pub fn meta(&self) -> (m: &Manifest)
        ensures
            m@ == self@.meta,
    {
        &self.inner.meta
    }

    /// Where the source came from.
    pub fn location(&self) -> (l: &DirectRes)
        ensures
            l@ == self@.location,
    {
        &self.inner.location
    }

    /// The fingerprint of the directory's contents.
    pub fn hash(&self) -> (h: &str)
        ensures
            h@ == self@.hash,
    {
        self.inner.hash.as_str()
    }

    /// The directory of the source.
    pub fn path(&self) -> (p: &str)
        ensures
            p@ == self@.path,
    {
        self.inner.path.path()
    }

    /// Gives up this handle. The last handle of a record gets the claim on
    /// the directory back; any other gets itself back.
    pub fn into_lock(self) -> (r: Result<DirLock, Source>)
        ensures
            match r {
                Ok(lock) => lock@ == self@.path,
                Err(s) => s@ == self@,
            },
    {
        match unshare(self.inner) {
            Ok(record) => Ok(record.path),
            Err(inner) => Err(Source { inner }),
        }
    }
}

/// A stored build: the claim on its directory.
#[derive(Debug)]
pub struct Binary {
    pub target: DirLock,
}

impl PartialEq for Binary {
    fn eq(&self, other: &Self) -> (r: bool) {
        self.target == other.target
    }
}

impl PartialEqSpecImpl for Binary {
    open spec fn obeys_eq_spec() -> bool {
        true
    }

    open spec fn eq_spec(&self, other: &Self) -> bool {
        self.target@ == other.target@
    }
}

impl Eq for Binary {

}

/// The content hash of a source is the fingerprint of its archive and of
/// nothing else: two directories that pack to the same archive give
/// sources that compare equal, whatever their paths, whatever they were
/// fetched from, and whichever package was asked for.
pub proof fn lemma_hash_depends_on_archive_only(
    name_a: NameView,
    path_a: Seq<char>,
    location_a: ResView,
    manifest_a: ManifestLoad,
    name_b: NameView,
    path_b: Seq<char>,
    location_b: ResView,
    manifest_b: ManifestLoad,
    archive: Option<Seq<u8>>,
)
    ensures
        match (
            folder_outcome(name_a, path_a, location_a, manifest_a, archive),
            folder_outcome(name_b, path_b, location_b, manifest_b, archive),
        ) {
            (Ok(a), Ok(b)) => a.hash == b.hash,
            _ => true,
        },
{
}

} // verus!
