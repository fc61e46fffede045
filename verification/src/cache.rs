//! The cache: where things are kept, and what has to be done to have them.
//!
//! The cache never touches the disk. Where an answer depends on the disk,
//! the caller passes what it found; where work on the disk follows, the
//! cache returns it as a plan of [`FsStep`]s, together with the claim on the
//! directory that the work is for.

use crate::buildhash::BuildHash;
use crate::digest::{
    append_bytes, fingerprint, is_hex_char, lemma_hex_text_chars, sha256_digest, sha256_hex,
};
use crate::error::{text_view, Error, ErrorKind, ErrorView, KindView};
use crate::layout::{Layout, OutputLayout};
use crate::lock::{DirLock, LockTable};
use crate::name::{qualified, token_char, valid_token, Name, NameView};
use crate::package::PackageId;
use crate::paths::{is_absolute, join_path, joined};
use crate::plan::{step_views, FsStep, StepView};
use crate::resolution::{DirectRes, ResView};
use crate::source::{archive_view, folder_outcome, Binary, ManifestLoad, Source};
use crate::version::{Version, VersionView};
use vstd::prelude::*;
use vstd::string::*;
use vstd::utf8::*;

verus! {

/// The value of an optional version.
pub open spec fn version_view(v: Option<&Version>) -> Option<VersionView> {
    match v {
        Some(v) => Some(v@),
        None => None,
    }
}

/// The bytes that name a source: the raw name, the canonical text of the
/// resolution and, for a tarball with a known version, the version's text.
pub open spec fn source_key(name: NameView, loc: ResView, v: Option<VersionView>) -> Seq<u8> {
    encode_utf8(qualified(name.group, name.name)) + encode_utf8(loc.canonical()) + (match v {
        Some(v) if loc is Tar => encode_utf8(v.text()),
        _ => Seq::<u8>::empty(),
    })
}

/// The directory name of a source: `<group>_<name>-<fingerprint>`.
pub open spec fn source_dir_name(name: NameView, loc: ResView, v: Option<VersionView>) -> Seq<
    char,
> {
    name.group + seq!['_'] + name.name + seq!['-'] + fingerprint(source_key(name, loc, v))
}

/// The directory name of an index: the fingerprint of the canonical text
/// of its resolution.
pub open spec fn index_dir_name(loc: ResView) -> Seq<char> {
    fingerprint(encode_utf8(loc.canonical()))
}

/// Where the cache rooted at `root` keeps an index: a local directory where
/// it is; anything else under the cache's index directory, under its
/// directory name.
pub open spec fn index_path_at(root: Seq<char>, loc: ResView) -> Seq<char> {
    match loc {
        ResView::Dir { path } => path,
        _ => joined(joined(root, "indices"@), index_dir_name(loc)),
    }
}

/// The failure to claim the directory `path`, which is claimed already,
/// while working for `resolution` where there is one.
pub open spec fn busy(path: Seq<char>, resolution: Option<Seq<char>>) -> ErrorView {
    ErrorView { kind: KindView::LockBusy, path, resolution }
}

/// The work that readies the directory of a source: make sure it exists
/// and, unless it is a local directory or was there already, fetch into it.
pub open spec fn load_steps(loc: ResView, dir: Seq<char>, exists: bool) -> Seq<StepView> {
    if loc is Dir || exists {
        seq![StepView::CreateDirAll { path: dir }]
    } else {
        seq![StepView::CreateDirAll { path: dir }, StepView::Retrieve { res: loc, dest: dir }]
    }
}

/// The work that readies a scratch tree: make sure it exists, then empty
/// it.
pub open spec fn tmp_steps(dir: Seq<char>) -> Seq<StepView> {
    seq![StepView::CreateDirAll { path: dir }, StepView::ClearDir { path: dir }]
}

/// The work that stores a build: make sure the directory exists, empty it,
/// then copy the build into it.
pub open spec fn store_steps(from: Seq<char>, dir: Seq<char>) -> Seq<StepView> {
    seq![
        StepView::CreateDirAll { path: dir },
        StepView::ClearDir { path: dir },
        StepView::CopyDir { from, to: dir },
    ]
}

/// A claimed directory with the work that is left to do on it.
#[derive(Debug)]
pub struct Ticket {
    /// The claim on the directory.
    pub dir: DirLock,
    /// What the caller has to carry out, in order.
    pub steps: Vec<FsStep>,
}

/// A claimed scratch tree with the work that is left to do on it. Once the
/// steps are done, the directories of the layout are created.
#[derive(Debug)]
pub struct TmpTicket {
    /// The tree and the claim on its root.
    pub layout: OutputLayout,
    /// What the caller has to carry out, in order.
    pub steps: Vec<FsStep>,
}

/// A claimed build directory with the work that stores the build in it.
#[derive(Debug)]
pub struct StoreTicket {
    /// The stored build.
    pub binary: Binary,
    /// What the caller has to carry out, in order.
    pub steps: Vec<FsStep>,
}

/// The global state of the tool: the layout of its cache directory and the
/// directories that are claimed at the moment.
#[derive(Debug)]
pub struct Cache {
    layout: Layout,
    locks: LockTable,
}

impl Cache {
    /// The layout is consistent and no directory is claimed twice.
    pub closed spec fn wf(&self) -> bool {
        self.layout.wf() && self.locks.wf()
    }

    /// The root directory of the cache.
    pub closed spec fn root(&self) -> Seq<char> {
        self.layout.root@
    }

    /// The claimed directories, oldest claim first.
    pub closed spec fn held(&self) -> Seq<Seq<char>> {
        self.locks.paths()
    }

    /// Whether `path` is claimed.
    pub open spec fn holds(&self, path: Seq<char>) -> bool {
        self.held().contains(path)
    }

    /// Where a source is kept: a local directory where it is; anything else
    /// under the cache's source directory, under its directory name.
    pub open spec fn source_path(
        &self,
        name: NameView,
        loc: ResView,
        v: Option<VersionView>,
    ) -> Seq<char> {
        match loc {
            ResView::Dir { path } => path,
            _ => joined(joined(self.root(), "src"@), source_dir_name(name, loc, v)),
        }
    }

    /// Where an index is kept.
    pub open spec fn index_path(&self, loc: ResView) -> Seq<char> {
        index_path_at(self.root(), loc)
    }

    /// Where the build with fingerprint `hash` is stored.
    pub open spec fn build_path(&self, hash: Seq<char>) -> Seq<char> {
        joined(joined(self.root(), "build"@), hash)
    }

    /// What [`Cache::check_build`] reports: the directory of the build
    /// where it exists, nothing where it does not.
    pub open spec fn build_found(&self, hash: Seq<char>, exists: bool) -> Option<Seq<char>> {
        if exists {
            Some(self.build_path(hash))
        } else {
            None
        }
    }

    /// Where the scratch tree of the build with fingerprint `hash` lies.
    pub open spec fn tmp_path(&self, hash: Seq<char>) -> Seq<char> {
        joined(joined(self.root(), "tmp"@), hash)
    }

    /// The cache rooted at `location`, with nothing claimed. The
    /// directories of its layout are still to be created.
    pub fn from_disk(location: &str) -> (cache: Cache)
        ensures
            cache.wf(),
            cache.root() == location@,
            cache.held() == Seq::<Seq<char>>::empty(),
    {
        Cache { layout: Layout::new(location), locks: LockTable::new() }
    }

    /// The layout of the cache directory.
    pub fn layout(&self) -> (layout: &Layout)
        ensures
            layout.root@ == self.root(),
            self.wf() ==> layout.wf(),
    {
        &self.layout
    }

    /// Whether `path` is claimed.
    pub fn is_held(&self, path: &str) -> (r: bool)
        ensures
            r == self.holds(path@),
    {
        self.locks.is_held(path)
    }

    /// Claims `path`; `None`, changing nothing, exactly when it is claimed
    /// already.
    pub fn claim(&mut self, path: &str) -> (r: Option<DirLock>)
        requires
            old(self).wf(),
        ensures
            final(self).wf(),
            final(self).root() == old(self).root(),
            r is None <==> old(self).holds(path@),
            r is None ==> final(self).held() == old(self).held(),
            r matches Some(lock) ==> {
                &&& lock@ == path@
                &&& final(self).held() == old(self).held().push(path@)
                &&& final(self).holds(path@)
            },
    {
        match self.locks.acquire(path) {
            Ok(lock) => Some(lock),
            Err(_) => None,
        }
    }

    /// Gives a claim back. Afterwards exactly the other claims are live.
    pub fn release(&mut self, lock: DirLock)
        requires
            old(self).wf(),
        ensures
            final(self).wf(),
            final(self).root() == old(self).root(),
            forall|p: Seq<char>| final(self).holds(p) <==> (old(self).holds(p) && p != lock@),
    {
        self.locks.release(lock);
        proof {
            assert forall|p: Seq<char>|
                self.holds(p) <==> (old(self).holds(p) && p != lock@) by {
                assert(self.locks.holds(p) <==> (old(self).locks.holds(p) && p != lock@));
            }
        }
    }

    /// Gives up work on a claimed directory that failed with `error`: the
    /// claim is released and the error handed back unchanged, for the
    /// caller to return.
    pub fn abandon(&mut self, dir: DirLock, error: Error) -> (e: Error)
        requires
            old(self).wf(),
        ensures
            final(self).wf(),
            final(self).root() == old(self).root(),
            e@ == error@,
            forall|p: Seq<char>| final(self).holds(p) <==> (old(self).holds(p) && p != dir@),
    {
        self.release(dir);
        error
    }

    /// The directory name of a source. A version counts only for a
    /// tarball: one address may serve many versions of it, while a
    /// repository's reference and a local path say all there is to say.
    pub fn get_source_dir(name: &Name, loc: &DirectRes, v: Option<&Version>) -> (dir: String)
        ensures
            dir@ == source_dir_name(name@, loc@, version_view(v)),
            dir@.len() == name@.group.len() + name@.name.len() + 66,
    {
        let mut data: Vec<u8> = Vec::new();
        let raw = name.as_text();
        append_bytes(&mut data, raw.as_str().as_bytes());
        let canonical = loc.canonical_string();
        append_bytes(&mut data, canonical.as_str().as_bytes());
        match v {
            Some(v) => {
                if loc.is_tar() {
                    let text = v.to_text();
                    append_bytes(&mut data, text.as_str().as_bytes());
                }
            },
            None => {},
        }
        proof {
            assert(data@ =~= source_key(name@, loc@, version_view(v)));
            reveal_strlit("_");
            reveal_strlit("-");
        }
        let hash = sha256_hex(data.as_slice());
        let mut dir = String::from_str(name.group());
        dir.append("_");
        dir.append(name.name());
        dir.append("-");
        dir.append(hash.as_str());
        proof {
            assert(dir@ =~= source_dir_name(name@, loc@, version_view(v)));
        }
        dir
    }

    /// The directory name of an index.
    pub fn get_index_dir(loc: &DirectRes) -> (dir: String)
        ensures
            dir@ == index_dir_name(loc@),
            dir@.len() == 64,
    {
        let canonical = loc.canonical_string();
        sha256_hex(canonical.as_str().as_bytes())
    }

    /// Where a source is kept.
    pub fn source_dir(&self, name: &Name, loc: &DirectRes, v: Option<&Version>) -> (dir: String)
        requires
            self.wf(),
        ensures
            dir@ == self.source_path(name@, loc@, version_view(v)),
    {
        match loc {
            DirectRes::Dir { path } => path.clone(),
            _ => {
                let name = Self::get_source_dir(name, loc, v);
                join_path(self.layout.src.as_str(), name.as_str())
            },
        }
    }

    /// Where an index is kept.
    pub fn index_dir(&self, loc: &DirectRes) -> (dir: String)
        requires
            self.wf(),
        ensures
            dir@ == self.index_path(loc@),
    {
        match loc {
            DirectRes::Dir { path } => path.clone(),
            _ => {
                let name = Self::get_index_dir(loc);
                join_path(self.layout.indices.as_str(), name.as_str())
            },
        }
    }

    /// Where the build with fingerprint `hash` is stored.
    pub fn build_dir(&self, hash: &BuildHash) -> (dir: String)
        requires
            self.wf(),
        ensures
            dir@ == self.build_path(hash@),
    {
        join_path(self.layout.build.as_str(), hash.as_str())
    }

    /// Where the scratch tree of the build with fingerprint `hash` lies.
    pub fn tmp_dir(&self, hash: &BuildHash) -> (dir: String)
        requires
            self.wf(),
        ensures
            dir@ == self.tmp_path(hash@),
    {
        join_path(self.layout.tmp.as_str(), hash.as_str())
    }

    /// Whether a source is at hand, and where. A local directory always
    /// is; anything else is when its directory exists, which is what
    /// `exists` reports of [`Cache::source_dir`].
    pub fn check_source(
        &self,
        name: &Name,
        loc: &DirectRes,
        v: Option<&Version>,
        exists: bool,
    ) -> (found: Option<String>)
        requires
            self.wf(),
        ensures
            found is Some <==> (loc@ is Dir || exists),
            found matches Some(dir) ==> dir@ == self.source_path(name@, loc@, version_view(v)),
    {
        if loc.is_dir() || exists {
            Some(self.source_dir(name, loc, v))
        } else {
            None
        }
    }

    /// Claims the directory of a source and says what is left to do to
    /// have the source in it. `exists` reports whether
    /// [`Cache::source_dir`] exists.
    ///
    /// Fails with `LockBusy`, naming the directory and the resolution and
    /// changing nothing, exactly when the directory is already claimed.
    pub fn load_source(
        &mut self,
        pkg: &PackageId,
        loc: &DirectRes,
        v: Option<&Version>,
        exists: bool,
    ) -> (r: Result<Ticket, Error>)
        requires
            old(self).wf(),
        ensures
            final(self).wf(),
            final(self).root() == old(self).root(),
            r is Err <==> old(self).holds(old(self).source_path(pkg@.name, loc@, version_view(v))),
            r matches Err(e) ==> {
                &&& e@ == busy(
                    old(self).source_path(pkg@.name, loc@, version_view(v)),
                    Some(loc@.canonical()),
                )
                &&& final(self).held() == old(self).held()
            },
            r matches Ok(t) ==> {
                let dir = old(self).source_path(pkg@.name, loc@, version_view(v));
                &&& t.dir@ == dir
                &&& step_views(t.steps@) == load_steps(loc@, dir, exists)
                &&& final(self).held() == old(self).held().push(dir)
                &&& final(self).holds(dir)
            },
    {
        let dir = self.source_dir(pkg.name(), loc, v);
        let lock = match self.locks.acquire(dir.as_str()) {
            Ok(lock) => lock,
            Err(_) => {
                return Err(
                    Error::within(ErrorKind::LockBusy, dir.as_str(), loc.canonical_string()),
                );
            },
        };
        let mut steps: Vec<FsStep> = Vec::new();
        steps.push(FsStep::CreateDirAll { path: dir.clone() });
        if !loc.is_dir() && !exists {
            steps.push(FsStep::Retrieve { res: loc.clone(), dest: dir });
        }
        proof {
            assert(step_views(steps@) =~= load_steps(loc@, lock@, exists));
        }
        Ok(Ticket { dir: lock, steps })
    }

    /// Makes a source of a directory that [`Cache::load_source`] claimed,
    /// once the steps of its ticket are done. `manifest` and `archive` are
    /// what the caller read in the directory, as
    /// [`Source::from_folder`] takes them.
    ///
    /// Where the source is turned down, the claim on the directory is
    /// released.
    pub fn checkout_source(
        &mut self,
        pkg: &PackageId,
        loc: &DirectRes,
        dir: DirLock,
        manifest: ManifestLoad,
        archive: Option<Vec<u8>>,
    ) -> (r: Result<Source, Error>)
        requires
            old(self).wf(),
        ensures
            final(self).wf(),
            final(self).root() == old(self).root(),
            (match r {
                Ok(s) => Ok(s@),
                Err(e) => Err(e@),
            }) == folder_outcome(pkg@.name, dir@, loc@, manifest, archive_view(archive)),
            r matches Ok(s) ==> s@.meta.name == pkg@.name && s@.hash.len() == 64,
            r is Ok ==> final(self).held() == old(self).held(),
            r is Err ==> forall|p: Seq<char>|
                final(self).holds(p) <==> (old(self).holds(p) && p != dir@),
    {
        match Source::from_folder(pkg, dir, loc.clone(), manifest, archive) {
            Ok(source) => Ok(source),
            Err(rejected) => {
                self.release(rejected.lock);
                Err(rejected.error)
            },
        }
    }

    /// Whether the build with fingerprint `hash` is stored, and where.
    /// `exists` reports whether [`Cache::build_dir`] exists.
    pub fn check_build(&self, hash: &BuildHash, exists: bool) -> (found: Option<String>)
        requires
            self.wf(),
        ensures
            text_view(found) == self.build_found(hash@, exists),
    {
        if exists {
            Some(self.build_dir(hash))
        } else {
            None
        }
    }

    /// Claims the stored build with fingerprint `hash` if there is one.
    /// `exists` reports whether [`Cache::build_dir`] exists. A build that
    /// is not stored is no error, and nothing is claimed or created for it.
    ///
    /// Fails with `LockBusy` exactly when the build is stored and its
    /// directory is already claimed.
    pub fn checkout_build(&mut self, hash: &BuildHash, exists: bool) -> (r: Result<
        Option<Binary>,
        Error,
    >)
        requires
            old(self).wf(),
        ensures
            final(self).wf(),
            final(self).root() == old(self).root(),
            r is Err <==> exists && old(self).holds(old(self).build_path(hash@)),
            r matches Err(e) ==> {
                &&& e@ == busy(old(self).build_path(hash@), None)
                &&& final(self).held() == old(self).held()
            },
            r matches Ok(None) ==> !exists && final(self).held() == old(self).held(),
            r matches Ok(Some(b)) ==> {
                &&& exists
                &&& b.target@ == old(self).build_path(hash@)
                &&& final(self).held() == old(self).held().push(b.target@)
                &&& final(self).holds(b.target@)
            },
    {
        match self.check_build(hash, exists) {
            Some(dir) => match self.locks.acquire(dir.as_str()) {
                Ok(target) => Ok(Some(Binary { target })),
                Err(e) => Err(e),
            },
            None => Ok(None),
        }
    }

    /// Claims the scratch tree of the build with fingerprint `hash`. The
    /// plan empties the tree, so every checkout starts from nothing.
    ///
    /// Fails with `LockBusy`, changing nothing, exactly when the tree is
    /// already claimed.
    pub fn checkout_tmp(&mut self, hash: &BuildHash) -> (r: Result<TmpTicket, Error>)
        requires
            old(self).wf(),
        ensures
            final(self).wf(),
            final(self).root() == old(self).root(),
            r is Err <==> old(self).holds(old(self).tmp_path(hash@)),
            r matches Err(e) ==> {
                &&& e@ == busy(old(self).tmp_path(hash@), None)
                &&& final(self).held() == old(self).held()
            },
            r matches Ok(t) ==> {
                let dir = old(self).tmp_path(hash@);
                &&& t.layout.claim() == dir
                &&& t.layout.rooted_at(dir)
                &&& step_views(t.steps@) == tmp_steps(dir)
                &&& final(self).held() == old(self).held().push(dir)
                &&& final(self).holds(dir)
            },
    {
        let dir = self.tmp_dir(hash);
        let lock = match self.locks.acquire(dir.as_str()) {
            Ok(lock) => lock,
            Err(e) => {
                return Err(e);
            },
        };
        let mut steps: Vec<FsStep> = Vec::new();
        steps.push(FsStep::CreateDirAll { path: dir.clone() });
        steps.push(FsStep::ClearDir { path: dir });
        proof {
            assert(step_views(steps@) =~= tmp_steps(lock@));
        }
        Ok(TmpTicket { layout: OutputLayout::new(lock), steps })
    }

    /// Claims the directory of the build with fingerprint `hash` and plans
    /// to replace what is in it by a copy of `from`.
    ///
    /// Fails with `LockBusy`, changing nothing, exactly when the directory
    /// is already claimed.
    pub fn store_build(&mut self, from: &str, hash: &BuildHash) -> (r: Result<StoreTicket, Error>)
        requires
            old(self).wf(),
        ensures
            final(self).wf(),
            final(self).root() == old(self).root(),
            r is Err <==> old(self).holds(old(self).build_path(hash@)),
            r matches Err(e) ==> {
                &&& e@ == busy(old(self).build_path(hash@), None)
                &&& final(self).held() == old(self).held()
            },
            r matches Ok(t) ==> {
                let dir = old(self).build_path(hash@);
                &&& t.binary.target@ == dir
                &&& step_views(t.steps@) == store_steps(from@, dir)
                &&& final(self).held() == old(self).held().push(dir)
                &&& final(self).holds(dir)
            },
    {
        let dir = self.build_dir(hash);
        let target = match self.locks.acquire(dir.as_str()) {
            Ok(lock) => lock,
            Err(e) => {
                return Err(e);
            },
        };
        let mut steps: Vec<FsStep> = Vec::new();
        steps.push(FsStep::CreateDirAll { path: dir.clone() });
        steps.push(FsStep::ClearDir { path: dir.clone() });
        steps.push(FsStep::CopyDir { from: String::from_str(from), to: dir });
        proof {
            assert(step_views(steps@) =~= store_steps(from@, target@));
        }
        Ok(StoreTicket { binary: Binary { target }, steps })
    }
}

/// The directory name of a source is settled by the values of the name,
/// the resolution and the version: whenever and wherever it is computed,
/// equal values give the same name.
pub proof fn lemma_source_dir_name_is_stable(
    name_a: Name,
    loc_a: DirectRes,
    v_a: Option<&Version>,
    name_b: Name,
    loc_b: DirectRes,
    v_b: Option<&Version>,
)
    requires
        name_a@ == name_b@,
        loc_a@ == loc_b@,
        version_view(v_a) == version_view(v_b),
    ensures
        source_dir_name(name_a@, loc_a@, version_view(v_a)) == source_dir_name(
            name_b@,
            loc_b@,
            version_view(v_b),
        ),
{
}

/// The version counts for tarballs only: a repository or a local directory
/// has one directory name, whatever version is asked for.
pub proof fn lemma_version_counts_for_tarballs_only(
    name: NameView,
    loc: ResView,
    v_a: Option<VersionView>,
    v_b: Option<VersionView>,
)
    requires
        !(loc is Tar),
    ensures
        source_dir_name(name, loc, v_a) == source_dir_name(name, loc, v_b),
{
    assert(source_key(name, loc, v_a) =~= source_key(name, loc, v_b));
}

/// The directory name of an index depends on the canonical text of its
/// resolution and on nothing else.
pub proof fn lemma_index_dir_name_follows_canonical_text(a: ResView, b: ResView)
    requires
        a.canonical() == b.canonical(),
    ensures
        index_dir_name(a) == index_dir_name(b),
{
}

/// The directory name of a source with a well-formed name is a single
/// path component: it holds no slash, so the source lies directly under
/// the cache's source directory.
pub proof fn lemma_source_dir_name_is_one_component(
    name: NameView,
    loc: ResView,
    v: Option<VersionView>,
)
    requires
        valid_token(name.group),
        valid_token(name.name),
    ensures
        !is_absolute(source_dir_name(name, loc, v)),
        forall|i: int|
            0 <= i < source_dir_name(name, loc, v).len() ==> (#[trigger] source_dir_name(
                name,
                loc,
                v,
            )[i]) != '/',
{
    let hex = fingerprint(source_key(name, loc, v));
    lemma_hex_text_chars(sha256_digest(source_key(name, loc, v)));
    let dir = source_dir_name(name, loc, v);
    let g = name.group.len() as int;
    let n = name.name.len() as int;
    assert forall|i: int| 0 <= i < dir.len() implies (#[trigger] dir[i]) != '/' by {
        if i < g {
            assert(dir[i] == name.group[i]);
            assert(token_char(name.group[i]));
        } else if i == g {
            assert(dir[i] == '_');
        } else if i < g + 1 + n {
            assert(dir[i] == name.name[i - g - 1]);
            assert(token_char(name.name[i - g - 1]));
        } else if i == g + 1 + n {
            assert(dir[i] == '-');
        } else {
            assert(dir[i] == hex[i - g - n - 2]);
            assert(is_hex_char(hex[i - g - n - 2]));
        }
    }
    assert(dir[0] == name.group[0]);
}

/// A build is found where it was stored: the directory that
/// [`Cache::check_build`] reports for a fingerprint, once it exists, is the
/// one that the plan of [`Cache::store_build`] for that fingerprint first
/// empties and then, as its last step, fills with a copy of `from`.
pub proof fn lemma_stored_build_is_found(cache: Cache, from: Seq<char>, hash: Seq<char>)
    ensures
        cache.build_found(hash, true) matches Some(dir) && {
            let plan = store_steps(from, cache.build_path(hash));
            &&& plan[1] == (StepView::ClearDir { path: dir })
            &&& plan.last() == (StepView::CopyDir { from, to: dir })
        },
{
}

/// A scratch tree always starts empty: whatever the fingerprint, the plan
/// of [`Cache::checkout_tmp`] ends by clearing the root of the tree.
pub proof fn lemma_scratch_tree_starts_empty(cache: Cache, hash: Seq<char>)
    ensures
        tmp_steps(cache.tmp_path(hash)).last() == (StepView::ClearDir {
            path: cache.tmp_path(hash),
        }),
{
}

/// Two checkouts of one key that find the same contents give the same
/// source: both are sent to the one directory of the key, and the content
/// hash follows from the archive alone, so the sources agree in
/// directory, resolution and hash, and compare equal.
pub proof fn lemma_same_key_same_source(
    cache: Cache,
    name: NameView,
    loc: ResView,
    v: Option<VersionView>,
    manifest_a: ManifestLoad,
    manifest_b: ManifestLoad,
    archive: Option<Seq<u8>>,
)
    ensures
        ({
            let dir = cache.source_path(name, loc, v);
            match (
                folder_outcome(name, dir, loc, manifest_a, archive),
                folder_outcome(name, dir, loc, manifest_b, archive),
            ) {
                (Ok(a), Ok(b)) => a.hash == b.hash && a.path == b.path && a.location
                    == b.location,
                _ => true,
            }
        }),
{
}

} // verus!
