//! The directory structure of a cache root and of a build tree.

use crate::lock::DirLock;
use crate::paths::{join_path, joined, texts};
use vstd::prelude::*;
use vstd::string::*;

verus! {

/// The seven directories of a cache.
#[derive(Debug)]
pub struct Layout {
    /// Root directory of the cache.
    pub root: String,
    /// Language-runtime artifacts.
    pub artifacts: String,
    /// User-facing binaries.
    pub bin: String,
    /// Extracted and cloned sources.
    pub src: String,
    /// Stored build outputs.
    pub build: String,
    /// Scratch build trees.
    pub tmp: String,
    /// Materialised indices.
    pub indices: String,
}

impl Clone for Layout {
    fn clone(&self) -> (r: Self)
        ensures
            r == *self,
    {
        Layout {
            root: self.root.clone(),
            artifacts: self.artifacts.clone(),
            bin: self.bin.clone(),
            src: self.src.clone(),
            build: self.build.clone(),
            tmp: self.tmp.clone(),
            indices: self.indices.clone(),
        }
    }
}

impl Layout {
    /// Every directory but the root lies directly under the root, under
    /// its fixed name.
    pub open spec fn wf(&self) -> bool {
        &&& self.artifacts@ == joined(self.root@, "artifacts"@)
        &&& self.bin@ == joined(self.root@, "bin"@)
        &&& self.src@ == joined(self.root@, "src"@)
        &&& self.build@ == joined(self.root@, "build"@)
        &&& self.tmp@ == joined(self.root@, "tmp"@)
        &&& self.indices@ == joined(self.root@, "indices"@)
    }

    /// All seven directories, in the order in which they are created.
    pub open spec fn all(&self) -> Seq<Seq<char>> {
        seq![
            self.root@,
            self.artifacts@,
            self.bin@,
            self.src@,
            self.build@,
            self.indices@,
            self.tmp@,
        ]
    }

    /// The layout of the cache rooted at `root`.
    pub fn new(root: &str) -> (layout: Layout)
        ensures
            layout.wf(),
            layout.root@ == root@,
    {
        Layout {
            root: String::from_str(root),
            bin: join_path(root, "bin"),
            artifacts: join_path(root, "artifacts"),
            src: join_path(root, "src"),
            build: join_path(root, "build"),
            indices: join_path(root, "indices"),
            tmp: join_path(root, "tmp"),
        }
    }

    /// The directories that must exist for this layout, in creation order.
    /// A failure to create one is not an error of the layout: whoever needs
    /// the directory later reports it.
    pub fn dirs(&self) -> (list: Vec<String>)
        ensures
            texts(list@) == self.all(),
    {
        let mut list: Vec<String> = Vec::new();
        list.push(self.root.clone());
        list.push(self.artifacts.clone());
        list.push(self.bin.clone());
        list.push(self.src.clone());
        list.push(self.build.clone());
        list.push(self.indices.clone());
        list.push(self.tmp.clone());
        proof {
            assert(texts(list@) =~= self.all());
        }
        list
    }
}

/// The directories of one build tree, with the claim on its root.
#[derive(Debug)]
pub struct OutputLayout {
    /// The claim on the root.
    pub lock: DirLock,
    /// Root of the tree: the claimed directory.
    pub root: String,
    /// Language-runtime artifacts.
    pub artifacts: String,
    /// Built binaries.
    pub bin: String,
    /// Built libraries.
    pub lib: String,
    /// Intermediate build output.
    pub build: String,
    /// Built dependencies.
    pub deps: String,
}

impl OutputLayout {
    /// The claimed directory.
    pub open spec fn claim(&self) -> Seq<char> {
        self.lock@
    }

    /// The root is `root`, and every other directory lies directly under
    /// it, under its fixed name.
    pub open spec fn rooted_at(&self, root: Seq<char>) -> bool {
        &&& self.root@ == root
        &&& self.artifacts@ == joined(root, "artifacts"@)
        &&& self.bin@ == joined(root, "bin"@)
        &&& self.lib@ == joined(root, "lib"@)
        &&& self.build@ == joined(root, "build"@)
        &&& self.deps@ == joined(root, "deps"@)
    }

    /// All six directories of a tree, in the order in which they are
    /// created.
    pub open spec fn created(&self) -> Seq<Seq<char>> {
        seq![self.root@, self.bin@, self.lib@, self.build@, self.deps@, self.artifacts@]
    }

    /// The layout of the tree under a claimed directory.
    pub fn new(lock: DirLock) -> (layout: OutputLayout)
        ensures
            layout.claim() == lock@,
            layout.rooted_at(lock@),
    {
        let root = String::from_str(lock.path());
        let artifacts = join_path(lock.path(), "artifacts");
        let bin = join_path(lock.path(), "bin");
        let lib = join_path(lock.path(), "lib");
        let build = join_path(lock.path(), "build");
        let deps = join_path(lock.path(), "deps");
        OutputLayout { lock, root, artifacts, bin, lib, build, deps }
    }

    /// The directories that must exist for this tree, in creation order.
    /// As for a cache, a failure to create one is no error of the layout.
    pub fn dirs(&self) -> (list: Vec<String>)
        ensures
            texts(list@) == self.created(),
    {
        let mut list: Vec<String> = Vec::new();
        list.push(self.root.clone());
        list.push(self.bin.clone());
        list.push(self.lib.clone());
        list.push(self.build.clone());
        list.push(self.deps.clone());
        list.push(self.artifacts.clone());
        proof {
            assert(texts(list@) =~= self.created());
        }
        list
    }

    /// The claim on the root.
    pub fn lock(&self) -> (lock: &DirLock)
        ensures
            lock@ == self.claim(),
    {
        &self.lock
    }

    /// Gives up the layout and hands back the claim on its root.
    pub fn into_lock(self) -> (lock: DirLock)
        ensures
            lock@ == self.claim(),
    {
        self.lock
    }
}

} // verus!
