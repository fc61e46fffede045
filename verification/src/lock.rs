//! Exclusive claims on directories.
//!
//! A [`LockTable`] records which directories are claimed. A [`DirLock`] is
//! the receipt for one claim; handing it back releases the directory.

use crate::error::{Error, ErrorKind, ErrorView, KindView};
use crate::paths::same_text;
use vstd::prelude::*;
use vstd::std_specs::cmp::PartialEqSpecImpl;
use vstd::string::*;

verus! {

/// A claim on one directory. Its value is the directory's path.
#[derive(Debug)]
pub struct DirLock {
    path: String,
}

impl View for DirLock {
    type V = Seq<char>;

    closed spec fn view(&self) -> Seq<char> {
        self.path@
    }
}

impl PartialEq for DirLock {
    fn eq(&self, other: &Self) -> (r: bool) {
        self.path == other.path
    }
}

impl PartialEqSpecImpl for DirLock {
    open spec fn obeys_eq_spec() -> bool {
        true
    }

    open spec fn eq_spec(&self, other: &Self) -> bool {
        self@ == other@
    }
}

impl Eq for DirLock {

}

impl DirLock {
    /// The claimed directory.
    pub fn path(&self) -> (p: &str)
        ensures
            p@ == self@,
    {
        self.path.as_str()
    }
}

/// The directories claimed at the moment.
#[derive(Debug)]
pub struct LockTable {
    held: Vec<String>,
}

impl LockTable {
    /// The claimed paths, oldest claim first.
    pub closed spec fn paths(&self) -> Seq<Seq<char>> {
        self.held@.map_values(|s: String| s@)
    }

    /// Whether `path` is claimed.
    pub open spec fn holds(&self, path: Seq<char>) -> bool {
        self.paths().contains(path)
    }

    /// No path is claimed twice.
    pub open spec fn wf(&self) -> bool {
        self.paths().no_duplicates()
    }

    /// A table without claims.
    pub fn new() -> (t: LockTable)
        ensures
            t.wf(),
            t.paths() == Seq::<Seq<char>>::empty(),
    {
        let t = LockTable { held: Vec::new() };
        proof {
            assert(t.paths() =~= Seq::<Seq<char>>::empty());
        }
        t
    }

    fn position(&self, path: &str) -> (r: Option<usize>)
        ensures
            r is Some <==> self.holds(path@),
            r matches Some(i) ==> i < self.paths().len() && self.paths()[i as int] == path@,
    {
        let mut i: usize = 0;
        while i < self.held.len()
            invariant
                i <= self.held.len(),
                forall|j: int| 0 <= j < i ==> self.paths()[j] != path@,
            decreases self.held.len() - i,
        {
            if same_text(self.held[i].as_str(), path) {
                proof {
                    assert(self.paths()[i as int] == path@);
                }
                return Some(i);
            }
            i += 1;
        }
        None
    }

    /// Whether `path` is claimed.
    pub fn is_held(&self, path: &str) -> (r: bool)
        ensures
            r == self.holds(path@),
    {
        self.position(path).is_some()
    }

    /// Number of live claims.
    pub fn len(&self) -> (n: usize)
        ensures
            n == self.paths().len(),
    {
        self.held.len()
    }

    /// Claims `path`. Fails with `LockBusy` at `path`, changing nothing,
    /// exactly when the path is already claimed.
    pub fn acquire(&mut self, path: &str) -> (r: Result<DirLock, Error>)
        requires
            old(self).wf(),
        ensures
            final(self).wf(),
            r is Err <==> old(self).holds(path@),
            r matches Err(e) ==> {
                &&& e@ == (ErrorView { kind: KindView::LockBusy, path: path@, resolution: None })
                &&& final(self).paths() == old(self).paths()
            },
            r matches Ok(lock) ==> {
                &&& lock@ == path@
                &&& final(self).paths() == old(self).paths().push(path@)
                &&& final(self).holds(path@)
            },
    {
        if self.position(path).is_some() {
            return Err(Error::at(ErrorKind::LockBusy, path));
        }
        self.held.push(String::from_str(path));
        proof {
            assert(self.paths() =~= old(self).paths().push(path@));
            assert(self.paths()[old(self).paths().len() as int] == path@);
        }
        Ok(DirLock { path: String::from_str(path) })
    }

    /// Gives a claim back. Afterwards exactly the other claims are live.
    pub fn release(&mut self, lock: DirLock)
        requires
            old(self).wf(),
        ensures
            final(self).wf(),
            forall|p: Seq<char>|
                final(self).holds(p) <==> (old(self).holds(p) && p != lock@),
    {
        match self.position(lock.path.as_str()) {
            Some(i) => {
                let _ = self.held.remove(i);
                proof {
                    let before = old(self).paths();
                    let after = self.paths();
                    assert(after =~= before.remove(i as int));
                    assert forall|p: Seq<char>|
                        self.holds(p) <==> (old(self).holds(p) && p != lock@) by {
                        if after.contains(p) {
                            let j = choose|j: int| 0 <= j < after.len() && after[j] == p;
                            if j < i {
                                assert(before[j] == p);
                            } else {
                                assert(before[j + 1] == p);
                            }
                        }
                        if before.contains(p) && p != lock@ {
                            let j = choose|j: int| 0 <= j < before.len() && before[j] == p;
                            if j < i {
                                assert(after[j] == p);
                            } else {
                                assert(after[j - 1] == p);
                            }
                        }
                    }
                }
            },
            None => {},
        }
    }
}

} // verus!
