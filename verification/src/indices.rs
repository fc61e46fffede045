//! Discovery of the indices that a project's own indices lead to.
//!
//! An index may name further indices. Starting from the declared ones, the
//! walk visits them first come, first served, takes every index once, and
//! passes over whatever cannot be had: a broken index further out must not
//! stop a build that its nearer indices can serve.
//!
//! The walk decides; the caller does the work. It asks for the [`next`]
//! visit, readies the claimed directory, reads the index in it, and reports
//! with [`loaded`] or [`skipped`].
//!
//! [`next`]: IndexWalk::next
//! [`loaded`]: IndexWalk::loaded
//! [`skipped`]: IndexWalk::skipped

use crate::cache::{index_path_at, load_steps, Cache};
use crate::lock::DirLock;
use crate::plan::{step_views, FsStep};
use crate::resolution::{contains_res, lemma_res_views_push, res_views, DirectRes, ResView};
use std::collections::VecDeque;
use vstd::prelude::*;

verus! {

/// Whether the walk passes over a pending entry: it was taken before, or
/// its directory is claimed by someone else.
pub open spec fn passed_over(
    res: ResView,
    found: Seq<ResView>,
    root: Seq<char>,
    held: Seq<Seq<char>>,
) -> bool {
    found.contains(res) || held.contains(index_path_at(root, res))
}

/// How many entries at the front of `pending` the walk passes over.
pub open spec fn leading_skips(
    pending: Seq<ResView>,
    found: Seq<ResView>,
    root: Seq<char>,
    held: Seq<Seq<char>>,
) -> nat
    decreases pending.len(),
{
    if pending.len() == 0 {
        0
    } else if passed_over(pending[0], found, root, held) {
        1 + leading_skips(pending.skip(1), found, root, held)
    } else {
        0
    }
}

/// `n` times the value `d`.
pub open spec fn repeated(d: nat, n: nat) -> Seq<nat> {
    Seq::new(n, |i: int| d)
}

/// Whether the values never fall from one position to a later one.
pub open spec fn ascending(s: Seq<nat>) -> bool {
    forall|i: int, j: int| 0 <= i <= j < s.len() ==> s[i] <= s[j]
}

/// An index to visit: its resolution and the claim on its directory.
#[derive(Debug)]
pub struct Visit {
    /// The index to load.
    pub res: DirectRes,
    /// The claim on the directory of the index.
    pub dir: DirLock,
}

impl Visit {
    /// What readies the directory, given whether it exists: as for a
    /// source, an index that is not a local directory is fetched unless its
    /// directory was there already.
    pub fn steps(&self, exists: bool) -> (steps: Vec<FsStep>)
        ensures
            step_views(steps@) == load_steps(self.res@, self.dir@, exists),
    {
        let mut steps: Vec<FsStep> = Vec::new();
        steps.push(FsStep::CreateDirAll { path: String::from_str(self.dir.path()) });
        if !self.res.is_dir() && !exists {
            steps.push(
                FsStep::Retrieve {
                    res: self.res.clone(),
                    dest: String::from_str(self.dir.path()),
                },
            );
        }
        proof {
            assert(step_views(steps@) =~= load_steps(self.res@, self.dir@, exists));
        }
        steps
    }
}

/// The state of a discovery: what is still to visit, what was taken, and
/// what is being visited.
///
/// Every entry carries its distance from the declared indices: these are
/// at distance zero, and what an index names lies one further out than the
/// index itself. The distances exist in proofs only.
pub struct IndexWalk {
    queue: VecDeque<DirectRes>,
    seen: Vec<DirectRes>,
    current: Option<DirectRes>,
    queue_depth: Ghost<Seq<nat>>,
    seen_depth: Ghost<Seq<nat>>,
    level: Ghost<nat>,
}

impl IndexWalk {
    /// What is still to visit, next first.
    pub closed spec fn pending(&self) -> Seq<ResView> {
        res_views(self.queue@)
    }

    /// The distance of each pending entry.
    pub closed spec fn pending_depths(&self) -> Seq<nat> {
        self.queue_depth@
    }

    /// The indices taken so far, in the order in which they were taken.
    pub closed spec fn found(&self) -> Seq<ResView> {
        res_views(self.seen@)
    }

    /// The distance of each index taken so far.
    pub closed spec fn depths(&self) -> Seq<nat> {
        self.seen_depth@
    }

    /// The index that is being visited, if any.
    pub closed spec fn visiting(&self) -> Option<ResView> {
        match self.current {
            Some(res) => Some(res@),
            None => None,
        }
    }

    /// The distance of the entry that left the queue last.
    pub closed spec fn level(&self) -> nat {
        self.level@
    }

    /// The walk is consistent: nothing was taken twice, what is being
    /// visited was not taken before, and the queue holds at most two
    /// neighbouring distances, the nearer entries first, none nearer than
    /// anything taken.
    pub open spec fn wf(&self) -> bool {
        &&& self.found().no_duplicates()
        &&& self.visiting() matches Some(res) ==> !self.found().contains(res)
        &&& self.depths().len() == self.found().len()
        &&& self.pending_depths().len() == self.pending().len()
        &&& ascending(self.depths())
        &&& ascending(self.pending_depths())
        &&& forall|i: int|
            0 <= i < self.depths().len() ==> (#[trigger] self.depths()[i]) <= self.level()
        &&& forall|i: int|
            0 <= i < self.pending_depths().len() ==> self.level() <= (
            #[trigger] self.pending_depths()[i]) <= self.level() + 1
    }

    /// Whether nothing is left to do.
    pub fn is_done(&self) -> (r: bool)
        ensures
            r == (self.pending().len() == 0 && self.visiting() is None),
    {
        self.queue.len() == 0 && self.current.is_none()
    }

    /// Hands out the next index to visit and claims its directory. Pending
    /// entries that were taken before, or whose directory is claimed, are
    /// dropped on the way. `None` when nothing is left.
    pub fn next(&mut self, cache: &mut Cache) -> (r: Option<Visit>)
        requires
            old(self).wf(),
            old(cache).wf(),
            old(self).visiting() is None,
        ensures
            final(self).wf(),
            final(cache).wf(),
            final(cache).root() == old(cache).root(),
            final(self).found() == old(self).found(),
            final(self).depths() == old(self).depths(),
            ({
                let k = leading_skips(
                    old(self).pending(),
                    old(self).found(),
                    old(cache).root(),
                    old(cache).held(),
                ) as int;
                if k == old(self).pending().len() {
                    &&& r is None
                    &&& final(self).pending().len() == 0
                    &&& final(self).visiting() is None
                    &&& final(cache).held() == old(cache).held()
                } else {
                    &&& k < old(self).pending().len()
                    &&& r matches Some(v)
                    &&& v.res@ == old(self).pending()[k]
                    &&& v.dir@ == old(cache).index_path(v.res@)
                    &&& final(cache).held() == old(cache).held().push(v.dir@)
                    &&& final(cache).holds(v.dir@)
                    &&& final(self).visiting() == Some(v.res@)
                    &&& final(self).pending() == old(self).pending().skip(k + 1)
                    &&& final(self).pending_depths() == old(self).pending_depths().skip(k + 1)
                    &&& final(self).level() == old(self).pending_depths()[k]
                }
            }),
    {
        let ghost mut n: int = 0;
        loop
            invariant
                self.wf(),
                cache.wf(),
                cache.root() == old(cache).root(),
                cache.held() == old(cache).held(),
                self.visiting() is None,
                self.found() == old(self).found(),
                self.depths() == old(self).depths(),
                0 <= n <= old(self).pending().len(),
                old(self).pending_depths().len() == old(self).pending().len(),
                self.pending() == old(self).pending().skip(n),
                self.pending_depths() == old(self).pending_depths().skip(n),
                leading_skips(
                    old(self).pending(),
                    old(self).found(),
                    old(cache).root(),
                    old(cache).held(),
                ) == n + leading_skips(self.pending(), self.found(), cache.root(), cache.held()),
            decreases self.queue@.len(),
        {
            let ghost before = self.pending();
            let ghost before_depths = self.pending_depths();
            let res = match self.queue.pop_front() {
                Some(res) => res,
                None => {
                    return None;
                },
            };
            proof {
                let d = before_depths[0];
                self.queue_depth@ = before_depths.skip(1);
                self.level@ = d;
                assert(self.pending() =~= before.skip(1));
                assert(before.skip(1) =~= old(self).pending().skip(n + 1));
                assert(before_depths.skip(1) =~= old(self).pending_depths().skip(n + 1));
                assert(res@ == before[0]);
                assert(res@ == old(self).pending()[n]);
                assert(d == old(self).pending_depths()[n]);
                assert forall|i: int| 0 <= i < self.pending_depths().len() implies d <= (
                #[trigger] self.pending_depths()[i]) <= d + 1 by {
                    assert(self.pending_depths()[i] == before_depths[i + 1]);
                }
                assert(ascending(self.pending_depths())) by {
                    assert forall|i: int, j: int|
                        0 <= i <= j < self.pending_depths().len() implies self.pending_depths()[i]
                        <= self.pending_depths()[j] by {
                        assert(self.pending_depths()[i] == before_depths[i + 1]);
                        assert(self.pending_depths()[j] == before_depths[j + 1]);
                    }
                }
            }
            if contains_res(&self.seen, &res) {
                proof {
                    n = n + 1;
                }
                continue;
            }
            let dir = cache.index_dir(&res);
            let lock = match cache.claim(dir.as_str()) {
                Some(lock) => lock,
                None => {
                    proof {
                        n = n + 1;
                    }
                    continue;
                },
            };
            self.current = Some(res.clone());
            return Some(Visit { res, dir: lock });
        }
    }

    /// Reports that the visited index was loaded and names `depends`.
    /// The index is taken, and what it names queues up behind everything
    /// that is pending.
    pub fn loaded(&mut self, depends: &Vec<DirectRes>)
        requires
            old(self).wf(),
            old(self).visiting() is Some,
        ensures
            final(self).wf(),
            final(self).visiting() is None,
            final(self).found() == old(self).found().push(old(self).visiting().unwrap()),
            final(self).depths() == old(self).depths().push(old(self).level()),
            final(self).pending() == old(self).pending() + res_views(depends@),
            final(self).pending_depths() == old(self).pending_depths() + repeated(
                old(self).level() + 1,
                depends@.len(),
            ),
            final(self).level() == old(self).level(),
    {
        let res = match self.current.take() {
            Some(res) => res,
            None => {
                return ;
            },
        };
        self.seen.push(res);
        proof {
            self.seen_depth@ = self.seen_depth@.push(self.level@);
            assert(self.found() =~= old(self).found().push(old(self).visiting().unwrap()));
        }
        let mut i: usize = 0;
        while i < depends.len()
            invariant
                i <= depends.len(),
                self.wf(),
                self.visiting() is None,
                self.found() == old(self).found().push(old(self).visiting().unwrap()),
                self.depths() == old(self).depths().push(old(self).level()),
                self.level() == old(self).level(),
                self.pending() == old(self).pending() + res_views(depends@.take(i as int)),
                self.pending_depths() == old(self).pending_depths() + repeated(
                    old(self).level() + 1,
                    i as nat,
                ),
            decreases depends.len() - i,
        {
            let ghost before = self.pending_depths();
            let ghost queued = self.queue@;
            let item = depends[i].clone();
            proof {
                lemma_res_views_push(queued, item);
                lemma_res_views_push(depends@.take(i as int), depends@[i as int]);
                assert(depends@.take(i as int + 1) =~= depends@.take(i as int).push(
                    depends@[i as int],
                ));
            }
            self.queue.push_back(item);
            proof {
                self.queue_depth@ = self.queue_depth@.push(self.level@ + 1);
                assert(self.pending() =~= old(self).pending() + res_views(
                    depends@.take(i as int + 1),
                ));
                assert(self.pending_depths() =~= old(self).pending_depths() + repeated(
                    old(self).level() + 1,
                    (i + 1) as nat,
                ));
                assert(self.pending_depths() =~= before.push(self.level() + 1));
                assert(ascending(self.pending_depths())) by {
                    assert forall|a: int, b: int|
                        0 <= a <= b < self.pending_depths().len() implies self.pending_depths()[a]
                        <= self.pending_depths()[b] by {
                        if b < before.len() {
                            assert(self.pending_depths()[a] == before[a]);
                            assert(self.pending_depths()[b] == before[b]);
                        } else if a < before.len() {
                            assert(self.pending_depths()[a] == before[a]);
                        }
                    }
                }
                assert forall|a: int| 0 <= a < self.pending_depths().len() implies self.level()
                    <= (#[trigger] self.pending_depths()[a]) <= self.level() + 1 by {
                    if a < before.len() {
                        assert(self.pending_depths()[a] == before[a]);
                    }
                }
            }
            i += 1;
        }
        proof {
            assert(depends@.take(i as int) =~= depends@);
        }
    }

    /// Reports that the visited index could not be had: its directory could
    /// not be readied, or what is in it is no index. The claim is released,
    /// nothing is taken, and the walk goes on.
    pub fn skipped(&mut self, cache: &mut Cache, dir: DirLock)
        requires
            old(self).wf(),
            old(cache).wf(),
        ensures
            final(self).wf(),
            final(cache).wf(),
            final(cache).root() == old(cache).root(),
            final(self).visiting() is None,
            final(self).found() == old(self).found(),
            final(self).depths() == old(self).depths(),
            final(self).pending() == old(self).pending(),
            final(self).pending_depths() == old(self).pending_depths(),
            final(self).level() == old(self).level(),
            forall|p: Seq<char>| final(cache).holds(p) <==> (old(cache).holds(p) && p != dir@),
    {
        self.current = None;
        cache.release(dir);
    }

    /// The indices taken, in the order in which they were taken: earlier
    /// ones take precedence where a package is in several.
    pub fn found_list(&self) -> (list: &Vec<DirectRes>)
        ensures
            res_views(list@) == self.found(),
    {
        &self.seen
    }

    /// Ends the walk and hands out the indices taken, in order.
    pub fn finish(self) -> (list: Vec<DirectRes>)
        ensures
            res_views(list@) == self.found(),
    {
        self.seen
    }
}

impl Cache {
    /// Starts the discovery of all indices that `index_reses` lead to.
    pub fn get_indices(&self, index_reses: &[DirectRes]) -> (walk: IndexWalk)
        ensures
            walk.wf(),
            walk.pending() == res_views(index_reses@),
            walk.pending_depths() == repeated(0, index_reses@.len()),
            walk.found() == Seq::<ResView>::empty(),
            walk.depths() == Seq::<nat>::empty(),
            walk.visiting() is None,
            walk.level() == 0,
    {
        let mut queue: VecDeque<DirectRes> = VecDeque::new();
        let mut i: usize = 0;
        while i < index_reses.len()
            invariant
                i <= index_reses.len(),
                res_views(queue@) == res_views(index_reses@.take(i as int)),
            decreases index_reses.len() - i,
        {
            let ghost queued = queue@;
            let item = index_reses[i].clone();
            proof {
                lemma_res_views_push(queued, item);
                lemma_res_views_push(index_reses@.take(i as int), index_reses@[i as int]);
                assert(index_reses@.take(i as int + 1) =~= index_reses@.take(i as int).push(
                    index_reses@[i as int],
                ));
            }
            queue.push_back(item);
            i += 1;
        }
        proof {
            assert(index_reses@.take(i as int) =~= index_reses@);
        }
        let walk = IndexWalk {
            queue,
            seen: Vec::new(),
            current: None,
            queue_depth: Ghost(repeated(0, index_reses@.len())),
            seen_depth: Ghost(Seq::<nat>::empty()),
            level: Ghost(0),
        };
        proof {
            assert(walk.found() =~= Seq::<ResView>::empty());
        }
        walk
    }
}

/// Discovery is breadth-first and takes nothing twice: the indices taken
/// are pairwise distinct, and none was taken before one that lies nearer to
/// the declared indices.
pub proof fn lemma_discovery_is_breadth_first(walk: IndexWalk)
    requires
        walk.wf(),
    ensures
        walk.found().no_duplicates(),
        walk.depths().len() == walk.found().len(),
        forall|i: int, j: int|
            0 <= i <= j < walk.found().len() ==> walk.depths()[i] <= walk.depths()[j],
{
}

} // verus!
