use vstd::prelude::*;

use crate::cache::{Edge, NodeCache, edges_get};
use crate::node::NodeId;
use crate::paths::{CompView, PathComponent, comps_view};

verus! {

/// Where a walk over a component sequence ends: either every component was
/// satisfied and the walk stands at a node, or the first cache miss was
/// reached.
pub enum WalkResult {
    AtEnd(Seq<char>),
    MissAt { parent: Seq<char>, name: Seq<char>, at: int },
}

/// Resolution against the cache alone: process components left to right; a
/// root marker resets to `root`, a current-directory marker is a no-op, and
/// a name advances through the cached edge for `(current, name)` — or stops
/// at the first miss.
pub open spec fn spec_walk(
    cache: Seq<Edge>,
    root: Seq<char>,
    cur: Seq<char>,
    comps: Seq<CompView>,
    i: int,
) -> WalkResult
    decreases comps.len() - i,
{
    if i >= comps.len() {
        WalkResult::AtEnd(cur)
    } else {
        match comps[i] {
            CompView::Root => spec_walk(cache, root, root, comps, i + 1),
            CompView::Cur => spec_walk(cache, root, cur, comps, i + 1),
            CompView::Name(n) => match edges_get(cache, cur, n) {
                Some(c) => spec_walk(cache, root, c, comps, i + 1),
                None => WalkResult::MissAt { parent: cur, name: n, at: i },
            },
        }
    }
}

/// Every name component along the walk is satisfied by the cache.
pub open spec fn fully_cached(
    cache: Seq<Edge>,
    root: Seq<char>,
    cur: Seq<char>,
    comps: Seq<CompView>,
    i: int,
) -> bool
    decreases comps.len() - i,
{
    if i >= comps.len() {
        true
    } else {
        match comps[i] {
            CompView::Root => fully_cached(cache, root, root, comps, i + 1),
            CompView::Cur => fully_cached(cache, root, cur, comps, i + 1),
            CompView::Name(n) => match edges_get(cache, cur, n) {
                Some(c) => fully_cached(cache, root, c, comps, i + 1),
                None => false,
            },
        }
    }
}

/// One in-progress path resolution: the parsed components, the position
/// reached so far, and the node the walk currently stands on.
pub struct Walker {
    pub root: NodeId,
    pub start: NodeId,
    pub comps: Vec<PathComponent>,
    pub idx: usize,
    pub current: NodeId,
}

/// What `advance` reports: either the walk consumed every component, or it
/// stands at a component whose edge the cache does not hold and a remote
/// lookup (or folder creation) is needed.
#[derive(Debug)]
pub enum Advance {
    AtEnd(NodeId),
    Miss { parent: NodeId, name: String },
}

/// Answer to the walker after a remote lookup for a missing component.
#[derive(Debug)]
pub enum ResolveProgress {
    /// The child was found and cached; the walk may continue.
    Continue,
    /// The server has no such child: the whole resolution ends as "not
    /// found" (which is an answer, not an error).
    NotFound,
}

impl Walker {
    pub open spec fn wf(self) -> bool {
        self.idx <= self.comps@.len()
    }

    /// Re-walking from the start with this cache reaches exactly the
    /// position the walker stands at.
    pub open spec fn consistent(self, cache: Seq<Edge>) -> bool {
        spec_walk(cache, self.root@, self.start@, comps_view(self.comps@), 0) == spec_walk(
            cache,
            self.root@,
            self.current@,
            comps_view(self.comps@),
            self.idx as int,
        )
    }

    /// The walker stands at a name component whose edge the cache lacks.
    pub open spec fn at_miss(self, cache: Seq<Edge>) -> bool {
        &&& self.idx < self.comps@.len()
        &&& self.comps@[self.idx as int]@ matches CompView::Name(n) && edges_get(
            cache,
            self.current@,
            n,
        ) is None
    }

    /// Begin resolving `comps` from `origin` (or from the root when no
    /// origin is given).
    pub fn start_walk(root: &NodeId, origin: Option<&NodeId>, comps: Vec<PathComponent>) -> (w:
        Walker)
        ensures
            w.wf(),
            w.root@ == root@,
            w.comps@ == comps@,
            w.idx == 0,
            w.current@ == w.start@,
            w.start@ == match origin {
                Some(o) => o@,
                None => root@,
            },
            forall|cache: Seq<Edge>| #[trigger] w.consistent(cache),
    {
        let s = match origin {
            Some(o) => o.clone(),
            None => root.clone(),
        };
        Walker { root: root.clone(), start: s.clone(), comps, idx: 0, current: s }
    }

    /// Walk as far as the cache allows: consume root and current-directory
    /// markers and every cached name, stopping at the end of the path or at
    /// the first miss. Consults only the cache — never the network.
    pub fn advance(&mut self, cache: &NodeCache) -> (r: Advance)
        requires
            old(self).wf(),
            old(self).consistent(cache@),
        ensures
            final(self).wf(),
            final(self).consistent(cache@),
            final(self).root@ == old(self).root@,
            final(self).start@ == old(self).start@,
            final(self).comps@ == old(self).comps@,
            match r {
                Advance::AtEnd(id) => {
                    &&& spec_walk(
                        cache@,
                        old(self).root@,
                        old(self).start@,
                        comps_view(old(self).comps@),
                        0,
                    ) == WalkResult::AtEnd(id@)
                    &&& final(self).idx == final(self).comps@.len()
                    &&& final(self).current@ == id@
                },
                Advance::Miss { parent, name } => {
                    &&& spec_walk(
                        cache@,
                        old(self).root@,
                        old(self).start@,
                        comps_view(old(self).comps@),
                        0,
                    ) == (WalkResult::MissAt {
                        parent: parent@,
                        name: name@,
                        at: final(self).idx as int,
                    })
                    &&& final(self).at_miss(cache@)
                    &&& final(self).current@ == parent@
                },
            },
    {
        loop
            invariant
                self.wf(),
                self.consistent(cache@),
                self.root@ == old(self).root@,
                self.start@ == old(self).start@,
                self.comps@ == old(self).comps@,
            ensures
                self.wf(),
                self.consistent(cache@),
                self.root@ == old(self).root@,
                self.start@ == old(self).start@,
                self.comps@ == old(self).comps@,
                self.idx == self.comps@.len(),
            decreases self.comps@.len() - self.idx,
        {
            if self.idx >= self.comps.len() {
                break;
            }
            proof {
                assert(comps_view(self.comps@)[self.idx as int] == self.comps@[self.idx as int]@);
            }
            match &self.comps[self.idx] {
                PathComponent::Root => {
                    self.current = self.root.clone();
                    self.idx = self.idx + 1;
                },
                PathComponent::Cur => {
                    self.idx = self.idx + 1;
                },
                PathComponent::Name(n) => {
                    match cache.get(&self.current, n) {
                        Some(child) => {
                            let ghost pre = *self;
                            self.current = child;
                            self.idx = self.idx + 1;
                            proof {
                                assert(spec_walk(
                                    cache@,
                                    pre.root@,
                                    pre.current@,
                                    comps_view(pre.comps@),
                                    pre.idx as int,
                                ) == spec_walk(
                                    cache@,
                                    self.root@,
                                    self.current@,
                                    comps_view(self.comps@),
                                    self.idx as int,
                                ));
                            }
                        },
                        None => {
                            return Advance::Miss {
                                parent: self.current.clone(),
                                name: n.clone(),
                            };
                        },
                    }
                },
            }
        }
        Advance::AtEnd(self.current.clone())
    }

    /// Feed the walker the result of the remote lookup for the component it
    /// is stuck on. A found child is inserted into the cache (exactly one
    /// new edge) and the walk advances past the component; zero matches end
    /// the resolution as "not found" and touch neither cache nor walker.
    pub fn supply_lookup(&mut self, cache: &mut NodeCache, found: &Vec<NodeId>) -> (r:
        ResolveProgress)
        requires
            old(self).wf(),
            old(self).consistent(old(cache)@),
            old(self).at_miss(old(cache)@),
        ensures
            final(self).wf(),
            final(self).consistent(final(cache)@),
            final(self).root@ == old(self).root@,
            final(self).start@ == old(self).start@,
            final(self).comps@ == old(self).comps@,
            found@.len() == 0 ==> {
                &&& r is NotFound
                &&& final(cache)@ == old(cache)@
                &&& final(self).idx == old(self).idx
                &&& final(self).current@ == old(self).current@
            },
            found@.len() > 0 ==> {
                &&& r is Continue
                &&& final(cache)@.len() == old(cache)@.len() + 1
                &&& final(cache)@.drop_last() == old(cache)@
                &&& final(cache)@.last().parent@ == old(self).current@
                &&& comps_view(old(self).comps@)[old(self).idx as int] == CompView::Name(
                    final(cache)@.last().name@,
                )
                &&& final(cache)@.last().child@ == found@[0]@
                &&& final(self).idx == old(self).idx + 1
                &&& final(self).current@ == found@[0]@
            },
    {
        if found.len() == 0 {
            return ResolveProgress::NotFound;
        }
        let child = found[0].clone();
        self.supply_found(cache, &child);
        ResolveProgress::Continue
    }

    /// Feed the walker the child node that satisfies the component it is
    /// stuck on (discovered by lookup or created as a folder): the edge is
    /// cached and the walk advances past the component.
    pub fn supply_found(&mut self, cache: &mut NodeCache, child: &NodeId)
        requires
            old(self).wf(),
            old(self).consistent(old(cache)@),
            old(self).at_miss(old(cache)@),
        ensures
            final(self).wf(),
            final(self).consistent(final(cache)@),
            final(self).root@ == old(self).root@,
            final(self).start@ == old(self).start@,
            final(self).comps@ == old(self).comps@,
            final(cache)@.len() == old(cache)@.len() + 1,
            final(cache)@.drop_last() == old(cache)@,
            final(cache)@.last().parent@ == old(self).current@,
            comps_view(old(self).comps@)[old(self).idx as int] == CompView::Name(
                final(cache)@.last().name@,
            ),
            final(cache)@.last().child@ == child@,
            final(self).idx == old(self).idx + 1,
            final(self).current@ == child@,
    {
        proof {
            assert(comps_view(self.comps@)[self.idx as int] == self.comps@[self.idx as int]@);
        }
        let name: String = match &self.comps[self.idx] {
            PathComponent::Name(s) => s.clone(),
            PathComponent::Root => {
                proof {
                    assert(false);
                }
                String::new()
            },
            PathComponent::Cur => {
                proof {
                    assert(false);
                }
                String::new()
            },
        };
        let n_comps = self.comps.len();
        let ghost pre = *self;
        let ghost pre_cache = cache@;
        cache.put(&self.current, &name, child);
        proof {
            let edge = cache@.last();
            assert(cache@ =~= pre_cache.push(edge));
            assert(comps_view(pre.comps@)[pre.idx as int] == CompView::Name(edge.name@));
            assert(edges_get(pre_cache, edge.parent@, edge.name@) is None);
            assert(spec_walk(pre_cache, pre.root@, pre.current@, comps_view(pre.comps@), pre.idx as int)
                == (WalkResult::MissAt { parent: pre.current@, name: edge.name@, at: pre.idx as int }));
            lemma_walk_push_fresh(
                pre_cache,
                edge,
                pre.root@,
                pre.start@,
                comps_view(pre.comps@),
                0,
            );
        }
        self.current = child.clone();
        assert(self.idx < n_comps);
        self.idx = self.idx + 1;
    }
}

/// Pushing an edge whose key the cache did not know leaves every hit of a
/// walk unchanged: the walk either ends where it ended, or — if it was
/// stuck exactly on the pushed key — continues through the new edge.
proof fn lemma_walk_push_fresh(
    cache: Seq<Edge>,
    edge: Edge,
    root: Seq<char>,
    cur: Seq<char>,
    comps: Seq<CompView>,
    i: int,
)
    requires
        edges_get(cache, edge.parent@, edge.name@) is None,
    ensures
        spec_walk(cache.push(edge), root, cur, comps, i) == (match spec_walk(
            cache,
            root,
            cur,
            comps,
            i,
        ) {
            WalkResult::AtEnd(c) => WalkResult::AtEnd(c),
            WalkResult::MissAt { parent, name, at } => {
                if parent == edge.parent@ && name == edge.name@ {
                    spec_walk(cache.push(edge), root, edge.child@, comps, at + 1)
                } else {
                    WalkResult::MissAt { parent, name, at }
                }
            },
        }),
    decreases comps.len() - i,
{
    if i >= comps.len() {
    } else {
        match comps[i] {
            CompView::Root => {
                lemma_walk_push_fresh(cache, edge, root, root, comps, i + 1);
            },
            CompView::Cur => {
                lemma_walk_push_fresh(cache, edge, root, cur, comps, i + 1);
            },
            CompView::Name(n) => {
                if cur == edge.parent@ && n == edge.name@ {
                    crate::cache::lemma_put_then_get(cache, edge);
                } else {
                    crate::cache::lemma_unrelated_put_preserves_get(cache, edge, cur, n);
                    match edges_get(cache, cur, n) {
                        Some(c) => {
                            lemma_walk_push_fresh(cache, edge, root, c, comps, i + 1);
                        },
                        None => {},
                    }
                }
            },
        }
    }
}

/// Law: a walk ends at a node (rather than at a miss) exactly when every
/// name component along it is already cached — so a fully cached path
/// resolves with zero remote lookups.
pub proof fn lemma_fully_cached_iff_no_miss(
    cache: Seq<Edge>,
    root: Seq<char>,
    cur: Seq<char>,
    comps: Seq<CompView>,
    i: int,
)
    ensures
        fully_cached(cache, root, cur, comps, i) <==> spec_walk(cache, root, cur, comps, i)
            is AtEnd,
    decreases comps.len() - i,
{
    if i >= comps.len() {
    } else {
        match comps[i] {
            CompView::Root => {
                lemma_fully_cached_iff_no_miss(cache, root, root, comps, i + 1);
            },
            CompView::Cur => {
                lemma_fully_cached_iff_no_miss(cache, root, cur, comps, i + 1);
            },
            CompView::Name(n) => {
                match edges_get(cache, cur, n) {
                    Some(c) => {
                        lemma_fully_cached_iff_no_miss(cache, root, c, comps, i + 1);
                    },
                    None => {},
                }
            },
        }
    }
}

/// Law: a walk never reports a miss behind its own position, so successive
/// misses of one resolution strike strictly later components: each
/// component needs at most one remote lookup.
pub proof fn lemma_miss_at_bound(
    cache: Seq<Edge>,
    root: Seq<char>,
    cur: Seq<char>,
    comps: Seq<CompView>,
    i: int,
)
    requires
        0 <= i,
    ensures
        spec_walk(cache, root, cur, comps, i) matches WalkResult::MissAt { at, .. } ==> i <= at
            < comps.len(),
    decreases comps.len() - i,
{
    if i >= comps.len() {
    } else {
        match comps[i] {
            CompView::Root => {
                lemma_miss_at_bound(cache, root, root, comps, i + 1);
            },
            CompView::Cur => {
                lemma_miss_at_bound(cache, root, cur, comps, i + 1);
            },
            CompView::Name(n) => {
                match edges_get(cache, cur, n) {
                    Some(c) => {
                        lemma_miss_at_bound(cache, root, c, comps, i + 1);
                    },
                    None => {},
                }
            },
        }
    }
}

/// Law: from any position a walker stands at, a further miss of the same
/// resolution can only strike the component it stands on or a later one —
/// so after `supply_found` advances past a component, that component is
/// never looked up again.
pub proof fn lemma_next_miss_is_not_earlier(w: Walker, cache: Seq<Edge>)
    requires
        w.wf(),
        w.consistent(cache),
    ensures
        spec_walk(cache, w.root@, w.start@, comps_view(w.comps@), 0) matches WalkResult::MissAt {
            at,
            ..
        } ==> at >= w.idx,
{
    lemma_miss_at_bound(cache, w.root@, w.current@, comps_view(w.comps@), w.idx as int);
}

/// Law: once a resolution has consumed every component, the cache holds the
/// whole path — re-walking the same components from the same start with the
/// same cache ends at the same node with no miss, so a repeated resolution
/// is fully cache-satisfied and returns the same identifier.
pub proof fn lemma_completed_walk_repeats(w: Walker, cache: Seq<Edge>)
    requires
        w.wf(),
        w.consistent(cache),
        w.idx == w.comps@.len(),
    ensures
        spec_walk(cache, w.root@, w.start@, comps_view(w.comps@), 0) == WalkResult::AtEnd(
            w.current@,
        ),
        fully_cached(cache, w.root@, w.start@, comps_view(w.comps@), 0),
{
    lemma_fully_cached_iff_no_miss(cache, w.root@, w.start@, comps_view(w.comps@), 0);
}

/// The post-lookup half of a single child lookup: zero matches is "not
/// found" and inserts nothing; otherwise the first match is inserted into
/// the cache as the edge for `(parent, name)` and returned.
pub fn record_lookup(
    cache: &mut NodeCache,
    parent: &NodeId,
    name: &String,
    found: &Vec<NodeId>,
) -> (r: Option<NodeId>)
    ensures
        found@.len() == 0 ==> r is None && final(cache)@ == old(cache)@,
        found@.len() > 0 ==> {
            &&& r matches Some(id) && id@ == found@[0]@
            &&& final(cache)@.len() == old(cache)@.len() + 1
            &&& final(cache)@.drop_last() == old(cache)@
            &&& final(cache)@.last().parent@ == parent@
            &&& final(cache)@.last().name@ == name@
            &&& final(cache)@.last().child@ == found@[0]@
            &&& edges_get(final(cache)@, parent@, name@) == Some(found@[0]@)
        },
{
    if found.len() == 0 {
        None
    } else {
        let child = found[0].clone();
        cache.put(parent, name, &child);
        Some(child)
    }
}

} // verus!
