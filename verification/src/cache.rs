use vstd::prelude::*;

use crate::node::NodeId;

verus! {

/// One durable record of a resolved parent/child edge: under `parent`, the
/// name `name` was seen to denote the node `child`.
pub struct Edge {
    pub parent: NodeId,
    pub name: String,
    pub child: NodeId,
}

/// The lookup a sequence of edges defines: the most recently inserted row
/// for `(parent, name)` wins, so duplicate historical rows never make a
/// lookup ambiguous.
pub open spec fn edges_get(edges: Seq<Edge>, parent: Seq<char>, name: Seq<char>) -> Option<
    Seq<char>,
>
    decreases edges.len(),
{
    if edges.len() == 0 {
        None
    } else if edges.last().parent@ == parent && edges.last().name@ == name {
        Some(edges.last().child@)
    } else {
        edges_get(edges.drop_last(), parent, name)
    }
}

/// The local path-resolution cache: an append-only table of parent/name to
/// child mappings. Rows are never updated in place, never evicted and never
/// expire; a lookup returns the most recently inserted row for its key.
pub struct NodeCache {
    edges: Vec<Edge>,
}

impl View for NodeCache {
    type V = Seq<Edge>;

    closed spec fn view(&self) -> Seq<Edge> {
        self.edges@
    }
}

impl NodeCache {
    pub fn new() -> (r: NodeCache)
        ensures
            r@ == Seq::<Edge>::empty(),
    {
        NodeCache { edges: Vec::new() }
    }

    /// Durable insert; prior rows are kept untouched.
    pub fn put(&mut self, parent: &NodeId, name: &String, child: &NodeId)
        ensures
            final(self)@.len() == old(self)@.len() + 1,
            final(self)@.last().parent@ == parent@,
            final(self)@.last().name@ == name@,
            final(self)@.last().child@ == child@,
            final(self)@.drop_last() == old(self)@,
            edges_get(final(self)@, parent@, name@) == Some(child@),
    {
        let edge = Edge { parent: parent.clone(), name: name.clone(), child: child.clone() };
        self.edges.push(edge);
        proof {
            assert(self.edges@.drop_last() =~= old(self).edges@);
        }
    }

    /// Cached lookup. Performs no network access and does not distinguish
    /// "never looked up" from "absent on the server": a miss is a miss.
    pub fn get(&self, parent: &NodeId, name: &String) -> (r: Option<NodeId>)
        ensures
            match r {
                Some(child) => edges_get(self@, parent@, name@) == Some(child@),
                None => edges_get(self@, parent@, name@) is None,
            },
    {
        let mut i: usize = self.edges.len();
        proof {
            assert(self.edges@.take(i as int) =~= self.edges@);
        }
        while i > 0
            invariant
                i <= self.edges@.len(),
                edges_get(self.edges@, parent@, name@) == edges_get(
                    self.edges@.take(i as int),
                    parent@,
                    name@,
                ),
            decreases i,
        {
            i = i - 1;
            let edge = &self.edges[i];
            if edge.parent.eq_id(parent) && edge.name == *name {
                proof {
                    assert(self.edges@.take(i as int + 1).last() == self.edges@[i as int]);
                }
                return Some(edge.child.clone());
            }
            proof {
                assert(self.edges@.take(i as int + 1).drop_last() =~= self.edges@.take(i as int));
            }
        }
        proof {
            assert(self.edges@.take(0) =~= Seq::<Edge>::empty());
        }
        None
    }

    pub fn len(&self) -> (r: usize)
        ensures
            r == self@.len(),
    {
        self.edges.len()
    }
}

/// Law: a `put` is immediately visible — after inserting `(parent, name,
/// child)`, looking the pair up returns exactly `child`.
pub proof fn lemma_put_then_get(edges: Seq<Edge>, edge: Edge)
    ensures
        edges_get(edges.push(edge), edge.parent@, edge.name@) == Some(edge.child@),
{
    assert(edges.push(edge).last() == edge);
}

/// Law: an insert for one key never disturbs lookups of any other key, so a
/// cached mapping stays visible across unrelated inserts.
pub proof fn lemma_unrelated_put_preserves_get(
    edges: Seq<Edge>,
    edge: Edge,
    parent: Seq<char>,
    name: Seq<char>,
)
    requires
        edge.parent@ != parent || edge.name@ != name,
    ensures
        edges_get(edges.push(edge), parent, name) == edges_get(edges, parent, name),
{
    assert(edges.push(edge).drop_last() =~= edges);
}

} // verus!
