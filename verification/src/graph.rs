//! Depth-bounded acyclicity of small adjacency-list graphs.

use vstd::prelude::*;

verus! {

/// Every node reachable from `i` exists, and every path starting at `i`
/// visits at most `k` nodes. A cycle reachable from `i` makes this false
/// for every `k`.
pub open spec fn depth_ok(edges: Seq<Seq<usize>>, i: int, k: nat) -> bool
    decreases k,
{
    &&& 0 <= i < edges.len()
    &&& forall|j: int| 0 <= j < edges[i].len() ==> k > 1 && depth_ok(edges, #[trigger] edges[i][j] as int, (k - 1) as nat)
}

/// Every path of the graph stays within `maximum` nodes and within range.
pub open spec fn graph_bounded(edges: Seq<Seq<usize>>, maximum: nat) -> bool {
    forall|i: int| 0 <= i < edges.len() ==> #[trigger] depth_ok(edges, i, maximum)
}

pub open spec fn adjacency(edges: Seq<Vec<usize>>) -> Seq<Seq<usize>> {
    edges.map_values(|children: Vec<usize>| children@)
}

/// Whether every path in `edges` has at most `maximum_depth` nodes and every
/// edge names an existing node. The check proceeds level by level: after
/// round `d`, `within[i]` records whether every path from `i` has at most `d`
/// nodes, which takes `maximum_depth` passes over the edges.
pub fn bounded_graph_is_valid(edges: &Vec<Vec<usize>>, maximum_depth: usize) -> (r: bool)
    ensures
        r == graph_bounded(adjacency(edges@), maximum_depth as nat),
{
    if maximum_depth == 0 {
        proof {
            let g = adjacency(edges@);
            assert forall|i: int| 0 <= i < g.len() implies #[trigger] depth_ok(g, i, 0) == depth_ok(g, i, 1) by {
                if g[i].len() > 0 {
                    let child = g[i][0];
                    assert(!(0nat > 1 && depth_ok(g, child as int, 0)));
                    assert(!(1nat > 1 && depth_ok(g, child as int, 0)));
                    assert(!depth_ok(g, i, 0));
                    assert(!depth_ok(g, i, 1));
                }
            }
            if graph_bounded(g, 0) {
                assert forall|i: int| 0 <= i < g.len() implies #[trigger] depth_ok(g, i, 1) by {
                    assert(depth_ok(g, i, 0));
                }
            }
            if graph_bounded(g, 1) {
                assert forall|i: int| 0 <= i < g.len() implies #[trigger] depth_ok(g, i, 0) by {
                    assert(depth_ok(g, i, 1));
                }
            }
        }
        return bounded_graph_within(edges, 1);
    }
    bounded_graph_within(edges, maximum_depth)
}

#[verifier::loop_isolation(false)]
fn bounded_graph_within(edges: &Vec<Vec<usize>>, maximum_depth: usize) -> (r: bool)
    requires
        maximum_depth >= 1,
    ensures
        r == graph_bounded(adjacency(edges@), maximum_depth as nat),
{
    let ghost g = adjacency(edges@);
    let n = edges.len();
    assert(g.len() == n);
    let mut within: Vec<bool> = Vec::new();
    while within.len() < n
        invariant
            within@.len() <= n,
            forall|i: int| 0 <= i < within@.len() ==> within@[i] == depth_ok(g, i, 1),
        decreases n - within.len(),
    {
        let i = within.len();
        proof {
            assert(g.len() == edges@.len());
            assert(g[i as int] == edges@[i as int]@);
            assert(depth_ok(g, i as int, 1) == (g[i as int].len() == 0)) by {
                reveal_with_fuel(depth_ok, 2);
                if g[i as int].len() > 0 {
                    let child = g[i as int][0];
                    assert(!(1nat > 1 && depth_ok(g, child as int, 0)));
                    assert(!depth_ok(g, i as int, 1));
                } else {
                    assert(depth_ok(g, i as int, 1));
                }
            }
        }
        within.push(edges[i].len() == 0);
    }
    let mut level: usize = 1;
    while level < maximum_depth
        invariant
            1 <= level <= maximum_depth,
            within@.len() == n,
            forall|i: int| 0 <= i < n ==> within@[i] == depth_ok(g, i, level as nat),
        decreases maximum_depth - level,
    {
        let mut next: Vec<bool> = Vec::new();
        while next.len() < n
            invariant
                next@.len() <= n,
                within@.len() == n,
                forall|i: int| 0 <= i < n ==> within@[i] == depth_ok(g, i, level as nat),
                forall|i: int| 0 <= i < next@.len() ==> next@[i] == depth_ok(g, i, (level + 1) as nat),
            decreases n - next.len(),
        {
            let i = next.len();
            let children = &edges[i];
            assert(g[i as int] == children@);
            let mut all = true;
            let mut j: usize = 0;
            while j < children.len()
                invariant
                    j <= children@.len(),
                    all == forall|m: int| 0 <= m < j ==> (#[trigger] children@[m]) < n && within@[children@[m] as int],
                decreases children.len() - j,
            {
                let child = children[j];
                if child >= n || !within[child] {
                    all = false;
                }
                j = j + 1;
            }
            proof {
                if all {
                    assert forall|m: int| 0 <= m < g[i as int].len() implies (level + 1) as nat > 1 && depth_ok(g, #[trigger] g[i as int][m] as int, ((level + 1) - 1) as nat) by {
                        assert(children@[m] < n && within@[children@[m] as int]);
                    }
                } else {
                    let m = choose|m: int| 0 <= m < j && !((#[trigger] children@[m]) < n && within@[children@[m] as int]);
                    assert(!depth_ok(g, g[i as int][m] as int, level as nat));
                }
            }
            next.push(all);
        }
        within = next;
        level = level + 1;
    }
    let mut all = true;
    let mut i: usize = 0;
    while i < n
        invariant
            i <= n,
            within@.len() == n,
            all == forall|m: int| 0 <= m < i ==> #[trigger] within@[m],
        decreases n - i,
    {
        if !within[i] {
            all = false;
        }
        i = i + 1;
    }
    proof {
        if !all {
            let m = choose|m: int| 0 <= m < n && !#[trigger] within@[m];
            assert(!depth_ok(g, m, maximum_depth as nat));
        } else {
            assert forall|m: int| 0 <= m < g.len() implies #[trigger] depth_ok(g, m, maximum_depth as nat) by {
                assert(within@[m]);
            }
        }
    }
    all
}

} // verus!
