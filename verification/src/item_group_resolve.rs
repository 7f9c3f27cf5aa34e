//! Bottom-up resolution of item-group node states: every round evaluates
//! each pending node whose references are all recorded, until a round
//! records nothing new.

use vstd::prelude::*;

use crate::item_group_eval::{
    attempt_contents, attempt_entries, attempt_node, attempt_target, empty_contents, group_index, group_state,
    lemma_attempt_node_sound, lemma_group_index, local_ok, local_stuck, named_stuck, states_ok, NodeState,
};
use crate::item_group_metrics::{
    accumulate_entry, empty_item_group_metrics, evaluate_entry, finish_graph_metrics,
    item_group_item_metrics, ContentsSummary, };
use crate::item_group_shape::{find_node, sorted_node_ids};
use crate::item_group_types::{
    ItemGroupContentsSourceV1, ItemGroupDefinitionV1, ItemGroupGraphV1, ItemGroupTargetV1,
};
use crate::text::str_eq;

verus! {

pub open spec fn rows_view(states: Seq<Vec<NodeState>>) -> Seq<Seq<NodeState>> {
    states.map_values(|row: Vec<NodeState>| row@)
}

/// One row of states per definition, one state per node.
pub open spec fn rows_fit(defs: Seq<ItemGroupDefinitionV1>, states: Seq<Seq<NodeState>>) -> bool {
    &&& states.len() == defs.len()
    &&& forall|g: int| 0 <= g < defs.len() ==> (#[trigger] states[g]).len() == defs[g].graph.nodes@.len()
}

pub open spec fn graphs_sorted(defs: Seq<ItemGroupDefinitionV1>) -> bool {
    forall|g: int| 0 <= g < defs.len() ==> sorted_node_ids((#[trigger] defs[g]).graph.nodes@)
}

/// The first definition named `id`.
pub fn find_group(defs: &[ItemGroupDefinitionV1], id: &str) -> (r: Option<usize>)
    ensures
        r matches Some(j) ==> j < defs@.len() && group_index(defs@, id@) == Some(j as int),
        r is None ==> group_index(defs@, id@) is None,
{
    proof {
        lemma_group_index(defs@, id@);
    }
    let mut i: usize = 0;
    while i < defs.len()
        invariant
            i <= defs@.len(),
            forall|k: int| 0 <= k < i ==> (#[trigger] defs@[k]).group_id@ != id@,
        decreases defs.len() - i,
    {
        if str_eq(defs[i].group_id.as_str(), id) {
            return Some(i);
        }
        i = i + 1;
    }
    None
}

pub fn recorded_group_state(defs: &[ItemGroupDefinitionV1], states: &Vec<Vec<NodeState>>, j: usize) -> (r: NodeState)
    requires
        j < defs@.len(),
        rows_fit(defs@, rows_view(states@)),
        graphs_sorted(defs@),
    ensures
        r == group_state(defs@, rows_view(states@), j as int),
{
    let graph = &defs[j].graph;
    assert(sorted_node_ids(defs@[j as int].graph.nodes@));
    match find_node(&graph.nodes, graph.root_node) {
        None => Some(None),
        Some(r) => {
            assert(rows_view(states@)[j as int].len() == defs@[j as int].graph.nodes@.len());
            match states[j][r] {
                None => None,
                Some(None) => Some(None),
                Some(Some(m)) => Some(finish_graph_metrics(m, &graph.wrapper)),
            }
        },
    }
}

fn recorded_target(
    defs: &[ItemGroupDefinitionV1],
    states: &Vec<Vec<NodeState>>,
    graph: &ItemGroupGraphV1,
    local: &Vec<NodeState>,
    target: &ItemGroupTargetV1,
) -> (r: NodeState)
    requires
        rows_fit(defs@, rows_view(states@)),
        graphs_sorted(defs@),
        sorted_node_ids(graph.nodes@),
        local@.len() == graph.nodes@.len(),
    ensures
        r == attempt_target(defs@, rows_view(states@), *graph, local@, *target),
{
    match target {
        ItemGroupTargetV1::Item(item) => Some(Some(item_group_item_metrics(item))),
        ItemGroupTargetV1::Group(id) => match find_group(defs, id.as_str()) {
            None => Some(None),
            Some(j) => recorded_group_state(defs, states, j),
        },
        ItemGroupTargetV1::Node(id) => match find_node(&graph.nodes, *id) {
            None => Some(None),
            Some(k) => local[k],
        },
    }
}

fn recorded_contents(
    defs: &[ItemGroupDefinitionV1],
    states: &Vec<Vec<NodeState>>,
    contents: &Vec<ItemGroupContentsSourceV1>,
) -> (r: Option<Option<ContentsSummary>>)
    requires
        rows_fit(defs@, rows_view(states@)),
        graphs_sorted(defs@),
    ensures
        r == attempt_contents(defs@, rows_view(states@), contents@, 0, empty_contents()),
{
    let ghost whole = attempt_contents(defs@, rows_view(states@), contents@, 0, empty_contents());
    let mut acc: ContentsSummary = (0, 0, true);
    let mut j: usize = 0;
    while j < contents.len()
        invariant
            j <= contents@.len(),
            rows_fit(defs@, rows_view(states@)),
            graphs_sorted(defs@),
            whole == attempt_contents(defs@, rows_view(states@), contents@, j as nat, acc),
        decreases contents.len() - j,
    {
        let v: NodeState = match &contents[j] {
            ItemGroupContentsSourceV1::Item(item) => Some(Some(item_group_item_metrics(item))),
            ItemGroupContentsSourceV1::Group(id) => match find_group(defs, id.as_str()) {
                None => Some(None),
                Some(g) => recorded_group_state(defs, states, g),
            },
        };
        match v {
            None => {
                return None;
            },
            Some(None) => {
                return Some(None);
            },
            Some(Some(m)) => {
                if m.outputs > u64::MAX - acc.0 {
                    return Some(None);
                }
                let depth = if acc.1 >= m.containment_depth {
                    acc.1
                } else {
                    m.containment_depth
                };
                acc = (acc.0 + m.outputs, depth, acc.2 && m.all_top_level_estorable);
            },
        }
        j = j + 1;
    }
    Some(Some(acc))
}

/// Evaluates node `k` of `graph` against the recorded states; `None` while a
/// needed reference is pending.
pub fn attempt_node_exec(
    defs: &[ItemGroupDefinitionV1],
    states: &Vec<Vec<NodeState>>,
    graph: &ItemGroupGraphV1,
    local: &Vec<NodeState>,
    k: usize,
) -> (r: NodeState)
    requires
        rows_fit(defs@, rows_view(states@)),
        graphs_sorted(defs@),
        sorted_node_ids(graph.nodes@),
        local@.len() == graph.nodes@.len(),
        k < graph.nodes@.len(),
    ensures
        r == attempt_node(defs@, rows_view(states@), *graph, local@, k as int),
{
    let node = &graph.nodes[k];
    let ghost whole = attempt_node(defs@, rows_view(states@), *graph, local@, k as int);
    proof {
        reveal(attempt_node);
    }
    let mut acc = empty_item_group_metrics();
    let mut i: usize = 0;
    while i < node.entries.len()
        invariant
            i <= node.entries@.len(),
            *node == graph.nodes@[k as int],
            rows_fit(defs@, rows_view(states@)),
            graphs_sorted(defs@),
            sorted_node_ids(graph.nodes@),
            local@.len() == graph.nodes@.len(),
            whole == attempt_entries(defs@, rows_view(states@), *graph, local@, node.kind, node.entries@, i as nat, acc),
        decreases node.entries.len() - i,
    {
        let e = &node.entries[i];
        let found = match recorded_target(defs, states, graph, local, &e.target) {
            None => {
                return None;
            },
            Some(None) => {
                return Some(None);
            },
            Some(Some(m)) => m,
        };
        let summary = match recorded_contents(defs, states, &e.contents) {
            None => {
                return None;
            },
            Some(None) => {
                return Some(None);
            },
            Some(Some(s)) => s,
        };
        let outcome = match evaluate_entry(e, found, summary) {
            None => {
                return Some(None);
            },
            Some(o) => o,
        };
        acc = match accumulate_entry(node.kind, acc, outcome) {
            None => {
                return Some(None);
            },
            Some(next) => next,
        };
        i = i + 1;
    }
    Some(Some(acc))
}

// ----- counting pending states -----

pub open spec fn row_pending(row: Seq<NodeState>) -> nat
    decreases row.len(),
{
    if row.len() == 0 {
        0
    } else {
        row_pending(row.drop_last()) + if row.last() is None {
            1nat
        } else {
            0nat
        }
    }
}

pub open spec fn rows_pending(rows: Seq<Seq<NodeState>>) -> nat
    decreases rows.len(),
{
    if rows.len() == 0 {
        0
    } else {
        rows_pending(rows.drop_last()) + row_pending(rows.last())
    }
}

/// `new` records some pending states of `old` and changes nothing else.
pub open spec fn row_refines(old: Seq<NodeState>, new: Seq<NodeState>) -> bool {
    &&& old.len() == new.len()
    &&& forall|k: int| 0 <= k < old.len() ==> (#[trigger] new[k] == old[k] || old[k] is None)
}

proof fn lemma_row_refines(old: Seq<NodeState>, new: Seq<NodeState>)
    requires
        row_refines(old, new),
    ensures
        row_pending(new) <= row_pending(old),
        (exists|k: int| 0 <= k < old.len() && old[k] is None && (#[trigger] new[k]) is Some) ==> row_pending(new)
            < row_pending(old),
    decreases old.len(),
{
    if old.len() > 0 {
        let o = old.drop_last();
        let n = new.drop_last();
        assert(row_refines(o, n)) by {
            assert forall|k: int| 0 <= k < o.len() implies (#[trigger] n[k] == o[k] || o[k] is None) by {
                assert(new[k] == old[k] || old[k] is None);
            }
        }
        lemma_row_refines(o, n);
        if exists|k: int| 0 <= k < old.len() && old[k] is None && (#[trigger] new[k]) is Some {
            let k = choose|k: int| 0 <= k < old.len() && old[k] is None && (#[trigger] new[k]) is Some;
            if k < old.len() - 1 {
                assert(o[k] is None && n[k] is Some);
            }
        }
    }
}

proof fn lemma_rows_update(rows: Seq<Seq<NodeState>>, g: int, row: Seq<NodeState>)
    requires
        0 <= g < rows.len(),
    ensures
        rows_pending(rows.update(g, row)) + row_pending(rows[g]) == rows_pending(rows) + row_pending(row),
    decreases rows.len(),
{
    let updated = rows.update(g, row);
    if g < rows.len() - 1 {
        assert(updated.drop_last() == rows.drop_last().update(g, row));
        lemma_rows_update(rows.drop_last(), g, row);
    } else {
        assert(updated.drop_last() == rows.drop_last());
    }
}

proof fn lemma_rows_view_set(states: Seq<Vec<NodeState>>, g: int, row: Vec<NodeState>)
    requires
        0 <= g < states.len(),
    ensures
        rows_view(states.update(g, row)) == rows_view(states).update(g, row@),
{
    assert(rows_view(states.update(g, row)) =~= rows_view(states).update(g, row@));
}

// ----- resolving the named catalog -----

fn pending_rows(defs: &[ItemGroupDefinitionV1]) -> (states: Vec<Vec<NodeState>>)
    ensures
        rows_fit(defs@, rows_view(states@)),
        forall|g: int, k: int|
            0 <= g < states@.len() && 0 <= k < states@[g]@.len() ==> (#[trigger] rows_view(states@)[g][k]) is None,
{
    let mut states: Vec<Vec<NodeState>> = Vec::new();
    let mut g: usize = 0;
    while g < defs.len()
        invariant
            g <= defs@.len(),
            states@.len() == g,
            forall|h: int| 0 <= h < g ==> (#[trigger] states@[h])@.len() == defs@[h].graph.nodes@.len(),
            forall|h: int, k: int| 0 <= h < g && 0 <= k < states@[h]@.len() ==> (#[trigger] states@[h]@[k]) is None,
        decreases defs.len() - g,
    {
        let mut row: Vec<NodeState> = Vec::new();
        let mut k: usize = 0;
        while k < defs[g].graph.nodes.len()
            invariant
                k <= defs@[g as int].graph.nodes@.len(),
                row@.len() == k,
                forall|j: int| 0 <= j < k ==> (#[trigger] row@[j]) is None,
            decreases defs@[g as int].graph.nodes@.len() - k,
        {
            row.push(None);
            k = k + 1;
        }
        states.push(row);
        g = g + 1;
    }
    states
}

/// Attempts every pending node of `graph` once against the recorded states,
/// returning the refined row and whether anything was recorded.
fn refine_row(
    defs: &[ItemGroupDefinitionV1],
    states: &Vec<Vec<NodeState>>,
    graph: &ItemGroupGraphV1,
    local: &Vec<NodeState>,
) -> (r: (Vec<NodeState>, bool))
    requires
        graphs_sorted(defs@),
        rows_fit(defs@, rows_view(states@)),
        states_ok(defs@, rows_view(states@)),
        sorted_node_ids(graph.nodes@),
        local_ok(defs@, *graph, local@),
    ensures
        row_refines(local@, r.0@),
        local_ok(defs@, *graph, r.0@),
        r.1 ==> row_pending(r.0@) < row_pending(local@),
        !r.1 ==> r.0@ == local@ && local_stuck(defs@, rows_view(states@), *graph, local@),
{
    let ghost before = local@;
    let n = local.len();
    let mut row: Vec<NodeState> = Vec::new();
    let mut changed = false;
    let ghost mut witness: int = 0;
    let mut k: usize = 0;
    while k < n
        invariant
            k <= n == before.len() == graph.nodes@.len(),
            graphs_sorted(defs@),
            sorted_node_ids(graph.nodes@),
            rows_fit(defs@, rows_view(states@)),
            states_ok(defs@, rows_view(states@)),
            local@ == before,
            local_ok(defs@, *graph, before),
            row@.len() == k,
            forall|j: int| 0 <= j < k ==> (#[trigger] row@[j] == before[j] || before[j] is None),
            forall|j: int| 0 <= j < k ==> ((#[trigger] row@[j]) matches Some(v) ==> v == crate::item_group_eval::full_node(defs@, *graph, j)),
            changed ==> 0 <= witness < k && before[witness] is None && row@[witness] is Some,
            !changed ==> forall|j: int| 0 <= j < k ==> #[trigger] row@[j] == before[j],
            !changed ==> forall|j: int|
                0 <= j < k && (#[trigger] before[j]) is None ==> attempt_node(defs@, rows_view(states@), *graph, before, j) is None,
        decreases n - k,
    {
        let current = local[k];
        if current.is_none() {
            let v = attempt_node_exec(defs, states, graph, local, k);
            let progressed = v.is_some();
            proof {
                lemma_attempt_node_sound(defs@, rows_view(states@), *graph, before, k as int);
            }
            row.push(v);
            if progressed {
                proof {
                    witness = k as int;
                }
                changed = true;
            }
        } else {
            row.push(current);
        }
        k = k + 1;
    }
    proof {
        assert(row_refines(before, row@));
        lemma_row_refines(before, row@);
        if !changed {
            assert(row@ =~= before);
        } else {
            assert(before[witness] is None && row@[witness] is Some);
        }
    }
    (row, changed)
}

/// One round over the named catalog: records every pending node that can
/// make progress. Reports whether anything was recorded; if not, the states
/// are unchanged and stuck.
fn named_round(defs: &[ItemGroupDefinitionV1], states: &mut Vec<Vec<NodeState>>) -> (changed: bool)
    requires
        graphs_sorted(defs@),
        rows_fit(defs@, rows_view(old(states)@)),
        states_ok(defs@, rows_view(old(states)@)),
    ensures
        rows_fit(defs@, rows_view(final(states)@)),
        states_ok(defs@, rows_view(final(states)@)),
        changed ==> rows_pending(rows_view(final(states)@)) < rows_pending(rows_view(old(states)@)),
        !changed ==> rows_view(final(states)@) == rows_view(old(states)@) && named_stuck(
            defs@,
            rows_view(final(states)@),
        ),
{
    let ghost start = rows_view(states@);
    let mut changed = false;
    let mut g: usize = 0;
    while g < defs.len()
        invariant
            g <= defs@.len(),
            graphs_sorted(defs@),
            rows_fit(defs@, rows_view(states@)),
            states_ok(defs@, rows_view(states@)),
            rows_pending(rows_view(states@)) <= rows_pending(start),
            changed ==> rows_pending(rows_view(states@)) < rows_pending(start),
            !changed ==> rows_view(states@) == start,
            !changed ==> forall|h: int| 0 <= h < g ==> local_stuck(defs@, start, defs@[h].graph, #[trigger] start[h]),
        decreases defs.len() - g,
    {
        let ghost before = rows_view(states@);
        assert(sorted_node_ids(defs@[g as int].graph.nodes@));
        assert(local_ok(defs@, defs@[g as int].graph, before[g as int]));
        let (row, row_changed) = refine_row(defs, states, &defs[g].graph, &states[g]);
        proof {
            lemma_row_refines(before[g as int], row@);
            lemma_rows_update(before, g as int, row@);
            lemma_rows_view_set(states@, g as int, row);
        }
        states.set(g, row);
        proof {
            assert(rows_view(states@) == before.update(g as int, row@));
            assert forall|h: int| 0 <= h < defs@.len() implies local_ok(defs@, (#[trigger] defs@[h]).graph, rows_view(states@)[h]) by {
                if h != g {
                    assert(local_ok(defs@, defs@[h].graph, before[h]));
                }
            }
            if !row_changed && !changed {
                assert(rows_view(states@) =~= start);
            }
        }
        if row_changed {
            changed = true;
        }
        g = g + 1;
    }
    changed
}

/// Records every named node until no round makes progress.
pub fn resolve_named(defs: &[ItemGroupDefinitionV1]) -> (states: Vec<Vec<NodeState>>)
    requires
        graphs_sorted(defs@),
    ensures
        rows_fit(defs@, rows_view(states@)),
        states_ok(defs@, rows_view(states@)),
        named_stuck(defs@, rows_view(states@)),
{
    let mut states = pending_rows(defs);
    proof {
        assert forall|g: int| 0 <= g < defs@.len() implies local_ok(defs@, (#[trigger] defs@[g]).graph, rows_view(states@)[g]) by {
            assert forall|k: int| 0 <= k < rows_view(states@)[g].len() implies ((#[trigger] rows_view(states@)[g][k]) matches Some(v) ==> v
                == crate::item_group_eval::full_node(defs@, defs@[g].graph, k)) by {
                assert(rows_view(states@)[g][k] is None);
            }
        }
    }
    loop
        invariant
            graphs_sorted(defs@),
            rows_fit(defs@, rows_view(states@)),
            states_ok(defs@, rows_view(states@)),
        decreases rows_pending(rows_view(states@)),
    {
        let changed = named_round(defs, &mut states);
        if !changed {
            return states;
        }
    }
}

// ----- resolving an inline graph -----

/// Records every node of an inline graph against a resolved named catalog.
pub fn resolve_local(
    defs: &[ItemGroupDefinitionV1],
    states: &Vec<Vec<NodeState>>,
    graph: &ItemGroupGraphV1,
) -> (local: Vec<NodeState>)
    requires
        graphs_sorted(defs@),
        rows_fit(defs@, rows_view(states@)),
        states_ok(defs@, rows_view(states@)),
        sorted_node_ids(graph.nodes@),
    ensures
        local_ok(defs@, *graph, local@),
        local_stuck(defs@, rows_view(states@), *graph, local@),
{
    let mut local: Vec<NodeState> = Vec::new();
    let mut k: usize = 0;
    while k < graph.nodes.len()
        invariant
            k <= graph.nodes@.len(),
            local@.len() == k,
            forall|j: int| 0 <= j < k ==> (#[trigger] local@[j]) is None,
        decreases graph.nodes@.len() - k,
    {
        local.push(None);
        k = k + 1;
    }
    loop
        invariant
            graphs_sorted(defs@),
            rows_fit(defs@, rows_view(states@)),
            states_ok(defs@, rows_view(states@)),
            sorted_node_ids(graph.nodes@),
            local_ok(defs@, *graph, local@),
        decreases row_pending(local@),
    {
        let (row, changed) = refine_row(defs, states, graph, &local);
        if !changed {
            return local;
        }
        local = row;
    }
}

} // verus!
