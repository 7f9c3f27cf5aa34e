//! The recursive meaning of item-group metrics: every named group and local
//! node evaluates its entries; a reference path may take at most 32 edges
//! and contents may nest at most 8 levels.

use vstd::prelude::*;

use crate::item_group_metrics::{
    accumulate, empty_metrics, entry_outcome, finish_graph, item_metrics, max_int, outcome_target,
    ContentsSummary, ItemGroupMetrics,
};
use crate::item_group_shape::node_index;
use crate::item_group_types::{
    ItemGroupContentsSourceV1, ItemGroupDefinitionV1, ItemGroupEntryV1, ItemGroupGraphV1, ItemGroupKindV1,
    ItemGroupTargetV1, MAX_ITEM_GROUP_DEPTH, MAX_ITEM_GROUP_OUTPUTS,
};
use crate::prototypes::MAX_ITEM_COMPONENT_DEPTH;

verus! {

/// Contents nesting available to a top-level evaluation.
pub open spec fn contents_fuel() -> nat {
    MAX_ITEM_COMPONENT_DEPTH as nat
}

/// Reference edges available to a top-level evaluation.
pub open spec fn path_fuel() -> nat {
    MAX_ITEM_GROUP_DEPTH as nat
}

/// The first definition named `id`.
pub open spec fn group_index(defs: Seq<ItemGroupDefinitionV1>, id: Seq<char>) -> Option<int> {
    if exists|i: int| 0 <= i < defs.len() && (#[trigger] defs[i]).group_id@ == id {
        Some(
            choose|i: int|
                0 <= i < defs.len() && (#[trigger] defs[i]).group_id@ == id && forall|j: int|
                    0 <= j < i ==> (#[trigger] defs[j]).group_id@ != id,
        )
    } else {
        None
    }
}

proof fn lemma_first_match(defs: Seq<ItemGroupDefinitionV1>, id: Seq<char>, i: int) -> (first: int)
    requires
        0 <= i < defs.len(),
        defs[i].group_id@ == id,
    ensures
        0 <= first <= i,
        defs[first].group_id@ == id,
        forall|j: int| 0 <= j < first ==> (#[trigger] defs[j]).group_id@ != id,
    decreases i,
{
    if exists|j: int| 0 <= j < i && (#[trigger] defs[j]).group_id@ == id {
        let j = choose|j: int| 0 <= j < i && (#[trigger] defs[j]).group_id@ == id;
        lemma_first_match(defs, id, j)
    } else {
        i
    }
}

/// `group_index` is the first position holding `id`, if any.
pub proof fn lemma_group_index(defs: Seq<ItemGroupDefinitionV1>, id: Seq<char>)
    ensures
        group_index(defs, id) matches Some(j) ==> 0 <= j < defs.len() && defs[j].group_id@ == id && forall|k: int|
            0 <= k < j ==> (#[trigger] defs[k]).group_id@ != id,
        group_index(defs, id) is None ==> forall|k: int| 0 <= k < defs.len() ==> (#[trigger] defs[k]).group_id@ != id,
{
    if exists|i: int| 0 <= i < defs.len() && (#[trigger] defs[i]).group_id@ == id {
        let i = choose|i: int| 0 <= i < defs.len() && (#[trigger] defs[i]).group_id@ == id;
        let first = lemma_first_match(defs, id, i);
        assert(defs[first].group_id@ == id && forall|j: int| 0 <= j < first ==> (#[trigger] defs[j]).group_id@ != id);
    }
}

pub open spec fn empty_contents() -> ContentsSummary {
    (0, 0, true)
}

/// Metrics of named group `g` with `c` contents levels and `f` reference
/// edges left.
pub open spec fn group_eval(defs: Seq<ItemGroupDefinitionV1>, c: nat, f: nat, g: int) -> Option<ItemGroupMetrics>
    decreases c, f, 4nat, 0int,
{
    if 0 <= g < defs.len() {
        graph_eval(defs, defs[g].graph, c, f)
    } else {
        None
    }
}

/// Metrics of a graph: its root node under its wrapper, within the limits.
pub open spec fn graph_eval(defs: Seq<ItemGroupDefinitionV1>, graph: ItemGroupGraphV1, c: nat, f: nat) -> Option<ItemGroupMetrics>
    decreases c, f, 3nat, 0int,
{
    match node_index(graph.nodes@, graph.root_node) {
        None => None,
        Some(k) => match node_eval(defs, graph, c, f, k) {
            None => None,
            Some(m) => finish_graph(m, graph.wrapper),
        },
    }
}

pub open spec fn node_eval(defs: Seq<ItemGroupDefinitionV1>, graph: ItemGroupGraphV1, c: nat, f: nat, k: int) -> Option<ItemGroupMetrics>
    decreases c, f, 2nat, 0int,
{
    if 0 <= k < graph.nodes@.len() {
        entries_eval(defs, graph, c, f, graph.nodes@[k].kind, graph.nodes@[k].entries@, 0, empty_metrics())
    } else {
        None
    }
}

/// Folds entries `i..` of a node of kind `kind` into `acc`.
pub open spec fn entries_eval(
    defs: Seq<ItemGroupDefinitionV1>,
    graph: ItemGroupGraphV1,
    c: nat,
    f: nat,
    kind: ItemGroupKindV1,
    entries: Seq<ItemGroupEntryV1>,
    i: nat,
    acc: ItemGroupMetrics,
) -> Option<ItemGroupMetrics>
    decreases c, f, 1nat, entries.len() - i,
{
    if i >= entries.len() {
        Some(acc)
    } else {
        let e = entries[i as int];
        match target_eval(defs, graph, c, f, e.target) {
            None => None,
            Some(found) => match contents_eval(defs, c, e.contents@, 0, empty_contents()) {
                None => None,
                Some(summary) => match entry_outcome(e, found, summary) {
                    None => None,
                    Some(outcome) => match accumulate(kind, acc, outcome) {
                        None => None,
                        Some(next) => entries_eval(defs, graph, c, f, kind, entries, i + 1, next),
                    },
                },
            },
        }
    }
}

/// An entry's target: a direct item, a named group one edge away, or a
/// node of the same graph one edge away.
pub open spec fn target_eval(
    defs: Seq<ItemGroupDefinitionV1>,
    graph: ItemGroupGraphV1,
    c: nat,
    f: nat,
    target: ItemGroupTargetV1,
) -> Option<ItemGroupMetrics>
    decreases c, f, 0nat, 0int,
{
    match target {
        ItemGroupTargetV1::Item(item) => Some(item_metrics(*item)),
        ItemGroupTargetV1::Group(id) => match group_index(defs, id@) {
            None => None,
            Some(j) => if f == 0 {
                None
            } else {
                group_eval(defs, c, (f - 1) as nat, j)
            },
        },
        ItemGroupTargetV1::Node(id) => match node_index(graph.nodes@, id) {
            None => None,
            Some(k) => if f == 0 {
                None
            } else {
                node_eval(defs, graph, c, (f - 1) as nat, k)
            },
        },
    }
}

/// Summarizes contents `j..` into `acc`; a named group is evaluated one
/// contents level deeper, with a fresh path.
pub open spec fn contents_eval(
    defs: Seq<ItemGroupDefinitionV1>,
    c: nat,
    contents: Seq<ItemGroupContentsSourceV1>,
    j: nat,
    acc: ContentsSummary,
) -> Option<ContentsSummary>
    decreases c, 0nat, 0nat, contents.len() - j,
{
    if j >= contents.len() {
        Some(acc)
    } else {
        let m = match contents[j as int] {
            ItemGroupContentsSourceV1::Item(item) => Some(item_metrics(*item)),
            ItemGroupContentsSourceV1::Group(id) => match group_index(defs, id@) {
                None => None,
                Some(g) => if c == 0 {
                    None
                } else {
                    group_eval(defs, (c - 1) as nat, path_fuel(), g)
                },
            },
        };
        match m {
            None => None,
            Some(m) => if acc.0 + m.outputs > u64::MAX {
                None
            } else {
                contents_eval(
                    defs,
                    c,
                    contents,
                    j + 1,
                    (
                        (acc.0 + m.outputs) as u64,
                        max_int(acc.1 as int, m.containment_depth as int) as u64,
                        acc.2 && m.all_top_level_estorable,
                    ),
                )
            },
        }
    }
}

/// The metrics of named group `g` as a top-level invocation sees them.
pub open spec fn full_group(defs: Seq<ItemGroupDefinitionV1>, g: int) -> Option<ItemGroupMetrics> {
    group_eval(defs, contents_fuel(), path_fuel(), g)
}

pub open spec fn full_graph(defs: Seq<ItemGroupDefinitionV1>, graph: ItemGroupGraphV1) -> Option<ItemGroupMetrics> {
    graph_eval(defs, graph, contents_fuel(), path_fuel())
}

#[verifier::opaque]
pub open spec fn full_node(defs: Seq<ItemGroupDefinitionV1>, graph: ItemGroupGraphV1, k: int) -> Option<ItemGroupMetrics> {
    node_eval(defs, graph, contents_fuel(), path_fuel(), k)
}

// ----- shape of results -----

proof fn lemma_accumulate_bounds(kind: ItemGroupKindV1, acc: ItemGroupMetrics, outcome: (u64, ItemGroupMetrics, u64, u64))
    requires
        accumulate(kind, acc, outcome) is Some,
    ensures
        accumulate(kind, acc, outcome).unwrap().depth == max_int(acc.depth as int, outcome.2 as int),
        accumulate(kind, acc, outcome).unwrap().containment_depth == max_int(
            acc.containment_depth as int,
            outcome.3 as int,
        ),
{
}

/// Entry folds only grow the depths of their accumulator, and keep them
/// within the limits.
pub proof fn lemma_entries_grow(
    defs: Seq<ItemGroupDefinitionV1>,
    graph: ItemGroupGraphV1,
    c: nat,
    f: nat,
    kind: ItemGroupKindV1,
    entries: Seq<ItemGroupEntryV1>,
    i: nat,
    acc: ItemGroupMetrics,
)
    requires
        entries_eval(defs, graph, c, f, kind, entries, i, acc) is Some,
    ensures
        ({
            let m = entries_eval(defs, graph, c, f, kind, entries, i, acc).unwrap();
            &&& m.depth >= acc.depth
            &&& m.containment_depth >= acc.containment_depth
            &&& (acc.depth <= MAX_ITEM_GROUP_DEPTH ==> m.depth <= MAX_ITEM_GROUP_DEPTH)
            &&& (acc.containment_depth <= MAX_ITEM_COMPONENT_DEPTH ==> m.containment_depth <= MAX_ITEM_COMPONENT_DEPTH)
        }),
    decreases entries.len() - i,
{
    if i < entries.len() {
        let e = entries[i as int];
        let found = target_eval(defs, graph, c, f, e.target).unwrap();
        let summary = contents_eval(defs, c, e.contents@, 0, empty_contents()).unwrap();
        let outcome = entry_outcome(e, found, summary).unwrap();
        lemma_accumulate_bounds(kind, acc, outcome);
        let next = accumulate(kind, acc, outcome).unwrap();
        lemma_entries_grow(defs, graph, c, f, kind, entries, i + 1, next);
    }
}

/// Contents summaries only grow their containment depth.
pub proof fn lemma_contents_grow(
    defs: Seq<ItemGroupDefinitionV1>,
    c: nat,
    contents: Seq<ItemGroupContentsSourceV1>,
    j: nat,
    acc: ContentsSummary,
)
    requires
        contents_eval(defs, c, contents, j, acc) is Some,
    ensures
        contents_eval(defs, c, contents, j, acc).unwrap().1 >= acc.1,
    decreases contents.len() - j,
{
    if j < contents.len() {
        let m = match contents[j as int] {
            ItemGroupContentsSourceV1::Item(item) => Some(item_metrics(*item)),
            ItemGroupContentsSourceV1::Group(id) => match group_index(defs, id@) {
                None => None,
                Some(g) => if c == 0 {
                    None
                } else {
                    group_eval(defs, (c - 1) as nat, path_fuel(), g)
                },
            },
        };
        let mm = m.unwrap();
        lemma_contents_grow(
            defs,
            c,
            contents,
            j + 1,
            (
                (acc.0 + mm.outputs) as u64,
                max_int(acc.1 as int, mm.containment_depth as int) as u64,
                acc.2 && mm.all_top_level_estorable,
            ),
        );
    }
}

pub proof fn lemma_node_bounds(defs: Seq<ItemGroupDefinitionV1>, graph: ItemGroupGraphV1, c: nat, f: nat, k: int)
    requires
        node_eval(defs, graph, c, f, k) is Some,
    ensures
        node_eval(defs, graph, c, f, k).unwrap().depth <= MAX_ITEM_GROUP_DEPTH,
        node_eval(defs, graph, c, f, k).unwrap().containment_depth <= MAX_ITEM_COMPONENT_DEPTH,
{
    lemma_entries_grow(defs, graph, c, f, graph.nodes@[k].kind, graph.nodes@[k].entries@, 0, empty_metrics());
}

pub proof fn lemma_graph_bounds(defs: Seq<ItemGroupDefinitionV1>, graph: ItemGroupGraphV1, c: nat, f: nat)
    requires
        graph_eval(defs, graph, c, f) is Some,
    ensures
        graph_eval(defs, graph, c, f).unwrap().depth <= MAX_ITEM_GROUP_DEPTH,
        graph_eval(defs, graph, c, f).unwrap().containment_depth <= MAX_ITEM_COMPONENT_DEPTH,
        graph_eval(defs, graph, c, f).unwrap().outputs <= MAX_ITEM_GROUP_OUTPUTS,
{
}

// ----- fuel -----

/// A result does not depend on fuel beyond what its own depths use.
pub proof fn lemma_group_fuel(defs: Seq<ItemGroupDefinitionV1>, c: nat, f: nat, g: int, c2: nat, f2: nat)
    requires
        group_eval(defs, c, f, g) matches Some(m) && m.depth <= f2 && m.containment_depth <= c2,
    ensures
        group_eval(defs, c2, f2, g) == group_eval(defs, c, f, g),
    decreases c, f, 4nat, 0int,
{
    lemma_graph_fuel(defs, defs[g].graph, c, f, c2, f2);
}

pub proof fn lemma_graph_fuel(defs: Seq<ItemGroupDefinitionV1>, graph: ItemGroupGraphV1, c: nat, f: nat, c2: nat, f2: nat)
    requires
        graph_eval(defs, graph, c, f) matches Some(m) && m.depth <= f2 && m.containment_depth <= c2,
    ensures
        graph_eval(defs, graph, c2, f2) == graph_eval(defs, graph, c, f),
    decreases c, f, 3nat, 0int,
{
    let k = node_index(graph.nodes@, graph.root_node).unwrap();
    lemma_node_fuel(defs, graph, c, f, k, c2, f2);
}

pub proof fn lemma_node_fuel(defs: Seq<ItemGroupDefinitionV1>, graph: ItemGroupGraphV1, c: nat, f: nat, k: int, c2: nat, f2: nat)
    requires
        node_eval(defs, graph, c, f, k) matches Some(m) && m.depth <= f2 && m.containment_depth <= c2,
    ensures
        node_eval(defs, graph, c2, f2, k) == node_eval(defs, graph, c, f, k),
    decreases c, f, 2nat, 0int,
{
    lemma_entries_fuel(defs, graph, c, f, graph.nodes@[k].kind, graph.nodes@[k].entries@, 0, empty_metrics(), c2, f2);
}

/// What an accepted entry outcome records of its target and contents.
pub proof fn lemma_outcome_depths(e: ItemGroupEntryV1, found: ItemGroupMetrics, summary: ContentsSummary)
    requires
        entry_outcome(e, found, summary) is Some,
    ensures
        !(e.target is Item) ==> entry_outcome(e, found, summary).unwrap().2 == found.depth + 1
            && entry_outcome(e, found, summary).unwrap().3 >= found.containment_depth,
        e.contents@.len() > 0 ==> entry_outcome(e, found, summary).unwrap().3 >= summary.1 + 1,
        found.depth + 1 > MAX_ITEM_GROUP_DEPTH && !(e.target is Item) ==> false,
        e.contents@.len() > 0 && summary.1 + 1 > MAX_ITEM_COMPONENT_DEPTH ==> false,
{
    let target = outcome_target(e, found);
    if !(e.target is Item) {
        assert(target == found);
    }
}

#[verifier::rlimit(40)]
pub proof fn lemma_entries_fuel(
    defs: Seq<ItemGroupDefinitionV1>,
    graph: ItemGroupGraphV1,
    c: nat,
    f: nat,
    kind: ItemGroupKindV1,
    entries: Seq<ItemGroupEntryV1>,
    i: nat,
    acc: ItemGroupMetrics,
    c2: nat,
    f2: nat,
)
    requires
        entries_eval(defs, graph, c, f, kind, entries, i, acc) matches Some(m) && m.depth <= f2 && m.containment_depth
            <= c2,
    ensures
        entries_eval(defs, graph, c2, f2, kind, entries, i, acc) == entries_eval(defs, graph, c, f, kind, entries, i, acc),
    decreases c, f, 1nat, entries.len() - i,
{
    if i < entries.len() {
        let e = entries[i as int];
        let found = target_eval(defs, graph, c, f, e.target).unwrap();
        let summary = contents_eval(defs, c, e.contents@, 0, empty_contents()).unwrap();
        let outcome = entry_outcome(e, found, summary).unwrap();
        let next = accumulate(kind, acc, outcome).unwrap();
        lemma_accumulate_bounds(kind, acc, outcome);
        lemma_entries_grow(defs, graph, c, f, kind, entries, i + 1, next);
        lemma_outcome_depths(e, found, summary);
        if !(e.target is Item) {
            lemma_target_fuel(defs, graph, c, f, e.target, c2, f2);
        }
        if e.contents@.len() > 0 {
            lemma_contents_fuel(defs, c, e.contents@, 0, empty_contents(), c2);
        }
        assert(target_eval(defs, graph, c2, f2, e.target) == Some(found));
        assert(contents_eval(defs, c2, e.contents@, 0, empty_contents()) == Some(summary));
        lemma_entries_fuel(defs, graph, c, f, kind, entries, i + 1, next, c2, f2);
    }
}

pub proof fn lemma_target_fuel(
    defs: Seq<ItemGroupDefinitionV1>,
    graph: ItemGroupGraphV1,
    c: nat,
    f: nat,
    target: ItemGroupTargetV1,
    c2: nat,
    f2: nat,
)
    requires
        target_eval(defs, graph, c, f, target) matches Some(m) && m.depth + 1 <= f2 && m.containment_depth <= c2,
    ensures
        target_eval(defs, graph, c2, f2, target) == target_eval(defs, graph, c, f, target),
    decreases c, f, 0nat, 0int,
{
    match target {
        ItemGroupTargetV1::Item(_) => {},
        ItemGroupTargetV1::Group(id) => {
            let j = group_index(defs, id@).unwrap();
            lemma_group_fuel(defs, c, (f - 1) as nat, j, c2, (f2 - 1) as nat);
        },
        ItemGroupTargetV1::Node(id) => {
            let k = node_index(graph.nodes@, id).unwrap();
            lemma_node_fuel(defs, graph, c, (f - 1) as nat, k, c2, (f2 - 1) as nat);
        },
    }
}

pub proof fn lemma_contents_fuel(
    defs: Seq<ItemGroupDefinitionV1>,
    c: nat,
    contents: Seq<ItemGroupContentsSourceV1>,
    j: nat,
    acc: ContentsSummary,
    c2: nat,
)
    requires
        contents_eval(defs, c, contents, j, acc) matches Some(s) && s.1 + 1 <= c2,
    ensures
        contents_eval(defs, c2, contents, j, acc) == contents_eval(defs, c, contents, j, acc),
    decreases c, 0nat, 0nat, contents.len() - j,
{
    if j < contents.len() {
        let m = match contents[j as int] {
            ItemGroupContentsSourceV1::Item(item) => Some(item_metrics(*item)),
            ItemGroupContentsSourceV1::Group(id) => match group_index(defs, id@) {
                None => None,
                Some(g) => if c == 0 {
                    None
                } else {
                    group_eval(defs, (c - 1) as nat, path_fuel(), g)
                },
            },
        };
        let mm = m.unwrap();
        let next = (
            (acc.0 + mm.outputs) as u64,
            max_int(acc.1 as int, mm.containment_depth as int) as u64,
            acc.2 && mm.all_top_level_estorable,
        );
        lemma_contents_grow(defs, c, contents, j + 1, next);
        match contents[j as int] {
            ItemGroupContentsSourceV1::Item(_) => {},
            ItemGroupContentsSourceV1::Group(id) => {
                let g = group_index(defs, id@).unwrap();
                lemma_graph_bounds(defs, defs[g].graph, (c - 1) as nat, path_fuel());
                lemma_group_fuel(defs, (c - 1) as nat, path_fuel(), g, (c2 - 1) as nat, path_fuel());
            },
        }
        lemma_contents_fuel(defs, c, contents, j + 1, next, c2);
    }
}

// ----- partial evaluation against recorded node states -----

/// A node's recorded state: `None` while pending, else its metrics (or the
/// failure `None`).
pub type NodeState = Option<Option<ItemGroupMetrics>>;

/// The recorded state of named group `j`: its root node under its wrapper.
pub open spec fn group_state(defs: Seq<ItemGroupDefinitionV1>, states: Seq<Seq<NodeState>>, j: int) -> NodeState {
    let graph = defs[j].graph;
    match node_index(graph.nodes@, graph.root_node) {
        None => Some(None),
        Some(r) => match states[j][r] {
            None => None,
            Some(None) => Some(None),
            Some(Some(m)) => Some(finish_graph(m, graph.wrapper)),
        },
    }
}

pub open spec fn attempt_target(
    defs: Seq<ItemGroupDefinitionV1>,
    states: Seq<Seq<NodeState>>,
    graph: ItemGroupGraphV1,
    local: Seq<NodeState>,
    target: ItemGroupTargetV1,
) -> NodeState {
    match target {
        ItemGroupTargetV1::Item(item) => Some(Some(item_metrics(*item))),
        ItemGroupTargetV1::Group(id) => match group_index(defs, id@) {
            None => Some(None),
            Some(j) => group_state(defs, states, j),
        },
        ItemGroupTargetV1::Node(id) => match node_index(graph.nodes@, id) {
            None => Some(None),
            Some(k) => local[k],
        },
    }
}

pub open spec fn attempt_contents(
    defs: Seq<ItemGroupDefinitionV1>,
    states: Seq<Seq<NodeState>>,
    contents: Seq<ItemGroupContentsSourceV1>,
    j: nat,
    acc: ContentsSummary,
) -> Option<Option<ContentsSummary>>
    decreases contents.len() - j,
{
    if j >= contents.len() {
        Some(Some(acc))
    } else {
        let v: NodeState = match contents[j as int] {
            ItemGroupContentsSourceV1::Item(item) => Some(Some(item_metrics(*item))),
            ItemGroupContentsSourceV1::Group(id) => match group_index(defs, id@) {
                None => Some(None),
                Some(g) => group_state(defs, states, g),
            },
        };
        match v {
            None => None,
            Some(None) => Some(None),
            Some(Some(m)) => if acc.0 + m.outputs > u64::MAX {
                Some(None)
            } else {
                attempt_contents(
                    defs,
                    states,
                    contents,
                    j + 1,
                    (
                        (acc.0 + m.outputs) as u64,
                        max_int(acc.1 as int, m.containment_depth as int) as u64,
                        acc.2 && m.all_top_level_estorable,
                    ),
                )
            },
        }
    }
}

/// Folds entries `i..` using recorded states for every reference; `None`
/// when a needed reference is still pending.
pub open spec fn attempt_entries(
    defs: Seq<ItemGroupDefinitionV1>,
    states: Seq<Seq<NodeState>>,
    graph: ItemGroupGraphV1,
    local: Seq<NodeState>,
    kind: ItemGroupKindV1,
    entries: Seq<ItemGroupEntryV1>,
    i: nat,
    acc: ItemGroupMetrics,
) -> NodeState
    decreases entries.len() - i,
{
    if i >= entries.len() {
        Some(Some(acc))
    } else {
        let e = entries[i as int];
        match attempt_target(defs, states, graph, local, e.target) {
            None => None,
            Some(None) => Some(None),
            Some(Some(found)) => match attempt_contents(defs, states, e.contents@, 0, empty_contents()) {
                None => None,
                Some(None) => Some(None),
                Some(Some(summary)) => match entry_outcome(e, found, summary) {
                    None => Some(None),
                    Some(outcome) => match accumulate(kind, acc, outcome) {
                        None => Some(None),
                        Some(next) => attempt_entries(defs, states, graph, local, kind, entries, i + 1, next),
                    },
                },
            },
        }
    }
}

#[verifier::opaque]
pub open spec fn attempt_node(
    defs: Seq<ItemGroupDefinitionV1>,
    states: Seq<Seq<NodeState>>,
    graph: ItemGroupGraphV1,
    local: Seq<NodeState>,
    k: int,
) -> NodeState {
    attempt_entries(defs, states, graph, local, graph.nodes@[k].kind, graph.nodes@[k].entries@, 0, empty_metrics())
}

/// Every recorded state of `graph`'s nodes is its top-level metrics.
pub open spec fn local_ok(defs: Seq<ItemGroupDefinitionV1>, graph: ItemGroupGraphV1, local: Seq<NodeState>) -> bool {
    &&& local.len() == graph.nodes@.len()
    &&& forall|k: int| 0 <= k < local.len() ==> ((#[trigger] local[k]) matches Some(v) ==> v == full_node(defs, graph, k))
}

pub open spec fn states_ok(defs: Seq<ItemGroupDefinitionV1>, states: Seq<Seq<NodeState>>) -> bool {
    &&& states.len() == defs.len()
    &&& forall|g: int| 0 <= g < defs.len() ==> local_ok(defs, (#[trigger] defs[g]).graph, states[g])
}

/// No pending node of `graph` can make progress.
pub open spec fn local_stuck(
    defs: Seq<ItemGroupDefinitionV1>,
    states: Seq<Seq<NodeState>>,
    graph: ItemGroupGraphV1,
    local: Seq<NodeState>,
) -> bool {
    forall|k: int| 0 <= k < local.len() && (#[trigger] local[k]) is None ==> attempt_node(defs, states, graph, local, k) is None
}

pub open spec fn named_stuck(defs: Seq<ItemGroupDefinitionV1>, states: Seq<Seq<NodeState>>) -> bool {
    &&& states.len() == defs.len()
    &&& forall|g: int| 0 <= g < defs.len() ==> (#[trigger] states[g]).len() == defs[g].graph.nodes@.len()
    &&& forall|g: int| 0 <= g < defs.len() ==> local_stuck(defs, states, defs[g].graph, #[trigger] states[g])
}

pub proof fn lemma_group_state(defs: Seq<ItemGroupDefinitionV1>, states: Seq<Seq<NodeState>>, j: int)
    requires
        states_ok(defs, states),
        0 <= j < defs.len(),
        group_state(defs, states, j) is Some,
    ensures
        group_state(defs, states, j).unwrap() == full_group(defs, j),
{
    reveal(full_node);
    let graph = defs[j].graph;
    assert(local_ok(defs, defs[j].graph, states[j]));
    match node_index(graph.nodes@, graph.root_node) {
        None => {},
        Some(r) => {
            assert(states[j][r] is Some);
        },
    }
}

/// A named group's value one reference edge down matches its top-level
/// value, unless that value uses the whole path.
proof fn lemma_group_edge(defs: Seq<ItemGroupDefinitionV1>, j: int)
    ensures
        group_eval(defs, contents_fuel(), (path_fuel() - 1) as nat, j) == full_group(defs, j) || (group_eval(
            defs,
            contents_fuel(),
            (path_fuel() - 1) as nat,
            j,
        ) is None && (full_group(defs, j) matches Some(m) && m.depth + 1 > MAX_ITEM_GROUP_DEPTH)),
{
    let near = group_eval(defs, contents_fuel(), (path_fuel() - 1) as nat, j);
    if near is Some {
        lemma_graph_bounds(defs, defs[j].graph, contents_fuel(), (path_fuel() - 1) as nat);
        lemma_group_fuel(defs, contents_fuel(), (path_fuel() - 1) as nat, j, contents_fuel(), path_fuel());
    } else if full_group(defs, j) is Some {
        let m = full_group(defs, j).unwrap();
        lemma_graph_bounds(defs, defs[j].graph, contents_fuel(), path_fuel());
        if m.depth + 1 <= MAX_ITEM_GROUP_DEPTH {
            lemma_group_fuel(defs, contents_fuel(), path_fuel(), j, contents_fuel(), (path_fuel() - 1) as nat);
        }
    }
}

proof fn lemma_node_edge(defs: Seq<ItemGroupDefinitionV1>, graph: ItemGroupGraphV1, k: int)
    ensures
        node_eval(defs, graph, contents_fuel(), (path_fuel() - 1) as nat, k) == full_node(defs, graph, k) || (node_eval(
            defs,
            graph,
            contents_fuel(),
            (path_fuel() - 1) as nat,
            k,
        ) is None && (full_node(defs, graph, k) matches Some(m) && m.depth + 1 > MAX_ITEM_GROUP_DEPTH)),
{
    reveal(full_node);
    let near = node_eval(defs, graph, contents_fuel(), (path_fuel() - 1) as nat, k);
    if near is Some {
        lemma_node_bounds(defs, graph, contents_fuel(), (path_fuel() - 1) as nat, k);
        lemma_node_fuel(defs, graph, contents_fuel(), (path_fuel() - 1) as nat, k, contents_fuel(), path_fuel());
    } else if full_node(defs, graph, k) is Some {
        let m = full_node(defs, graph, k).unwrap();
        lemma_node_bounds(defs, graph, contents_fuel(), path_fuel(), k);
        if m.depth + 1 <= MAX_ITEM_GROUP_DEPTH {
            lemma_node_fuel(defs, graph, contents_fuel(), path_fuel(), k, contents_fuel(), (path_fuel() - 1) as nat);
        }
    }
}

/// A named group's value one contents level down matches its top-level
/// value, unless that value uses every contents level.
proof fn lemma_group_level(defs: Seq<ItemGroupDefinitionV1>, j: int)
    ensures
        group_eval(defs, (contents_fuel() - 1) as nat, path_fuel(), j) == full_group(defs, j) || (group_eval(
            defs,
            (contents_fuel() - 1) as nat,
            path_fuel(),
            j,
        ) is None && (full_group(defs, j) matches Some(m) && m.containment_depth + 1 > MAX_ITEM_COMPONENT_DEPTH)),
{
    let near = group_eval(defs, (contents_fuel() - 1) as nat, path_fuel(), j);
    if near is Some {
        lemma_graph_bounds(defs, defs[j].graph, (contents_fuel() - 1) as nat, path_fuel());
        lemma_group_fuel(defs, (contents_fuel() - 1) as nat, path_fuel(), j, contents_fuel(), path_fuel());
    } else if full_group(defs, j) is Some {
        let m = full_group(defs, j).unwrap();
        lemma_graph_bounds(defs, defs[j].graph, contents_fuel(), path_fuel());
        if m.containment_depth + 1 <= MAX_ITEM_COMPONENT_DEPTH {
            lemma_group_fuel(defs, contents_fuel(), path_fuel(), j, (contents_fuel() - 1) as nat, path_fuel());
        }
    }
}

proof fn lemma_attempt_contents_grow(
    defs: Seq<ItemGroupDefinitionV1>,
    states: Seq<Seq<NodeState>>,
    contents: Seq<ItemGroupContentsSourceV1>,
    j: nat,
    acc: ContentsSummary,
)
    requires
        attempt_contents(defs, states, contents, j, acc) matches Some(Some(_)),
    ensures
        attempt_contents(defs, states, contents, j, acc).unwrap().unwrap().1 >= acc.1,
    decreases contents.len() - j,
{
    if j < contents.len() {
        let v: NodeState = match contents[j as int] {
            ItemGroupContentsSourceV1::Item(item) => Some(Some(item_metrics(*item))),
            ItemGroupContentsSourceV1::Group(id) => match group_index(defs, id@) {
                None => Some(None),
                Some(g) => group_state(defs, states, g),
            },
        };
        let m = v.unwrap().unwrap();
        lemma_attempt_contents_grow(
            defs,
            states,
            contents,
            j + 1,
            (
                (acc.0 + m.outputs) as u64,
                max_int(acc.1 as int, m.containment_depth as int) as u64,
                acc.2 && m.all_top_level_estorable,
            ),
        );
    }
}

/// Recorded contents summaries agree with top-level contents evaluation,
/// unless some content uses every contents level.
proof fn lemma_attempt_contents_sound(
    defs: Seq<ItemGroupDefinitionV1>,
    states: Seq<Seq<NodeState>>,
    contents: Seq<ItemGroupContentsSourceV1>,
    j: nat,
    acc: ContentsSummary,
)
    requires
        states_ok(defs, states),
        attempt_contents(defs, states, contents, j, acc) is Some,
    ensures
        ({
            let recorded = attempt_contents(defs, states, contents, j, acc).unwrap();
            let exact = contents_eval(defs, contents_fuel(), contents, j, acc);
            exact == recorded || (exact is None && (recorded matches Some(s) && s.1 + 1 > MAX_ITEM_COMPONENT_DEPTH))
        }),
    decreases contents.len() - j,
{
    if j < contents.len() {
        let v: NodeState = match contents[j as int] {
            ItemGroupContentsSourceV1::Item(item) => Some(Some(item_metrics(*item))),
            ItemGroupContentsSourceV1::Group(id) => match group_index(defs, id@) {
                None => Some(None),
                Some(g) => group_state(defs, states, g),
            },
        };
        let sv = match contents[j as int] {
            ItemGroupContentsSourceV1::Item(item) => Some(item_metrics(*item)),
            ItemGroupContentsSourceV1::Group(id) => match group_index(defs, id@) {
                None => None,
                Some(g) => group_eval(defs, (contents_fuel() - 1) as nat, path_fuel(), g),
            },
        };
        match contents[j as int] {
            ItemGroupContentsSourceV1::Item(_) => {},
            ItemGroupContentsSourceV1::Group(id) => {
                lemma_group_index(defs, id@);
                match group_index(defs, id@) {
                    None => {},
                    Some(g) => {
                        lemma_group_state(defs, states, g);
                        lemma_group_level(defs, g);
                    },
                }
            },
        }
        match v.unwrap() {
            None => {},
            Some(m) => {
                if acc.0 + m.outputs <= u64::MAX {
                    let next = (
                        (acc.0 + m.outputs) as u64,
                        max_int(acc.1 as int, m.containment_depth as int) as u64,
                        acc.2 && m.all_top_level_estorable,
                    );
                    lemma_attempt_contents_sound(defs, states, contents, j + 1, next);
                    if sv != Some(m) {
                        if attempt_contents(defs, states, contents, j + 1, next) matches Some(Some(_)) {
                            lemma_attempt_contents_grow(defs, states, contents, j + 1, next);
                        }
                    }
                }
            },
        }
    }
}

/// A recorded target agrees with the top-level target evaluation, unless
/// the reference uses the whole path.
proof fn lemma_attempt_target_sound(
    defs: Seq<ItemGroupDefinitionV1>,
    states: Seq<Seq<NodeState>>,
    graph: ItemGroupGraphV1,
    local: Seq<NodeState>,
    target: ItemGroupTargetV1,
)
    requires
        states_ok(defs, states),
        local_ok(defs, graph, local),
        attempt_target(defs, states, graph, local, target) is Some,
    ensures
        ({
            let recorded = attempt_target(defs, states, graph, local, target).unwrap();
            let exact = target_eval(defs, graph, contents_fuel(), path_fuel(), target);
            exact == recorded || (exact is None && !(target is Item) && (recorded matches Some(m) && m.depth + 1
                > MAX_ITEM_GROUP_DEPTH))
        }),
{
    match target {
        ItemGroupTargetV1::Item(_) => {},
        ItemGroupTargetV1::Group(id) => {
            lemma_group_index(defs, id@);
            match group_index(defs, id@) {
                None => {},
                Some(g) => {
                    lemma_group_state(defs, states, g);
                    lemma_group_edge(defs, g);
                },
            }
        },
        ItemGroupTargetV1::Node(id) => match node_index(graph.nodes@, id) {
            None => {},
            Some(k) => {
                assert(local[k] is Some);
                lemma_node_edge(defs, graph, k);
                reveal(full_node);
            },
        },
    }
}

/// A node fold over recorded states yields the node's top-level metrics.
#[verifier::rlimit(40)]
pub proof fn lemma_attempt_entries_sound(
    defs: Seq<ItemGroupDefinitionV1>,
    states: Seq<Seq<NodeState>>,
    graph: ItemGroupGraphV1,
    local: Seq<NodeState>,
    kind: ItemGroupKindV1,
    entries: Seq<ItemGroupEntryV1>,
    i: nat,
    acc: ItemGroupMetrics,
)
    requires
        states_ok(defs, states),
        local_ok(defs, graph, local),
        attempt_entries(defs, states, graph, local, kind, entries, i, acc) is Some,
    ensures
        attempt_entries(defs, states, graph, local, kind, entries, i, acc).unwrap() == entries_eval(
            defs,
            graph,
            contents_fuel(),
            path_fuel(),
            kind,
            entries,
            i,
            acc,
        ),
    decreases entries.len() - i,
{
    if i < entries.len() {
        let e = entries[i as int];
        lemma_attempt_target_sound(defs, states, graph, local, e.target);
        let recorded_target = attempt_target(defs, states, graph, local, e.target);
        match recorded_target.unwrap() {
            None => {},
            Some(found) => {
                let recorded_contents = attempt_contents(defs, states, e.contents@, 0, empty_contents());
                if recorded_contents is Some {
                    lemma_attempt_contents_sound(defs, states, e.contents@, 0, empty_contents());
                    match recorded_contents.unwrap() {
                        None => {},
                        Some(summary) => {
                            if entry_outcome(e, found, summary) is Some {
                                lemma_outcome_depths(e, found, summary);
                                let outcome = entry_outcome(e, found, summary).unwrap();
                                if accumulate(kind, acc, outcome) is Some {
                                    let next = accumulate(kind, acc, outcome).unwrap();
                                    lemma_attempt_entries_sound(defs, states, graph, local, kind, entries, i + 1, next);
                                }
                            }
                        },
                    }
                }
            },
        }
    }
}

// ----- progress -----

proof fn lemma_attempt_contents_unblocked(
    defs: Seq<ItemGroupDefinitionV1>,
    states: Seq<Seq<NodeState>>,
    c: nat,
    contents: Seq<ItemGroupContentsSourceV1>,
    j: nat,
    exact_acc: ContentsSummary,
    acc: ContentsSummary,
)
    requires
        contents_eval(defs, c, contents, j, exact_acc) is Some,
        c > 0 ==> forall|g: int| #[trigger] group_eval(defs, (c - 1) as nat, path_fuel(), g) is Some ==> group_state(defs, states, g) is Some,
    ensures
        attempt_contents(defs, states, contents, j, acc) is Some,
    decreases contents.len() - j,
{
    if j < contents.len() {
        let v: NodeState = match contents[j as int] {
            ItemGroupContentsSourceV1::Item(item) => Some(Some(item_metrics(*item))),
            ItemGroupContentsSourceV1::Group(id) => match group_index(defs, id@) {
                None => Some(None),
                Some(g) => group_state(defs, states, g),
            },
        };
        let sv = match contents[j as int] {
            ItemGroupContentsSourceV1::Item(item) => Some(item_metrics(*item)),
            ItemGroupContentsSourceV1::Group(id) => match group_index(defs, id@) {
                None => None,
                Some(g) => if c == 0 {
                    None
                } else {
                    group_eval(defs, (c - 1) as nat, path_fuel(), g)
                },
            },
        };
        let m = sv.unwrap();
        let exact_next = (
            (exact_acc.0 + m.outputs) as u64,
            max_int(exact_acc.1 as int, m.containment_depth as int) as u64,
            exact_acc.2 && m.all_top_level_estorable,
        );
        match v.unwrap() {
            None => {},
            Some(rm) => {
                if acc.0 + rm.outputs <= u64::MAX {
                    lemma_attempt_contents_unblocked(
                        defs,
                        states,
                        c,
                        contents,
                        j + 1,
                        exact_next,
                        (
                            (acc.0 + rm.outputs) as u64,
                            max_int(acc.1 as int, rm.containment_depth as int) as u64,
                            acc.2 && rm.all_top_level_estorable,
                        ),
                    );
                }
            },
        }
    }
}

proof fn lemma_attempt_target_unblocked(
    defs: Seq<ItemGroupDefinitionV1>,
    states: Seq<Seq<NodeState>>,
    graph: ItemGroupGraphV1,
    local: Seq<NodeState>,
    c: nat,
    f: nat,
    target: ItemGroupTargetV1,
)
    requires
        target_eval(defs, graph, c, f, target) is Some,
        f > 0 ==> forall|g: int| #[trigger] group_eval(defs, c, (f - 1) as nat, g) is Some ==> group_state(defs, states, g) is Some,
        f > 0 ==> forall|k: int| #[trigger] node_eval(defs, graph, c, (f - 1) as nat, k) is Some ==> local[k] is Some,
    ensures
        attempt_target(defs, states, graph, local, target) is Some,
{
    match target {
        ItemGroupTargetV1::Item(_) => {},
        ItemGroupTargetV1::Group(id) => {
            let j = group_index(defs, id@).unwrap();
            assert(group_eval(defs, c, (f - 1) as nat, j) is Some);
        },
        ItemGroupTargetV1::Node(id) => {
            let k = node_index(graph.nodes@, id).unwrap();
            assert(node_eval(defs, graph, c, (f - 1) as nat, k) is Some);
        },
    }
}

/// A node whose evaluation succeeds with fuel `(c, f)` is never blocked once
/// every reference that succeeds with less fuel is recorded.
#[verifier::rlimit(40)]
pub proof fn lemma_attempt_entries_unblocked(
    defs: Seq<ItemGroupDefinitionV1>,
    states: Seq<Seq<NodeState>>,
    graph: ItemGroupGraphV1,
    local: Seq<NodeState>,
    c: nat,
    f: nat,
    kind: ItemGroupKindV1,
    entries: Seq<ItemGroupEntryV1>,
    i: nat,
    exact_acc: ItemGroupMetrics,
    acc: ItemGroupMetrics,
)
    requires
        entries_eval(defs, graph, c, f, kind, entries, i, exact_acc) is Some,
        f > 0 ==> forall|g: int| #[trigger] group_eval(defs, c, (f - 1) as nat, g) is Some ==> group_state(defs, states, g) is Some,
        f > 0 ==> forall|k: int| #[trigger] node_eval(defs, graph, c, (f - 1) as nat, k) is Some ==> local[k] is Some,
        c > 0 ==> forall|g: int| #[trigger] group_eval(defs, (c - 1) as nat, path_fuel(), g) is Some ==> group_state(defs, states, g) is Some,
    ensures
        attempt_entries(defs, states, graph, local, kind, entries, i, acc) is Some,
    decreases entries.len() - i,
{
    if i < entries.len() {
        let e = entries[i as int];
        let found_exact = target_eval(defs, graph, c, f, e.target).unwrap();
        let summary_exact = contents_eval(defs, c, e.contents@, 0, empty_contents()).unwrap();
        let outcome_exact = entry_outcome(e, found_exact, summary_exact).unwrap();
        let next_exact = accumulate(kind, exact_acc, outcome_exact).unwrap();
        lemma_attempt_contents_unblocked(defs, states, c, e.contents@, 0, empty_contents(), empty_contents());
        lemma_attempt_target_unblocked(defs, states, graph, local, c, f, e.target);
        let recorded_target = attempt_target(defs, states, graph, local, e.target);
        match recorded_target.unwrap() {
            None => {},
            Some(found) => match attempt_contents(defs, states, e.contents@, 0, empty_contents()).unwrap() {
                None => {},
                Some(summary) => match entry_outcome(e, found, summary) {
                    None => {},
                    Some(outcome) => match accumulate(kind, acc, outcome) {
                        None => {},
                        Some(next) => {
                            lemma_attempt_entries_unblocked(
                                defs,
                                states,
                                graph,
                                local,
                                c,
                                f,
                                kind,
                                entries,
                                i + 1,
                                next_exact,
                                next,
                            );
                        },
                    },
                },
            },
        }
    }
}

/// When no pending named node can make progress, every named node and group
/// that evaluates successfully with any fuel is recorded.
pub proof fn lemma_named_resolved(defs: Seq<ItemGroupDefinitionV1>, states: Seq<Seq<NodeState>>, c: nat, f: nat)
    requires
        named_stuck(defs, states),
    ensures
        forall|g: int, k: int|
            0 <= g < defs.len() && #[trigger] node_eval(defs, defs[g].graph, c, f, k) is Some ==> states[g][k] is Some,
        forall|g: int| #[trigger] group_eval(defs, c, f, g) is Some ==> group_state(defs, states, g) is Some,
    decreases c, f,
{
    reveal(attempt_node);
    if f > 0 {
        lemma_named_resolved(defs, states, c, (f - 1) as nat);
    }
    if c > 0 {
        lemma_named_resolved(defs, states, (c - 1) as nat, path_fuel());
    }
    assert forall|g: int, k: int|
        0 <= g < defs.len() && #[trigger] node_eval(defs, defs[g].graph, c, f, k) is Some implies states[g][k] is Some by {
        let graph = defs[g].graph;
        if states[g][k] is None {
            assert(f > 0 ==> forall|k2: int| #[trigger] node_eval(defs, graph, c, (f - 1) as nat, k2) is Some ==> states[g][k2] is Some);
            lemma_attempt_entries_unblocked(
                defs,
                states,
                graph,
                states[g],
                c,
                f,
                graph.nodes@[k].kind,
                graph.nodes@[k].entries@,
                0,
                empty_metrics(),
                empty_metrics(),
            );
            assert(local_stuck(defs, states, defs[g].graph, states[g]));
        }
    }
    assert forall|g: int| #[trigger] group_eval(defs, c, f, g) is Some implies group_state(defs, states, g) is Some by {
        let graph = defs[g].graph;
        let r = node_index(graph.nodes@, graph.root_node).unwrap();
        assert(node_eval(defs, defs[g].graph, c, f, r) is Some);
    }
}

/// When no pending node of an inline graph can make progress and the named
/// catalog is resolved, every node of the graph that evaluates successfully
/// is recorded.
pub proof fn lemma_local_resolved(
    defs: Seq<ItemGroupDefinitionV1>,
    states: Seq<Seq<NodeState>>,
    graph: ItemGroupGraphV1,
    local: Seq<NodeState>,
    c: nat,
    f: nat,
)
    requires
        named_stuck(defs, states),
        local.len() == graph.nodes@.len(),
        local_stuck(defs, states, graph, local),
    ensures
        forall|k: int| #[trigger] node_eval(defs, graph, c, f, k) is Some ==> local[k] is Some,
    decreases f,
{
    reveal(attempt_node);
    if f > 0 {
        lemma_local_resolved(defs, states, graph, local, c, (f - 1) as nat);
        lemma_named_resolved(defs, states, c, (f - 1) as nat);
    }
    if c > 0 {
        lemma_named_resolved(defs, states, (c - 1) as nat, path_fuel());
    }
    assert forall|k: int| #[trigger] node_eval(defs, graph, c, f, k) is Some implies local[k] is Some by {
        if local[k] is None {
            lemma_attempt_entries_unblocked(
                defs,
                states,
                graph,
                local,
                c,
                f,
                graph.nodes@[k].kind,
                graph.nodes@[k].entries@,
                0,
                empty_metrics(),
                empty_metrics(),
            );
        }
    }
}

/// A node that makes progress against recorded states gets its top-level
/// metrics.
pub proof fn lemma_attempt_node_sound(
    defs: Seq<ItemGroupDefinitionV1>,
    states: Seq<Seq<NodeState>>,
    graph: ItemGroupGraphV1,
    local: Seq<NodeState>,
    k: int,
)
    requires
        states_ok(defs, states),
        local_ok(defs, graph, local),
        0 <= k < graph.nodes@.len(),
    ensures
        attempt_node(defs, states, graph, local, k) matches Some(v) ==> v == full_node(defs, graph, k),
{
    reveal(attempt_node);
    reveal(full_node);
    if attempt_node(defs, states, graph, local, k) is Some {
        lemma_attempt_entries_sound(
            defs,
            states,
            graph,
            local,
            graph.nodes@[k].kind,
            graph.nodes@[k].entries@,
            0,
            empty_metrics(),
        );
    }
}

} // verus!
