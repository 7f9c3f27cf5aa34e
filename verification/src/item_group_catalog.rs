//! Validation of a named item-group catalog and of the sources that use it.

use vstd::prelude::*;

use crate::creatures::{content_id_ok, valid_recipe_id};
use crate::item_group_eval::{
    full_graph, full_group, full_node, group_index, lemma_group_state, lemma_local_resolved,
    lemma_named_resolved, local_ok, named_stuck, states_ok, NodeState,
};
use crate::item_group_metrics::{finish_graph_metrics, ItemGroupMetrics};
use crate::item_group_resolve::{find_group, graphs_sorted, recorded_group_state, resolve_local, resolve_named, rows_fit, rows_view};
use crate::item_group_shape::{
    entry_total, find_node, graph_entry_count, graph_shape_ok, valid_item_group_graph_shape,
};
use crate::item_group_types::{
    ItemGroupDefinitionV1, ItemGroupSourceV1, MAX_ITEM_GROUP_DEFINITIONS, MAX_ITEM_GROUP_ENTRIES, MAX_ITEM_GROUP_NODES,
};
use crate::text::{str_less, text_lt};

verus! {

pub open spec fn group_ids_sorted(defs: Seq<ItemGroupDefinitionV1>) -> bool {
    forall|i: int| 0 <= i < defs.len() - 1 ==> text_lt((#[trigger] defs[i]).group_id@, defs[i + 1].group_id@)
}

pub open spec fn catalog_node_total(defs: Seq<ItemGroupDefinitionV1>) -> int
    decreases defs.len(),
{
    if defs.len() == 0 {
        0
    } else {
        catalog_node_total(defs.drop_last()) + defs.last().graph.nodes@.len()
    }
}

pub open spec fn catalog_entry_total(defs: Seq<ItemGroupDefinitionV1>) -> int
    decreases defs.len(),
{
    if defs.len() == 0 {
        0
    } else {
        catalog_entry_total(defs.drop_last()) + entry_total(defs.last().graph.nodes@)
    }
}

/// At most 512 definitions with strictly increasing identifiers, at most
/// 2048 nodes and 8192 entries in all, each with a valid identifier and
/// graph shape.
pub open spec fn catalog_header_ok(defs: Seq<ItemGroupDefinitionV1>) -> bool {
    &&& defs.len() <= MAX_ITEM_GROUP_DEFINITIONS
    &&& group_ids_sorted(defs)
    &&& catalog_node_total(defs) <= MAX_ITEM_GROUP_NODES
    &&& catalog_entry_total(defs) <= MAX_ITEM_GROUP_ENTRIES
    &&& forall|g: int|
        0 <= g < defs.len() ==> content_id_ok((#[trigger] defs[g]).group_id@) && graph_shape_ok(defs[g].graph)
}

/// A valid catalog: a valid header, and every group evaluates within the
/// path, containment, and output limits, with no cycle.
pub open spec fn catalog_ok(defs: Seq<ItemGroupDefinitionV1>) -> bool {
    &&& catalog_header_ok(defs)
    &&& forall|g: int| 0 <= g < defs.len() ==> (#[trigger] full_group(defs, g)) is Some
}

/// The metrics of a source: a named group, or an inline graph of valid shape.
pub open spec fn source_eval(defs: Seq<ItemGroupDefinitionV1>, source: ItemGroupSourceV1) -> Option<ItemGroupMetrics> {
    match source {
        ItemGroupSourceV1::Group(id) => match group_index(defs, id@) {
            None => None,
            Some(j) => full_group(defs, j),
        },
        ItemGroupSourceV1::Inline(graph) => if graph_shape_ok(graph) {
            full_graph(defs, graph)
        } else {
            None
        },
    }
}

pub open spec fn inline_node_total(sources: Seq<ItemGroupSourceV1>) -> int
    decreases sources.len(),
{
    if sources.len() == 0 {
        0
    } else {
        inline_node_total(sources.drop_last()) + match sources.last() {
            ItemGroupSourceV1::Inline(graph) => graph.nodes@.len() as int,
            ItemGroupSourceV1::Group(_) => 0,
        }
    }
}

pub open spec fn inline_entry_total(sources: Seq<ItemGroupSourceV1>) -> int
    decreases sources.len(),
{
    if sources.len() == 0 {
        0
    } else {
        inline_entry_total(sources.drop_last()) + match sources.last() {
            ItemGroupSourceV1::Inline(graph) => entry_total(graph.nodes@),
            ItemGroupSourceV1::Group(_) => 0,
        }
    }
}

/// The sources a list of references points at.
pub open spec fn deref_sources(sources: Seq<&ItemGroupSourceV1>) -> Seq<ItemGroupSourceV1> {
    sources.map_values(|s: &ItemGroupSourceV1| *s)
}

/// A valid catalog whose node and entry budget also covers every inline
/// source, and every source evaluates.
pub open spec fn sources_ok(defs: Seq<ItemGroupDefinitionV1>, sources: Seq<ItemGroupSourceV1>) -> bool {
    &&& catalog_ok(defs)
    &&& catalog_node_total(defs) + inline_node_total(sources) <= MAX_ITEM_GROUP_NODES
    &&& catalog_entry_total(defs) + inline_entry_total(sources) <= MAX_ITEM_GROUP_ENTRIES
    &&& forall|i: int| 0 <= i < sources.len() ==> (#[trigger] source_eval(defs, sources[i])) is Some
}

pub proof fn lemma_entry_total_nonnegative(nodes: Seq<crate::item_group_types::ItemGroupNodeV1>)
    ensures
        entry_total(nodes) >= 0,
    decreases nodes.len(),
{
    if nodes.len() > 0 {
        lemma_entry_total_nonnegative(nodes.drop_last());
    }
}

proof fn lemma_catalog_totals_grow(defs: Seq<ItemGroupDefinitionV1>, i: int)
    requires
        0 <= i <= defs.len(),
    ensures
        catalog_node_total(defs.take(i)) <= catalog_node_total(defs),
        catalog_entry_total(defs.take(i)) <= catalog_entry_total(defs),
    decreases defs.len() - i,
{
    if i < defs.len() {
        lemma_catalog_totals_grow(defs, i + 1);
        assert(defs.take(i + 1).drop_last() == defs.take(i));
        lemma_entry_total_nonnegative(defs[i].graph.nodes@);
    } else {
        assert(defs.take(i) == defs);
    }
}

proof fn lemma_inline_totals_grow(sources: Seq<ItemGroupSourceV1>, i: int)
    requires
        0 <= i <= sources.len(),
    ensures
        inline_node_total(sources.take(i)) <= inline_node_total(sources),
        inline_entry_total(sources.take(i)) <= inline_entry_total(sources),
    decreases sources.len() - i,
{
    if i < sources.len() {
        lemma_inline_totals_grow(sources, i + 1);
        assert(sources.take(i + 1).drop_last() == sources.take(i));
        if let ItemGroupSourceV1::Inline(graph) = sources[i] {
            lemma_entry_total_nonnegative(graph.nodes@);
        }
    } else {
        assert(sources.take(i) == sources);
    }
}

fn catalog_totals(defs: &[ItemGroupDefinitionV1]) -> (r: Option<(usize, usize)>)
    ensures
        r matches Some(t) ==> t.0 == catalog_node_total(defs@) && t.1 == catalog_entry_total(defs@)
            && t.0 <= MAX_ITEM_GROUP_NODES && t.1 <= MAX_ITEM_GROUP_ENTRIES,
        r is None ==> catalog_node_total(defs@) > MAX_ITEM_GROUP_NODES || catalog_entry_total(defs@)
            > MAX_ITEM_GROUP_ENTRIES,
{
    let mut nodes: usize = 0;
    let mut entries: usize = 0;
    let mut i: usize = 0;
    while i < defs.len()
        invariant
            i <= defs@.len(),
            nodes == catalog_node_total(defs@.take(i as int)),
            entries == catalog_entry_total(defs@.take(i as int)),
            nodes <= MAX_ITEM_GROUP_NODES,
            entries <= MAX_ITEM_GROUP_ENTRIES,
        decreases defs.len() - i,
    {
        assert(defs@.take(i + 1).drop_last() == defs@.take(i as int));
        proof {
            lemma_catalog_totals_grow(defs@, i + 1);
        }
        let count = defs[i].graph.nodes.len();
        if count > MAX_ITEM_GROUP_NODES - nodes {
            return None;
        }
        let graph_entries = match graph_entry_count(&defs[i].graph.nodes) {
            Some(c) => c,
            None => {
                proof {
                    lemma_entry_total_nonnegative(defs@[i as int].graph.nodes@);
                }
                return None;
            },
        };
        if graph_entries > MAX_ITEM_GROUP_ENTRIES - entries {
            return None;
        }
        nodes = nodes + count;
        entries = entries + graph_entries;
        i = i + 1;
    }
    assert(defs@.take(i as int) == defs@);
    Some((nodes, entries))
}

fn ids_sorted(defs: &[ItemGroupDefinitionV1]) -> (r: bool)
    ensures
        r == group_ids_sorted(defs@),
{
    let mut i: usize = 1;
    while i < defs.len()
        invariant
            1 <= i,
            forall|j: int| 0 <= j < i - 1 && j < defs@.len() - 1 ==> text_lt((#[trigger] defs@[j]).group_id@, defs@[j + 1].group_id@),
        decreases defs.len() - i,
    {
        if !str_less(defs[i - 1].group_id.as_str(), defs[i].group_id.as_str()) {
            return false;
        }
        i = i + 1;
    }
    true
}

pub fn catalog_header_is_valid(defs: &[ItemGroupDefinitionV1]) -> (r: bool)
    ensures
        r == catalog_header_ok(defs@),
{
    if defs.len() > MAX_ITEM_GROUP_DEFINITIONS || !ids_sorted(defs) || catalog_totals(defs).is_none() {
        return false;
    }
    let mut g: usize = 0;
    while g < defs.len()
        invariant
            g <= defs@.len(),
            forall|h: int| 0 <= h < g ==> content_id_ok((#[trigger] defs@[h]).group_id@) && graph_shape_ok(defs@[h].graph),
        decreases defs.len() - g,
    {
        if !valid_recipe_id(defs[g].group_id.as_str()) || !valid_item_group_graph_shape(&defs[g].graph) {
            return false;
        }
        g = g + 1;
    }
    true
}

/// Resolves a catalog whose header is valid; `None` exactly when some group
/// fails.
fn resolved_catalog(defs: &[ItemGroupDefinitionV1]) -> (r: Option<Vec<Vec<NodeState>>>)
    requires
        catalog_header_ok(defs@),
    ensures
        r is Some <==> catalog_ok(defs@),
        r matches Some(states) ==> rows_fit(defs@, rows_view(states@)) && states_ok(defs@, rows_view(states@))
            && named_stuck(defs@, rows_view(states@)),
{
    assert(graphs_sorted(defs@));
    let states = resolve_named(defs);
    let ghost view = rows_view(states@);
    let mut g: usize = 0;
    while g < defs.len()
        invariant
            g <= defs@.len(),
            catalog_header_ok(defs@),
            graphs_sorted(defs@),
            view == rows_view(states@),
            rows_fit(defs@, view),
            states_ok(defs@, view),
            named_stuck(defs@, view),
            forall|h: int| 0 <= h < g ==> (#[trigger] full_group(defs@, h)) is Some,
        decreases defs.len() - g,
    {
        let state = recorded_group_state(defs, &states, g);
        proof {
            if state is Some {
                lemma_group_state(defs@, view, g as int);
            } else {
                lemma_named_resolved(defs@, view, crate::item_group_eval::contents_fuel(), crate::item_group_eval::path_fuel());
            }
        }
        match state {
            Some(Some(_)) => {},
            _ => {
                return None;
            },
        }
        g = g + 1;
    }
    Some(states)
}

/// Validates the named catalog: header, references, cycles, depth, weight
/// sums, item prototypes, and generated output counts.
pub fn item_group_catalog_is_valid(definitions: &[ItemGroupDefinitionV1]) -> (r: bool)
    ensures
        r == catalog_ok(definitions@),
{
    if !catalog_header_is_valid(definitions) {
        return false;
    }
    resolved_catalog(definitions).is_some()
}

/// The metrics of one source against a resolved valid catalog.
fn evaluate_source(defs: &[ItemGroupDefinitionV1], states: &Vec<Vec<NodeState>>, source: &ItemGroupSourceV1) -> (r: Option<
    ItemGroupMetrics,
>)
    requires
        catalog_header_ok(defs@),
        rows_fit(defs@, rows_view(states@)),
        states_ok(defs@, rows_view(states@)),
        named_stuck(defs@, rows_view(states@)),
    ensures
        r == source_eval(defs@, *source),
{
    let ghost view = rows_view(states@);
    assert(graphs_sorted(defs@));
    match source {
        ItemGroupSourceV1::Group(id) => match find_group(defs, id.as_str()) {
            None => None,
            Some(j) => {
                let state = recorded_group_state(defs, states, j);
                proof {
                    if state is Some {
                        lemma_group_state(defs@, view, j as int);
                    } else {
                        lemma_named_resolved(defs@, view, crate::item_group_eval::contents_fuel(), crate::item_group_eval::path_fuel());
                    }
                }
                match state {
                    Some(Some(m)) => Some(m),
                    _ => None,
                }
            },
        },
        ItemGroupSourceV1::Inline(graph) => {
            if !valid_item_group_graph_shape(graph) {
                return None;
            }
            let local = resolve_local(defs, states, graph);
            let root = match find_node(&graph.nodes, graph.root_node) {
                Some(k) => k,
                None => {
                    return None;
                },
            };
            proof {
                reveal(full_node);
                assert(local_ok(defs@, *graph, local@));
                lemma_local_resolved(defs@, view, *graph, local@, crate::item_group_eval::contents_fuel(), crate::item_group_eval::path_fuel());
            }
            match local[root] {
                Some(Some(m)) => finish_graph_metrics(m, &graph.wrapper),
                _ => None,
            }
        },
    }
}

/// Validates a named catalog and every retained source against one node and
/// entry budget; repeated named references share their storage, each inline
/// graph adds its own.
pub fn item_group_sources_are_valid(definitions: &[ItemGroupDefinitionV1], sources: &[&ItemGroupSourceV1]) -> (r: bool)
    ensures
        r == sources_ok(definitions@, deref_sources(sources@)),
{
    let ghost view = deref_sources(sources@);
    if !catalog_header_is_valid(definitions) {
        return false;
    }
    let states = match resolved_catalog(definitions) {
        Some(s) => s,
        None => {
            return false;
        },
    };
    let (mut nodes, mut entries) = match catalog_totals(definitions) {
        Some(t) => t,
        None => {
            return false;
        },
    };
    let ghost base_nodes = nodes as int;
    let ghost base_entries = entries as int;
    let mut i: usize = 0;
    while i < sources.len()
        invariant
            i <= sources@.len(),
            view == deref_sources(sources@),
            catalog_ok(definitions@),
            rows_fit(definitions@, rows_view(states@)),
            states_ok(definitions@, rows_view(states@)),
            named_stuck(definitions@, rows_view(states@)),
            base_nodes == catalog_node_total(definitions@),
            base_entries == catalog_entry_total(definitions@),
            nodes == base_nodes + inline_node_total(view.take(i as int)),
            entries == base_entries + inline_entry_total(view.take(i as int)),
            nodes <= MAX_ITEM_GROUP_NODES,
            entries <= MAX_ITEM_GROUP_ENTRIES,
            forall|j: int| 0 <= j < i ==> (#[trigger] source_eval(definitions@, view[j])) is Some,
        decreases sources.len() - i,
    {
        assert(view.take(i + 1).drop_last() == view.take(i as int));
        proof {
            lemma_inline_totals_grow(view, i + 1);
        }
        let source: &ItemGroupSourceV1 = sources[i];
        assert(*source == view[i as int]);
        if let ItemGroupSourceV1::Inline(graph) = source {
            let count = graph.nodes.len();
            if count > MAX_ITEM_GROUP_NODES - nodes {
                return false;
            }
            let graph_entries = match graph_entry_count(&graph.nodes) {
                Some(c) => c,
                None => {
                    proof {
                        lemma_entry_total_nonnegative(graph.nodes@);
                    }
                    return false;
                },
            };
            if graph_entries > MAX_ITEM_GROUP_ENTRIES - entries {
                return false;
            }
            nodes = nodes + count;
            entries = entries + graph_entries;
        }
        if evaluate_source(definitions, &states, source).is_none() {
            return false;
        }
        i = i + 1;
    }
    assert(view.take(i as int) == view);
    true
}

/// The budget and validity of a single source.
proof fn lemma_single_source(defs: Seq<ItemGroupDefinitionV1>, source: ItemGroupSourceV1)
    ensures
        sources_ok(defs, seq![source]) == ({
            &&& catalog_ok(defs)
            &&& catalog_node_total(defs) + (match source {
                ItemGroupSourceV1::Inline(graph) => graph.nodes@.len() as int,
                ItemGroupSourceV1::Group(_) => 0,
            }) <= MAX_ITEM_GROUP_NODES
            &&& catalog_entry_total(defs) + (match source {
                ItemGroupSourceV1::Inline(graph) => entry_total(graph.nodes@),
                ItemGroupSourceV1::Group(_) => 0,
            }) <= MAX_ITEM_GROUP_ENTRIES
            &&& source_eval(defs, source) is Some
        }),
{
    let sources = seq![source];
    assert(sources.drop_last() =~= Seq::<ItemGroupSourceV1>::empty());
    assert(inline_node_total(Seq::<ItemGroupSourceV1>::empty()) == 0);
    assert(inline_entry_total(Seq::<ItemGroupSourceV1>::empty()) == 0);
    assert(sources[0] == source);
}

/// Everything the evaluation of a source records (outputs, depth,
/// containment depth, charge candidates and the capabilities of what it
/// produces) when the source and its catalog are valid.
pub fn item_group_source_metrics(source: &ItemGroupSourceV1, definitions: &[ItemGroupDefinitionV1]) -> (r: Option<ItemGroupMetrics>)
    ensures
        r == (if sources_ok(definitions@, seq![*source]) {
            source_eval(definitions@, *source)
        } else {
            None
        }),
{
    proof {
        lemma_single_source(definitions@, *source);
    }
    if !catalog_header_is_valid(definitions) {
        return None;
    }
    let states = match resolved_catalog(definitions) {
        Some(s) => s,
        None => {
            return None;
        },
    };
    let (nodes, entries) = match catalog_totals(definitions) {
        Some(t) => t,
        None => {
            return None;
        },
    };
    if let ItemGroupSourceV1::Inline(graph) = source {
        if graph.nodes.len() > MAX_ITEM_GROUP_NODES - nodes {
            return None;
        }
        let graph_entries = match graph_entry_count(&graph.nodes) {
            Some(c) => c,
            None => {
                proof {
                    lemma_entry_total_nonnegative(graph.nodes@);
                }
                return None;
            },
        };
        if graph_entries > MAX_ITEM_GROUP_ENTRIES - entries {
            return None;
        }
    }
    evaluate_source(definitions, &states, source)
}

/// The maximum number of stable item objects a source produces, contained
/// wrappers, contents, and ammunition included, when the source and its
/// catalog are valid.
pub fn item_group_source_max_outputs(source: &ItemGroupSourceV1, definitions: &[ItemGroupDefinitionV1]) -> (r: Option<u64>)
    ensures
        r == (if sources_ok(definitions@, seq![*source]) {
            Some(source_eval(definitions@, *source).unwrap().outputs)
        } else {
            None
        }),
{
    match item_group_source_metrics(source, definitions) {
        Some(m) => Some(m.outputs),
        None => None,
    }
}

} // verus!
