//! The local shape of one item-group graph: bounds, sorted nodes, entry
//! rules, and reachability of every node from the root.

use vstd::prelude::*;

use crate::creatures::{content_id_ok, valid_recipe_id};
use crate::item_group_items::{
    container_ok, contents_source_ok, creator_container_ok, item_ok, valid_item_group_container,
    valid_item_group_contents, valid_item_group_creator_container, valid_item_group_item,
};
use crate::item_group_types::{
    ItemGroupEntryV1, ItemGroupGraphV1, ItemGroupKindV1, ItemGroupNodeV1, ItemGroupOverflowV1, ItemGroupTargetV1,
    MAX_ITEM_GROUP_ENTRIES, MAX_ITEM_GROUP_NODES,
};
use crate::items::{ItemPhaseV1, MAX_ITEM_RAW_DAMAGE};
use crate::text::{bounded_text_is_valid, str_eq, valid_bounded_text};

verus! {

/// Whether an entry carries an item modifier.
pub open spec fn modifier_present(entry: ItemGroupEntryV1) -> bool {
    ||| entry.raw_damage is Some
    ||| entry.variant_id is Some
    ||| entry.modifier_charges is Some
    ||| entry.contents@.len() > 0
    ||| entry.seal_contents
    ||| entry.modifier_default_container_sealed is Some
    ||| entry.modifier_container is Some
}

/// Entry shapes that only a modifier (whose marker is the damage range) can carry.
pub open spec fn modifier_requires_marker(entry: ItemGroupEntryV1) -> bool {
    ||| entry.count_min != 1
    ||| entry.count_max != 1
    ||| entry.variant_id is Some
    ||| entry.modifier_charges is Some
    ||| entry.contents@.len() > 0
    ||| entry.seal_contents
    ||| entry.modifier_default_container_sealed is Some
    ||| entry.modifier_container is Some
    ||| (entry.target matches ItemGroupTargetV1::Item(item) && item.charges is Some)
}

pub open spec fn sorted_node_ids(nodes: Seq<ItemGroupNodeV1>) -> bool {
    forall|i: int, j: int| 0 <= i < j < nodes.len() ==> (#[trigger] nodes[i]).node_id < (#[trigger] nodes[j]).node_id
}

pub open spec fn has_node(nodes: Seq<ItemGroupNodeV1>, id: u16) -> bool {
    exists|k: int| 0 <= k < nodes.len() && (#[trigger] nodes[k]).node_id == id
}

/// The position of node `id`, which is unique in a sorted graph.
pub open spec fn node_index(nodes: Seq<ItemGroupNodeV1>, id: u16) -> Option<int> {
    if has_node(nodes, id) {
        Some(choose|k: int| 0 <= k < nodes.len() && (#[trigger] nodes[k]).node_id == id)
    } else {
        None
    }
}

pub open spec fn target_ok(target: ItemGroupTargetV1, nodes: Seq<ItemGroupNodeV1>) -> bool {
    match target {
        ItemGroupTargetV1::Item(item) => item_ok(*item),
        ItemGroupTargetV1::Group(group_id) => content_id_ok(group_id@),
        ItemGroupTargetV1::Node(id) => has_node(nodes, id),
    }
}

/// The local rules of one entry of a node of kind `kind`.
pub open spec fn entry_shape_ok(kind: ItemGroupKindV1, entry: ItemGroupEntryV1, nodes: Seq<ItemGroupNodeV1>) -> bool {
    &&& entry.probability != 0
    &&& !(kind == ItemGroupKindV1::Collection && entry.probability > 100)
    &&& entry.count_min <= entry.count_max
    &&& !(modifier_requires_marker(entry) && entry.raw_damage is None)
    &&& !(entry.target matches ItemGroupTargetV1::Item(item) && item.prototype.type_id@ == "null"@)
    &&& (entry.raw_damage matches Some(d) ==> d.minimum <= d.maximum && d.maximum <= MAX_ITEM_RAW_DAMAGE)
    &&& (entry.variant_id matches Some(v) ==> valid_bounded_text(v@, 512))
    &&& !(modifier_present(entry) && entry.target is Node)
    &&& (entry.modifier_charges matches Some(c) ==> c.minimum >= 0 && c.maximum >= c.minimum)
    &&& (entry.modifier_charges is Some ==> entry.target is Group)
    &&& (entry.modifier_container is Some ==> entry.target is Item)
    &&& (entry.modifier_default_container_sealed is Some ==> entry.modifier_container is None && !(entry.target is Node))
    &&& !(entry.target matches ItemGroupTargetV1::Item(item) && entry.modifier_container is Some
        && item.prototype.containment.phase == ItemPhaseV1::Liquid && !item.charges_supported)
    &&& forall|j: int| 0 <= j < entry.contents@.len() ==> contents_source_ok(#[trigger] entry.contents@[j])
    &&& !(entry.seal_contents && entry.contents@.len() == 0)
    &&& (entry.direct_wrapper matches Some(w) ==> container_ok(w))
    &&& (entry.modifier_container matches Some(w) ==> w.overflow == ItemGroupOverflowV1::Unset && creator_container_ok(w))
    &&& target_ok(entry.target, nodes)
}

pub open spec fn probability_total(entries: Seq<ItemGroupEntryV1>) -> int
    decreases entries.len(),
{
    if entries.len() == 0 {
        0
    } else {
        probability_total(entries.drop_last()) + entries.last().probability
    }
}

pub open spec fn node_shape_ok(node: ItemGroupNodeV1, nodes: Seq<ItemGroupNodeV1>) -> bool {
    &&& forall|e: int| 0 <= e < node.entries@.len() ==> entry_shape_ok(node.kind, #[trigger] node.entries@[e], nodes)
    &&& (node.kind == ItemGroupKindV1::Distribution ==> probability_total(node.entries@) <= u32::MAX)
}

pub open spec fn entry_total(nodes: Seq<ItemGroupNodeV1>) -> int
    decreases nodes.len(),
{
    if nodes.len() == 0 {
        0
    } else {
        entry_total(nodes.drop_last()) + nodes.last().entries@.len()
    }
}

/// Whether node `from` has an entry that targets node `to`.
pub open spec fn node_edge(nodes: Seq<ItemGroupNodeV1>, from: u16, to: u16) -> bool {
    exists|i: int, e: int|
        0 <= i < nodes.len() && nodes[i].node_id == from && 0 <= e < nodes[i].entries@.len()
            && (#[trigger] nodes[i].entries@[e]).target == ItemGroupTargetV1::Node(to)
}

/// Node identifiers reachable from `root` in at most `steps` edges.
pub open spec fn reach_within(nodes: Seq<ItemGroupNodeV1>, root: u16, steps: nat) -> Set<u16>
    decreases steps,
{
    if steps == 0 {
        set![root]
    } else {
        let previous = reach_within(nodes, root, (steps - 1) as nat);
        Set::new(|to: u16| previous.contains(to) || exists|from: u16| previous.contains(from) && node_edge(nodes, from, to))
    }
}

/// Every node of a graph with `n` nodes is reachable from the root in fewer than `n` edges.
pub open spec fn all_nodes_reachable(graph: ItemGroupGraphV1) -> bool {
    forall|k: int|
        0 <= k < graph.nodes@.len() ==> reach_within(graph.nodes@, graph.root_node, graph.nodes@.len()).contains(
            (#[trigger] graph.nodes@[k]).node_id,
        )
}

/// A graph of 1..=2048 strictly sorted nodes with at most 8192 entries in
/// all, whose root exists, whose wrapper and entries are valid, whose
/// distribution weights fit in `u32`, and all of whose nodes are reachable.
pub open spec fn graph_shape_ok(graph: ItemGroupGraphV1) -> bool {
    let nodes = graph.nodes@;
    &&& 0 < nodes.len() <= MAX_ITEM_GROUP_NODES
    &&& sorted_node_ids(nodes)
    &&& has_node(nodes, graph.root_node)
    &&& (graph.wrapper matches Some(w) ==> container_ok(w))
    &&& entry_total(nodes) <= MAX_ITEM_GROUP_ENTRIES
    &&& forall|k: int| 0 <= k < nodes.len() ==> node_shape_ok(#[trigger] nodes[k], nodes)
    &&& all_nodes_reachable(graph)
}

/// Binary search for node `id` among strictly sorted nodes.
pub fn find_node(nodes: &Vec<ItemGroupNodeV1>, id: u16) -> (r: Option<usize>)
    requires
        sorted_node_ids(nodes@),
    ensures
        r matches Some(k) ==> k < nodes@.len() && nodes@[k as int].node_id == id && node_index(nodes@, id) == Some(
            k as int,
        ),
        r is None ==> !has_node(nodes@, id) && node_index(nodes@, id) is None,
{
    let mut lo: usize = 0;
    let mut hi: usize = nodes.len();
    while lo < hi
        invariant
            lo <= hi <= nodes@.len(),
            forall|k: int| 0 <= k < lo ==> (#[trigger] nodes@[k]).node_id < id,
            forall|k: int| hi <= k < nodes@.len() ==> (#[trigger] nodes@[k]).node_id > id,
        decreases hi - lo,
    {
        let mid = lo + (hi - lo) / 2;
        let found = nodes[mid].node_id;
        if found == id {
            proof {
                let k = choose|k: int| 0 <= k < nodes@.len() && (#[trigger] nodes@[k]).node_id == id;
                if k < mid {
                    assert(nodes@[k].node_id < nodes@[mid as int].node_id);
                } else if k > mid {
                    assert(nodes@[mid as int].node_id < nodes@[k].node_id);
                }
            }
            return Some(mid);
        } else if found < id {
            lo = mid + 1;
        } else {
            hi = mid;
        }
    }
    None
}

pub fn valid_item_group_target(target: &ItemGroupTargetV1, nodes: &Vec<ItemGroupNodeV1>) -> (r: bool)
    requires
        sorted_node_ids(nodes@),
    ensures
        r == target_ok(*target, nodes@),
{
    match target {
        ItemGroupTargetV1::Item(item) => valid_item_group_item(item),
        ItemGroupTargetV1::Group(group_id) => valid_recipe_id(group_id.as_str()),
        ItemGroupTargetV1::Node(id) => find_node(nodes, *id).is_some(),
    }
}

fn entry_modifier_present(entry: &ItemGroupEntryV1) -> (r: bool)
    ensures
        r == modifier_present(*entry),
{
    entry.raw_damage.is_some() || entry.variant_id.is_some() || entry.modifier_charges.is_some()
        || entry.contents.len() > 0 || entry.seal_contents || entry.modifier_default_container_sealed.is_some()
        || entry.modifier_container.is_some()
}

fn entry_contents_ok(entry: &ItemGroupEntryV1) -> (r: bool)
    ensures
        r == forall|j: int| 0 <= j < entry.contents@.len() ==> contents_source_ok(#[trigger] entry.contents@[j]),
{
    let mut j: usize = 0;
    while j < entry.contents.len()
        invariant
            j <= entry.contents@.len(),
            forall|k: int| 0 <= k < j ==> contents_source_ok(#[trigger] entry.contents@[k]),
        decreases entry.contents.len() - j,
    {
        if !valid_item_group_contents(&entry.contents[j]) {
            return false;
        }
        j = j + 1;
    }
    true
}

fn entry_shape_is_ok(kind: ItemGroupKindV1, entry: &ItemGroupEntryV1, nodes: &Vec<ItemGroupNodeV1>) -> (r: bool)
    requires
        sorted_node_ids(nodes@),
    ensures
        r == entry_shape_ok(kind, *entry, nodes@),
{
    let present = entry_modifier_present(entry);
    let (item_charges, null_item, liquid_without_charges) = match &entry.target {
        ItemGroupTargetV1::Item(item) => (
            item.charges.is_some(),
            str_eq(item.prototype.type_id.as_str(), "null"),
            item.prototype.containment.phase == ItemPhaseV1::Liquid && !item.charges_supported,
        ),
        _ => (false, false, false),
    };
    let is_item = match &entry.target {
        ItemGroupTargetV1::Item(_) => true,
        _ => false,
    };
    let is_group = match &entry.target {
        ItemGroupTargetV1::Group(_) => true,
        _ => false,
    };
    let is_node = match &entry.target {
        ItemGroupTargetV1::Node(_) => true,
        _ => false,
    };
    let requires_marker = entry.count_min != 1 || entry.count_max != 1 || entry.variant_id.is_some()
        || entry.modifier_charges.is_some() || entry.contents.len() > 0 || entry.seal_contents
        || entry.modifier_default_container_sealed.is_some() || entry.modifier_container.is_some() || item_charges;
    let damage_ok = match entry.raw_damage {
        Some(d) => d.minimum <= d.maximum && d.maximum <= MAX_ITEM_RAW_DAMAGE,
        None => true,
    };
    let variant_ok = match &entry.variant_id {
        Some(v) => bounded_text_is_valid(v.as_str(), 512),
        None => true,
    };
    let charges_ok = match entry.modifier_charges {
        Some(c) => c.minimum >= 0 && c.maximum >= c.minimum && is_group,
        None => true,
    };
    let direct_ok = match &entry.direct_wrapper {
        Some(w) => valid_item_group_container(w),
        None => true,
    };
    let modifier_ok = match &entry.modifier_container {
        Some(w) => w.overflow == ItemGroupOverflowV1::Unset && valid_item_group_creator_container(w) && is_item
            && !liquid_without_charges,
        None => true,
    };
    let sealed_ok = match entry.modifier_default_container_sealed {
        Some(_) => entry.modifier_container.is_none() && !is_node,
        None => true,
    };
    entry.probability != 0 && !(kind == ItemGroupKindV1::Collection && entry.probability > 100)
        && entry.count_min <= entry.count_max && !(requires_marker && entry.raw_damage.is_none()) && !null_item
        && damage_ok && variant_ok && !(present && is_node) && charges_ok && modifier_ok && sealed_ok
        && entry_contents_ok(entry) && !(entry.seal_contents && entry.contents.len() == 0) && direct_ok
        && valid_item_group_target(&entry.target, nodes)
}

fn node_shape_is_ok(node: &ItemGroupNodeV1, nodes: &Vec<ItemGroupNodeV1>) -> (r: bool)
    requires
        sorted_node_ids(nodes@),
    ensures
        r == node_shape_ok(*node, nodes@),
{
    let mut total: u64 = 0;
    let mut exceeded = false;
    let mut e: usize = 0;
    while e < node.entries.len()
        invariant
            e <= node.entries@.len(),
            forall|k: int| 0 <= k < e ==> entry_shape_ok(node.kind, #[trigger] node.entries@[k], nodes@),
            exceeded == (probability_total(node.entries@.take(e as int)) > u32::MAX),
            !exceeded ==> total == probability_total(node.entries@.take(e as int)),
        decreases node.entries.len() - e,
    {
        if !entry_shape_is_ok(node.kind, &node.entries[e], nodes) {
            return false;
        }
        assert(node.entries@.take(e + 1).drop_last() == node.entries@.take(e as int));
        if !exceeded {
            total = total + node.entries[e].probability as u64;
            if total > 4_294_967_295u64 {
                exceeded = true;
            }
        }
        e = e + 1;
    }
    assert(node.entries@.take(e as int) == node.entries@);
    node.kind != ItemGroupKindV1::Distribution || !exceeded
}

/// The exact set of node positions reachable within `steps` edges.
proof fn lemma_reach_stable(nodes: Seq<ItemGroupNodeV1>, root: u16, k: nat, m: nat)
    requires
        reach_within(nodes, root, k + 1) == reach_within(nodes, root, k),
        k <= m,
    ensures
        reach_within(nodes, root, m) == reach_within(nodes, root, k),
    decreases m - k,
{
    if m > k {
        lemma_reach_stable(nodes, root, k, (m - 1) as nat);
        assert(reach_within(nodes, root, m) =~= reach_within(nodes, root, k + 1));
    }
}

pub open spec fn targets_exist(nodes: Seq<ItemGroupNodeV1>) -> bool {
    forall|i: int, e: int|
        0 <= i < nodes.len() && 0 <= e < nodes[i].entries@.len() ==> ((#[trigger] nodes[i].entries@[e]).target matches ItemGroupTargetV1::Node(
            t,
        ) ==> has_node(nodes, t))
}

pub open spec fn marks_reach(nodes: Seq<ItemGroupNodeV1>, marked: Seq<bool>, reached: Set<u16>) -> bool {
    &&& marked.len() == nodes.len()
    &&& forall|k: int| 0 <= k < nodes.len() ==> marked[k] == reached.contains(#[trigger] nodes[k].node_id)
}

/// One breadth step: marks the nodes reachable in one more edge, and reports
/// whether any node was added.
fn reach_round(nodes: &Vec<ItemGroupNodeV1>, marked: &Vec<bool>, Ghost(root): Ghost<u16>, Ghost(steps): Ghost<nat>) -> (r: (
    Vec<bool>,
    bool,
))
    requires
        sorted_node_ids(nodes@),
        targets_exist(nodes@),
        marks_reach(nodes@, marked@, reach_within(nodes@, root, steps)),
    ensures
        marks_reach(nodes@, r.0@, reach_within(nodes@, root, steps + 1)),
        !r.1 ==> reach_within(nodes@, root, steps + 1) == reach_within(nodes@, root, steps),
{
    let n = nodes.len();
    let ghost sn = nodes@;
    let ghost previous = reach_within(sn, root, steps);
    let ghost next_set = reach_within(sn, root, steps + 1);
    let mut next: Vec<bool> = marked.clone();
    assert(next@ == marked@);
    let mut any_new = false;
    let mut a: usize = 0;
    while a < n
        invariant
            a <= n == sn.len(),
            marked@.len() == n,
            next@.len() == n,
            forall|k: int| 0 <= k < n ==> marked@[k] == previous.contains(#[trigger] sn[k].node_id),
            forall|k: int| 0 <= k < n && #[trigger] next@[k] ==> next_set.contains(sn[k].node_id),
            forall|k: int| 0 <= k < n && marked@[k] ==> #[trigger] next@[k],
            forall|k: int, b: int, e: int|
                0 <= b < a && marked@[b] && 0 <= e < sn[b].entries@.len() && 0 <= k < n && (
                #[trigger] sn[b].entries@[e]).target == ItemGroupTargetV1::Node(#[trigger] sn[k].node_id) ==> next@[k],
            any_new == exists|k: int| 0 <= k < n && #[trigger] next@[k] && !marked@[k],
        decreases n - a,
    {
        if marked[a] {
            let entries = &nodes[a].entries;
            let mut e: usize = 0;
            while e < entries.len()
                invariant
                    a < n == sn.len(),
                    *entries == sn[a as int].entries,
                    marked@[a as int],
                    e <= entries@.len(),
                    marked@.len() == n,
                    next@.len() == n,
                    forall|k: int| 0 <= k < n ==> marked@[k] == previous.contains(#[trigger] sn[k].node_id),
                    forall|k: int| 0 <= k < n && #[trigger] next@[k] ==> next_set.contains(sn[k].node_id),
                    forall|k: int| 0 <= k < n && marked@[k] ==> #[trigger] next@[k],
                    forall|k: int, b: int, x: int|
                        0 <= b < a && marked@[b] && 0 <= x < sn[b].entries@.len() && 0 <= k < n && (
                        #[trigger] sn[b].entries@[x]).target == ItemGroupTargetV1::Node(#[trigger] sn[k].node_id) ==> next@[k],
                    forall|k: int, x: int|
                        0 <= x < e && 0 <= k < n && (#[trigger] sn[a as int].entries@[x]).target
                            == ItemGroupTargetV1::Node(#[trigger] sn[k].node_id) ==> next@[k],
                    any_new == exists|k: int| 0 <= k < n && #[trigger] next@[k] && !marked@[k],
                decreases entries.len() - e,
            {
                if let ItemGroupTargetV1::Node(t) = &entries[e].target {
                    assert(has_node(sn, *t));
                    match find_node(nodes, *t) {
                        Some(k) => {
                            proof {
                                assert(previous.contains(sn[a as int].node_id));
                                assert(node_edge(sn, sn[a as int].node_id, *t));
                            }
                            if !next[k] {
                                any_new = true;
                                next.set(k, true);
                                assert(next@[k as int] && !marked@[k as int]);
                            }
                            proof {
                                assert forall|j: int, x: int|
                                    0 <= x <= e && 0 <= j < n && (#[trigger] sn[a as int].entries@[x]).target
                                        == ItemGroupTargetV1::Node(#[trigger] sn[j].node_id) implies next@[j] by {
                                    if x == e {
                                        if j != k {
                                            if j < k {
                                                assert(sn[j].node_id < sn[k as int].node_id);
                                            } else {
                                                assert(sn[k as int].node_id < sn[j].node_id);
                                            }
                                        }
                                    }
                                }
                            }
                        },
                        None => {},
                    }
                }
                e = e + 1;
            }
        }
        a = a + 1;
    }
    proof {
        assert forall|k: int| 0 <= k < n implies next@[k] == next_set.contains(#[trigger] sn[k].node_id) by {
            if next_set.contains(sn[k].node_id) && !previous.contains(sn[k].node_id) {
                let from = choose|from: u16| previous.contains(from) && node_edge(sn, from, sn[k].node_id);
                let (b, x) = choose|b: int, x: int|
                    0 <= b < sn.len() && sn[b].node_id == from && 0 <= x < sn[b].entries@.len()
                        && (#[trigger] sn[b].entries@[x]).target == ItemGroupTargetV1::Node(sn[k].node_id);
                assert(marked@[b]);
            }
        }
        if !any_new {
            assert(next_set =~= previous) by {
                assert forall|id: u16| next_set.contains(id) implies previous.contains(id) by {
                    if !previous.contains(id) {
                        let from = choose|from: u16| previous.contains(from) && node_edge(sn, from, id);
                        let (b, x) = choose|b: int, x: int|
                            0 <= b < sn.len() && sn[b].node_id == from && 0 <= x < sn[b].entries@.len()
                                && (#[trigger] sn[b].entries@[x]).target == ItemGroupTargetV1::Node(id);
                        assert(has_node(sn, id));
                        let k = choose|k: int| 0 <= k < sn.len() && (#[trigger] sn[k]).node_id == id;
                        assert(next@[k]);
                    }
                }
            }
        }
    }
    (next, any_new)
}

/// Whether every node is reachable from the root, given that every local
/// target exists.
fn all_reachable(graph: &ItemGroupGraphV1, root_index: usize) -> (r: bool)
    requires
        sorted_node_ids(graph.nodes@),
        root_index < graph.nodes@.len(),
        graph.nodes@[root_index as int].node_id == graph.root_node,
        targets_exist(graph.nodes@),
    ensures
        r == all_nodes_reachable(*graph),
{
    let nodes = &graph.nodes;
    let n = nodes.len();
    let ghost sn = nodes@;
    let ghost root = graph.root_node;
    let mut marked: Vec<bool> = Vec::new();
    let mut i: usize = 0;
    while i < n
        invariant
            i <= n == sn.len(),
            marked@.len() == i,
            forall|k: int| 0 <= k < i ==> marked@[k] == (k == root_index),
        decreases n - i,
    {
        marked.push(i == root_index);
        i = i + 1;
    }
    proof {
        assert forall|k: int| 0 <= k < n implies marked@[k] == reach_within(sn, root, 0).contains(#[trigger] sn[k].node_id) by {
            if k != root_index {
                if k < root_index {
                    assert(sn[k].node_id < sn[root_index as int].node_id);
                } else {
                    assert(sn[root_index as int].node_id < sn[k].node_id);
                }
            }
        }
    }
    let mut steps: usize = 0;
    let mut changed = true;
    while steps < n && changed
        invariant
            steps <= n == sn.len(),
            *nodes == graph.nodes,
            marks_reach(sn, marked@, reach_within(sn, root, steps as nat)),
            !changed ==> steps > 0 && reach_within(sn, root, steps as nat) == reach_within(sn, root, (steps - 1) as nat),
        decreases n - steps,
    {
        let (next, any_new) = reach_round(nodes, &marked, Ghost(root), Ghost(steps as nat));
        changed = any_new;
        marked = next;
        steps = steps + 1;
    }
    proof {
        if !changed {
            lemma_reach_stable(sn, root, (steps - 1) as nat, sn.len());
        }
    }
    let mut k: usize = 0;
    while k < n
        invariant
            k <= n == sn.len(),
            marks_reach(sn, marked@, reach_within(sn, root, n as nat)),
            forall|j: int| 0 <= j < k ==> reach_within(sn, root, n as nat).contains((#[trigger] sn[j]).node_id),
        decreases n - k,
    {
        if !marked[k] {
            assert(!reach_within(sn, root, n as nat).contains(sn[k as int].node_id));
            return false;
        }
        k = k + 1;
    }
    true
}

fn nodes_sorted(nodes: &Vec<ItemGroupNodeV1>) -> (r: bool)
    ensures
        r == sorted_node_ids(nodes@),
{
    let mut i: usize = 1;
    while i < nodes.len()
        invariant
            1 <= i,
            forall|a: int, b: int| 0 <= a < b < i && b < nodes@.len() ==> (#[trigger] nodes@[a]).node_id < (#[trigger] nodes@[b]).node_id,
        decreases nodes.len() - i,
    {
        if nodes[i - 1].node_id >= nodes[i].node_id {
            return false;
        }
        proof {
            assert forall|a: int, b: int| 0 <= a < b < i + 1 && b < nodes@.len() implies (#[trigger] nodes@[a]).node_id < (#[trigger] nodes@[b]).node_id by {
                if b == i && a < i - 1 {
                    assert(nodes@[a].node_id < nodes@[i - 1].node_id);
                }
            }
        }
        i = i + 1;
    }
    true
}

pub fn graph_entry_count(nodes: &Vec<ItemGroupNodeV1>) -> (r: Option<usize>)
    ensures
        r matches Some(c) ==> c == entry_total(nodes@) && c <= MAX_ITEM_GROUP_ENTRIES,
        r is None ==> entry_total(nodes@) > MAX_ITEM_GROUP_ENTRIES,
{
    let mut total: usize = 0;
    let mut i: usize = 0;
    while i < nodes.len()
        invariant
            i <= nodes@.len(),
            total == entry_total(nodes@.take(i as int)),
            total <= MAX_ITEM_GROUP_ENTRIES,
        decreases nodes.len() - i,
    {
        assert(nodes@.take(i + 1).drop_last() == nodes@.take(i as int));
        let count = nodes[i].entries.len();
        if count > MAX_ITEM_GROUP_ENTRIES - total {
            proof {
                lemma_entry_total_grows(nodes@, i + 1);
            }
            return None;
        }
        total = total + count;
        i = i + 1;
    }
    assert(nodes@.take(i as int) == nodes@);
    Some(total)
}

pub proof fn lemma_entry_total_grows(nodes: Seq<ItemGroupNodeV1>, i: int)
    requires
        0 <= i <= nodes.len(),
    ensures
        entry_total(nodes.take(i)) <= entry_total(nodes),
    decreases nodes.len() - i,
{
    if i < nodes.len() {
        lemma_entry_total_grows(nodes, i + 1);
        assert(nodes.take(i + 1).drop_last() == nodes.take(i));
    } else {
        assert(nodes.take(i) == nodes);
    }
}

pub fn valid_item_group_graph_shape(graph: &ItemGroupGraphV1) -> (r: bool)
    ensures
        r == graph_shape_ok(*graph),
{
    let nodes = &graph.nodes;
    if nodes.len() == 0 || nodes.len() > MAX_ITEM_GROUP_NODES || !nodes_sorted(nodes) {
        return false;
    }
    let root_index = match find_node(nodes, graph.root_node) {
        Some(k) => k,
        None => {
            return false;
        },
    };
    let wrapper_ok = match &graph.wrapper {
        Some(w) => valid_item_group_container(w),
        None => true,
    };
    if !wrapper_ok || graph_entry_count(nodes).is_none() {
        return false;
    }
    let mut i: usize = 0;
    while i < nodes.len()
        invariant
            i <= nodes@.len(),
            sorted_node_ids(nodes@),
            forall|k: int| 0 <= k < i ==> node_shape_ok(#[trigger] nodes@[k], nodes@),
        decreases nodes.len() - i,
    {
        if !node_shape_is_ok(&nodes[i], nodes) {
            return false;
        }
        i = i + 1;
    }
    proof {
        assert forall|a: int, e: int|
            0 <= a < nodes@.len() && 0 <= e < nodes@[a].entries@.len() implies ((
            #[trigger] nodes@[a].entries@[e]).target matches ItemGroupTargetV1::Node(t) ==> has_node(nodes@, t)) by {
            assert(node_shape_ok(nodes@[a], nodes@));
            assert(entry_shape_ok(nodes@[a].kind, nodes@[a].entries@[e], nodes@));
        }
    }
    all_reachable(graph, root_index)
}

} // verus!
