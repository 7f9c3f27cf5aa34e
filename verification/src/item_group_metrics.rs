//! Worst-case output metrics of item-group entries, items, and wrappers.

use vstd::prelude::*;

use crate::item_group_items::{container_support, contents_support, item_contents_insertion_support, item_group_container_insertion_support};
use crate::item_group_shape::modifier_present;
use crate::item_group_types::{
    ItemGroupContainerV1, ItemGroupEntryV1, ItemGroupItemPrototypeV1, ItemGroupKindV1, ItemGroupOverflowV1,
    ItemGroupTargetV1, ItemGroupToolChargeStorageV1, MAX_ITEM_GROUP_DEPTH, MAX_ITEM_GROUP_OUTPUTS,
};
use crate::prototypes::MAX_ITEM_COMPONENT_DEPTH;

verus! {

/// Upper bounds and support facts of everything one invocation can produce.
#[derive(Clone, Copy, Debug, PartialEq, Eq, Structural)]
pub struct ItemGroupMetrics {
    /// Stable item objects produced, wrappers and contents included.
    pub outputs: u64,
    /// Local-node and named-group edges on the longest path.
    pub depth: u64,
    /// Deepest nesting of items inside items.
    pub containment_depth: u64,
    /// Top-level items whose charge modifier can create a detachable magazine.
    pub charge_magazine_candidates: u64,
    /// Top-level items whose positive charge modifier can create ammunition.
    pub charge_ammunition_candidates: u64,
    pub modifier_side_effects_supported: bool,
    pub charges_supported: bool,
    pub estorable_contents_supported: bool,
    pub non_estorable_contents_supported: bool,
    pub all_top_level_estorable: bool,
    /// Whether a top-level item may fall back to its type's default container.
    pub top_level_default_container_possible: bool,
}

/// Outputs, containment depth, and whether all top-level items are estorable,
/// over a list of contents.
pub type ContentsSummary = (u64, u64, bool);

/// Outputs, result metrics, path depth, and containment depth of one entry.
pub type EntryOutcome = (u64, ItemGroupMetrics, u64, u64);

pub open spec fn max_int(a: int, b: int) -> int {
    if a >= b {
        a
    } else {
        b
    }
}

/// The metrics of the items that `wrapper` holds after a whole result is put
/// in it: spilled payloads stay beside it, others are replaced by it.
pub open spec fn wrapped_metrics(m: ItemGroupMetrics, wrapper: ItemGroupContainerV1) -> ItemGroupMetrics {
    let spill = wrapper.overflow == ItemGroupOverflowV1::Spill;
    let support = container_support(wrapper);
    ItemGroupMetrics {
        outputs: m.outputs,
        depth: m.depth,
        containment_depth: m.containment_depth,
        charge_magazine_candidates: if spill { m.charge_magazine_candidates } else { 0 },
        charge_ammunition_candidates: if spill { m.charge_ammunition_candidates } else { 0 },
        modifier_side_effects_supported: wrapper.item.modifier_side_effects_supported && (!spill
            || m.modifier_side_effects_supported),
        charges_supported: wrapper.item.charges_supported && (!spill || m.charges_supported),
        estorable_contents_supported: support.0 && (!spill || m.estorable_contents_supported),
        non_estorable_contents_supported: support.1 && (!spill || m.non_estorable_contents_supported),
        all_top_level_estorable: wrapper.item.prototype.containment.estorable && (!spill || m.all_top_level_estorable),
        top_level_default_container_possible: wrapper.item.default_container is Some || (spill
            && m.top_level_default_container_possible),
    }
}

pub fn apply_output_wrapper_metrics(m: ItemGroupMetrics, wrapper: &ItemGroupContainerV1) -> (r: ItemGroupMetrics)
    ensures
        r == wrapped_metrics(m, *wrapper),
{
    let spill = wrapper.overflow == ItemGroupOverflowV1::Spill;
    let support = item_group_container_insertion_support(wrapper);
    ItemGroupMetrics {
        outputs: m.outputs,
        depth: m.depth,
        containment_depth: m.containment_depth,
        charge_magazine_candidates: if spill { m.charge_magazine_candidates } else { 0 },
        charge_ammunition_candidates: if spill { m.charge_ammunition_candidates } else { 0 },
        modifier_side_effects_supported: wrapper.item.modifier_side_effects_supported && (!spill
            || m.modifier_side_effects_supported),
        charges_supported: wrapper.item.charges_supported && (!spill || m.charges_supported),
        estorable_contents_supported: support.0 && (!spill || m.estorable_contents_supported),
        non_estorable_contents_supported: support.1 && (!spill || m.non_estorable_contents_supported),
        all_top_level_estorable: wrapper.item.prototype.containment.estorable && (!spill || m.all_top_level_estorable),
        top_level_default_container_possible: wrapper.item.default_container.is_some() || (spill
            && m.top_level_default_container_possible),
    }
}

/// Magazines and ammunition that charge storage nests inside an item.
pub open spec fn tool_containment_depth(item: ItemGroupItemPrototypeV1) -> u64 {
    let charged = item.charges is Some;
    let positive = item.charges matches Some(c) && c.maximum > 0;
    match item.tool_charge_storage {
        None => 0,
        Some(ItemGroupToolChargeStorageV1::Integral { .. }) => if positive { 1 } else { 0 },
        Some(ItemGroupToolChargeStorageV1::Detachable { .. }) => if charged && positive {
            2
        } else if charged || positive {
            1
        } else {
            0
        },
    }
}

/// The item constructed alone, without its default container.
pub open spec fn raw_item_metrics(item: ItemGroupItemPrototypeV1) -> ItemGroupMetrics {
    let support = contents_support(item);
    ItemGroupMetrics {
        outputs: (1 + tool_containment_depth(item)) as u64,
        depth: 0,
        containment_depth: tool_containment_depth(item),
        charge_magazine_candidates: if item.tool_charge_storage matches Some(ItemGroupToolChargeStorageV1::Detachable { .. }) {
            1
        } else {
            0
        },
        charge_ammunition_candidates: if item.tool_charge_storage is Some { 1 } else { 0 },
        modifier_side_effects_supported: item.modifier_side_effects_supported,
        charges_supported: item.charges_supported,
        estorable_contents_supported: support.0,
        non_estorable_contents_supported: support.1,
        all_top_level_estorable: item.prototype.containment.estorable,
        top_level_default_container_possible: item.default_container is Some,
    }
}

/// The item as its type constructs it: inside its default container, if any.
pub open spec fn item_metrics(item: ItemGroupItemPrototypeV1) -> ItemGroupMetrics {
    let raw = raw_item_metrics(item);
    match item.default_container {
        Some(c) => wrapped_metrics(
            ItemGroupMetrics {
                outputs: (raw.outputs + 1) as u64,
                containment_depth: (raw.containment_depth + 1) as u64,
                ..raw
            },
            c,
        ),
        None => raw,
    }
}

fn item_tool_containment_depth(item: &ItemGroupItemPrototypeV1) -> (r: u64)
    ensures
        r == tool_containment_depth(*item),
        r <= 2,
{
    let charged = item.charges.is_some();
    let positive = match item.charges {
        Some(c) => c.maximum > 0,
        None => false,
    };
    match &item.tool_charge_storage {
        None => 0,
        Some(ItemGroupToolChargeStorageV1::Integral { .. }) => if positive { 1 } else { 0 },
        Some(ItemGroupToolChargeStorageV1::Detachable { .. }) => if charged && positive {
            2
        } else if charged || positive {
            1
        } else {
            0
        },
    }
}

pub fn raw_item_group_item_metrics(item: &ItemGroupItemPrototypeV1) -> (r: ItemGroupMetrics)
    ensures
        r == raw_item_metrics(*item),
{
    let support = item_contents_insertion_support(item);
    let depth = item_tool_containment_depth(item);
    let detachable = match &item.tool_charge_storage {
        Some(ItemGroupToolChargeStorageV1::Detachable { .. }) => true,
        _ => false,
    };
    ItemGroupMetrics {
        outputs: 1 + depth,
        depth: 0,
        containment_depth: depth,
        charge_magazine_candidates: if detachable { 1 } else { 0 },
        charge_ammunition_candidates: if item.tool_charge_storage.is_some() { 1 } else { 0 },
        modifier_side_effects_supported: item.modifier_side_effects_supported,
        charges_supported: item.charges_supported,
        estorable_contents_supported: support.0,
        non_estorable_contents_supported: support.1,
        all_top_level_estorable: item.prototype.containment.estorable,
        top_level_default_container_possible: item.default_container.is_some(),
    }
}

pub fn item_group_item_metrics(item: &ItemGroupItemPrototypeV1) -> (r: ItemGroupMetrics)
    ensures
        r == item_metrics(*item),
{
    let raw = raw_item_group_item_metrics(item);
    match &item.default_container {
        Some(c) => apply_output_wrapper_metrics(
            ItemGroupMetrics { outputs: raw.outputs + 1, containment_depth: raw.containment_depth + 1, ..raw },
            c,
        ),
        None => raw,
    }
}

/// The metrics an entry starts from: a modified direct leaf without a
/// default-container fallback is constructed raw.
pub open spec fn outcome_target(entry: ItemGroupEntryV1, found: ItemGroupMetrics) -> ItemGroupMetrics {
    match entry.target {
        ItemGroupTargetV1::Item(item) => if modifier_present(entry) && entry.modifier_default_container_sealed is None {
            raw_item_metrics(*item)
        } else {
            found
        },
        _ => found,
    }
}

/// The metrics of an explicit modifier container, constructed as its type does.
pub open spec fn creator_metrics(entry: ItemGroupEntryV1) -> Option<ItemGroupMetrics> {
    match entry.modifier_container {
        Some(c) => Some(item_metrics(*c.item)),
        None => None,
    }
}

pub open spec fn positive_charges(entry: ItemGroupEntryV1) -> bool {
    entry.modifier_charges matches Some(c) && c.maximum > 0
}

/// Items one entry produces at its maximum count: each target result, its
/// contents, the magazines and ammunition that modifier charges create, the
/// modifier container's subtree, and one direct wrapper.
pub open spec fn entry_output_count(entry: ItemGroupEntryV1, target: ItemGroupMetrics, contents_outputs: int) -> int {
    let count = entry.count_max as int;
    let base = target.outputs * count;
    base + base * contents_outputs + (if entry.modifier_charges is Some {
        target.charge_magazine_candidates * count
    } else {
        0
    }) + (if positive_charges(entry) {
        target.charge_ammunition_candidates * count
    } else {
        0
    }) + (match creator_metrics(entry) {
        Some(cm) => cm.outputs * count,
        None => 0,
    }) + (if entry.direct_wrapper is Some {
        1int
    } else {
        0int
    })
}

/// The containment depth of one entry's results.
pub open spec fn entry_containment(entry: ItemGroupEntryV1, target: ItemGroupMetrics, contents_depth: int) -> int {
    let positive = positive_charges(entry);
    let magazines = target.charge_magazine_candidates > 0;
    let rounds = target.charge_ammunition_candidates > 0;
    let d1 = if entry.modifier_charges is Some && magazines {
        max_int(target.containment_depth as int, 1)
    } else {
        target.containment_depth as int
    };
    let d2 = if positive && magazines && rounds {
        max_int(d1, 2)
    } else if positive && rounds {
        max_int(d1, 1)
    } else {
        d1
    };
    let d3 = if entry.modifier_container is Some {
        d2 + 1
    } else {
        d2
    };
    let d4 = match creator_metrics(entry) {
        Some(cm) => max_int(d3, cm.containment_depth as int),
        None => d3,
    };
    let d5 = if entry.contents@.len() > 0 {
        max_int(d4, contents_depth + 1)
    } else {
        d4
    };
    if entry.direct_wrapper is Some {
        d5 + 1
    } else {
        d5
    }
}

/// The metrics of the top-level items one entry yields.
pub open spec fn entry_result(entry: ItemGroupEntryV1, target: ItemGroupMetrics) -> ItemGroupMetrics {
    let count = entry.count_max as int;
    let scaled = ItemGroupMetrics {
        charge_magazine_candidates: (target.charge_magazine_candidates * count) as u64,
        charge_ammunition_candidates: (target.charge_ammunition_candidates * count) as u64,
        ..target
    };
    let base = match creator_metrics(entry) {
        Some(cm) => cm,
        None => scaled,
    };
    match entry.direct_wrapper {
        Some(w) => wrapped_metrics(base, w),
        None => base,
    }
}

/// An entry fails closed on dynamic default-container fallbacks, unsupported
/// modifier side effects or charges, unsupported contents insertion,
/// overflow, and output, path, or containment limits.
pub open spec fn entry_rejected(entry: ItemGroupEntryV1, target: ItemGroupMetrics, contents: ContentsSummary) -> bool {
    let count = entry.count_max as int;
    let support = match creator_metrics(entry) {
        Some(cm) => (cm.estorable_contents_supported, cm.non_estorable_contents_supported),
        None => (target.estorable_contents_supported, target.non_estorable_contents_supported),
    };
    ||| entry.modifier_default_container_sealed is Some && !(entry.target is Item)
        && target.top_level_default_container_possible
    ||| modifier_present(entry) && !target.modifier_side_effects_supported
    ||| entry.modifier_charges is Some && !target.charges_supported
    ||| entry.contents@.len() > 0 && !(if contents.2 {
        support.0
    } else {
        support.1
    })
    ||| target.charge_magazine_candidates * count > u64::MAX
    ||| target.charge_ammunition_candidates * count > u64::MAX
    ||| entry_output_count(entry, target, contents.0 as int) > MAX_ITEM_GROUP_OUTPUTS
    ||| target.depth + 1 > MAX_ITEM_GROUP_DEPTH
    ||| entry_containment(entry, target, contents.1 as int) > MAX_ITEM_COMPONENT_DEPTH
}

/// The outcome of one entry whose target yields `found` and whose contents
/// are summarized by `contents`.
pub open spec fn entry_outcome(entry: ItemGroupEntryV1, found: ItemGroupMetrics, contents: ContentsSummary) -> Option<EntryOutcome> {
    let target = outcome_target(entry, found);
    if entry_rejected(entry, target, contents) {
        None
    } else {
        Some(
            (
                entry_output_count(entry, target, contents.0 as int) as u64,
                entry_result(entry, target),
                (target.depth + 1) as u64,
                entry_containment(entry, target, contents.1 as int) as u64,
            ),
        )
    }
}

/// Metrics of a node with no entries.
pub open spec fn empty_metrics() -> ItemGroupMetrics {
    ItemGroupMetrics {
        outputs: 0,
        depth: 0,
        containment_depth: 0,
        charge_magazine_candidates: 0,
        charge_ammunition_candidates: 0,
        modifier_side_effects_supported: true,
        charges_supported: true,
        estorable_contents_supported: true,
        non_estorable_contents_supported: true,
        all_top_level_estorable: true,
        top_level_default_container_possible: false,
    }
}

/// Adds one entry's outcome to a node's metrics: collections add counts,
/// distributions take the largest.
pub open spec fn accumulate(kind: ItemGroupKindV1, acc: ItemGroupMetrics, outcome: EntryOutcome) -> Option<ItemGroupMetrics> {
    let (outputs, result, depth, containment) = outcome;
    let collection = kind == ItemGroupKindV1::Collection;
    let total: int = if collection {
        acc.outputs + outputs
    } else {
        max_int(acc.outputs as int, outputs as int)
    };
    let magazines: int = if collection {
        acc.charge_magazine_candidates + result.charge_magazine_candidates
    } else {
        max_int(acc.charge_magazine_candidates as int, result.charge_magazine_candidates as int)
    };
    let rounds: int = if collection {
        acc.charge_ammunition_candidates + result.charge_ammunition_candidates
    } else {
        max_int(acc.charge_ammunition_candidates as int, result.charge_ammunition_candidates as int)
    };
    if total > MAX_ITEM_GROUP_OUTPUTS || magazines > u64::MAX || rounds > u64::MAX {
        None
    } else {
        Some(
            ItemGroupMetrics {
                outputs: total as u64,
                depth: max_int(acc.depth as int, depth as int) as u64,
                containment_depth: max_int(acc.containment_depth as int, containment as int) as u64,
                charge_magazine_candidates: magazines as u64,
                charge_ammunition_candidates: rounds as u64,
                modifier_side_effects_supported: acc.modifier_side_effects_supported
                    && result.modifier_side_effects_supported,
                charges_supported: acc.charges_supported && result.charges_supported,
                estorable_contents_supported: acc.estorable_contents_supported && result.estorable_contents_supported,
                non_estorable_contents_supported: acc.non_estorable_contents_supported
                    && result.non_estorable_contents_supported,
                all_top_level_estorable: acc.all_top_level_estorable && result.all_top_level_estorable,
                top_level_default_container_possible: acc.top_level_default_container_possible
                    || result.top_level_default_container_possible,
            },
        )
    }
}

/// Applies a graph's whole-result wrapper and the invocation limits.
pub open spec fn finish_graph(m: ItemGroupMetrics, wrapper: Option<ItemGroupContainerV1>) -> Option<ItemGroupMetrics> {
    match wrapper {
        Some(w) => if m.outputs + 1 > MAX_ITEM_GROUP_OUTPUTS || m.depth + 1 > MAX_ITEM_GROUP_DEPTH || m.containment_depth
            + 1 > MAX_ITEM_COMPONENT_DEPTH {
            None
        } else {
            Some(
                wrapped_metrics(
                    ItemGroupMetrics {
                        outputs: (m.outputs + 1) as u64,
                        depth: (m.depth + 1) as u64,
                        containment_depth: (m.containment_depth + 1) as u64,
                        ..m
                    },
                    w,
                ),
            )
        },
        None => if m.outputs > MAX_ITEM_GROUP_OUTPUTS || m.depth > MAX_ITEM_GROUP_DEPTH || m.containment_depth
            > MAX_ITEM_COMPONENT_DEPTH {
            None
        } else {
            Some(m)
        },
    }
}

pub fn empty_item_group_metrics() -> (r: ItemGroupMetrics)
    ensures
        r == empty_metrics(),
{
    ItemGroupMetrics {
        outputs: 0,
        depth: 0,
        containment_depth: 0,
        charge_magazine_candidates: 0,
        charge_ammunition_candidates: 0,
        modifier_side_effects_supported: true,
        charges_supported: true,
        estorable_contents_supported: true,
        non_estorable_contents_supported: true,
        all_top_level_estorable: true,
        top_level_default_container_possible: false,
    }
}

pub fn finish_graph_metrics(m: ItemGroupMetrics, wrapper: &Option<ItemGroupContainerV1>) -> (r: Option<ItemGroupMetrics>)
    ensures
        r == finish_graph(m, *wrapper),
{
    match wrapper {
        Some(w) => {
            if m.outputs >= MAX_ITEM_GROUP_OUTPUTS || m.depth >= MAX_ITEM_GROUP_DEPTH as u64 || m.containment_depth
                >= MAX_ITEM_COMPONENT_DEPTH as u64 {
                None
            } else {
                Some(
                    apply_output_wrapper_metrics(
                        ItemGroupMetrics {
                            outputs: m.outputs + 1,
                            depth: m.depth + 1,
                            containment_depth: m.containment_depth + 1,
                            ..m
                        },
                        w,
                    ),
                )
            }
        },
        None => {
            if m.outputs > MAX_ITEM_GROUP_OUTPUTS || m.depth > MAX_ITEM_GROUP_DEPTH as u64 || m.containment_depth
                > MAX_ITEM_COMPONENT_DEPTH as u64 {
                None
            } else {
                Some(m)
            }
        },
    }
}

fn max_u64(a: u64, b: u64) -> (r: u64)
    ensures
        r == max_int(a as int, b as int),
{
    if a >= b {
        a
    } else {
        b
    }
}

pub fn accumulate_entry(kind: ItemGroupKindV1, acc: ItemGroupMetrics, outcome: EntryOutcome) -> (r: Option<ItemGroupMetrics>)
    ensures
        r == accumulate(kind, acc, outcome),
{
    let (outputs, result, depth, containment) = outcome;
    let (total, magazines, rounds) = if kind == ItemGroupKindV1::Collection {
        let total = match acc.outputs.checked_add(outputs) {
            Some(t) => t,
            None => {
                return None;
            },
        };
        let magazines = match acc.charge_magazine_candidates.checked_add(result.charge_magazine_candidates) {
            Some(t) => t,
            None => {
                return None;
            },
        };
        let rounds = match acc.charge_ammunition_candidates.checked_add(result.charge_ammunition_candidates) {
            Some(t) => t,
            None => {
                return None;
            },
        };
        (total, magazines, rounds)
    } else {
        (
            max_u64(acc.outputs, outputs),
            max_u64(acc.charge_magazine_candidates, result.charge_magazine_candidates),
            max_u64(acc.charge_ammunition_candidates, result.charge_ammunition_candidates),
        )
    };
    if total > MAX_ITEM_GROUP_OUTPUTS {
        return None;
    }
    Some(
        ItemGroupMetrics {
            outputs: total,
            depth: max_u64(acc.depth, depth),
            containment_depth: max_u64(acc.containment_depth, containment),
            charge_magazine_candidates: magazines,
            charge_ammunition_candidates: rounds,
            modifier_side_effects_supported: acc.modifier_side_effects_supported && result.modifier_side_effects_supported,
            charges_supported: acc.charges_supported && result.charges_supported,
            estorable_contents_supported: acc.estorable_contents_supported && result.estorable_contents_supported,
            non_estorable_contents_supported: acc.non_estorable_contents_supported
                && result.non_estorable_contents_supported,
            all_top_level_estorable: acc.all_top_level_estorable && result.all_top_level_estorable,
            top_level_default_container_possible: acc.top_level_default_container_possible
                || result.top_level_default_container_possible,
        },
    )
}

fn creator_item_metrics(entry: &ItemGroupEntryV1) -> (r: Option<ItemGroupMetrics>)
    ensures
        r == creator_metrics(*entry),
{
    match &entry.modifier_container {
        Some(c) => Some(item_group_item_metrics(&c.item)),
        None => None,
    }
}

fn entry_target_metrics(entry: &ItemGroupEntryV1, found: ItemGroupMetrics) -> (r: ItemGroupMetrics)
    ensures
        r == outcome_target(*entry, found),
{
    match &entry.target {
        ItemGroupTargetV1::Item(item) => {
            let present = entry.raw_damage.is_some() || entry.variant_id.is_some() || entry.modifier_charges.is_some()
                || entry.contents.len() > 0 || entry.seal_contents
                || entry.modifier_default_container_sealed.is_some() || entry.modifier_container.is_some();
            if present && entry.modifier_default_container_sealed.is_none() {
                raw_item_group_item_metrics(item)
            } else {
                found
            }
        },
        _ => found,
    }
}

/// Adds `b` to `a`, failing past the output limit.
fn add_bounded(a: u64, b: u64) -> (r: Option<u64>)
    ensures
        r matches Some(v) ==> v == a + b && v <= MAX_ITEM_GROUP_OUTPUTS,
        r is None ==> a + b > MAX_ITEM_GROUP_OUTPUTS,
{
    if a > MAX_ITEM_GROUP_OUTPUTS || b > MAX_ITEM_GROUP_OUTPUTS - a {
        None
    } else {
        Some(a + b)
    }
}

/// Multiplies `a` by `b`, failing past the output limit.
fn mul_bounded(a: u64, b: u64) -> (r: Option<u64>)
    ensures
        r matches Some(v) ==> v == a * b && v <= MAX_ITEM_GROUP_OUTPUTS,
        r is None ==> a * b > MAX_ITEM_GROUP_OUTPUTS,
{
    if b == 0 {
        assert(a * b == 0) by (nonlinear_arith)
            requires
                b == 0,
        ;
        return Some(0);
    }
    if a > MAX_ITEM_GROUP_OUTPUTS / b {
        assert(a * b > MAX_ITEM_GROUP_OUTPUTS) by (nonlinear_arith)
            requires
                b > 0,
                a > MAX_ITEM_GROUP_OUTPUTS / b,
        ;
        return None;
    }
    assert(a * b <= MAX_ITEM_GROUP_OUTPUTS) by (nonlinear_arith)
        requires
            b > 0,
            a <= MAX_ITEM_GROUP_OUTPUTS / b,
    ;
    Some(a * b)
}

pub fn evaluate_entry(entry: &ItemGroupEntryV1, found: ItemGroupMetrics, contents: ContentsSummary) -> (r: Option<EntryOutcome>)
    ensures
        r == entry_outcome(*entry, found, contents),
{
    let target = entry_target_metrics(entry, found);
    let creator = creator_item_metrics(entry);
    let count = entry.count_max as u64;
    let ghost count_i = entry.count_max as int;
    let present = entry.raw_damage.is_some() || entry.variant_id.is_some() || entry.modifier_charges.is_some()
        || entry.contents.len() > 0 || entry.seal_contents || entry.modifier_default_container_sealed.is_some()
        || entry.modifier_container.is_some();
    let is_item = match &entry.target {
        ItemGroupTargetV1::Item(_) => true,
        _ => false,
    };
    let support = match creator {
        Some(cm) => (cm.estorable_contents_supported, cm.non_estorable_contents_supported),
        None => (target.estorable_contents_supported, target.non_estorable_contents_supported),
    };
    let positive = match entry.modifier_charges {
        Some(c) => c.maximum > 0,
        None => false,
    };
    let has_contents = entry.contents.len() > 0;
    if (entry.modifier_default_container_sealed.is_some() && !is_item && target.top_level_default_container_possible)
        || (present && !target.modifier_side_effects_supported) || (entry.modifier_charges.is_some()
        && !target.charges_supported) || (has_contents && !(if contents.2 {
        support.0
    } else {
        support.1
    })) {
        return None;
    }
    let magazines = match target.charge_magazine_candidates.checked_mul(count) {
        Some(v) => v,
        None => {
            return None;
        },
    };
    let rounds = match target.charge_ammunition_candidates.checked_mul(count) {
        Some(v) => v,
        None => {
            return None;
        },
    };
    let ghost total = entry_output_count(*entry, target, contents.0 as int);
    proof {
        let base = target.outputs * count_i;
        assert(base >= 0 && base * contents.0 >= 0) by (nonlinear_arith)
            requires
                base == target.outputs * count_i,
                count_i >= 0,
                target.outputs >= 0,
                contents.0 >= 0,
        ;
        assert(target.charge_magazine_candidates * count_i >= 0 && target.charge_ammunition_candidates * count_i >= 0)
            by (nonlinear_arith)
            requires
                count_i >= 0,
        ;
        match creator {
            Some(cm) => {
                assert(cm.outputs * count_i >= 0) by (nonlinear_arith)
                    requires
                        count_i >= 0,
                ;
            },
            None => {},
        }
    }
    let base = match mul_bounded(target.outputs, count) {
        Some(v) => v,
        None => {
            return None;
        },
    };
    let inner = match mul_bounded(base, contents.0) {
        Some(v) => v,
        None => {
            return None;
        },
    };
    let mut outputs = match add_bounded(base, inner) {
        Some(v) => v,
        None => {
            return None;
        },
    };
    if entry.modifier_charges.is_some() {
        outputs = match add_bounded(outputs, magazines) {
            Some(v) => v,
            None => {
                return None;
            },
        };
    }
    if positive {
        outputs = match add_bounded(outputs, rounds) {
            Some(v) => v,
            None => {
                return None;
            },
        };
    }
    match creator {
        Some(cm) => {
            let extra = match mul_bounded(cm.outputs, count) {
                Some(v) => v,
                None => {
                    return None;
                },
            };
            outputs = match add_bounded(outputs, extra) {
                Some(v) => v,
                None => {
                    return None;
                },
            };
        },
        None => {},
    }
    if entry.direct_wrapper.is_some() {
        outputs = match add_bounded(outputs, 1) {
            Some(v) => v,
            None => {
                return None;
            },
        };
    }
    assert(outputs == total);
    if target.depth >= MAX_ITEM_GROUP_DEPTH as u64 {
        return None;
    }
    let limit = MAX_ITEM_COMPONENT_DEPTH as u64;
    let has_magazines = target.charge_magazine_candidates > 0;
    let has_rounds = target.charge_ammunition_candidates > 0;
    let mut depth = target.containment_depth;
    if depth > limit {
        return None;
    }
    if entry.modifier_charges.is_some() && has_magazines {
        depth = max_u64(depth, 1);
    }
    if positive && has_magazines && has_rounds {
        depth = max_u64(depth, 2);
    } else if positive && has_rounds {
        depth = max_u64(depth, 1);
    }
    if entry.modifier_container.is_some() {
        if depth >= limit {
            return None;
        }
        depth = depth + 1;
    }
    match creator {
        Some(cm) => {
            if cm.containment_depth > limit {
                return None;
            }
            depth = max_u64(depth, cm.containment_depth);
        },
        None => {},
    }
    if has_contents {
        if contents.1 >= limit {
            return None;
        }
        depth = max_u64(depth, contents.1 + 1);
    }
    if entry.direct_wrapper.is_some() {
        if depth >= limit {
            return None;
        }
        depth = depth + 1;
    }
    if depth > limit {
        return None;
    }
    let scaled = ItemGroupMetrics { charge_magazine_candidates: magazines, charge_ammunition_candidates: rounds, ..target };
    let base_result = match creator {
        Some(cm) => cm,
        None => scaled,
    };
    let result = match &entry.direct_wrapper {
        Some(w) => apply_output_wrapper_metrics(base_result, w),
        None => base_result,
    };
    Some((outputs, result, target.depth + 1, depth))
}

} // verus!
