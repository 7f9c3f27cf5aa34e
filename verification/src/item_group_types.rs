//! Normalized item-group graphs: the records and their catalog bounds.

use vstd::prelude::*;

use crate::item_groups::{ItemDescriptionExpansionV1, ItemGroupVariantOptionV1, ItemSnippetV1, ItemVariableValueV1};
use crate::prototypes::CraftItemPrototypeV1;
use crate::text_map::TextMap;

verus! {

/// Groups retained in one runtime catalog.
pub const MAX_ITEM_GROUP_DEFINITIONS: usize = 512;
/// Flat local nodes across the named catalog and every retained inline graph.
pub const MAX_ITEM_GROUP_NODES: usize = 2_048;
/// Entries across the named catalog and every retained inline graph.
pub const MAX_ITEM_GROUP_ENTRIES: usize = 8_192;
/// Local-node and named-group edges on one generated path.
pub const MAX_ITEM_GROUP_DEPTH: usize = 32;
/// Items one invocation may produce: one reserved identifier block.
pub const MAX_ITEM_GROUP_OUTPUTS: u64 = 4_096;

#[derive(Clone, Copy, Debug, PartialEq, Eq, Structural)]
pub enum ItemGroupKindV1 {
    Collection,
    Distribution,
}

/// Real-world holiday qualifier on an entry; the server decides whether it
/// is active.
#[derive(Clone, Copy, Debug, PartialEq, Eq, Structural)]
pub enum ItemGroupEventV1 {
    NewYear,
    Easter,
    IndependenceDay,
    Halloween,
    Thanksgiving,
    Christmas,
}

#[derive(Clone, Copy, Debug, PartialEq, Eq, Structural)]
pub struct InclusiveI32RangeV1 {
    pub minimum: i32,
    pub maximum: i32,
}

#[derive(Clone, Copy, Debug, PartialEq, Eq, Structural)]
pub struct InclusiveU16RangeV1 {
    pub minimum: u16,
    pub maximum: u16,
}

/// Storage that receives modifier charges of a tool or magazine.
#[derive(Clone, Debug, PartialEq, Eq)]
pub enum ItemGroupToolChargeStorageV1 {
    Integral { ammunition: CraftItemPrototypeV1 },
    Detachable {
        well_pocket_index: u16,
        magazine: CraftItemPrototypeV1,
        ammunition: Box<CraftItemPrototypeV1>,
    },
}

/// A direct item leaf of a normalized item-group graph.
#[derive(Debug, PartialEq, Eq)]
pub struct ItemGroupItemPrototypeV1 {
    pub prototype: CraftItemPrototypeV1,
    /// Zero, or exactly the maximum raw damage.
    pub maximum_raw_damage: u16,
    /// Source-ordered generic variants.
    pub variants: Vec<ItemGroupVariantOptionV1>,
    pub description_expansion: Option<ItemDescriptionExpansionV1>,
    pub snippets: Vec<ItemSnippetV1>,
    pub initial_variables: TextMap<ItemVariableValueV1>,
    /// The item type's default container.
    pub default_container: Option<ItemGroupContainerV1>,
    pub modifier_side_effects_supported: bool,
    pub charges: Option<InclusiveI32RangeV1>,
    /// An explicit zero charge roll is clamped to one.
    pub minimum_one_charge: bool,
    pub tool_charge_storage: Option<ItemGroupToolChargeStorageV1>,
    pub charges_supported: bool,
    /// Whether a modifier-owned container caps the charges of this type.
    pub modifier_container_capacity_applies: bool,
    /// Whether every pocket shape used by contents insertion is represented.
    pub contents_insertion_supported: bool,
}

/// Overflow policy of a wrapper; `Unset` is the policy-free default.
#[derive(Clone, Copy, Debug, PartialEq, Eq, Structural)]
pub enum ItemGroupOverflowV1 {
    Unset,
    Spill,
    Discard,
}

/// One item type used as an entry, modifier, or whole-group wrapper.
#[derive(Debug, PartialEq, Eq)]
pub struct ItemGroupContainerV1 {
    pub item: Box<ItemGroupItemPrototypeV1>,
    pub variant_id: Option<String>,
    pub sealed: bool,
    pub overflow: ItemGroupOverflowV1,
}

#[derive(Debug, PartialEq, Eq)]
pub enum ItemGroupContentsSourceV1 {
    Item(Box<ItemGroupItemPrototypeV1>),
    Group(String),
}

#[derive(Debug, PartialEq, Eq)]
pub enum ItemGroupTargetV1 {
    Item(Box<ItemGroupItemPrototypeV1>),
    Group(String),
    /// A node of the containing graph.
    Node(u16),
}

#[derive(Debug, PartialEq, Eq)]
pub struct ItemGroupEntryV1 {
    /// A percentage in 1..=100 in collections, a positive weight in
    /// distributions.
    pub probability: u32,
    pub count_min: u16,
    pub count_max: u16,
    pub raw_damage: Option<InclusiveU16RangeV1>,
    pub variant_id: Option<String>,
    pub event: Option<ItemGroupEventV1>,
    /// Charges applied to every completed child of a named group.
    pub modifier_charges: Option<InclusiveI32RangeV1>,
    pub contents: Vec<ItemGroupContentsSourceV1>,
    pub seal_contents: bool,
    /// Sealing policy of the modifier's default-container fallback.
    pub modifier_default_container_sealed: Option<bool>,
    pub direct_wrapper: Option<ItemGroupContainerV1>,
    pub modifier_container: Option<ItemGroupContainerV1>,
    pub target: ItemGroupTargetV1,
}

/// One node of a flat local graph; nodes are sorted by identifier.
#[derive(Debug, PartialEq, Eq)]
pub struct ItemGroupNodeV1 {
    pub node_id: u16,
    pub kind: ItemGroupKindV1,
    pub entries: Vec<ItemGroupEntryV1>,
}

#[derive(Debug, PartialEq, Eq)]
pub struct ItemGroupGraphV1 {
    pub root_node: u16,
    pub nodes: Vec<ItemGroupNodeV1>,
    pub wrapper: Option<ItemGroupContainerV1>,
}

#[derive(Debug, PartialEq, Eq)]
pub struct ItemGroupDefinitionV1 {
    pub group_id: String,
    pub graph: ItemGroupGraphV1,
}

#[derive(Debug, PartialEq, Eq)]
pub enum ItemGroupSourceV1 {
    Group(String),
    Inline(ItemGroupGraphV1),
}

} // verus!
