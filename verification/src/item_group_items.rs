//! Validity of item-group leaves, containers, and their charge storage.

use vstd::prelude::*;

use crate::creatures::{content_id_ok, valid_recipe_id};
use crate::description::{expansion_is_valid, item_description_expansion_is_valid};
use crate::item_group_types::{
    ItemGroupContainerV1, ItemGroupContentsSourceV1, ItemGroupItemPrototypeV1, ItemGroupOverflowV1,
    ItemGroupToolChargeStorageV1,
};
use crate::item_groups::{
    item_variant_is_valid, snippets_are_valid, valid_item_snippets, valid_item_variables, variables_are_valid,
    variant_is_valid, ItemGroupVariantOptionV1, MAX_ITEM_VARIABLES, MAX_ITEM_VARIANTS,
};
use crate::items::{ItemPhaseV1, MAX_ITEM_RAW_DAMAGE};
use crate::prototypes::{
    craft_prototype_ok, valid_craft_item_prototype, valid_craft_item_prototype_with_charges, with_charges,
    AmmunitionContainerPocketPrototypeV1, CraftItemPrototypeV1, IntegralMagazinePocketPrototypeV1, SpawnPocketKindV1,
    MAX_ITEM_COMPONENT_DEPTH,
};
use crate::text::{str_eq, strictly_sorted, string_views, strings_contain, strings_strictly_sorted};

verus! {

// ----- variants -----

pub open spec fn variant_weight_total(variants: Seq<ItemGroupVariantOptionV1>) -> int
    decreases variants.len(),
{
    if variants.len() == 0 {
        0
    } else {
        variant_weight_total(variants.drop_last()) + variants.last().weight
    }
}

pub open spec fn variant_option_ok(option: ItemGroupVariantOptionV1) -> bool {
    &&& variant_is_valid(option.variant)
    &&& (option.description_expansion matches Some(e) ==> expansion_is_valid(e))
    &&& option.weight <= i32::MAX
}

/// At most 256 valid options with distinct identifiers whose weights sum to
/// at most `i32::MAX`.
pub open spec fn variants_ok(variants: Seq<ItemGroupVariantOptionV1>) -> bool {
    &&& variants.len() <= MAX_ITEM_VARIANTS
    &&& forall|i: int| 0 <= i < variants.len() ==> variant_option_ok(#[trigger] variants[i])
    &&& forall|i: int, j: int|
        0 <= i < j < variants.len() ==> (#[trigger] variants[i]).variant.id@ != (#[trigger] variants[j]).variant.id@
    &&& variant_weight_total(variants) <= i32::MAX
}

proof fn lemma_variant_total_grows(variants: Seq<ItemGroupVariantOptionV1>, i: int)
    requires
        0 <= i <= variants.len(),
    ensures
        variant_weight_total(variants.take(i)) <= variant_weight_total(variants),
    decreases variants.len() - i,
{
    if i < variants.len() {
        lemma_variant_total_grows(variants, i + 1);
        assert(variants.take(i + 1).drop_last() == variants.take(i));
    } else {
        assert(variants.take(i) == variants);
    }
}

pub fn valid_item_group_variants(variants: &Vec<ItemGroupVariantOptionV1>) -> (r: bool)
    ensures
        r == variants_ok(variants@),
{
    if variants.len() > MAX_ITEM_VARIANTS {
        return false;
    }
    let mut total: u32 = 0;
    let mut i: usize = 0;
    while i < variants.len()
        invariant
            i <= variants@.len() <= MAX_ITEM_VARIANTS,
            forall|k: int| 0 <= k < i ==> variant_option_ok(#[trigger] variants@[k]),
            forall|a: int, b: int|
                0 <= a < b < i ==> (#[trigger] variants@[a]).variant.id@ != (#[trigger] variants@[b]).variant.id@,
            total == variant_weight_total(variants@.take(i as int)),
            total <= i32::MAX,
        decreases variants.len() - i,
    {
        let option = &variants[i];
        let expansion_ok = match &option.description_expansion {
            Some(e) => item_description_expansion_is_valid(e),
            None => true,
        };
        if !item_variant_is_valid(&option.variant) || !expansion_ok || option.weight > 2_147_483_647u32 {
            return false;
        }
        let mut j: usize = 0;
        while j < i
            invariant
                j <= i < variants@.len(),
                forall|a: int| 0 <= a < j ==> (#[trigger] variants@[a]).variant.id@ != variants@[i as int].variant.id@,
            decreases i - j,
        {
            if str_eq(variants[j].variant.id.as_str(), option.variant.id.as_str()) {
                return false;
            }
            j = j + 1;
        }
        assert(variants@.take(i + 1).drop_last() == variants@.take(i as int));
        total = total + option.weight;
        if total > 2_147_483_647u32 {
            proof {
                lemma_variant_total_grows(variants@, i + 1);
            }
            return false;
        }
        i = i + 1;
    }
    assert(variants@.take(i as int) == variants@);
    true
}

// ----- charge storage -----

/// Ammunition that an integral pocket accepts as plain loose rounds.
pub open spec fn ammunition_fits(ammunition: CraftItemPrototypeV1, pocket: IntegralMagazinePocketPrototypeV1) -> bool {
    &&& ammunition.ammunition_type@ == pocket.ammunition_type@
    &&& ammunition.comestible_type@.len() == 0
    &&& ammunition.ranged_weapon is None
    &&& ammunition.magazine_capacity == 0
    &&& ammunition.integral_magazines@.len() == 0
    &&& ammunition.magazine_wells@.len() == 0
    &&& ammunition.ammunition_containers@.len() == 0
    &&& ammunition.residual_energy_millijoules == 0
    &&& ammunition.powered_tool is None
}

fn ammunition_fits_pocket(ammunition: &CraftItemPrototypeV1, pocket: &IntegralMagazinePocketPrototypeV1) -> (r: bool)
    ensures
        r == ammunition_fits(*ammunition, *pocket),
{
    str_eq(ammunition.ammunition_type.as_str(), pocket.ammunition_type.as_str())
        && ammunition.comestible_type.as_str().is_empty() && ammunition.ranged_weapon.is_none()
        && ammunition.magazine_capacity == 0 && ammunition.integral_magazines.len() == 0
        && ammunition.magazine_wells.len() == 0 && ammunition.ammunition_containers.len() == 0
        && ammunition.residual_energy_millijoules == 0 && ammunition.powered_tool.is_none()
}

/// Integral storage needs exactly one integral pocket and no well; detachable
/// storage needs exactly one well accepting an empty plain magazine with one
/// integral pocket.
pub open spec fn tool_storage_ok(owner: CraftItemPrototypeV1, storage: ItemGroupToolChargeStorageV1) -> bool {
    match storage {
        ItemGroupToolChargeStorageV1::Integral { ammunition } => {
            &&& owner.integral_magazines@.len() == 1
            &&& owner.magazine_wells@.len() == 0
            &&& craft_prototype_ok(ammunition)
            &&& ammunition_fits(ammunition, owner.integral_magazines@[0])
        },
        ItemGroupToolChargeStorageV1::Detachable { well_pocket_index, magazine, ammunition } => {
            &&& owner.magazine_wells@.len() == 1
            &&& magazine.integral_magazines@.len() == 1
            &&& owner.integral_magazines@.len() == 0
            &&& owner.magazine_wells@[0].pocket_index == well_pocket_index
            &&& string_views(owner.magazine_wells@[0].compatible_magazine_type_ids@).contains(magazine.type_id@)
            &&& magazine.charges == 0
            &&& magazine.magazine_capacity == 0
            &&& magazine.magazine_wells@.len() == 0
            &&& magazine.ammunition_containers@.len() == 0
            &&& magazine.residual_energy_millijoules == 0
            &&& magazine.powered_tool is None
            &&& craft_prototype_ok(magazine)
            &&& craft_prototype_ok(*ammunition)
            &&& ammunition_fits(*ammunition, magazine.integral_magazines@[0])
        },
    }
}

fn valid_tool_charge_storage(owner: &CraftItemPrototypeV1, storage: &ItemGroupToolChargeStorageV1) -> (r: bool)
    ensures
        r == tool_storage_ok(*owner, *storage),
{
    match storage {
        ItemGroupToolChargeStorageV1::Integral { ammunition } => {
            owner.integral_magazines.len() == 1 && owner.magazine_wells.len() == 0
                && valid_craft_item_prototype(ammunition)
                && ammunition_fits_pocket(ammunition, &owner.integral_magazines[0])
        },
        ItemGroupToolChargeStorageV1::Detachable { well_pocket_index, magazine, ammunition } => {
            if owner.magazine_wells.len() != 1 || magazine.integral_magazines.len() != 1 {
                return false;
            }
            let well = &owner.magazine_wells[0];
            owner.integral_magazines.len() == 0 && well.pocket_index == *well_pocket_index
                && strings_contain(&well.compatible_magazine_type_ids, magazine.type_id.as_str())
                && magazine.charges == 0 && magazine.magazine_capacity == 0 && magazine.magazine_wells.len() == 0
                && magazine.ammunition_containers.len() == 0 && magazine.residual_energy_millijoules == 0
                && magazine.powered_tool.is_none() && valid_craft_item_prototype(magazine)
                && valid_craft_item_prototype(ammunition)
                && ammunition_fits_pocket(ammunition, &magazine.integral_magazines[0])
        },
    }
}

/// The ammunition that receives charges and the capacity of its pocket.
pub open spec fn ammunition_and_capacity(
    owner: CraftItemPrototypeV1,
    storage: ItemGroupToolChargeStorageV1,
) -> Option<(CraftItemPrototypeV1, u32)> {
    match storage {
        ItemGroupToolChargeStorageV1::Integral { ammunition } => if owner.integral_magazines@.len() > 0 {
            Some((ammunition, owner.integral_magazines@[0].capacity))
        } else {
            None
        },
        ItemGroupToolChargeStorageV1::Detachable { magazine, ammunition, .. } => if magazine.integral_magazines@.len() > 0 {
            Some((*ammunition, magazine.integral_magazines@[0].capacity))
        } else {
            None
        },
    }
}

/// A capacity clamped into `i32`.
pub open spec fn capacity_as_charges(capacity: u32) -> i32 {
    if capacity <= i32::MAX {
        capacity as i32
    } else {
        i32::MAX
    }
}

/// Whether one end of the item's charge range yields a valid item.
pub open spec fn charge_value_ok(item: ItemGroupItemPrototypeV1, value: i32) -> bool {
    match item.tool_charge_storage {
        Some(storage) => match ammunition_and_capacity(item.prototype, storage) {
            None => false,
            Some((ammunition, capacity)) => {
                let cap = capacity_as_charges(capacity);
                value == 0 || craft_prototype_ok(with_charges(ammunition, if value < cap { value } else { cap }))
            },
        },
        None => craft_prototype_ok(
            with_charges(item.prototype, if item.minimum_one_charge && value < 1 { 1 } else { value }),
        ),
    }
}

fn charge_value_is_ok(item: &ItemGroupItemPrototypeV1, value: i32) -> (r: bool)
    ensures
        r == charge_value_ok(*item, value),
{
    match &item.tool_charge_storage {
        Some(storage) => {
            let (ammunition, capacity): (&CraftItemPrototypeV1, u32) = match storage {
                ItemGroupToolChargeStorageV1::Integral { ammunition } => {
                    if item.prototype.integral_magazines.len() == 0 {
                        return false;
                    }
                    (ammunition, item.prototype.integral_magazines[0].capacity)
                },
                ItemGroupToolChargeStorageV1::Detachable { magazine, ammunition, .. } => {
                    if magazine.integral_magazines.len() == 0 {
                        return false;
                    }
                    (&**ammunition, magazine.integral_magazines[0].capacity)
                },
            };
            let cap: i32 = if capacity <= 2_147_483_647u32 {
                capacity as i32
            } else {
                2_147_483_647i32
            };
            value == 0 || valid_craft_item_prototype_with_charges(ammunition, if value < cap { value } else { cap })
        },
        None => {
            let effective: i32 = if item.minimum_one_charge && value < 1 {
                1
            } else {
                value
            };
            valid_craft_item_prototype_with_charges(&item.prototype, effective)
        },
    }
}

pub open spec fn charges_ok(item: ItemGroupItemPrototypeV1) -> bool {
    item.charges matches Some(c) ==> {
        &&& c.minimum >= 0
        &&& c.maximum >= c.minimum
        &&& charge_value_ok(item, c.minimum)
        &&& charge_value_ok(item, c.maximum)
    }
}

// ----- contents insertion support -----

/// Spawn pockets of `kind` among `pockets`; with `rigid_only`, only the rigid ones.
pub open spec fn spawn_pocket_count(
    pockets: Seq<AmmunitionContainerPocketPrototypeV1>,
    kind: SpawnPocketKindV1,
    rigid_only: bool,
) -> nat
    decreases pockets.len(),
{
    if pockets.len() == 0 {
        0
    } else {
        spawn_pocket_count(pockets.drop_last(), kind, rigid_only) + if pockets.last().spawn_rules matches Some(r)
            && r.kind == kind && (!rigid_only || r.rigid) {
            1nat
        } else {
            0nat
        }
    }
}

pub open spec fn spawn_rules_rigid(pockets: Seq<AmmunitionContainerPocketPrototypeV1>) -> bool {
    forall|i: int| 0 <= i < pockets.len() ==> ((#[trigger] pockets[i]).spawn_rules matches Some(r) ==> r.rigid)
}

/// Whether generated contents can be inserted into an item: first for
/// estorable payloads, then for the others.
pub open spec fn contents_support(item: ItemGroupItemPrototypeV1) -> (bool, bool) {
    let pockets = item.prototype.ammunition_containers@;
    if !item.contents_insertion_supported || !spawn_rules_rigid(pockets)
        || spawn_pocket_count(pockets, SpawnPocketKindV1::Container, false) > 1
        || spawn_pocket_count(pockets, SpawnPocketKindV1::EFileStorage, false) > 1 {
        (false, false)
    } else {
        let reload_only = item.prototype.integral_magazines@.len() > 0 || item.prototype.magazine_wells@.len() > 0
            || exists|i: int| 0 <= i < pockets.len() && (#[trigger] pockets[i]).spawn_rules is None;
        (true, !reload_only)
    }
}

/// A container inserts contents only through exactly one rigid container pocket.
pub open spec fn container_support(container: ItemGroupContainerV1) -> (bool, bool) {
    if spawn_pocket_count(container.item.prototype.ammunition_containers@, SpawnPocketKindV1::Container, true) != 1 {
        (false, false)
    } else {
        contents_support(*container.item)
    }
}

fn count_spawn_pockets(pockets: &Vec<AmmunitionContainerPocketPrototypeV1>, kind: SpawnPocketKindV1, rigid_only: bool) -> (r: usize)
    ensures
        r == spawn_pocket_count(pockets@, kind, rigid_only),
{
    let mut count: usize = 0;
    let mut i: usize = 0;
    while i < pockets.len()
        invariant
            i <= pockets@.len(),
            count == spawn_pocket_count(pockets@.take(i as int), kind, rigid_only),
            count <= i,
        decreases pockets.len() - i,
    {
        assert(pockets@.take(i + 1).drop_last() == pockets@.take(i as int));
        let counted = match &pockets[i].spawn_rules {
            Some(rules) => rules.kind == kind && (!rigid_only || rules.rigid),
            None => false,
        };
        if counted {
            count = count + 1;
        }
        i = i + 1;
    }
    assert(pockets@.take(i as int) == pockets@);
    count
}

pub fn item_contents_insertion_support(item: &ItemGroupItemPrototypeV1) -> (r: (bool, bool))
    ensures
        r == contents_support(*item),
{
    let pockets = &item.prototype.ammunition_containers;
    if !item.contents_insertion_supported {
        return (false, false);
    }
    let mut reload_only = item.prototype.integral_magazines.len() > 0 || item.prototype.magazine_wells.len() > 0;
    let mut i: usize = 0;
    while i < pockets.len()
        invariant
            i <= pockets@.len(),
            forall|k: int| 0 <= k < i ==> ((#[trigger] pockets@[k]).spawn_rules matches Some(r) ==> r.rigid),
            reload_only == (item.prototype.integral_magazines@.len() > 0 || item.prototype.magazine_wells@.len() > 0
                || exists|k: int| 0 <= k < i && (#[trigger] pockets@[k]).spawn_rules is None),
        decreases pockets.len() - i,
    {
        match &pockets[i].spawn_rules {
            Some(rules) => {
                if !rules.rigid {
                    return (false, false);
                }
            },
            None => {
                reload_only = true;
            },
        }
        i = i + 1;
    }
    if count_spawn_pockets(pockets, SpawnPocketKindV1::Container, false) > 1
        || count_spawn_pockets(pockets, SpawnPocketKindV1::EFileStorage, false) > 1 {
        return (false, false);
    }
    (true, !reload_only)
}

pub fn item_group_container_insertion_support(container: &ItemGroupContainerV1) -> (r: (bool, bool))
    ensures
        r == container_support(*container),
{
    if count_spawn_pockets(&container.item.prototype.ammunition_containers, SpawnPocketKindV1::Container, true) != 1 {
        return (false, false);
    }
    item_contents_insertion_support(&container.item)
}

// ----- items and containers -----

pub open spec fn generates_description(item: ItemGroupItemPrototypeV1) -> bool {
    ||| item.description_expansion is Some
    ||| exists|i: int| 0 <= i < item.variants@.len() && (#[trigger] item.variants@[i]).description_expansion is Some
}

pub open spec fn reserved_variable(key: Seq<char>) -> bool {
    key == "weight"@ || key == "integral_weight"@ || key == "volume"@
}

/// At most 256 valid content identifiers in strictly increasing order.
pub open spec fn flags_ok(flags: Seq<String>) -> bool {
    &&& flags.len() <= 256
    &&& forall|i: int| 0 <= i < flags.len() ==> content_id_ok((#[trigger] flags[i])@)
    &&& strictly_sorted(string_views(flags))
}

/// Whether `variant` names one of the item's variants.
pub open spec fn names_variant(item: ItemGroupItemPrototypeV1, variant: Seq<char>) -> bool {
    exists|i: int| 0 <= i < item.variants@.len() && (#[trigger] item.variants@[i]).variant.id@ == variant
}

/// An item leaf at containment depth `depth`: valid prototype, damage,
/// variants, presentation records, variables (with room for a generated
/// description and none of the derived physical variables), sorted flags,
/// consistent charge storage, a default container nested below depth 8,
/// and charge ranges whose ends construct valid items.
pub open spec fn item_ok_at(item: ItemGroupItemPrototypeV1, depth: nat) -> bool
    decreases MAX_ITEM_COMPONENT_DEPTH - depth,
{
    &&& craft_prototype_ok(item.prototype)
    &&& (item.maximum_raw_damage == 0 || item.maximum_raw_damage == MAX_ITEM_RAW_DAMAGE)
    &&& variants_ok(item.variants@)
    &&& (item.description_expansion matches Some(e) ==> expansion_is_valid(e))
    &&& snippets_are_valid(item.snippets@)
    &&& variables_are_valid(item.initial_variables)
    &&& (!generates_description(item) || item.initial_variables.has_key("description"@)
        || item.initial_variables.spec_len() < MAX_ITEM_VARIABLES)
    &&& forall|i: int|
        0 <= i < item.initial_variables.view_entries().len() ==> !reserved_variable(
            (#[trigger] item.initial_variables.view_entries()[i]).0,
        )
    &&& flags_ok(item.prototype.containment.flags@)
    &&& (item.tool_charge_storage matches Some(s) ==> tool_storage_ok(item.prototype, s) && item.charges_supported)
    &&& (item.default_container matches Some(c) ==> {
        &&& depth < MAX_ITEM_COMPONENT_DEPTH
        &&& c.overflow == ItemGroupOverflowV1::Unset
        &&& item_ok_at(*c.item, depth + 1)
        &&& container_shape_ok(c)
    })
    &&& (item.modifier_container_capacity_applies ==> item.tool_charge_storage is None && item.prototype.ranged_weapon is None
        && item.prototype.magazine_capacity == 0)
    &&& (item.prototype.containment.phase == ItemPhaseV1::Liquid ==> item.modifier_container_capacity_applies)
    &&& charges_ok(item)
    &&& (item.minimum_one_charge ==> item.charges is Some)
    &&& (item.charges is Some ==> item.charges_supported)
}

/// What a container adds to the validity of its item: no charges, insertion
/// support for any payload, and a concrete variant of the item if one is named.
pub open spec fn container_shape_ok(container: ItemGroupContainerV1) -> bool {
    &&& container.item.charges is None
    &&& container.item.tool_charge_storage is None
    &&& container_support(container).1
    &&& (container.variant_id matches Some(v) ==> v@ != "<any>"@ && names_variant(*container.item, v@))
}

pub open spec fn container_ok_at(container: ItemGroupContainerV1, depth: nat) -> bool {
    item_ok_at(*container.item, depth) && container_shape_ok(container)
}

pub open spec fn item_ok(item: ItemGroupItemPrototypeV1) -> bool {
    item_ok_at(item, 0)
}

pub open spec fn container_ok(container: ItemGroupContainerV1) -> bool {
    container_ok_at(container, 0)
}

/// An explicit modifier container: a valid chargeless item referenced by type
/// alone, whose own default container (or, lacking one, itself) accepts any
/// payload.
pub open spec fn creator_container_ok(container: ItemGroupContainerV1) -> bool {
    &&& item_ok(*container.item)
    &&& container.item.charges is None
    &&& container.item.tool_charge_storage is None
    &&& container.variant_id is None
    &&& match container.item.default_container {
        Some(inner) => container_support(inner).1,
        None => container_support(container).1,
    }
}

pub open spec fn contents_source_ok(contents: ItemGroupContentsSourceV1) -> bool {
    match contents {
        ItemGroupContentsSourceV1::Item(item) => item_ok(*item),
        ItemGroupContentsSourceV1::Group(group_id) => content_id_ok(group_id@),
    }
}

fn flags_are_ok(flags: &Vec<String>) -> (r: bool)
    ensures
        r == flags_ok(flags@),
{
    if flags.len() > 256 {
        return false;
    }
    let mut i: usize = 0;
    while i < flags.len()
        invariant
            i <= flags@.len(),
            forall|k: int| 0 <= k < i ==> content_id_ok((#[trigger] flags@[k])@),
        decreases flags.len() - i,
    {
        if !valid_recipe_id(flags[i].as_str()) {
            return false;
        }
        i = i + 1;
    }
    strings_strictly_sorted(flags)
}

fn item_generates_description(item: &ItemGroupItemPrototypeV1) -> (r: bool)
    ensures
        r == generates_description(*item),
{
    if item.description_expansion.is_some() {
        return true;
    }
    let mut i: usize = 0;
    while i < item.variants.len()
        invariant
            i <= item.variants@.len(),
            forall|k: int| 0 <= k < i ==> (#[trigger] item.variants@[k]).description_expansion is None,
        decreases item.variants.len() - i,
    {
        if item.variants[i].description_expansion.is_some() {
            return true;
        }
        i = i + 1;
    }
    false
}

fn variables_avoid_reserved_keys(item: &ItemGroupItemPrototypeV1) -> (r: bool)
    ensures
        r == forall|i: int|
            0 <= i < item.initial_variables.view_entries().len() ==> !reserved_variable(
                (#[trigger] item.initial_variables.view_entries()[i]).0,
            ),
{
    let variables = &item.initial_variables;
    let mut i: usize = 0;
    while i < variables.len()
        invariant
            i <= variables.view_entries().len(),
            forall|k: int| 0 <= k < i ==> !reserved_variable((#[trigger] variables.view_entries()[k]).0),
        decreases variables.view_entries().len() - i,
    {
        let (key, _) = variables.entry_at(i);
        if str_eq(key, "weight") || str_eq(key, "integral_weight") || str_eq(key, "volume") {
            return false;
        }
        i = i + 1;
    }
    true
}

fn item_names_variant(item: &ItemGroupItemPrototypeV1, variant: &str) -> (r: bool)
    ensures
        r == names_variant(*item, variant@),
{
    let mut i: usize = 0;
    while i < item.variants.len()
        invariant
            i <= item.variants@.len(),
            forall|k: int| 0 <= k < i ==> (#[trigger] item.variants@[k]).variant.id@ != variant@,
        decreases item.variants.len() - i,
    {
        if str_eq(item.variants[i].variant.id.as_str(), variant) {
            return true;
        }
        i = i + 1;
    }
    false
}

fn container_shape_is_ok(container: &ItemGroupContainerV1) -> (r: bool)
    ensures
        r == container_shape_ok(*container),
{
    let variant_ok = match &container.variant_id {
        Some(v) => !str_eq(v.as_str(), "<any>") && item_names_variant(&container.item, v.as_str()),
        None => true,
    };
    container.item.charges.is_none() && container.item.tool_charge_storage.is_none()
        && item_group_container_insertion_support(container).1 && variant_ok
}

fn item_fields_ok(item: &ItemGroupItemPrototypeV1) -> (r: bool)
    ensures
        r == {
            &&& craft_prototype_ok(item.prototype)
            &&& (item.maximum_raw_damage == 0 || item.maximum_raw_damage == MAX_ITEM_RAW_DAMAGE)
            &&& variants_ok(item.variants@)
            &&& (item.description_expansion matches Some(e) ==> expansion_is_valid(e))
            &&& snippets_are_valid(item.snippets@)
            &&& variables_are_valid(item.initial_variables)
            &&& (!generates_description(*item) || item.initial_variables.has_key("description"@)
                || item.initial_variables.spec_len() < MAX_ITEM_VARIABLES)
            &&& forall|i: int|
                0 <= i < item.initial_variables.view_entries().len() ==> !reserved_variable(
                    (#[trigger] item.initial_variables.view_entries()[i]).0,
                )
            &&& flags_ok(item.prototype.containment.flags@)
        },
{
    let expansion_ok = match &item.description_expansion {
        Some(e) => item_description_expansion_is_valid(e),
        None => true,
    };
    valid_craft_item_prototype(&item.prototype) && (item.maximum_raw_damage == 0
        || item.maximum_raw_damage == MAX_ITEM_RAW_DAMAGE) && valid_item_group_variants(&item.variants)
        && expansion_ok && valid_item_snippets(&item.snippets) && valid_item_variables(&item.initial_variables)
        && (!item_generates_description(item) || item.initial_variables.contains_key("description")
        || item.initial_variables.len() < MAX_ITEM_VARIABLES) && variables_avoid_reserved_keys(item)
        && flags_are_ok(&item.prototype.containment.flags)
}

fn item_charges_ok(item: &ItemGroupItemPrototypeV1) -> (r: bool)
    ensures
        r == {
            &&& (item.tool_charge_storage matches Some(s) ==> tool_storage_ok(item.prototype, s) && item.charges_supported)
            &&& (item.modifier_container_capacity_applies ==> item.tool_charge_storage is None
                && item.prototype.ranged_weapon is None && item.prototype.magazine_capacity == 0)
            &&& (item.prototype.containment.phase == ItemPhaseV1::Liquid ==> item.modifier_container_capacity_applies)
            &&& charges_ok(*item)
            &&& (item.minimum_one_charge ==> item.charges is Some)
            &&& (item.charges is Some ==> item.charges_supported)
        },
{
    let storage_ok = match &item.tool_charge_storage {
        Some(s) => valid_tool_charge_storage(&item.prototype, s) && item.charges_supported,
        None => true,
    };
    let range_ok = match item.charges {
        Some(c) => c.minimum >= 0 && c.maximum >= c.minimum && charge_value_is_ok(item, c.minimum)
            && charge_value_is_ok(item, c.maximum),
        None => true,
    };
    storage_ok && (!item.modifier_container_capacity_applies || (item.tool_charge_storage.is_none()
        && item.prototype.ranged_weapon.is_none() && item.prototype.magazine_capacity == 0))
        && (item.prototype.containment.phase != ItemPhaseV1::Liquid || item.modifier_container_capacity_applies)
        && range_ok && (!item.minimum_one_charge || item.charges.is_some()) && (item.charges.is_none()
        || item.charges_supported)
}

fn valid_item_group_item_at_depth(item: &ItemGroupItemPrototypeV1, depth: usize) -> (r: bool)
    requires
        depth <= MAX_ITEM_COMPONENT_DEPTH,
    ensures
        r == item_ok_at(*item, depth as nat),
    decreases MAX_ITEM_COMPONENT_DEPTH - depth,
{
    let container_ok = match &item.default_container {
        Some(c) => depth < MAX_ITEM_COMPONENT_DEPTH && c.overflow == ItemGroupOverflowV1::Unset
            && valid_item_group_item_at_depth(&c.item, depth + 1) && container_shape_is_ok(c),
        None => true,
    };
    item_fields_ok(item) && item_charges_ok(item) && container_ok
}

/// Validity of an item leaf at the top of a containment chain.
pub fn valid_item_group_item(item: &ItemGroupItemPrototypeV1) -> (r: bool)
    ensures
        r == item_ok(*item),
{
    valid_item_group_item_at_depth(item, 0)
}

pub fn valid_item_group_container(container: &ItemGroupContainerV1) -> (r: bool)
    ensures
        r == container_ok(*container),
{
    valid_item_group_item_at_depth(&container.item, 0) && container_shape_is_ok(container)
}

pub fn valid_item_group_creator_container(container: &ItemGroupContainerV1) -> (r: bool)
    ensures
        r == creator_container_ok(*container),
{
    let support = match &container.item.default_container {
        Some(inner) => item_group_container_insertion_support(inner).1,
        None => item_group_container_insertion_support(container).1,
    };
    valid_item_group_item(&container.item) && container.item.charges.is_none()
        && container.item.tool_charge_storage.is_none() && container.variant_id.is_none() && support
}

pub fn valid_item_group_contents(contents: &ItemGroupContentsSourceV1) -> (r: bool)
    ensures
        r == contents_source_ok(*contents),
{
    match contents {
        ItemGroupContentsSourceV1::Item(item) => valid_item_group_item(item),
        ItemGroupContentsSourceV1::Group(group_id) => valid_recipe_id(group_id.as_str()),
    }
}

} // verus!
