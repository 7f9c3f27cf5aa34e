//! Pinned item subsets for structural smashing and first aid.

use vstd::prelude::*;

use crate::text::{has_control, str_has_control, str_less, strictly_sorted, text_len, utf8_len};

verus! {

pub const MAX_HEALING_ITEM_TYPES: usize = 65_536;

pub const MAX_HEALING_ITEM_ID_BYTES: usize = 512;

/// Chances are given in millionths.
pub const CHANCE_SCALE_MILLIONTHS: u32 = 1_000_000;

/// The to-hit bonus a smash item has when the catalog leaves it out.
pub const DEFAULT_SMASH_ITEM_MELEE_TO_HIT: i16 = -2;

/// Strict pinned item subset that can take part in structural smashing.
#[derive(Clone, Debug, PartialEq, Eq)]
pub struct SmashItemTypeV1 {
    pub item_type_id: String,
    pub bash_damage: u16,
    /// Attack time before the smash action's 80% multiplier.
    pub attack_time_moves: u16,
    /// To-hit bonus of ordinary unmodified instances.
    pub melee_to_hit: i16,
}

/// The to-hit bonus of a smash item whose catalog entry gives none.
pub fn default_smash_item_melee_to_hit() -> (r: i16)
    ensures
        r == DEFAULT_SMASH_ITEM_MELEE_TO_HIT,
{
    DEFAULT_SMASH_ITEM_MELEE_TO_HIT
}

/// What applying a first-aid item does.
#[derive(Clone, Debug, PartialEq, Eq)]
pub struct HealingItemTypeV1 {
    pub item_type_id: String,
    pub move_cost_moves: u32,
    pub charges_per_use: u16,
    pub limb_power_milli: i32,
    pub head_power_milli: i32,
    pub torso_power_milli: i32,
    pub limb_scaling_milli: i32,
    pub head_scaling_milli: i32,
    pub torso_scaling_milli: i32,
    pub bandages_power_milli: i32,
    pub bandages_scaling_milli: i32,
    pub disinfectant_power_milli: i32,
    pub disinfectant_scaling_milli: i32,
    pub bleed: u16,
    pub bite_chance_millionths: u32,
    pub infect_chance_millionths: u32,
}

/// Every power and scaling of the item is non-negative.
pub open spec fn healing_values_non_negative(h: HealingItemTypeV1) -> bool {
    &&& h.limb_power_milli >= 0
    &&& h.head_power_milli >= 0
    &&& h.torso_power_milli >= 0
    &&& h.limb_scaling_milli >= 0
    &&& h.head_scaling_milli >= 0
    &&& h.torso_scaling_milli >= 0
    &&& h.bandages_power_milli >= 0
    &&& h.bandages_scaling_milli >= 0
    &&& h.disinfectant_power_milli >= 0
    &&& h.disinfectant_scaling_milli >= 0
}

/// The item heals, bandages, disinfects, stops bleeding or treats a bite or
/// an infection: it does something.
pub open spec fn healing_has_effect(h: HealingItemTypeV1) -> bool {
    ||| h.limb_power_milli > 0
    ||| h.head_power_milli > 0
    ||| h.torso_power_milli > 0
    ||| h.bandages_power_milli > 0
    ||| h.disinfectant_power_milli > 0
    ||| h.bleed > 0
    ||| h.bite_chance_millionths > 0
    ||| h.infect_chance_millionths > 0
}

pub open spec fn healing_item_ok(h: HealingItemTypeV1) -> bool {
    &&& h.item_type_id@.len() > 0
    &&& utf8_len(h.item_type_id@) <= MAX_HEALING_ITEM_ID_BYTES
    &&& !has_control(h.item_type_id@)
    &&& h.move_cost_moves > 0
    &&& h.bite_chance_millionths <= CHANCE_SCALE_MILLIONTHS
    &&& h.infect_chance_millionths <= CHANCE_SCALE_MILLIONTHS
    &&& healing_values_non_negative(h)
    &&& healing_has_effect(h)
}

pub open spec fn healing_ids(catalog: Seq<HealingItemTypeV1>) -> Seq<Seq<char>> {
    catalog.map_values(|h: HealingItemTypeV1| h.item_type_id@)
}

/// At most 65 536 items, sorted strictly by type id, each one valid.
pub open spec fn healing_catalog_ok(catalog: Seq<HealingItemTypeV1>) -> bool {
    &&& catalog.len() <= MAX_HEALING_ITEM_TYPES
    &&& strictly_sorted(healing_ids(catalog))
    &&& forall|i: int| 0 <= i < catalog.len() ==> healing_item_ok(#[trigger] catalog[i])
}

fn valid_healing_item(h: &HealingItemTypeV1) -> (r: bool)
    ensures
        r == healing_item_ok(*h),
{
    text_len(h.item_type_id.as_str()) > 0 && text_len(h.item_type_id.as_str()) <= MAX_HEALING_ITEM_ID_BYTES
        && !str_has_control(h.item_type_id.as_str()) && h.move_cost_moves > 0
        && h.bite_chance_millionths <= CHANCE_SCALE_MILLIONTHS
        && h.infect_chance_millionths <= CHANCE_SCALE_MILLIONTHS && h.limb_power_milli >= 0
        && h.head_power_milli >= 0 && h.torso_power_milli >= 0 && h.limb_scaling_milli >= 0
        && h.head_scaling_milli >= 0 && h.torso_scaling_milli >= 0 && h.bandages_power_milli >= 0
        && h.bandages_scaling_milli >= 0 && h.disinfectant_power_milli >= 0
        && h.disinfectant_scaling_milli >= 0 && (h.limb_power_milli > 0 || h.head_power_milli > 0
        || h.torso_power_milli > 0 || h.bandages_power_milli > 0 || h.disinfectant_power_milli > 0
        || h.bleed > 0 || h.bite_chance_millionths > 0 || h.infect_chance_millionths > 0)
}

/// Whether a catalog of first-aid items is canonical and every entry is
/// usable.
pub fn healing_item_catalog_is_valid(catalog: &[HealingItemTypeV1]) -> (r: bool)
    ensures
        r == healing_catalog_ok(catalog@),
{
    if catalog.len() > MAX_HEALING_ITEM_TYPES {
        return false;
    }
    let ghost ids = healing_ids(catalog@);
    let mut i: usize = 0;
    while i < catalog.len()
        invariant
            i <= catalog@.len(),
            ids == healing_ids(catalog@),
            forall|j: int| 0 <= j < i ==> healing_item_ok(#[trigger] catalog@[j]),
            forall|j: int| 0 <= j < i - 1 && j < ids.len() - 1 ==> crate::text::text_lt(#[trigger] ids[j], ids[j + 1]),
        decreases catalog.len() - i,
    {
        if !valid_healing_item(&catalog[i]) {
            return false;
        }
        if i > 0 && !str_less(catalog[i - 1].item_type_id.as_str(), catalog[i].item_type_id.as_str()) {
            assert(!crate::text::text_lt(ids[i - 1], ids[i as int]));
            return false;
        }
        i = i + 1;
    }
    true
}

} // verus!
