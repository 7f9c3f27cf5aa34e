//! Craftable item prototypes and the pockets they carry: integral
//! magazines, magazine wells, and ammunition or spawn containers.

use vstd::prelude::*;

use crate::creatures::{content_id_ok, valid_recipe_id};
use crate::items::{ItemContainmentProfileV1, ItemPhaseV1};
use crate::text::{
    has_control, str_eq, str_has_control, str_less, string_views, strictly_sorted,
    strings_strictly_sorted, text_len, text_lt, utf8_len,
};
use crate::text_map::TextMap;

verus! {

pub const MAX_ITEM_COMPONENTS: usize = 256;
pub const MAX_ITEM_COMPONENT_DEPTH: usize = 8;
pub const MAX_MAGAZINE_COMPATIBLE_TYPES: usize = 256;
pub const MAX_ITEM_MAGAZINE_WELLS: usize = 16;
pub const MAX_ITEM_INTEGRAL_MAGAZINES: usize = 16;
pub const MAX_ITEM_AMMUNITION_CONTAINER_POCKETS: usize = 16;
pub const MAX_AMMUNITION_CONTAINER_TYPES: usize = 256;
pub const MAX_AMMUNITION_CONTAINER_CONTENTS: usize = 256;
pub const MILLIJOULES_PER_BATTERY_CHARGE: u32 = 1_000_000;

#[derive(Clone, Debug, PartialEq, Eq)]
pub struct RangedWeaponSnapshot {
    pub ammunition_type: String,
    pub ammunition_remaining: u16,
    pub ammunition_capacity: u16,
    pub range: u16,
    pub damage: u16,
    pub dispersion: u16,
    /// Single-shot volume; zero is silent.
    pub sound_volume: u16,
}

#[derive(Clone, Debug, PartialEq, Eq)]
pub struct MagazineWellPrototypeV1 {
    /// Zero-based index in the item's pocket list.
    pub pocket_index: u16,
    /// Optional pocket ID; empty when the pocket has none.
    pub pocket_id: String,
    /// Compatible magazine item type IDs in stable order.
    pub compatible_magazine_type_ids: Vec<String>,
    /// Whether installed magazine volume is already included by the owner.
    pub rigid: bool,
    pub unloadable: bool,
}

/// An item-owned magazine pocket holding one ammunition category.
#[derive(Clone, Debug, PartialEq, Eq)]
pub struct IntegralMagazinePocketPrototypeV1 {
    pub pocket_index: u16,
    pub pocket_id: String,
    pub ammunition_type: String,
    pub capacity: u32,
    /// Whether contents occupy no additional external volume.
    pub rigid: bool,
    pub reloadable: bool,
    pub unloadable: bool,
}

#[derive(Clone, Debug, PartialEq, Eq)]
pub struct AmmunitionCapacityV1 {
    pub ammunition_type: String,
    pub capacity: u32,
}

#[derive(Clone, Copy, Debug, PartialEq, Eq, Structural)]
pub enum SpawnPocketKindV1 {
    Container,
    EFileStorage,
}

/// Immutable spawn-time containment rules of a pocket.
#[derive(Clone, Debug, PartialEq, Eq)]
pub struct SpawnPocketRulesV1 {
    pub kind: SpawnPocketKindV1,
    pub max_contains_volume_milliliters: u64,
    pub max_contains_weight_milligrams: u64,
    pub max_item_volume_milliliters: u64,
    pub min_item_volume_milliliters: u64,
    pub max_item_length_millimeters: u64,
    pub item_restrictions: Vec<String>,
    pub flag_restrictions: Vec<String>,
    pub access_moves: u16,
    pub rigid: bool,
    pub watertight: bool,
    pub transparent: bool,
    pub forbidden: bool,
    pub sealable: bool,
}

#[derive(Clone, Debug, PartialEq, Eq)]
pub struct SpawnPocketStateV1 {
    pub rules: SpawnPocketRulesV1,
    /// Current inventory presentation state.
    pub contents_collapsed: bool,
    pub sealed: bool,
}

/// An item-owned container pocket: ammunition-restricted, or a spawn pocket
/// when it carries spawn rules.
#[derive(Clone, Debug, PartialEq, Eq)]
pub struct AmmunitionContainerPocketPrototypeV1 {
    pub pocket_index: u16,
    pub pocket_id: String,
    /// Ammunition-category-sorted capacity limits.
    pub capacities: Vec<AmmunitionCapacityV1>,
    pub rigid: bool,
    pub access_moves: u16,
    pub reloadable: bool,
    pub unloadable: bool,
    pub spawn_rules: Option<SpawnPocketRulesV1>,
}

#[derive(Clone, Debug, PartialEq, Eq)]
pub struct PoweredToolStateV1 {
    pub inactive_type_id: String,
    pub active_type_id: String,
    pub activation_charges: u16,
    pub power_draw_milliwatts: u32,
    pub light_emission: u16,
    /// Whether light output dims below one fifth of installed energy.
    pub dims_with_charge: bool,
    /// Pocket index of the detachable magazine that supplies power.
    pub power_pocket_index: u16,
    pub active: bool,
}

#[derive(Clone, Debug, PartialEq, Eq)]
pub struct CraftItemPrototypeV1 {
    pub type_id: String,
    pub charges: i32,
    pub melee_damage_milli: TextMap<i32>,
    pub calories: i32,
    pub quench: i32,
    pub comestible_type: String,
    /// Whether this constructor owns active temperature state.
    pub tracks_temperature: bool,
    pub ammunition_type: String,
    pub ranged_weapon: Option<RangedWeaponSnapshot>,
    pub magazine_capacity: u32,
    pub integral_magazines: Vec<IntegralMagazinePocketPrototypeV1>,
    pub magazine_wells: Vec<MagazineWellPrototypeV1>,
    pub ammunition_containers: Vec<AmmunitionContainerPocketPrototypeV1>,
    pub residual_energy_millijoules: u32,
    pub powered_tool: Option<PoweredToolStateV1>,
    /// Self-contained physical identity used by pocket fit checks.
    pub containment: ItemContainmentProfileV1,
}

/// At most `maximum` UTF-8 bytes and no control character.
pub open spec fn plain_text(s: Seq<char>, maximum: nat) -> bool {
    utf8_len(s) <= maximum && !has_control(s)
}

pub fn plain_text_ok(s: &str, maximum: usize) -> (r: bool)
    ensures
        r == plain_text(s@, maximum as nat),
{
    text_len(s) <= maximum && !str_has_control(s)
}

pub open spec fn containment_profile_ok(profile: ItemContainmentProfileV1) -> bool {
    let flags = profile.flags@;
    &&& flags.len() <= 256
    &&& forall|i: int| 0 <= i < flags.len() ==> content_id_ok((#[trigger] flags[i])@)
    &&& strictly_sorted(string_views(flags))
}

pub fn valid_item_containment_profile(profile: &ItemContainmentProfileV1) -> (r: bool)
    ensures
        r == containment_profile_ok(*profile),
{
    if profile.flags.len() > 256 {
        return false;
    }
    let mut i: usize = 0;
    while i < profile.flags.len()
        invariant
            i <= profile.flags@.len(),
            forall|j: int| 0 <= j < i ==> content_id_ok((#[trigger] profile.flags@[j])@),
        decreases profile.flags.len() - i,
    {
        if !valid_recipe_id(profile.flags[i].as_str()) {
            return false;
        }
        i = i + 1;
    }
    strings_strictly_sorted(&profile.flags)
}

pub open spec fn powered_tool_ok(type_id: Seq<char>, powered: PoweredToolStateV1) -> bool {
    &&& content_id_ok(powered.inactive_type_id@)
    &&& content_id_ok(powered.active_type_id@)
    &&& powered.inactive_type_id@ != powered.active_type_id@
    &&& powered.activation_charges > 0
    &&& powered.power_draw_milliwatts > 0
    &&& powered.light_emission > 0
    &&& if powered.active { type_id == powered.active_type_id@ } else { type_id == powered.inactive_type_id@ }
}

pub fn valid_powered_tool_state(type_id: &str, powered: &PoweredToolStateV1) -> (r: bool)
    ensures
        r == powered_tool_ok(type_id@, *powered),
{
    valid_recipe_id(powered.inactive_type_id.as_str()) && valid_recipe_id(powered.active_type_id.as_str())
        && !str_eq(powered.inactive_type_id.as_str(), powered.active_type_id.as_str()) && powered.activation_charges > 0
        && powered.power_draw_milliwatts > 0 && powered.light_emission > 0
        && if powered.active {
            str_eq(type_id, powered.active_type_id.as_str())
        } else {
            str_eq(type_id, powered.inactive_type_id.as_str())
        }
}

pub open spec fn magazine_well_prototype_ok(well: MagazineWellPrototypeV1) -> bool {
    let compatible = well.compatible_magazine_type_ids@;
    &&& plain_text(well.pocket_id@, 512)
    &&& compatible.len() > 0
    &&& compatible.len() <= MAX_MAGAZINE_COMPATIBLE_TYPES
    &&& forall|i: int| 0 <= i < compatible.len() ==> content_id_ok((#[trigger] compatible[i])@)
    &&& strictly_sorted(string_views(compatible))
}

pub fn valid_magazine_well_prototype(well: &MagazineWellPrototypeV1) -> (r: bool)
    ensures
        r == magazine_well_prototype_ok(*well),
{
    let compatible = &well.compatible_magazine_type_ids;
    if !plain_text_ok(well.pocket_id.as_str(), 512) || compatible.len() == 0 || compatible.len() > MAX_MAGAZINE_COMPATIBLE_TYPES {
        return false;
    }
    let mut i: usize = 0;
    while i < compatible.len()
        invariant
            i <= compatible@.len(),
            forall|j: int| 0 <= j < i ==> content_id_ok((#[trigger] compatible@[j])@),
        decreases compatible.len() - i,
    {
        if !valid_recipe_id(compatible[i].as_str()) {
            return false;
        }
        i = i + 1;
    }
    strings_strictly_sorted(compatible)
}

pub open spec fn integral_magazine_prototype_ok(pocket: IntegralMagazinePocketPrototypeV1) -> bool {
    &&& plain_text(pocket.pocket_id@, 512)
    &&& content_id_ok(pocket.ammunition_type@)
    &&& pocket.capacity > 0
    &&& pocket.capacity <= i32::MAX
}

pub fn valid_integral_magazine_prototype(pocket: &IntegralMagazinePocketPrototypeV1) -> (r: bool)
    ensures
        r == integral_magazine_prototype_ok(*pocket),
{
    plain_text_ok(pocket.pocket_id.as_str(), 512) && valid_recipe_id(pocket.ammunition_type.as_str()) && pocket.capacity > 0
        && pocket.capacity <= 0x7fff_ffff
}

pub open spec fn ammunition_capacity_ok(capacity: AmmunitionCapacityV1) -> bool {
    content_id_ok(capacity.ammunition_type@) && capacity.capacity > 0 && capacity.capacity <= i32::MAX
}

/// Spawn rules: positive access cost, at most 256 sorted valid item and
/// flag restrictions, an ordered item-volume range, and for physical
/// containers positive volume, weight, item-volume, and length limits; an
/// E-file pocket is rigid.
pub open spec fn spawn_rules_ok(rules: SpawnPocketRulesV1) -> bool {
    let items = rules.item_restrictions@;
    let flags = rules.flag_restrictions@;
    &&& rules.access_moves > 0
    &&& items.len() <= 256
    &&& flags.len() <= 256
    &&& forall|i: int| 0 <= i < items.len() ==> content_id_ok((#[trigger] items[i])@)
    &&& forall|i: int| 0 <= i < flags.len() ==> content_id_ok((#[trigger] flags[i])@)
    &&& strictly_sorted(string_views(items))
    &&& strictly_sorted(string_views(flags))
    &&& rules.min_item_volume_milliliters <= rules.max_item_volume_milliliters
    &&& match rules.kind {
        SpawnPocketKindV1::Container => {
            &&& rules.max_contains_volume_milliliters > 0
            &&& rules.max_contains_weight_milligrams > 0
            &&& rules.max_item_volume_milliliters > 0
            &&& rules.max_item_length_millimeters > 0
        },
        SpawnPocketKindV1::EFileStorage => rules.rigid,
    }
}

fn content_ids_ok(ids: &Vec<String>) -> (r: bool)
    ensures
        r == forall|i: int| 0 <= i < ids@.len() ==> content_id_ok((#[trigger] ids@[i])@),
{
    let mut i: usize = 0;
    while i < ids.len()
        invariant
            i <= ids@.len(),
            forall|j: int| 0 <= j < i ==> content_id_ok((#[trigger] ids@[j])@),
        decreases ids.len() - i,
    {
        if !valid_recipe_id(ids[i].as_str()) {
            return false;
        }
        i = i + 1;
    }
    true
}

pub fn valid_spawn_pocket_rules(rules: &SpawnPocketRulesV1) -> (r: bool)
    ensures
        r == spawn_rules_ok(*rules),
{
    let kind_ok = match rules.kind {
        SpawnPocketKindV1::Container => rules.max_contains_volume_milliliters > 0 && rules.max_contains_weight_milligrams > 0
            && rules.max_item_volume_milliliters > 0 && rules.max_item_length_millimeters > 0,
        SpawnPocketKindV1::EFileStorage => rules.rigid,
    };
    rules.access_moves > 0 && rules.item_restrictions.len() <= 256 && rules.flag_restrictions.len() <= 256
        && content_ids_ok(&rules.item_restrictions) && content_ids_ok(&rules.flag_restrictions)
        && strings_strictly_sorted(&rules.item_restrictions) && strings_strictly_sorted(&rules.flag_restrictions)
        && rules.min_item_volume_milliliters <= rules.max_item_volume_milliliters && kind_ok
}

pub open spec fn capacities_sorted(capacities: Seq<AmmunitionCapacityV1>) -> bool {
    forall|i: int| 0 <= i < capacities.len() - 1 ==> text_lt(#[trigger] capacities[i].ammunition_type@, capacities[i + 1].ammunition_type@)
}

pub open spec fn ammunition_container_prototype_ok(pocket: AmmunitionContainerPocketPrototypeV1) -> bool {
    let capacities = pocket.capacities@;
    &&& plain_text(pocket.pocket_id@, 512)
    &&& pocket.access_moves > 0
    &&& match pocket.spawn_rules {
        None => {
            &&& capacities.len() > 0
            &&& capacities.len() <= MAX_AMMUNITION_CONTAINER_TYPES
            &&& forall|i: int| 0 <= i < capacities.len() ==> ammunition_capacity_ok(#[trigger] capacities[i])
            &&& capacities_sorted(capacities)
        },
        Some(rules) => {
            &&& capacities.len() == 0
            &&& pocket.rigid == rules.rigid
            &&& pocket.access_moves == rules.access_moves
            &&& spawn_rules_ok(rules)
        },
    }
}

pub fn valid_ammunition_container_prototype(pocket: &AmmunitionContainerPocketPrototypeV1) -> (r: bool)
    ensures
        r == ammunition_container_prototype_ok(*pocket),
{
    if !plain_text_ok(pocket.pocket_id.as_str(), 512) || pocket.access_moves == 0 {
        return false;
    }
    match &pocket.spawn_rules {
        None => {
            let capacities = &pocket.capacities;
            if capacities.len() == 0 || capacities.len() > MAX_AMMUNITION_CONTAINER_TYPES {
                return false;
            }
            let mut i: usize = 0;
            while i < capacities.len()
                invariant
                    i <= capacities@.len(),
                    forall|j: int| 0 <= j < i ==> ammunition_capacity_ok(#[trigger] capacities@[j]),
                    forall|j: int| 0 <= j < i - 1 && j < capacities@.len() - 1 ==> text_lt(#[trigger] capacities@[j].ammunition_type@, capacities@[j + 1].ammunition_type@),
                decreases capacities.len() - i,
            {
                if !valid_recipe_id(capacities[i].ammunition_type.as_str()) || capacities[i].capacity == 0
                    || capacities[i].capacity > 0x7fff_ffff {
                    return false;
                }
                if i > 0 && !str_less(capacities[i - 1].ammunition_type.as_str(), capacities[i].ammunition_type.as_str()) {
                    assert(capacities@[(i - 1) as int + 1] == capacities@[i as int]);
                    return false;
                }
                i = i + 1;
            }
            true
        },
        Some(rules) => pocket.capacities.len() == 0 && pocket.rigid == rules.rigid && pocket.access_moves == rules.access_moves
            && valid_spawn_pocket_rules(rules),
    }
}

pub open spec fn integral_index(pocket: IntegralMagazinePocketPrototypeV1) -> u16 {
    pocket.pocket_index
}

/// The prototype's pocket lists are valid.
pub open spec fn pockets_ok(p: CraftItemPrototypeV1) -> bool {
    pocket_lists_ok(p.integral_magazines@, p.magazine_wells@, p.ammunition_containers@)
}

/// Pocket lists of at most 16 valid entries each, strictly sorted by pocket
/// index, with no index shared between two kinds of pocket.
pub open spec fn pocket_lists_ok(
    integral: Seq<IntegralMagazinePocketPrototypeV1>,
    wells: Seq<MagazineWellPrototypeV1>,
    containers: Seq<AmmunitionContainerPocketPrototypeV1>,
) -> bool {
    &&& integral.len() <= MAX_ITEM_INTEGRAL_MAGAZINES
    &&& forall|i: int| 0 <= i < integral.len() ==> integral_magazine_prototype_ok(#[trigger] integral[i])
    &&& forall|i: int| 0 <= i < integral.len() - 1 ==> (#[trigger] integral[i]).pocket_index < integral[i + 1].pocket_index
    &&& wells.len() <= MAX_ITEM_MAGAZINE_WELLS
    &&& forall|i: int| 0 <= i < wells.len() ==> magazine_well_prototype_ok(#[trigger] wells[i])
    &&& forall|i: int| 0 <= i < wells.len() - 1 ==> (#[trigger] wells[i]).pocket_index < wells[i + 1].pocket_index
    &&& containers.len() <= MAX_ITEM_AMMUNITION_CONTAINER_POCKETS
    &&& forall|i: int| 0 <= i < containers.len() ==> ammunition_container_prototype_ok(#[trigger] containers[i])
    &&& forall|i: int| 0 <= i < containers.len() - 1 ==> (#[trigger] containers[i]).pocket_index < containers[i + 1].pocket_index
    &&& forall|i: int, j: int| 0 <= i < integral.len() && 0 <= j < wells.len() ==> (#[trigger] integral[i]).pocket_index != (#[trigger] wells[j]).pocket_index
    &&& forall|i: int, j: int| 0 <= i < integral.len() && 0 <= j < containers.len() ==> (#[trigger] integral[i]).pocket_index != (#[trigger] containers[j]).pocket_index
    &&& forall|i: int, j: int| 0 <= i < wells.len() && 0 <= j < containers.len() ==> (#[trigger] wells[i]).pocket_index != (#[trigger] containers[j]).pocket_index
}

fn pockets_are_ok(p: &CraftItemPrototypeV1) -> (r: bool)
    ensures
        r == pockets_ok(*p),
{
    pocket_lists_are_ok(&p.integral_magazines, &p.magazine_wells, &p.ammunition_containers)
}

#[verifier::spinoff_prover]
#[verifier::rlimit(40)]
pub fn pocket_lists_are_ok(
    integral: &Vec<IntegralMagazinePocketPrototypeV1>,
    wells: &Vec<MagazineWellPrototypeV1>,
    containers: &Vec<AmmunitionContainerPocketPrototypeV1>,
) -> (r: bool)
    ensures
        r == pocket_lists_ok(integral@, wells@, containers@),
{
    if integral.len() > MAX_ITEM_INTEGRAL_MAGAZINES || wells.len() > MAX_ITEM_MAGAZINE_WELLS
        || containers.len() > MAX_ITEM_AMMUNITION_CONTAINER_POCKETS {
        return false;
    }
    let mut i: usize = 0;
    while i < integral.len()
        invariant
            i <= integral@.len(),
            forall|j: int| 0 <= j < i ==> integral_magazine_prototype_ok(#[trigger] integral@[j]),
            forall|j: int| 0 <= j < i - 1 && j < integral@.len() - 1 ==> (#[trigger] integral@[j]).pocket_index < integral@[j + 1].pocket_index,
            forall|a: int, b: int| 0 <= a < i && 0 <= b < wells@.len() ==> (#[trigger] integral@[a]).pocket_index != (#[trigger] wells@[b]).pocket_index,
            forall|a: int, b: int| 0 <= a < i && 0 <= b < containers@.len() ==> (#[trigger] integral@[a]).pocket_index != (#[trigger] containers@[b]).pocket_index,
        decreases integral.len() - i,
    {
        if !valid_integral_magazine_prototype(&integral[i]) {
            return false;
        }
        if i > 0 && integral[i - 1].pocket_index >= integral[i].pocket_index {
            assert(integral@[(i - 1) as int + 1] == integral@[i as int]);
            return false;
        }
        let mut j: usize = 0;
        while j < wells.len()
            invariant
                j <= wells@.len(),
                forall|b: int| 0 <= b < j ==> integral@[i as int].pocket_index != (#[trigger] wells@[b]).pocket_index,
            decreases wells.len() - j,
        {
            if wells[j].pocket_index == integral[i].pocket_index {
                return false;
            }
            j = j + 1;
        }
        let mut j: usize = 0;
        while j < containers.len()
            invariant
                j <= containers@.len(),
                forall|b: int| 0 <= b < j ==> integral@[i as int].pocket_index != (#[trigger] containers@[b]).pocket_index,
            decreases containers.len() - j,
        {
            if containers[j].pocket_index == integral[i].pocket_index {
                return false;
            }
            j = j + 1;
        }
        i = i + 1;
    }
    let mut i: usize = 0;
    while i < wells.len()
        invariant
            i <= wells@.len(),
            forall|j: int| 0 <= j < i ==> magazine_well_prototype_ok(#[trigger] wells@[j]),
            forall|j: int| 0 <= j < i - 1 && j < wells@.len() - 1 ==> (#[trigger] wells@[j]).pocket_index < wells@[j + 1].pocket_index,
            forall|a: int, b: int| 0 <= a < i && 0 <= b < containers@.len() ==> (#[trigger] wells@[a]).pocket_index != (#[trigger] containers@[b]).pocket_index,
        decreases wells.len() - i,
    {
        if !valid_magazine_well_prototype(&wells[i]) {
            return false;
        }
        if i > 0 && wells[i - 1].pocket_index >= wells[i].pocket_index {
            assert(wells@[(i - 1) as int + 1] == wells@[i as int]);
            return false;
        }
        let mut j: usize = 0;
        while j < containers.len()
            invariant
                j <= containers@.len(),
                forall|b: int| 0 <= b < j ==> wells@[i as int].pocket_index != (#[trigger] containers@[b]).pocket_index,
            decreases containers.len() - j,
        {
            if containers[j].pocket_index == wells[i].pocket_index {
                return false;
            }
            j = j + 1;
        }
        i = i + 1;
    }
    let mut i: usize = 0;
    while i < containers.len()
        invariant
            i <= containers@.len(),
            forall|j: int| 0 <= j < i ==> ammunition_container_prototype_ok(#[trigger] containers@[j]),
            forall|j: int| 0 <= j < i - 1 && j < containers@.len() - 1 ==> (#[trigger] containers@[j]).pocket_index < containers@[j + 1].pocket_index,
        decreases containers.len() - i,
    {
        if !valid_ammunition_container_prototype(&containers[i]) {
            return false;
        }
        if i > 0 && containers[i - 1].pocket_index >= containers[i].pocket_index {
            assert(containers@[(i - 1) as int + 1] == containers@[i as int]);
            return false;
        }
        i = i + 1;
    }
    true
}

pub open spec fn melee_damage_ok(melee: TextMap<i32>) -> bool {
    let entries = melee.view_entries();
    &&& entries.len() <= 32
    &&& forall|i: int| 0 <= i < entries.len() ==> (#[trigger] entries[i]).0.len() > 0 && plain_text(entries[i].0, 64) && entries[i].1 >= 0
}

pub fn melee_damage_is_ok(melee: &TextMap<i32>) -> (r: bool)
    ensures
        r == melee_damage_ok(*melee),
{
    if melee.len() > 32 {
        return false;
    }
    let mut i: usize = 0;
    while i < melee.len()
        invariant
            i <= melee.view_entries().len(),
            forall|j: int| 0 <= j < i ==> (#[trigger] melee.view_entries()[j]).0.len() > 0 && plain_text(melee.view_entries()[j].0, 64)
                && melee.view_entries()[j].1 >= 0,
        decreases melee.view_entries().len() - i,
    {
        let (key, value) = melee.entry_at(i);
        if key.is_empty() || !plain_text_ok(key, 64) || *value < 0 {
            return false;
        }
        i = i + 1;
    }
    true
}

pub open spec fn is_battery(s: Seq<char>) -> bool {
    s == "battery"@
}

pub open spec fn ranged_weapon_ok(weapon: RangedWeaponSnapshot) -> bool {
    &&& weapon.ammunition_type@.len() > 0
    &&& plain_text(weapon.ammunition_type@, 64)
    &&& weapon.ammunition_capacity > 0
    &&& weapon.ammunition_remaining <= weapon.ammunition_capacity
    &&& weapon.range > 0
    &&& weapon.damage > 0
}

/// The charge, ammunition, magazine, and residual-energy rules of an item
/// freshly constructed from `p`.
pub open spec fn charge_state_ok(p: CraftItemPrototypeV1) -> bool {
    let no_pockets = p.integral_magazines@.len() == 0 && p.magazine_wells@.len() == 0 && p.ammunition_containers@.len() == 0;
    &&& (!p.containment.count_by_charges || p.charges > 0
        || (is_battery(p.ammunition_type@) && p.charges == 0 && p.residual_energy_millijoules > 0))
    &&& plain_text(p.comestible_type@, 32)
    &&& (p.comestible_type@.len() == 0 || p.charges > 0)
    &&& plain_text(p.ammunition_type@, 64)
    &&& (p.ammunition_type@.len() == 0 || p.charges > 0 || (p.magazine_capacity > 0 && p.charges >= 0)
        || (is_battery(p.ammunition_type@) && p.charges >= 0 && p.residual_energy_millijoules > 0))
    &&& (p.magazine_capacity == 0 || (p.charges >= 0 && p.charges <= p.magazine_capacity && p.ammunition_type@.len() > 0
        && p.ranged_weapon is None && p.magazine_wells@.len() == 0 && p.ammunition_containers@.len() == 0))
    &&& (p.residual_energy_millijoules == 0
        || (p.magazine_capacity > 0 && p.charges >= 0 && p.charges < p.magazine_capacity
            && p.residual_energy_millijoules < MILLIJOULES_PER_BATTERY_CHARGE)
        || (p.magazine_capacity == 0 && is_battery(p.ammunition_type@) && p.charges >= 0 && p.ranged_weapon is None
            && no_pockets && p.powered_tool is None && p.residual_energy_millijoules < MILLIJOULES_PER_BATTERY_CHARGE))
    &&& (p.magazine_wells@.len() == 0 || (p.charges == 0 && p.magazine_capacity == 0 && p.ammunition_type@.len() == 0 && p.ranged_weapon is None))
    &&& (p.integral_magazines@.len() == 0 || (p.charges == 0 && p.magazine_capacity == 0 && p.ammunition_type@.len() == 0 && p.ranged_weapon is None))
    &&& (p.ranged_weapon matches Some(weapon) ==> ranged_weapon_ok(weapon))
}

fn charge_state_is_ok(p: &CraftItemPrototypeV1, charges: i32) -> (r: bool)
    ensures
        r == charge_state_ok(with_charges(*p, charges)),
{
    let battery = str_eq(p.ammunition_type.as_str(), "battery");
    let ammo_empty = p.ammunition_type.as_str().is_empty();
    let no_pockets = p.integral_magazines.len() == 0 && p.magazine_wells.len() == 0 && p.ammunition_containers.len() == 0;
    let weapon_ok = match &p.ranged_weapon {
        Some(weapon) => !weapon.ammunition_type.as_str().is_empty() && plain_text_ok(weapon.ammunition_type.as_str(), 64)
            && weapon.ammunition_capacity > 0 && weapon.ammunition_remaining <= weapon.ammunition_capacity && weapon.range > 0
            && weapon.damage > 0,
        None => true,
    };
    (!p.containment.count_by_charges || charges > 0 || (battery && charges == 0 && p.residual_energy_millijoules > 0))
        && plain_text_ok(p.comestible_type.as_str(), 32) && (p.comestible_type.as_str().is_empty() || charges > 0)
        && plain_text_ok(p.ammunition_type.as_str(), 64)
        && (ammo_empty || charges > 0 || (p.magazine_capacity > 0 && charges >= 0)
            || (battery && charges >= 0 && p.residual_energy_millijoules > 0))
        && (p.magazine_capacity == 0 || (charges >= 0 && (charges as u32) <= p.magazine_capacity && !ammo_empty
            && p.ranged_weapon.is_none() && p.magazine_wells.len() == 0 && p.ammunition_containers.len() == 0))
        && (p.residual_energy_millijoules == 0
            || (p.magazine_capacity > 0 && charges >= 0 && (charges as u32) < p.magazine_capacity
                && p.residual_energy_millijoules < MILLIJOULES_PER_BATTERY_CHARGE)
            || (p.magazine_capacity == 0 && battery && charges >= 0 && p.ranged_weapon.is_none() && no_pockets
                && p.powered_tool.is_none() && p.residual_energy_millijoules < MILLIJOULES_PER_BATTERY_CHARGE))
        && (p.magazine_wells.len() == 0 || (charges == 0 && p.magazine_capacity == 0 && ammo_empty && p.ranged_weapon.is_none()))
        && (p.integral_magazines.len() == 0 || (charges == 0 && p.magazine_capacity == 0 && ammo_empty && p.ranged_weapon.is_none()))
        && weapon_ok
}

pub open spec fn powered_ok(p: CraftItemPrototypeV1) -> bool {
    p.powered_tool matches Some(powered) ==> {
        &&& exists|i: int| 0 <= i < p.magazine_wells@.len() && (#[trigger] p.magazine_wells@[i]).pocket_index == powered.power_pocket_index
        &&& p.residual_energy_millijoules == 0
        &&& powered_tool_ok(p.type_id@, powered)
    }
}

fn powered_is_ok(p: &CraftItemPrototypeV1) -> (r: bool)
    ensures
        r == powered_ok(*p),
{
    match &p.powered_tool {
        None => true,
        Some(powered) => {
            let mut found = false;
            let mut i: usize = 0;
            while i < p.magazine_wells.len()
                invariant
                    i <= p.magazine_wells@.len(),
                    found == exists|j: int| 0 <= j < i && (#[trigger] p.magazine_wells@[j]).pocket_index == powered.power_pocket_index,
                decreases p.magazine_wells.len() - i,
            {
                if p.magazine_wells[i].pocket_index == powered.power_pocket_index {
                    found = true;
                }
                i = i + 1;
            }
            found && p.residual_energy_millijoules == 0 && valid_powered_tool_state(p.type_id.as_str(), powered)
        },
    }
}

/// A prototype is valid exactly when a freshly constructed item of it is a
/// valid item: a bounded type ID, a valid containment profile, bounded
/// melee damage, a supported temperature phase, consistent charges, valid
/// pockets, and a consistent powered-tool state.
#[verifier::opaque]
pub open spec fn craft_prototype_ok(p: CraftItemPrototypeV1) -> bool {
    &&& p.type_id@.len() > 0
    &&& plain_text(p.type_id@, 512)
    &&& containment_profile_ok(p.containment)
    &&& melee_damage_ok(p.melee_damage_milli)
    &&& (p.tracks_temperature ==> p.containment.phase != ItemPhaseV1::Gas)
    &&& charge_state_ok(p)
    &&& pockets_ok(p)
    &&& powered_ok(p)
}

pub fn valid_craft_item_prototype(item: &CraftItemPrototypeV1) -> (r: bool)
    ensures
        r == craft_prototype_ok(*item),
{
    assert(with_charges(*item, item.charges) == *item);
    valid_craft_item_prototype_with_charges(item, item.charges)
}

/// The prototype `p` with its initial charge count replaced by `charges`.
pub open spec fn with_charges(p: CraftItemPrototypeV1, charges: i32) -> CraftItemPrototypeV1 {
    CraftItemPrototypeV1 { charges, ..p }
}

/// Whether `item` would be a valid prototype if it were constructed with
/// `charges` charges.
pub fn valid_craft_item_prototype_with_charges(item: &CraftItemPrototypeV1, charges: i32) -> (r: bool)
    ensures
        r == craft_prototype_ok(with_charges(*item, charges)),
{
    reveal(craft_prototype_ok);
    !item.type_id.as_str().is_empty() && plain_text_ok(item.type_id.as_str(), 512)
        && valid_item_containment_profile(&item.containment) && melee_damage_is_ok(&item.melee_damage_milli)
        && (!item.tracks_temperature || item.containment.phase != ItemPhaseV1::Gas) && charge_state_is_ok(item, charges)
        && pockets_are_ok(item) && powered_is_ok(item)
}

} // verus!
