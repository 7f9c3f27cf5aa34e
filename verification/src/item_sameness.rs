//! Field-by-field sameness of item records: texts compared by their
//! characters, sequences element by element.

use vstd::prelude::*;

use crate::creatures::{CreatureCorpsePrototypeV1, CreatureCorpseSnapshotV1};
use crate::disassembly::ItemComponentSnapshotV1;
use crate::item_groups::{ItemSnippetV1, ItemVariableValueV1, ItemVariantV1};
use crate::items::ItemContainmentProfileV1;
use crate::prototypes::{
    AmmunitionCapacityV1, AmmunitionContainerPocketPrototypeV1, IntegralMagazinePocketPrototypeV1,
    MagazineWellPrototypeV1, PoweredToolStateV1, RangedWeaponSnapshot, SpawnPocketRulesV1, SpawnPocketStateV1,
};
use crate::text::{str_eq, string_views};
use crate::text_map::TextMap;

verus! {

pub fn strings_same(a: &Vec<String>, b: &Vec<String>) -> (r: bool)
    ensures
        r == (string_views(a@) == string_views(b@)),
{
    if a.len() != b.len() {
        assert(string_views(a@).len() != string_views(b@).len());
        return false;
    }
    let mut i: usize = 0;
    while i < a.len()
        invariant
            a@.len() == b@.len(),
            i <= a@.len(),
            forall|j: int| 0 <= j < i ==> a@[j]@ == b@[j]@,
        decreases a.len() - i,
    {
        if !str_eq(a[i].as_str(), b[i].as_str()) {
            assert(string_views(a@)[i as int] != string_views(b@)[i as int]);
            return false;
        }
        i = i + 1;
    }
    assert(string_views(a@) =~= string_views(b@));
    true
}

pub open spec fn profile_same(a: ItemContainmentProfileV1, b: ItemContainmentProfileV1) -> bool {
    &&& a.weight_milligrams == b.weight_milligrams
    &&& a.volume_milliliters == b.volume_milliliters
    &&& a.longest_side_millimeters == b.longest_side_millimeters
    &&& string_views(a.flags@) == string_views(b.flags@)
    &&& a.estorable == b.estorable
    &&& a.phase == b.phase
    &&& a.count_by_charges == b.count_by_charges
    &&& a.stack_size == b.stack_size
}

pub fn profiles_same(a: &ItemContainmentProfileV1, b: &ItemContainmentProfileV1) -> (r: bool)
    ensures
        r == profile_same(*a, *b),
{
    a.weight_milligrams == b.weight_milligrams && a.volume_milliliters == b.volume_milliliters
        && a.longest_side_millimeters == b.longest_side_millimeters && strings_same(&a.flags, &b.flags)
        && a.estorable == b.estorable && a.phase == b.phase && a.count_by_charges == b.count_by_charges
        && a.stack_size == b.stack_size
}

pub open spec fn variant_same(a: ItemVariantV1, b: ItemVariantV1) -> bool {
    &&& a.id@ == b.id@
    &&& a.name@ == b.name@
    &&& a.description@ == b.description@
    &&& a.symbol@ == b.symbol@
    &&& a.color@ == b.color@
    &&& a.ascii_picture@ == b.ascii_picture@
}

pub open spec fn opt_variant_same(a: Option<ItemVariantV1>, b: Option<ItemVariantV1>) -> bool {
    match (a, b) {
        (None, None) => true,
        (Some(x), Some(y)) => variant_same(x, y),
        _ => false,
    }
}

pub fn variants_same(a: &Option<ItemVariantV1>, b: &Option<ItemVariantV1>) -> (r: bool)
    ensures
        r == opt_variant_same(*a, *b),
{
    match (a, b) {
        (None, None) => true,
        (Some(x), Some(y)) => str_eq(x.id.as_str(), y.id.as_str()) && str_eq(x.name.as_str(), y.name.as_str())
            && str_eq(x.description.as_str(), y.description.as_str()) && str_eq(x.symbol.as_str(), y.symbol.as_str())
            && str_eq(x.color.as_str(), y.color.as_str()) && str_eq(
            x.ascii_picture.as_str(),
            y.ascii_picture.as_str(),
        ),
        _ => false,
    }
}

pub open spec fn opt_snippet_same(a: Option<ItemSnippetV1>, b: Option<ItemSnippetV1>) -> bool {
    match (a, b) {
        (None, None) => true,
        (Some(x), Some(y)) => x.id@ == y.id@ && x.text@ == y.text@,
        _ => false,
    }
}

pub fn snippets_same(a: &Option<ItemSnippetV1>, b: &Option<ItemSnippetV1>) -> (r: bool)
    ensures
        r == opt_snippet_same(*a, *b),
{
    match (a, b) {
        (None, None) => true,
        (Some(x), Some(y)) => str_eq(x.id.as_str(), y.id.as_str()) && str_eq(x.text.as_str(), y.text.as_str()),
        _ => false,
    }
}

pub open spec fn value_same(a: ItemVariableValueV1, b: ItemVariableValueV1) -> bool {
    match (a, b) {
        (ItemVariableValueV1::Integer(x), ItemVariableValueV1::Integer(y)) => x == y,
        (ItemVariableValueV1::String(x), ItemVariableValueV1::String(y)) => x@ == y@,
        _ => false,
    }
}

/// The same keys in the same order, with the same values.
pub open spec fn variables_same(a: TextMap<ItemVariableValueV1>, b: TextMap<ItemVariableValueV1>) -> bool {
    &&& a.view_entries().len() == b.view_entries().len()
    &&& forall|i: int|
        0 <= i < a.view_entries().len() ==> (#[trigger] a.view_entries()[i]).0 == b.view_entries()[i].0 && value_same(
            a.view_entries()[i].1,
            b.view_entries()[i].1,
        )
}

pub fn variable_maps_same(a: &TextMap<ItemVariableValueV1>, b: &TextMap<ItemVariableValueV1>) -> (r: bool)
    ensures
        r == variables_same(*a, *b),
{
    if a.len() != b.len() {
        return false;
    }
    let mut i: usize = 0;
    while i < a.len()
        invariant
            a.view_entries().len() == b.view_entries().len(),
            i <= a.view_entries().len(),
            forall|j: int|
                0 <= j < i ==> (#[trigger] a.view_entries()[j]).0 == b.view_entries()[j].0 && value_same(
                    a.view_entries()[j].1,
                    b.view_entries()[j].1,
                ),
        decreases a.view_entries().len() - i,
    {
        let (ka, va) = a.entry_at(i);
        let (kb, vb) = b.entry_at(i);
        let same_value = match (va, vb) {
            (ItemVariableValueV1::Integer(x), ItemVariableValueV1::Integer(y)) => *x == *y,
            (ItemVariableValueV1::String(x), ItemVariableValueV1::String(y)) => str_eq(x.as_str(), y.as_str()),
            _ => false,
        };
        if !(str_eq(ka, kb) && same_value) {
            return false;
        }
        i = i + 1;
    }
    true
}

pub fn melee_maps_same(a: &TextMap<i32>, b: &TextMap<i32>) -> (r: bool)
    ensures
        r == (a.view_entries() == b.view_entries()),
{
    if a.len() != b.len() {
        return false;
    }
    let mut i: usize = 0;
    while i < a.len()
        invariant
            a.view_entries().len() == b.view_entries().len(),
            i <= a.view_entries().len(),
            forall|j: int| 0 <= j < i ==> a.view_entries()[j] == b.view_entries()[j],
        decreases a.view_entries().len() - i,
    {
        let (ka, va) = a.entry_at(i);
        let (kb, vb) = b.entry_at(i);
        if !(str_eq(ka, kb) && *va == *vb) {
            return false;
        }
        i = i + 1;
    }
    assert(a.view_entries() =~= b.view_entries());
    true
}

pub open spec fn opt_ranged_same(a: Option<RangedWeaponSnapshot>, b: Option<RangedWeaponSnapshot>) -> bool {
    match (a, b) {
        (None, None) => true,
        (Some(x), Some(y)) => x.ammunition_type@ == y.ammunition_type@ && x.ammunition_remaining
            == y.ammunition_remaining && x.ammunition_capacity == y.ammunition_capacity && x.range == y.range
            && x.damage == y.damage && x.dispersion == y.dispersion && x.sound_volume == y.sound_volume,
        _ => false,
    }
}

pub fn ranged_same(a: &Option<RangedWeaponSnapshot>, b: &Option<RangedWeaponSnapshot>) -> (r: bool)
    ensures
        r == opt_ranged_same(*a, *b),
{
    match (a, b) {
        (None, None) => true,
        (Some(x), Some(y)) => str_eq(x.ammunition_type.as_str(), y.ammunition_type.as_str())
            && x.ammunition_remaining == y.ammunition_remaining && x.ammunition_capacity == y.ammunition_capacity
            && x.range == y.range && x.damage == y.damage && x.dispersion == y.dispersion && x.sound_volume
            == y.sound_volume,
        _ => false,
    }
}

pub open spec fn opt_powered_same(a: Option<PoweredToolStateV1>, b: Option<PoweredToolStateV1>) -> bool {
    match (a, b) {
        (None, None) => true,
        (Some(x), Some(y)) => x.inactive_type_id@ == y.inactive_type_id@ && x.active_type_id@ == y.active_type_id@
            && x.activation_charges == y.activation_charges && x.power_draw_milliwatts == y.power_draw_milliwatts
            && x.light_emission == y.light_emission && x.dims_with_charge == y.dims_with_charge
            && x.power_pocket_index == y.power_pocket_index && x.active == y.active,
        _ => false,
    }
}

pub fn powered_same(a: &Option<PoweredToolStateV1>, b: &Option<PoweredToolStateV1>) -> (r: bool)
    ensures
        r == opt_powered_same(*a, *b),
{
    match (a, b) {
        (None, None) => true,
        (Some(x), Some(y)) => str_eq(x.inactive_type_id.as_str(), y.inactive_type_id.as_str()) && str_eq(
            x.active_type_id.as_str(),
            y.active_type_id.as_str(),
        ) && x.activation_charges == y.activation_charges && x.power_draw_milliwatts == y.power_draw_milliwatts
            && x.light_emission == y.light_emission && x.dims_with_charge == y.dims_with_charge
            && x.power_pocket_index == y.power_pocket_index && x.active == y.active,
        _ => false,
    }
}

pub open spec fn capacities_same(a: Seq<AmmunitionCapacityV1>, b: Seq<AmmunitionCapacityV1>) -> bool {
    &&& a.len() == b.len()
    &&& forall|i: int|
        0 <= i < a.len() ==> (#[trigger] a[i]).ammunition_type@ == b[i].ammunition_type@ && a[i].capacity
            == b[i].capacity
}

pub fn capacity_lists_same(a: &Vec<AmmunitionCapacityV1>, b: &Vec<AmmunitionCapacityV1>) -> (r: bool)
    ensures
        r == capacities_same(a@, b@),
{
    if a.len() != b.len() {
        return false;
    }
    let mut i: usize = 0;
    while i < a.len()
        invariant
            a@.len() == b@.len(),
            i <= a@.len(),
            forall|j: int|
                0 <= j < i ==> (#[trigger] a@[j]).ammunition_type@ == b@[j].ammunition_type@ && a@[j].capacity
                    == b@[j].capacity,
        decreases a.len() - i,
    {
        if !(str_eq(a[i].ammunition_type.as_str(), b[i].ammunition_type.as_str()) && a[i].capacity == b[i].capacity) {
            return false;
        }
        i = i + 1;
    }
    true
}

pub open spec fn rules_same(a: SpawnPocketRulesV1, b: SpawnPocketRulesV1) -> bool {
    &&& a.kind == b.kind
    &&& a.max_contains_volume_milliliters == b.max_contains_volume_milliliters
    &&& a.max_contains_weight_milligrams == b.max_contains_weight_milligrams
    &&& a.max_item_volume_milliliters == b.max_item_volume_milliliters
    &&& a.min_item_volume_milliliters == b.min_item_volume_milliliters
    &&& a.max_item_length_millimeters == b.max_item_length_millimeters
    &&& string_views(a.item_restrictions@) == string_views(b.item_restrictions@)
    &&& string_views(a.flag_restrictions@) == string_views(b.flag_restrictions@)
    &&& a.access_moves == b.access_moves
    &&& a.rigid == b.rigid
    &&& a.watertight == b.watertight
    &&& a.transparent == b.transparent
    &&& a.forbidden == b.forbidden
    &&& a.sealable == b.sealable
}

pub fn spawn_rules_same(a: &SpawnPocketRulesV1, b: &SpawnPocketRulesV1) -> (r: bool)
    ensures
        r == rules_same(*a, *b),
{
    a.kind == b.kind && a.max_contains_volume_milliliters == b.max_contains_volume_milliliters
        && a.max_contains_weight_milligrams == b.max_contains_weight_milligrams && a.max_item_volume_milliliters
        == b.max_item_volume_milliliters && a.min_item_volume_milliliters == b.min_item_volume_milliliters
        && a.max_item_length_millimeters == b.max_item_length_millimeters && strings_same(
        &a.item_restrictions,
        &b.item_restrictions,
    ) && strings_same(&a.flag_restrictions, &b.flag_restrictions) && a.access_moves == b.access_moves && a.rigid
        == b.rigid && a.watertight == b.watertight && a.transparent == b.transparent && a.forbidden == b.forbidden
        && a.sealable == b.sealable
}

pub open spec fn opt_rules_same(a: Option<SpawnPocketRulesV1>, b: Option<SpawnPocketRulesV1>) -> bool {
    match (a, b) {
        (None, None) => true,
        (Some(x), Some(y)) => rules_same(x, y),
        _ => false,
    }
}

pub open spec fn opt_state_same(a: Option<SpawnPocketStateV1>, b: Option<SpawnPocketStateV1>) -> bool {
    match (a, b) {
        (None, None) => true,
        (Some(x), Some(y)) => rules_same(x.rules, y.rules) && x.contents_collapsed == y.contents_collapsed
            && x.sealed == y.sealed,
        _ => false,
    }
}

pub fn spawn_states_same(a: &Option<SpawnPocketStateV1>, b: &Option<SpawnPocketStateV1>) -> (r: bool)
    ensures
        r == opt_state_same(*a, *b),
{
    match (a, b) {
        (None, None) => true,
        (Some(x), Some(y)) => spawn_rules_same(&x.rules, &y.rules) && x.contents_collapsed == y.contents_collapsed
            && x.sealed == y.sealed,
        _ => false,
    }
}

pub open spec fn integral_prototypes_same(
    a: Seq<IntegralMagazinePocketPrototypeV1>,
    b: Seq<IntegralMagazinePocketPrototypeV1>,
) -> bool {
    &&& a.len() == b.len()
    &&& forall|i: int|
        0 <= i < a.len() ==> {
            let (x, y) = (#[trigger] a[i], b[i]);
            x.pocket_index == y.pocket_index && x.pocket_id@ == y.pocket_id@ && x.ammunition_type@
                == y.ammunition_type@ && x.capacity == y.capacity && x.rigid == y.rigid && x.reloadable
                == y.reloadable && x.unloadable == y.unloadable
        }
}

pub fn integral_prototype_lists_same(
    a: &Vec<IntegralMagazinePocketPrototypeV1>,
    b: &Vec<IntegralMagazinePocketPrototypeV1>,
) -> (r: bool)
    ensures
        r == integral_prototypes_same(a@, b@),
{
    if a.len() != b.len() {
        return false;
    }
    let mut i: usize = 0;
    while i < a.len()
        invariant
            a@.len() == b@.len(),
            i <= a@.len(),
            forall|j: int|
                0 <= j < i ==> {
                    let (x, y) = (#[trigger] a@[j], b@[j]);
                    x.pocket_index == y.pocket_index && x.pocket_id@ == y.pocket_id@ && x.ammunition_type@
                        == y.ammunition_type@ && x.capacity == y.capacity && x.rigid == y.rigid && x.reloadable
                        == y.reloadable && x.unloadable == y.unloadable
                },
        decreases a.len() - i,
    {
        let (x, y) = (&a[i], &b[i]);
        if !(x.pocket_index == y.pocket_index && str_eq(x.pocket_id.as_str(), y.pocket_id.as_str()) && str_eq(
            x.ammunition_type.as_str(),
            y.ammunition_type.as_str(),
        ) && x.capacity == y.capacity && x.rigid == y.rigid && x.reloadable == y.reloadable && x.unloadable
            == y.unloadable) {
            return false;
        }
        i = i + 1;
    }
    true
}

pub open spec fn well_prototypes_same(a: Seq<MagazineWellPrototypeV1>, b: Seq<MagazineWellPrototypeV1>) -> bool {
    &&& a.len() == b.len()
    &&& forall|i: int|
        0 <= i < a.len() ==> {
            let (x, y) = (#[trigger] a[i], b[i]);
            x.pocket_index == y.pocket_index && x.pocket_id@ == y.pocket_id@ && string_views(
                x.compatible_magazine_type_ids@,
            ) == string_views(y.compatible_magazine_type_ids@) && x.rigid == y.rigid && x.unloadable == y.unloadable
        }
}

pub fn well_prototype_lists_same(a: &Vec<MagazineWellPrototypeV1>, b: &Vec<MagazineWellPrototypeV1>) -> (r: bool)
    ensures
        r == well_prototypes_same(a@, b@),
{
    if a.len() != b.len() {
        return false;
    }
    let mut i: usize = 0;
    while i < a.len()
        invariant
            a@.len() == b@.len(),
            i <= a@.len(),
            forall|j: int|
                0 <= j < i ==> {
                    let (x, y) = (#[trigger] a@[j], b@[j]);
                    x.pocket_index == y.pocket_index && x.pocket_id@ == y.pocket_id@ && string_views(
                        x.compatible_magazine_type_ids@,
                    ) == string_views(y.compatible_magazine_type_ids@) && x.rigid == y.rigid && x.unloadable
                        == y.unloadable
                },
        decreases a.len() - i,
    {
        let (x, y) = (&a[i], &b[i]);
        if !(x.pocket_index == y.pocket_index && str_eq(x.pocket_id.as_str(), y.pocket_id.as_str()) && strings_same(
            &x.compatible_magazine_type_ids,
            &y.compatible_magazine_type_ids,
        ) && x.rigid == y.rigid && x.unloadable == y.unloadable) {
            return false;
        }
        i = i + 1;
    }
    true
}

pub open spec fn container_prototypes_same(
    a: Seq<AmmunitionContainerPocketPrototypeV1>,
    b: Seq<AmmunitionContainerPocketPrototypeV1>,
) -> bool {
    &&& a.len() == b.len()
    &&& forall|i: int|
        0 <= i < a.len() ==> {
            let (x, y) = (#[trigger] a[i], b[i]);
            x.pocket_index == y.pocket_index && x.pocket_id@ == y.pocket_id@ && capacities_same(
                x.capacities@,
                y.capacities@,
            ) && x.rigid == y.rigid && x.access_moves == y.access_moves && x.reloadable == y.reloadable
                && x.unloadable == y.unloadable && opt_rules_same(x.spawn_rules, y.spawn_rules)
        }
}

pub fn container_prototype_lists_same(
    a: &Vec<AmmunitionContainerPocketPrototypeV1>,
    b: &Vec<AmmunitionContainerPocketPrototypeV1>,
) -> (r: bool)
    ensures
        r == container_prototypes_same(a@, b@),
{
    if a.len() != b.len() {
        return false;
    }
    let mut i: usize = 0;
    while i < a.len()
        invariant
            a@.len() == b@.len(),
            i <= a@.len(),
            forall|j: int|
                0 <= j < i ==> {
                    let (x, y) = (#[trigger] a@[j], b@[j]);
                    x.pocket_index == y.pocket_index && x.pocket_id@ == y.pocket_id@ && capacities_same(
                        x.capacities@,
                        y.capacities@,
                    ) && x.rigid == y.rigid && x.access_moves == y.access_moves && x.reloadable == y.reloadable
                        && x.unloadable == y.unloadable && opt_rules_same(x.spawn_rules, y.spawn_rules)
                },
        decreases a.len() - i,
    {
        let (x, y) = (&a[i], &b[i]);
        let rules = match (&x.spawn_rules, &y.spawn_rules) {
            (None, None) => true,
            (Some(p), Some(q)) => spawn_rules_same(p, q),
            _ => false,
        };
        if !(x.pocket_index == y.pocket_index && str_eq(x.pocket_id.as_str(), y.pocket_id.as_str())
            && capacity_lists_same(&x.capacities, &y.capacities) && x.rigid == y.rigid && x.access_moves
            == y.access_moves && x.reloadable == y.reloadable && x.unloadable == y.unloadable && rules) {
            return false;
        }
        i = i + 1;
    }
    true
}

pub open spec fn corpse_prototype_same(a: CreatureCorpsePrototypeV1, b: CreatureCorpsePrototypeV1) -> bool {
    &&& a.monster_type_id@ == b.monster_type_id@
    &&& a.blood_field_type_id@ == b.blood_field_type_id@
    &&& a.max_hp == b.max_hp && a.speed == b.speed && a.attack_cost_moves == b.attack_cost_moves
    &&& a.aggression == b.aggression && a.morale == b.morale && a.melee_skill == b.melee_skill
    &&& a.dodge == b.dodge && a.size == b.size && a.melee_dice == b.melee_dice
    &&& a.melee_dice_sides == b.melee_dice_sides && a.can_see == b.can_see && a.vision_day == b.vision_day
    &&& a.vision_night == b.vision_night && a.stumbles == b.stumbles && a.bashes == b.bashes
    &&& a.group_bash == b.group_bash && a.hears == b.hears && a.good_hearing == b.good_hearing
    &&& a.clumsy_attacks == b.clumsy_attacks && a.immobile == b.immobile && a.pacifist == b.pacifist
    &&& a.can_open_doors == b.can_open_doors && a.path_settings == b.path_settings && a.revives == b.revives
}

pub open spec fn opt_corpse_same(a: Option<CreatureCorpseSnapshotV1>, b: Option<CreatureCorpseSnapshotV1>) -> bool {
    match (a, b) {
        (None, None) => true,
        (Some(x), Some(y)) => corpse_prototype_same(x.prototype, y.prototype) && x.death_tick == y.death_tick
            && x.revive_special == y.revive_special && x.revivable == y.revivable,
        _ => false,
    }
}

fn corpse_prototypes_same(p: &CreatureCorpsePrototypeV1, q: &CreatureCorpsePrototypeV1) -> (r: bool)
    ensures
        r == corpse_prototype_same(*p, *q),
{
    let texts = str_eq(p.monster_type_id.as_str(), q.monster_type_id.as_str()) && str_eq(
        p.blood_field_type_id.as_str(),
        q.blood_field_type_id.as_str(),
    );
    let numbers = p.max_hp == q.max_hp && p.speed == q.speed && p.attack_cost_moves == q.attack_cost_moves
        && p.aggression == q.aggression && p.morale == q.morale && p.melee_skill == q.melee_skill && p.dodge
        == q.dodge && p.size == q.size && p.melee_dice == q.melee_dice && p.melee_dice_sides == q.melee_dice_sides
        && p.vision_day == q.vision_day && p.vision_night == q.vision_night;
    let flags = p.can_see == q.can_see && p.stumbles == q.stumbles && p.bashes == q.bashes && p.group_bash
        == q.group_bash && p.hears == q.hears && p.good_hearing == q.good_hearing && p.clumsy_attacks
        == q.clumsy_attacks && p.immobile == q.immobile && p.pacifist == q.pacifist && p.can_open_doors
        == q.can_open_doors && p.path_settings == q.path_settings && p.revives == q.revives;
    texts && numbers && flags
}

pub fn corpses_same(a: &Option<CreatureCorpseSnapshotV1>, b: &Option<CreatureCorpseSnapshotV1>) -> (r: bool)
    ensures
        r == opt_corpse_same(*a, *b),
{
    match (a, b) {
        (None, None) => true,
        (Some(x), Some(y)) => corpse_prototypes_same(&x.prototype, &y.prototype) && x.death_tick == y.death_tick
            && x.revive_special == y.revive_special && x.revivable == y.revivable,
        _ => false,
    }
}

/// Every field of two component items but their nested components.
pub open spec fn component_fields_same(a: ItemComponentSnapshotV1, b: ItemComponentSnapshotV1) -> bool {
    &&& a.type_id@ == b.type_id@
    &&& a.charges == b.charges && a.damage == b.damage && a.raw_damage == b.raw_damage && a.fitted == b.fitted
    &&& opt_variant_same(a.variant, b.variant)
    &&& opt_snippet_same(a.snippet, b.snippet)
    &&& variables_same(a.variables, b.variables)
    &&& a.melee_damage_milli.view_entries() == b.melee_damage_milli.view_entries()
    &&& a.calories == b.calories && a.quench == b.quench
    &&& a.comestible_type@ == b.comestible_type@
    &&& a.temperature == b.temperature
    &&& a.ammunition_type@ == b.ammunition_type@
    &&& opt_ranged_same(a.ranged_weapon, b.ranged_weapon)
    &&& a.count_by_charges == b.count_by_charges && a.recoverable == b.recoverable
    &&& a.magazine_capacity == b.magazine_capacity
    &&& integral_prototypes_same(a.integral_magazines@, b.integral_magazines@)
    &&& well_prototypes_same(a.magazine_wells@, b.magazine_wells@)
    &&& container_prototypes_same(a.ammunition_containers@, b.ammunition_containers@)
    &&& a.residual_energy_millijoules == b.residual_energy_millijoules
    &&& opt_powered_same(a.powered_tool, b.powered_tool)
    &&& profile_same(a.containment, b.containment)
}

/// Two component items agree in every field, nested components included.
pub open spec fn component_same(a: ItemComponentSnapshotV1, b: ItemComponentSnapshotV1) -> bool
    decreases a, 1int, 0int,
{
    &&& component_fields_same(a, b)
    &&& match (a.component_provenance, b.component_provenance) {
        (None, None) => true,
        (Some(x), Some(y)) => x@.len() == y@.len() && provenance_same_upto(a, b, x@.len() as int),
        _ => false,
    }
}

/// The first `k` nested components of both items agree.
pub open spec fn provenance_same_upto(a: ItemComponentSnapshotV1, b: ItemComponentSnapshotV1, k: int) -> bool
    decreases a, 0int, k,
{
    if k <= 0 {
        true
    } else {
        match (a.component_provenance, b.component_provenance) {
            (Some(x), Some(y)) => {
                if k > x@.len() || k > y@.len() {
                    false
                } else {
                    proof {
                        assert(decreases_to!(x => x@));
                    }
                    provenance_same_upto(a, b, k - 1) && component_same(x@[k - 1], y@[k - 1])
                }
            },
            _ => false,
        }
    }
}

fn component_fields_agree(a: &ItemComponentSnapshotV1, b: &ItemComponentSnapshotV1) -> (r: bool)
    ensures
        r == component_fields_same(*a, *b),
{
    let scalars = a.charges == b.charges && a.damage == b.damage && a.raw_damage == b.raw_damage && a.fitted
        == b.fitted && a.calories == b.calories && a.quench == b.quench && a.temperature == b.temperature
        && a.count_by_charges == b.count_by_charges && a.recoverable == b.recoverable && a.magazine_capacity
        == b.magazine_capacity && a.residual_energy_millijoules == b.residual_energy_millijoules;
    let texts = str_eq(a.type_id.as_str(), b.type_id.as_str()) && str_eq(
        a.comestible_type.as_str(),
        b.comestible_type.as_str(),
    ) && str_eq(a.ammunition_type.as_str(), b.ammunition_type.as_str());
    let records = variants_same(&a.variant, &b.variant) && snippets_same(&a.snippet, &b.snippet)
        && variable_maps_same(&a.variables, &b.variables) && melee_maps_same(
        &a.melee_damage_milli,
        &b.melee_damage_milli,
    ) && ranged_same(&a.ranged_weapon, &b.ranged_weapon) && powered_same(&a.powered_tool, &b.powered_tool)
        && profiles_same(&a.containment, &b.containment);
    let pockets = integral_prototype_lists_same(&a.integral_magazines, &b.integral_magazines)
        && well_prototype_lists_same(&a.magazine_wells, &b.magazine_wells) && container_prototype_lists_same(
        &a.ammunition_containers,
        &b.ammunition_containers,
    );
    scalars && texts && records && pockets
}

pub fn components_same(a: &ItemComponentSnapshotV1, b: &ItemComponentSnapshotV1) -> (r: bool)
    ensures
        r == component_same(*a, *b),
    decreases a,
{
    if !component_fields_agree(a, b) {
        return false;
    }
    match (&a.component_provenance, &b.component_provenance) {
        (None, None) => true,
        (Some(x), Some(y)) => {
            if x.len() != y.len() {
                return false;
            }
            let mut i: usize = 0;
            while i < x.len()
                invariant
                    a.component_provenance == Some(*x),
                    b.component_provenance == Some(*y),
                    x@.len() == y@.len(),
                    i <= x@.len(),
                    provenance_same_upto(*a, *b, i as int),
                decreases x.len() - i,
            {
                proof {
                    assert(decreases_to!(a => a.component_provenance));
                    assert(decreases_to!(x => x@));
                }
                if !components_same(&x[i], &y[i]) {
                    proof {
                        if component_same(*a, *b) {
                            lemma_provenance_prefix(*a, *b, i + 1, x@.len() as int);
                        }
                    }
                    return false;
                }
                i = i + 1;
            }
            true
        },
        _ => false,
    }
}

proof fn lemma_provenance_prefix(a: ItemComponentSnapshotV1, b: ItemComponentSnapshotV1, k: int, n: int)
    requires
        0 <= k <= n,
        provenance_same_upto(a, b, n),
    ensures
        provenance_same_upto(a, b, k),
    decreases n - k,
{
    if k < n {
        lemma_provenance_prefix(a, b, k, n - 1);
    }
}

} // verus!
