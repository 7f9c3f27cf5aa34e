//! Whether two loose item stacks may merge into one stack of a pocket: they
//! must count by charges, own no contents, and agree in everything but their
//! stable identity and charge count.

use vstd::prelude::*;

use crate::disassembly::ItemComponentSnapshotV1;
use crate::item_sameness::{
    capacities_same, capacity_lists_same, component_same, components_same, corpses_same, melee_maps_same,
    opt_corpse_same, opt_powered_same, opt_ranged_same, opt_snippet_same, opt_state_same, opt_variant_same,
    powered_same, profile_same, profiles_same, provenance_same_upto, ranged_same, snippets_same,
    spawn_states_same, strings_same, variable_maps_same, variables_same, variants_same,
};
use crate::item_snapshots::{
    holds_nothing, item_snapshot_has_no_contained_items, AmmunitionContainerPocketSnapshotV1,
    IntegralMagazinePocketSnapshotV1, ItemSnapshot, MagazineWellSnapshotV1,
};
use crate::text::{str_eq, string_views};

verus! {

/// Integral magazine pockets agree field by field; loaded stacks are compared as values.
pub open spec fn integral_pocket_same(x: IntegralMagazinePocketSnapshotV1, y: IntegralMagazinePocketSnapshotV1) -> bool {
    &&& x.pocket_index == y.pocket_index
    &&& x.pocket_id@ == y.pocket_id@
    &&& x.ammunition_type@ == y.ammunition_type@
    &&& x.capacity == y.capacity
    &&& x.rigid == y.rigid
    &&& x.reloadable == y.reloadable
    &&& x.unloadable == y.unloadable
    &&& x.loaded_ammunition == y.loaded_ammunition
    &&& x.residual_energy_millijoules == y.residual_energy_millijoules
}

/// Magazine wells agree field by field; installed magazines are compared as values.
pub open spec fn well_pocket_same(x: MagazineWellSnapshotV1, y: MagazineWellSnapshotV1) -> bool {
    &&& x.pocket_index == y.pocket_index
    &&& x.pocket_id@ == y.pocket_id@
    &&& string_views(x.compatible_magazine_type_ids@) == string_views(y.compatible_magazine_type_ids@)
    &&& x.rigid == y.rigid
    &&& x.unloadable == y.unloadable
    &&& x.installed_magazine == y.installed_magazine
}

/// Ammunition containers agree field by field; contents are compared as values.
pub open spec fn container_pocket_same(
    x: AmmunitionContainerPocketSnapshotV1,
    y: AmmunitionContainerPocketSnapshotV1,
) -> bool {
    &&& x.pocket_index == y.pocket_index
    &&& x.pocket_id@ == y.pocket_id@
    &&& capacities_same(x.capacities@, y.capacities@)
    &&& x.rigid == y.rigid
    &&& x.access_moves == y.access_moves
    &&& x.reloadable == y.reloadable
    &&& x.unloadable == y.unloadable
    &&& x.contents@ == y.contents@
    &&& opt_state_same(x.spawn_state, y.spawn_state)
}

/// Two recorded component lists agree entry by entry (or both are absent).
pub open spec fn provenances_same(
    a: Option<Vec<ItemComponentSnapshotV1>>,
    b: Option<Vec<ItemComponentSnapshotV1>>,
) -> bool {
    match (a, b) {
        (None, None) => true,
        (Some(x), Some(y)) => x@.len() == y@.len() && forall|i: int|
            0 <= i < x@.len() ==> component_same(#[trigger] x@[i], y@[i]),
        _ => false,
    }
}

/// Two items agree in every field but `id` and `charges`.
pub open spec fn same_except_id_and_charges(l: ItemSnapshot, r: ItemSnapshot) -> bool {
    &&& l.type_id@ == r.type_id@
    &&& l.damage == r.damage
    &&& l.raw_damage == r.raw_damage
    &&& l.fitted == r.fitted
    &&& opt_variant_same(l.variant, r.variant)
    &&& opt_snippet_same(l.snippet, r.snippet)
    &&& variables_same(l.variables, r.variables)
    &&& l.melee_damage_milli.view_entries() == r.melee_damage_milli.view_entries()
    &&& l.calories == r.calories
    &&& l.quench == r.quench
    &&& l.comestible_type@ == r.comestible_type@
    &&& l.temperature == r.temperature
    &&& l.ammunition_type@ == r.ammunition_type@
    &&& opt_ranged_same(l.ranged_weapon, r.ranged_weapon)
    &&& provenances_same(l.component_provenance, r.component_provenance)
    &&& l.magazine_capacity == r.magazine_capacity
    &&& l.integral_magazines@.len() == r.integral_magazines@.len()
    &&& forall|i: int|
        0 <= i < l.integral_magazines@.len() ==> integral_pocket_same(
            #[trigger] l.integral_magazines@[i],
            r.integral_magazines@[i],
        )
    &&& l.magazine_wells@.len() == r.magazine_wells@.len()
    &&& forall|i: int|
        0 <= i < l.magazine_wells@.len() ==> well_pocket_same(#[trigger] l.magazine_wells@[i], r.magazine_wells@[i])
    &&& l.ammunition_containers@.len() == r.ammunition_containers@.len()
    &&& forall|i: int|
        0 <= i < l.ammunition_containers@.len() ==> container_pocket_same(
            #[trigger] l.ammunition_containers@[i],
            r.ammunition_containers@[i],
        )
    &&& l.residual_energy_millijoules == r.residual_energy_millijoules
    &&& opt_powered_same(l.powered_tool, r.powered_tool)
    &&& opt_corpse_same(l.creature_corpse, r.creature_corpse)
    &&& profile_same(l.containment, r.containment)
}

/// Two stacks merge into one pocket stack.
pub open spec fn can_combine(l: ItemSnapshot, r: ItemSnapshot) -> bool {
    &&& l.containment.count_by_charges
    &&& r.containment.count_by_charges
    &&& holds_nothing(l)
    &&& holds_nothing(r)
    &&& same_except_id_and_charges(l, r)
}

fn provenance_lists_same(a: &Option<Vec<ItemComponentSnapshotV1>>, b: &Option<Vec<ItemComponentSnapshotV1>>) -> (r:
    bool)
    ensures
        r == provenances_same(*a, *b),
{
    match (a, b) {
        (None, None) => true,
        (Some(x), Some(y)) => {
            if x.len() != y.len() {
                return false;
            }
            let mut i: usize = 0;
            while i < x.len()
                invariant
                    x@.len() == y@.len(),
                    i <= x@.len(),
                    forall|j: int| 0 <= j < i ==> component_same(#[trigger] x@[j], y@[j]),
                decreases x.len() - i,
            {
                if !components_same(&x[i], &y[i]) {
                    return false;
                }
                i = i + 1;
            }
            true
        },
        _ => false,
    }
}

fn integral_pockets_same(a: &Vec<IntegralMagazinePocketSnapshotV1>, b: &Vec<IntegralMagazinePocketSnapshotV1>) -> (r:
    bool)
    requires
        forall|i: int| 0 <= i < a@.len() ==> (#[trigger] a@[i]).loaded_ammunition is None,
        forall|i: int| 0 <= i < b@.len() ==> (#[trigger] b@[i]).loaded_ammunition is None,
    ensures
        r == (a@.len() == b@.len() && forall|i: int| 0 <= i < a@.len() ==> integral_pocket_same(#[trigger] a@[i], b@[i])),
{
    if a.len() != b.len() {
        return false;
    }
    let mut i: usize = 0;
    while i < a.len()
        invariant
            a@.len() == b@.len(),
            i <= a@.len(),
            forall|j: int| 0 <= j < a@.len() ==> (#[trigger] a@[j]).loaded_ammunition is None,
            forall|j: int| 0 <= j < b@.len() ==> (#[trigger] b@[j]).loaded_ammunition is None,
            forall|j: int| 0 <= j < i ==> integral_pocket_same(#[trigger] a@[j], b@[j]),
        decreases a.len() - i,
    {
        let (x, y) = (&a[i], &b[i]);
        if !(x.pocket_index == y.pocket_index && str_eq(x.pocket_id.as_str(), y.pocket_id.as_str()) && str_eq(
            x.ammunition_type.as_str(),
            y.ammunition_type.as_str(),
        ) && x.capacity == y.capacity && x.rigid == y.rigid && x.reloadable == y.reloadable && x.unloadable
            == y.unloadable && x.residual_energy_millijoules == y.residual_energy_millijoules) {
            return false;
        }
        i = i + 1;
    }
    true
}

fn well_pockets_same(a: &Vec<MagazineWellSnapshotV1>, b: &Vec<MagazineWellSnapshotV1>) -> (r: bool)
    requires
        forall|i: int| 0 <= i < a@.len() ==> (#[trigger] a@[i]).installed_magazine is None,
        forall|i: int| 0 <= i < b@.len() ==> (#[trigger] b@[i]).installed_magazine is None,
    ensures
        r == (a@.len() == b@.len() && forall|i: int| 0 <= i < a@.len() ==> well_pocket_same(#[trigger] a@[i], b@[i])),
{
    if a.len() != b.len() {
        return false;
    }
    let mut i: usize = 0;
    while i < a.len()
        invariant
            a@.len() == b@.len(),
            i <= a@.len(),
            forall|j: int| 0 <= j < a@.len() ==> (#[trigger] a@[j]).installed_magazine is None,
            forall|j: int| 0 <= j < b@.len() ==> (#[trigger] b@[j]).installed_magazine is None,
            forall|j: int| 0 <= j < i ==> well_pocket_same(#[trigger] a@[j], b@[j]),
        decreases a.len() - i,
    {
        let (x, y) = (&a[i], &b[i]);
        if !(x.pocket_index == y.pocket_index && str_eq(x.pocket_id.as_str(), y.pocket_id.as_str())
            && strings_same(&x.compatible_magazine_type_ids, &y.compatible_magazine_type_ids) && x.rigid == y.rigid
            && x.unloadable == y.unloadable) {
            return false;
        }
        i = i + 1;
    }
    true
}

fn container_pockets_same(a: &Vec<AmmunitionContainerPocketSnapshotV1>, b: &Vec<AmmunitionContainerPocketSnapshotV1>) -> (r:
    bool)
    requires
        forall|i: int| 0 <= i < a@.len() ==> (#[trigger] a@[i]).contents@.len() == 0,
        forall|i: int| 0 <= i < b@.len() ==> (#[trigger] b@[i]).contents@.len() == 0,
    ensures
        r == (a@.len() == b@.len() && forall|i: int|
            0 <= i < a@.len() ==> container_pocket_same(#[trigger] a@[i], b@[i])),
{
    if a.len() != b.len() {
        return false;
    }
    let mut i: usize = 0;
    while i < a.len()
        invariant
            a@.len() == b@.len(),
            i <= a@.len(),
            forall|j: int| 0 <= j < a@.len() ==> (#[trigger] a@[j]).contents@.len() == 0,
            forall|j: int| 0 <= j < b@.len() ==> (#[trigger] b@[j]).contents@.len() == 0,
            forall|j: int| 0 <= j < i ==> container_pocket_same(#[trigger] a@[j], b@[j]),
        decreases a.len() - i,
    {
        let (x, y) = (&a[i], &b[i]);
        assert(x.contents@ =~= y.contents@);
        if !(x.pocket_index == y.pocket_index && str_eq(x.pocket_id.as_str(), y.pocket_id.as_str())
            && capacity_lists_same(&x.capacities, &y.capacities) && x.rigid == y.rigid && x.access_moves
            == y.access_moves && x.reloadable == y.reloadable && x.unloadable == y.unloadable && spawn_states_same(
            &x.spawn_state,
            &y.spawn_state,
        )) {
            return false;
        }
        i = i + 1;
    }
    true
}

/// Whether two loose stacks may be merged into one stack of a pocket: both
/// count by charges, neither owns contents, and every property but the
/// stable identity and the charge count matches.
pub fn item_snapshots_can_combine_for_containment(left: &ItemSnapshot, right: &ItemSnapshot) -> (r: bool)
    ensures
        r == can_combine(*left, *right),
{
    if !left.containment.count_by_charges || !right.containment.count_by_charges
        || !item_snapshot_has_no_contained_items(left) || !item_snapshot_has_no_contained_items(right) {
        return false;
    }
    let scalars = left.damage == right.damage && left.raw_damage == right.raw_damage && left.fitted == right.fitted
        && left.calories == right.calories && left.quench == right.quench && left.temperature == right.temperature
        && left.magazine_capacity == right.magazine_capacity && left.residual_energy_millijoules
        == right.residual_energy_millijoules;
    let texts = str_eq(left.type_id.as_str(), right.type_id.as_str()) && str_eq(
        left.comestible_type.as_str(),
        right.comestible_type.as_str(),
    ) && str_eq(left.ammunition_type.as_str(), right.ammunition_type.as_str());
    let records = variants_same(&left.variant, &right.variant) && snippets_same(&left.snippet, &right.snippet)
        && variable_maps_same(&left.variables, &right.variables) && melee_maps_same(
        &left.melee_damage_milli,
        &right.melee_damage_milli,
    ) && ranged_same(&left.ranged_weapon, &right.ranged_weapon) && powered_same(
        &left.powered_tool,
        &right.powered_tool,
    ) && corpses_same(&left.creature_corpse, &right.creature_corpse) && profiles_same(
        &left.containment,
        &right.containment,
    ) && provenance_lists_same(&left.component_provenance, &right.component_provenance);
    let pockets = integral_pockets_same(&left.integral_magazines, &right.integral_magazines) && well_pockets_same(
        &left.magazine_wells,
        &right.magazine_wells,
    ) && container_pockets_same(&left.ammunition_containers, &right.ammunition_containers);
    scalars && texts && records && pockets
}

proof fn lemma_component_same_symmetric(a: ItemComponentSnapshotV1, b: ItemComponentSnapshotV1)
    ensures
        component_same(a, b) == component_same(b, a),
    decreases a, 1int, 0int,
{
    match (a.component_provenance, b.component_provenance) {
        (Some(x), Some(y)) => {
            if x@.len() == y@.len() {
                lemma_provenance_upto_symmetric(a, b, x@.len() as int);
            }
        },
        _ => {},
    }
}

proof fn lemma_provenance_upto_symmetric(a: ItemComponentSnapshotV1, b: ItemComponentSnapshotV1, k: int)
    ensures
        provenance_same_upto(a, b, k) == provenance_same_upto(b, a, k),
    decreases a, 0int, k,
{
    if k > 0 {
        match (a.component_provenance, b.component_provenance) {
            (Some(x), Some(y)) => {
                if k <= x@.len() && k <= y@.len() {
                    assert(decreases_to!(x => x@));
                    lemma_provenance_upto_symmetric(a, b, k - 1);
                    lemma_component_same_symmetric(x@[k - 1], y@[k - 1]);
                }
            },
            _ => {},
        }
    }
}

/// Merging is symmetric: whether `left` may join `right` does not depend on
/// which of the two is named first.
pub proof fn law_can_combine_is_symmetric(left: ItemSnapshot, right: ItemSnapshot)
    ensures
        can_combine(left, right) == can_combine(right, left),
{
    match (left.component_provenance, right.component_provenance) {
        (Some(x), Some(y)) => {
            assert forall|i: int| 0 <= i < x@.len() && x@.len() == y@.len() implies component_same(
                #[trigger] x@[i],
                y@[i],
            ) == component_same(y@[i], x@[i]) by {
                lemma_component_same_symmetric(x@[i], y@[i]);
            }
        },
        _ => {},
    }
}

proof fn lemma_component_same_reflexive(a: ItemComponentSnapshotV1)
    ensures
        component_same(a, a),
    decreases a, 1int, 0int,
{
    if let Some(x) = a.component_provenance {
        lemma_provenance_upto_reflexive(a, x@.len() as int);
    }
}

proof fn lemma_provenance_upto_reflexive(a: ItemComponentSnapshotV1, k: int)
    requires
        k <= 0 || (a.component_provenance matches Some(x) && k <= x@.len()),
    ensures
        provenance_same_upto(a, a, k),
    decreases a, 0int, k,
{
    if k > 0 {
        if let Some(x) = a.component_provenance {
            assert(decreases_to!(x => x@));
            lemma_provenance_upto_reflexive(a, k - 1);
            lemma_component_same_reflexive(x@[k - 1]);
        }
    }
}

/// Two stacks that are equal once their identities and charge counts are
/// set equal agree in every field but the identity and the charge count; so
/// such stacks merge exactly when both count by charges and hold nothing.
pub proof fn law_equal_stacks_are_the_same(left: ItemSnapshot, right: ItemSnapshot)
    requires
        (ItemSnapshot { id: right.id, charges: right.charges, ..left }) == right,
    ensures
        same_except_id_and_charges(left, right),
        can_combine(left, right) == (left.containment.count_by_charges && holds_nothing(left)),
{
    if let Some(x) = left.component_provenance {
        assert forall|i: int| 0 <= i < x@.len() implies component_same(#[trigger] x@[i], x@[i]) by {
            lemma_component_same_reflexive(x@[i]);
        }
    }
    assert(left.component_provenance == right.component_provenance);
}

/// Two stacks that merge are both counted by charges, both hold nothing,
/// and agree in every property but their identities and charge counts:
/// plain values are equal and texts have equal characters, field by field,
/// down to their pockets, weapon, power, corpse and recorded components.
pub proof fn law_merging_stacks_agree_but_for_id_and_charges(l: ItemSnapshot, r: ItemSnapshot)
    requires
        can_combine(l, r),
    ensures
        l.containment.count_by_charges && r.containment.count_by_charges,
        forall|i: int| 0 <= i < l.integral_magazines@.len() ==> (#[trigger] l.integral_magazines@[i]).loaded_ammunition is None,
        forall|i: int| 0 <= i < r.integral_magazines@.len() ==> (#[trigger] r.integral_magazines@[i]).loaded_ammunition is None,
        forall|i: int| 0 <= i < l.magazine_wells@.len() ==> (#[trigger] l.magazine_wells@[i]).installed_magazine is None,
        forall|i: int| 0 <= i < r.magazine_wells@.len() ==> (#[trigger] r.magazine_wells@[i]).installed_magazine is None,
        forall|i: int| 0 <= i < l.ammunition_containers@.len() ==> (#[trigger] l.ammunition_containers@[i]).contents@.len() == 0,
        forall|i: int| 0 <= i < r.ammunition_containers@.len() ==> (#[trigger] r.ammunition_containers@[i]).contents@.len() == 0,
        l.type_id@ == r.type_id@,
        l.damage == r.damage,
        l.raw_damage == r.raw_damage,
        l.fitted == r.fitted,
        l.variant is Some == r.variant is Some,
        l.variant matches Some(x) ==> (r.variant matches Some(y) && x.id@ == y.id@ && x.name@ == y.name@
            && x.description@ == y.description@ && x.symbol@ == y.symbol@ && x.color@ == y.color@ && x.ascii_picture@
            == y.ascii_picture@),
        l.snippet is Some == r.snippet is Some,
        l.snippet matches Some(x) ==> (r.snippet matches Some(y) && x.id@ == y.id@ && x.text@ == y.text@),
        l.variables.view_entries().len() == r.variables.view_entries().len(),
        forall|i: int|
            0 <= i < l.variables.view_entries().len() ==> (#[trigger] l.variables.view_entries()[i]).0
                == r.variables.view_entries()[i].0,
        l.melee_damage_milli.view_entries() == r.melee_damage_milli.view_entries(),
        l.calories == r.calories,
        l.quench == r.quench,
        l.comestible_type@ == r.comestible_type@,
        l.temperature == r.temperature,
        l.ammunition_type@ == r.ammunition_type@,
        l.ranged_weapon is Some == r.ranged_weapon is Some,
        l.ranged_weapon matches Some(x) ==> (r.ranged_weapon matches Some(y) && x.ammunition_type@ == y.ammunition_type@
            && x.ammunition_remaining == y.ammunition_remaining && x.ammunition_capacity == y.ammunition_capacity
            && x.range == y.range && x.damage == y.damage && x.dispersion == y.dispersion && x.sound_volume
            == y.sound_volume),
        l.component_provenance is Some == r.component_provenance is Some,
        l.component_provenance matches Some(x) ==> (r.component_provenance matches Some(y) && x@.len() == y@.len()
            && forall|i: int| 0 <= i < x@.len() ==> (#[trigger] x@[i]).type_id@ == y@[i].type_id@ && x@[i].charges
            == y@[i].charges),
        l.magazine_capacity == r.magazine_capacity,
        l.integral_magazines@.len() == r.integral_magazines@.len(),
        forall|i: int|
            0 <= i < l.integral_magazines@.len() ==> (#[trigger] l.integral_magazines@[i]).pocket_index
                == r.integral_magazines@[i].pocket_index && l.integral_magazines@[i].pocket_id@
                == r.integral_magazines@[i].pocket_id@ && l.integral_magazines@[i].capacity
                == r.integral_magazines@[i].capacity,
        l.magazine_wells@.len() == r.magazine_wells@.len(),
        forall|i: int|
            0 <= i < l.magazine_wells@.len() ==> (#[trigger] l.magazine_wells@[i]).pocket_index
                == r.magazine_wells@[i].pocket_index && l.magazine_wells@[i].pocket_id@ == r.magazine_wells@[i].pocket_id@,
        l.ammunition_containers@.len() == r.ammunition_containers@.len(),
        forall|i: int|
            0 <= i < l.ammunition_containers@.len() ==> (#[trigger] l.ammunition_containers@[i]).pocket_index
                == r.ammunition_containers@[i].pocket_index && l.ammunition_containers@[i].pocket_id@
                == r.ammunition_containers@[i].pocket_id@ && l.ammunition_containers@[i].access_moves
                == r.ammunition_containers@[i].access_moves,
        l.residual_energy_millijoules == r.residual_energy_millijoules,
        l.powered_tool is Some == r.powered_tool is Some,
        l.powered_tool matches Some(x) ==> (r.powered_tool matches Some(y) && x.inactive_type_id@ == y.inactive_type_id@
            && x.active_type_id@ == y.active_type_id@ && x.activation_charges == y.activation_charges
            && x.power_draw_milliwatts == y.power_draw_milliwatts && x.power_pocket_index == y.power_pocket_index
            && x.active == y.active),
        l.creature_corpse is Some == r.creature_corpse is Some,
        l.creature_corpse matches Some(x) ==> (r.creature_corpse matches Some(y) && x.death_tick == y.death_tick
            && x.revivable == y.revivable && x.revive_special == y.revive_special && x.prototype.monster_type_id@
            == y.prototype.monster_type_id@),
        l.containment.weight_milligrams == r.containment.weight_milligrams,
        l.containment.volume_milliliters == r.containment.volume_milliliters,
        l.containment.longest_side_millimeters == r.containment.longest_side_millimeters,
        crate::text::string_views(l.containment.flags@) == crate::text::string_views(r.containment.flags@),
        l.containment.estorable == r.containment.estorable,
        l.containment.phase == r.containment.phase,
        l.containment.stack_size == r.containment.stack_size,
{
    if let Some(x) = l.component_provenance {
        if let Some(y) = r.component_provenance {
            assert forall|i: int| 0 <= i < x@.len() implies (#[trigger] x@[i]).type_id@ == y@[i].type_id@
                && x@[i].charges == y@[i].charges by {
                assert(component_same(x@[i], y@[i]));
            }
        }
    }
    assert forall|i: int| 0 <= i < l.variables.view_entries().len() implies (#[trigger] l.variables.view_entries()[i]).0
        == r.variables.view_entries()[i].0 by {
    }
}

} // verus!
