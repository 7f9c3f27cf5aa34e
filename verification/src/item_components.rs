//! Validity of the component items a crafted result keeps, nested up to a
//! bounded depth and within a bounded total count.

use vstd::prelude::*;

use crate::disassembly::ItemComponentSnapshotV1;
use crate::item_groups::{
    fit_state_is_valid, item_snippet_is_valid, item_variant_is_valid, snippet_is_valid, temperature_state_is_valid,
    valid_item_fit_state, valid_item_temperature_state, valid_item_variables, variables_are_valid, variant_is_valid,
};
use crate::item_sameness::{
    container_prototype_lists_same, container_prototypes_same, integral_prototype_lists_same, integral_prototypes_same,
    melee_maps_same, opt_powered_same, opt_ranged_same, powered_same, profile_same, profiles_same, ranged_same,
    well_prototype_lists_same, well_prototypes_same,
};
use crate::items::{damage_level_of, item_damage_level, MAX_ITEM_DAMAGE_LEVEL, MAX_ITEM_RAW_DAMAGE};
use crate::prototypes::{
    containment_profile_ok, melee_damage_is_ok, melee_damage_ok, plain_text, plain_text_ok, pocket_lists_are_ok, pocket_lists_ok, powered_tool_ok,
    ranged_weapon_ok, valid_item_containment_profile, valid_powered_tool_state, CraftItemPrototypeV1,
    MAX_ITEM_COMPONENTS, MAX_ITEM_COMPONENT_DEPTH, MILLIJOULES_PER_BATTERY_CHARGE,
};
use crate::text::str_eq;

verus! {

/// The rules one component item keeps on its own, apart from the items
/// nested in it: a bounded type identifier, a damage level derived from the
/// raw damage, valid fit, variant, snippet, variables, containment profile
/// and temperature, consistent charges, ammunition, magazine and residual
/// energy, a valid ranged weapon, valid pockets and a consistent powered-tool
/// state.
pub open spec fn component_fields_ok(c: ItemComponentSnapshotV1) -> bool {
    let no_pockets = c.integral_magazines@.len() == 0 && c.magazine_wells@.len() == 0
        && c.ammunition_containers@.len() == 0;
    &&& c.type_id@.len() > 0
    &&& plain_text(c.type_id@, 512)
    &&& c.damage <= MAX_ITEM_DAMAGE_LEVEL
    &&& c.raw_damage <= MAX_ITEM_RAW_DAMAGE
    &&& c.damage == damage_level_of(c.raw_damage)
    &&& fit_state_is_valid(c.fitted, c.containment)
    &&& (c.variant matches Some(v) ==> variant_is_valid(v))
    &&& (c.snippet matches Some(s) ==> snippet_is_valid(s))
    &&& variables_are_valid(c.variables)
    &&& containment_profile_ok(c.containment)
    &&& c.count_by_charges == c.containment.count_by_charges
    &&& (!c.count_by_charges || c.charges > 0)
    &&& melee_damage_ok(c.melee_damage_milli)
    &&& plain_text(c.comestible_type@, 32)
    &&& (c.comestible_type@.len() == 0 || c.charges > 0)
    &&& (c.temperature matches Some(t) ==> temperature_state_is_valid(t) && t.current_phase == c.containment.phase)
    &&& plain_text(c.ammunition_type@, 64)
    &&& (c.ammunition_type@.len() == 0 || c.charges > 0 || (c.magazine_capacity > 0 && c.charges >= 0))
    &&& (c.magazine_capacity == 0 || (c.charges >= 0 && c.charges <= c.magazine_capacity && c.ammunition_type@.len()
        > 0 && c.ranged_weapon is None && no_pockets))
    &&& (c.residual_energy_millijoules == 0 || (c.magazine_capacity > 0 && c.charges >= 0 && c.charges
        < c.magazine_capacity && c.residual_energy_millijoules < MILLIJOULES_PER_BATTERY_CHARGE))
    &&& (c.ranged_weapon matches Some(w) ==> ranged_weapon_ok(w))
    &&& pocket_lists_ok(c.integral_magazines@, c.magazine_wells@, c.ammunition_containers@)
    &&& (c.powered_tool matches Some(p) ==> {
        &&& exists|i: int|
            0 <= i < c.magazine_wells@.len() && (#[trigger] c.magazine_wells@[i]).pocket_index == p.power_pocket_index
        &&& c.residual_energy_millijoules == 0
        &&& powered_tool_ok(c.type_id@, p)
    })
}

/// Checking a component at nesting `depth` with `remaining` components left
/// in the budget: `None` when it is invalid, else the budget left afterwards.
/// Each component checked spends one unit, and nesting beyond the depth
/// limit, more than the per-item component count, or an exhausted budget is
/// invalid.
pub open spec fn component_check(c: ItemComponentSnapshotV1, depth: nat, remaining: nat) -> Option<nat>
    decreases c, 1int, 0int,
{
    if depth > MAX_ITEM_COMPONENT_DEPTH || remaining == 0 || !component_fields_ok(c) {
        None
    } else {
        match c.component_provenance {
            None => Some((remaining - 1) as nat),
            Some(children) => if children@.len() > MAX_ITEM_COMPONENTS {
                None
            } else {
                children_check(c, children@.len() as int, depth + 1, (remaining - 1) as nat)
            },
        }
    }
}

/// Checking the first `k` nested components of `c`, in order, each at
/// `depth`, starting from a budget of `remaining`.
pub open spec fn children_check(c: ItemComponentSnapshotV1, k: int, depth: nat, remaining: nat) -> Option<nat>
    decreases c, 0int, k,
{
    if k <= 0 {
        Some(remaining)
    } else {
        match c.component_provenance {
            Some(children) => {
                if k > children@.len() {
                    None
                } else {
                    proof {
                        assert(decreases_to!(children => children@));
                    }
                    match children_check(c, k - 1, depth, remaining) {
                        None => None,
                        Some(r) => component_check(children@[k - 1], depth, r),
                    }
                }
            },
            None => None,
        }
    }
}

/// A root component: checked at depth one against the full component budget.
pub open spec fn root_component_ok(c: ItemComponentSnapshotV1) -> bool {
    component_check(c, 1, MAX_ITEM_COMPONENTS as nat) is Some
}

proof fn lemma_children_failure_stays(c: ItemComponentSnapshotV1, k: int, n: int, depth: nat, remaining: nat)
    requires
        0 <= k <= n,
        c.component_provenance matches Some(children) && n <= children@.len(),
        children_check(c, k, depth, remaining) is None,
    ensures
        children_check(c, n, depth, remaining) is None,
    decreases n - k,
{
    if k < n {
        lemma_children_failure_stays(c, k, n - 1, depth, remaining);
    }
}

fn component_fields_valid(c: &ItemComponentSnapshotV1) -> (r: bool)
    ensures
        r == component_fields_ok(*c),
{
    if c.type_id.as_str().is_empty() || !plain_text_ok(c.type_id.as_str(), 512) || c.damage > MAX_ITEM_DAMAGE_LEVEL
        || c.raw_damage > MAX_ITEM_RAW_DAMAGE {
        return false;
    }
    if c.damage != item_damage_level(c.raw_damage) {
        return false;
    }
    let variant_ok = match &c.variant {
        Some(v) => item_variant_is_valid(v),
        None => true,
    };
    let snippet_ok = match &c.snippet {
        Some(s) => item_snippet_is_valid(s),
        None => true,
    };
    let temperature_ok = match &c.temperature {
        Some(t) => valid_item_temperature_state(t) && t.current_phase == c.containment.phase,
        None => true,
    };
    let no_pockets = c.integral_magazines.len() == 0 && c.magazine_wells.len() == 0 && c.ammunition_containers.len()
        == 0;
    let ammo_empty = c.ammunition_type.as_str().is_empty();
    let charges_ok = c.count_by_charges == c.containment.count_by_charges && (!c.count_by_charges || c.charges > 0)
        && plain_text_ok(c.comestible_type.as_str(), 32) && (c.comestible_type.as_str().is_empty() || c.charges > 0)
        && plain_text_ok(c.ammunition_type.as_str(), 64) && (ammo_empty || c.charges > 0 || (c.magazine_capacity > 0
        && c.charges >= 0)) && (c.magazine_capacity == 0 || (c.charges >= 0 && (c.charges as u32)
        <= c.magazine_capacity && !ammo_empty && c.ranged_weapon.is_none() && no_pockets)) && (
    c.residual_energy_millijoules == 0 || (c.magazine_capacity > 0 && c.charges >= 0 && (c.charges as u32)
        < c.magazine_capacity && c.residual_energy_millijoules < MILLIJOULES_PER_BATTERY_CHARGE));
    let weapon_ok = match &c.ranged_weapon {
        Some(w) => !w.ammunition_type.as_str().is_empty() && plain_text_ok(w.ammunition_type.as_str(), 64)
            && w.ammunition_capacity > 0 && w.ammunition_remaining <= w.ammunition_capacity && w.range > 0 && w.damage
            > 0,
        None => true,
    };
    let powered_ok = match &c.powered_tool {
        None => true,
        Some(p) => {
            let mut found = false;
            let mut i: usize = 0;
            while i < c.magazine_wells.len()
                invariant
                    i <= c.magazine_wells@.len(),
                    found == exists|j: int|
                        0 <= j < i && (#[trigger] c.magazine_wells@[j]).pocket_index == p.power_pocket_index,
                decreases c.magazine_wells.len() - i,
            {
                if c.magazine_wells[i].pocket_index == p.power_pocket_index {
                    found = true;
                }
                i = i + 1;
            }
            found && c.residual_energy_millijoules == 0 && valid_powered_tool_state(c.type_id.as_str(), p)
        },
    };
    valid_item_fit_state(c.fitted, &c.containment) && variant_ok && snippet_ok && valid_item_variables(&c.variables)
        && valid_item_containment_profile(&c.containment) && charges_ok && melee_damage_is_ok(&c.melee_damage_milli) && temperature_ok && weapon_ok && pocket_lists_are_ok(
        &c.integral_magazines,
        &c.magazine_wells,
        &c.ammunition_containers,
    ) && powered_ok
}

/// Whether a component and everything nested in it is valid at `depth`,
/// spending one unit of `remaining` per component checked. On success the
/// budget left is the one the check leaves.
pub fn valid_item_component(component: &ItemComponentSnapshotV1, depth: usize, remaining: &mut usize) -> (r: bool)
    ensures
        r == (component_check(*component, depth as nat, *old(remaining) as nat) is Some),
        r ==> *final(remaining) == component_check(*component, depth as nat, *old(remaining) as nat).unwrap(),
    decreases component,
{
    if depth > MAX_ITEM_COMPONENT_DEPTH || *remaining == 0 {
        return false;
    }
    *remaining = *remaining - 1;
    if !component_fields_valid(component) {
        return false;
    }
    match &component.component_provenance {
        None => true,
        Some(children) => {
            if children.len() > MAX_ITEM_COMPONENTS {
                return false;
            }
            let ghost start: nat = *remaining as nat;
            let mut i: usize = 0;
            while i < children.len()
                invariant
                    component.component_provenance == Some(*children),
                    i <= children@.len(),
                    depth <= MAX_ITEM_COMPONENT_DEPTH,
                    children_check(*component, i as int, (depth + 1) as nat, start) == Some(*remaining as nat),
                decreases children.len() - i,
            {
                proof {
                    assert(decreases_to!(component => component.component_provenance));
                    assert(decreases_to!(children => children@));
                }
                if !valid_item_component(&children[i], depth + 1, remaining) {
                    proof {
                        lemma_children_failure_stays(
                            *component,
                            i + 1,
                            children@.len() as int,
                            (depth + 1) as nat,
                            start,
                        );
                    }
                    return false;
                }
                i = i + 1;
            }
            true
        },
    }
}

/// Whether a root component is valid: checked at depth one against the full
/// component budget.
pub fn valid_item_component_root(component: &ItemComponentSnapshotV1) -> (r: bool)
    ensures
        r == root_component_ok(*component),
{
    let mut remaining: usize = MAX_ITEM_COMPONENTS;
    valid_item_component(component, 1, &mut remaining)
}

/// Checking the first `k` components of a list, in order, each at `depth`,
/// starting from a budget of `remaining`.
pub open spec fn list_check(cs: Seq<ItemComponentSnapshotV1>, k: int, depth: nat, remaining: nat) -> Option<nat>
    decreases k,
{
    if k <= 0 || k > cs.len() {
        if k <= 0 { Some(remaining) } else { None }
    } else {
        match list_check(cs, k - 1, depth, remaining) {
            None => None,
            Some(r) => component_check(cs[k - 1], depth, r),
        }
    }
}

/// A crafted item's recorded components: absent, or at most the component
/// limit, all valid at depth one against one shared budget.
pub open spec fn provenance_ok(provenance: Option<Vec<ItemComponentSnapshotV1>>) -> bool {
    match provenance {
        None => true,
        Some(cs) => cs@.len() <= MAX_ITEM_COMPONENTS && list_check(cs@, cs@.len() as int, 1, MAX_ITEM_COMPONENTS as nat)
            is Some,
    }
}

proof fn lemma_list_failure_stays(cs: Seq<ItemComponentSnapshotV1>, k: int, n: int, depth: nat, remaining: nat)
    requires
        0 <= k <= n <= cs.len(),
        list_check(cs, k, depth, remaining) is None,
    ensures
        list_check(cs, n, depth, remaining) is None,
    decreases n - k,
{
    if k < n {
        lemma_list_failure_stays(cs, k, n - 1, depth, remaining);
    }
}

/// Whether a crafted item's recorded components are valid.
pub fn valid_component_provenance(provenance: &Option<Vec<ItemComponentSnapshotV1>>) -> (r: bool)
    ensures
        r == provenance_ok(*provenance),
{
    match provenance {
        None => true,
        Some(components) => {
            if components.len() > MAX_ITEM_COMPONENTS {
                return false;
            }
            let mut remaining: usize = MAX_ITEM_COMPONENTS;
            let mut i: usize = 0;
            while i < components.len()
                invariant
                    i <= components@.len(),
                    list_check(components@, i as int, 1, MAX_ITEM_COMPONENTS as nat) == Some(remaining as nat),
                decreases components.len() - i,
            {
                if !valid_item_component(&components[i], 1, &mut remaining) {
                    proof {
                        lemma_list_failure_stays(
                            components@,
                            i + 1,
                            components@.len() as int,
                            1,
                            MAX_ITEM_COMPONENTS as nat,
                        );
                    }
                    return false;
                }
                i = i + 1;
            }
            true
        },
    }
}

/// A recorded component state is what the prototype would construct: the
/// same type, charges, food values, temperature phase, ammunition, weapon,
/// magazine, pockets, residual energy, powered-tool state and containment.
pub open spec fn state_matches_prototype(s: ItemComponentSnapshotV1, p: CraftItemPrototypeV1) -> bool {
    &&& s.type_id@ == p.type_id@
    &&& s.charges == p.charges
    &&& s.melee_damage_milli.view_entries() == p.melee_damage_milli.view_entries()
    &&& s.calories == p.calories
    &&& s.quench == p.quench
    &&& s.comestible_type@ == p.comestible_type@
    &&& match s.temperature {
        Some(t) => p.tracks_temperature && t.current_phase == p.containment.phase,
        None => !p.tracks_temperature,
    }
    &&& s.ammunition_type@ == p.ammunition_type@
    &&& opt_ranged_same(s.ranged_weapon, p.ranged_weapon)
    &&& s.magazine_capacity == p.magazine_capacity
    &&& integral_prototypes_same(s.integral_magazines@, p.integral_magazines@)
    &&& well_prototypes_same(s.magazine_wells@, p.magazine_wells@)
    &&& container_prototypes_same(s.ammunition_containers@, p.ammunition_containers@)
    &&& s.residual_energy_millijoules == p.residual_energy_millijoules
    &&& opt_powered_same(s.powered_tool, p.powered_tool)
    &&& profile_same(s.containment, p.containment)
}

pub fn component_state_matches_prototype(state: &ItemComponentSnapshotV1, prototype: &CraftItemPrototypeV1) -> (r:
    bool)
    ensures
        r == state_matches_prototype(*state, *prototype),
{
    let temperature_ok = match &state.temperature {
        Some(t) => prototype.tracks_temperature && t.current_phase == prototype.containment.phase,
        None => !prototype.tracks_temperature,
    };
    str_eq(state.type_id.as_str(), prototype.type_id.as_str()) && state.charges == prototype.charges
        && melee_maps_same(&state.melee_damage_milli, &prototype.melee_damage_milli) && state.calories
        == prototype.calories && state.quench == prototype.quench && str_eq(
        state.comestible_type.as_str(),
        prototype.comestible_type.as_str(),
    ) && temperature_ok && str_eq(state.ammunition_type.as_str(), prototype.ammunition_type.as_str()) && ranged_same(
        &state.ranged_weapon,
        &prototype.ranged_weapon,
    ) && state.magazine_capacity == prototype.magazine_capacity && integral_prototype_lists_same(
        &state.integral_magazines,
        &prototype.integral_magazines,
    ) && well_prototype_lists_same(&state.magazine_wells, &prototype.magazine_wells)
        && container_prototype_lists_same(&state.ammunition_containers, &prototype.ammunition_containers)
        && state.residual_energy_millijoules == prototype.residual_energy_millijoules && powered_same(
        &state.powered_tool,
        &prototype.powered_tool,
    ) && profiles_same(&state.containment, &prototype.containment)
}

} // verus!
