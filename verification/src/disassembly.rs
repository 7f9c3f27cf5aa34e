//! Reversible recipes for taking an item apart, and the component items kept
//! inside crafted results.

use vstd::prelude::*;

use crate::item_groups::{ItemSnippetV1, ItemTemperatureStateV1, ItemVariableValueV1, ItemVariantV1};
use crate::items::ItemContainmentProfileV1;
use crate::prototypes::{
    AmmunitionContainerPocketPrototypeV1, CraftItemPrototypeV1, IntegralMagazinePocketPrototypeV1,
    MagazineWellPrototypeV1, PoweredToolStateV1, RangedWeaponSnapshot,
};
use crate::creatures::{content_id_ok, valid_recipe_id};
use crate::item_components::{component_state_matches_prototype, root_component_ok, state_matches_prototype, valid_item_component_root};
use crate::prototypes::{craft_prototype_ok, valid_craft_item_prototype};
use crate::recipes::{
    quality_groups_ok, skill_id_ok, skill_requirements_ok, valid_quality_groups, valid_skill_id,
    valid_skill_requirements, CraftQualityRequirementV1, CraftSkillRequirementV1, CraftToolRequirementV1,
    ACTION_POINTS_PER_UPSTREAM_MOVE, MAX_CRAFT_OUTPUT_INSTANCES, MAX_CRAFT_SUPPORT_ALTERNATIVES,
    MAX_CRAFT_SUPPORT_GROUPS, MAX_SKILL_LEVEL,
};
use crate::text_map::TextMap;

verus! {

/// A component item retained inside a crafted result. It has no world-stable
/// id while nested.
#[derive(Debug, PartialEq, Eq)]
pub struct ItemComponentSnapshotV1 {
    pub type_id: String,
    pub charges: i32,
    pub damage: u16,
    pub raw_damage: u16,
    pub fitted: bool,
    pub variant: Option<ItemVariantV1>,
    pub snippet: Option<ItemSnippetV1>,
    pub variables: TextMap<ItemVariableValueV1>,
    pub melee_damage_milli: TextMap<i32>,
    pub calories: i32,
    pub quench: i32,
    pub comestible_type: String,
    pub temperature: Option<ItemTemperatureStateV1>,
    pub ammunition_type: String,
    pub ranged_weapon: Option<RangedWeaponSnapshot>,
    pub count_by_charges: bool,
    pub recoverable: bool,
    pub component_provenance: Option<Vec<ItemComponentSnapshotV1>>,
    pub magazine_capacity: u32,
    pub integral_magazines: Vec<IntegralMagazinePocketPrototypeV1>,
    pub magazine_wells: Vec<MagazineWellPrototypeV1>,
    pub ammunition_containers: Vec<AmmunitionContainerPocketPrototypeV1>,
    pub residual_energy_millijoules: u32,
    pub powered_tool: Option<PoweredToolStateV1>,
    pub containment: ItemContainmentProfileV1,
}

/// A copy of a component and everything nested in it.
fn copy_component(c: &ItemComponentSnapshotV1) -> (r: ItemComponentSnapshotV1)
    decreases c,
{
    let provenance = match &c.component_provenance {
        None => None,
        Some(children) => {
            let mut copies: Vec<ItemComponentSnapshotV1> = Vec::new();
            let mut i: usize = 0;
            while i < children.len()
                invariant
                    c.component_provenance == Some(*children),
                    i <= children@.len(),
                decreases children.len() - i,
            {
                proof {
                    assert(decreases_to!(c => c.component_provenance));
                    assert(decreases_to!(children => children@));
                }
                copies.push(copy_component(&children[i]));
                i = i + 1;
            }
            Some(copies)
        },
    };
    ItemComponentSnapshotV1 {
        type_id: c.type_id.clone(),
        charges: c.charges,
        damage: c.damage,
        raw_damage: c.raw_damage,
        fitted: c.fitted,
        variant: c.variant.clone(),
        snippet: c.snippet.clone(),
        variables: c.variables.clone(),
        melee_damage_milli: c.melee_damage_milli.clone(),
        calories: c.calories,
        quench: c.quench,
        comestible_type: c.comestible_type.clone(),
        temperature: c.temperature,
        ammunition_type: c.ammunition_type.clone(),
        ranged_weapon: c.ranged_weapon.clone(),
        count_by_charges: c.count_by_charges,
        recoverable: c.recoverable,
        component_provenance: provenance,
        magazine_capacity: c.magazine_capacity,
        integral_magazines: c.integral_magazines.clone(),
        magazine_wells: c.magazine_wells.clone(),
        ammunition_containers: c.ammunition_containers.clone(),
        residual_energy_millijoules: c.residual_energy_millijoules,
        powered_tool: c.powered_tool.clone(),
        containment: c.containment.clone(),
    }
}

impl Clone for ItemComponentSnapshotV1 {
    fn clone(&self) -> Self {
        copy_component(self)
    }
}

#[derive(Clone, Debug, PartialEq, Eq)]
pub struct DisassemblyComponentV1 {
    pub output_instances: u16,
    pub count_by_charges: bool,
    pub output: CraftItemPrototypeV1,
    /// Exact crafted-component state; `None` uses the default prototype.
    pub output_state: Option<ItemComponentSnapshotV1>,
}

/// A reversible recipe used by disassembly.
#[derive(Clone, Debug, PartialEq, Eq)]
pub struct DisassemblyRecipeV1 {
    pub recipe_id: String,
    pub target_type_id: String,
    pub time_moves: u64,
    pub difficulty: u8,
    pub primary_skill_id: Option<String>,
    /// Skill-id-sorted requirements for the permanent learning roll; empty
    /// means the recipe cannot be learned by disassembly.
    pub learn_requirements: Vec<CraftSkillRequirementV1>,
    /// Whether the recipe becomes known once its requirements are met.
    pub autolearn: bool,
    pub autolearn_requirements: Vec<CraftSkillRequirementV1>,
    /// One default component per original recipe group.
    pub components: Vec<DisassemblyComponentV1>,
    pub tools: Vec<Vec<CraftToolRequirementV1>>,
    pub qualities: Vec<Vec<CraftQualityRequirementV1>>,
    /// Charge carrier emitted before a charged target is reserved.
    pub unload_charges_as: Option<CraftItemPrototypeV1>,
    /// The target keeps charges in a form this protocol does not model, so
    /// only an uncharged target may be taken apart.
    pub requires_empty_charges: bool,
}

#[derive(Clone, Debug, PartialEq, Eq)]
pub struct DisassemblyDestroyedComponentV1 {
    pub type_id: String,
    pub count: u32,
}

/// The instances of every component together.
pub open spec fn component_total(components: Seq<DisassemblyComponentV1>) -> int
    decreases components.len(),
{
    if components.len() == 0 {
        0
    } else {
        component_total(components.drop_last()) + components.last().output_instances
    }
}

proof fn lemma_component_total_grows(components: Seq<DisassemblyComponentV1>, i: int)
    requires
        0 <= i <= components.len(),
    ensures
        component_total(components.take(i)) <= component_total(components),
    decreases components.len() - i,
{
    if i < components.len() {
        lemma_component_total_grows(components, i + 1);
        assert(components.take(i + 1).drop_last() == components.take(i));
    } else {
        assert(components.take(i) == components);
    }
}

impl DisassemblyRecipeV1 {
    /// Every component instance the recipe yields, if the count fits in
    /// `u16`.
    pub fn total_component_instances(&self) -> (r: Option<u16>)
        ensures
            r matches Some(t) ==> t == component_total(self.components@),
            r is None <==> component_total(self.components@) > u16::MAX,
    {
        let mut total: u16 = 0;
        let mut i: usize = 0;
        while i < self.components.len()
            invariant
                i <= self.components@.len(),
                total == component_total(self.components@.take(i as int)),
            decreases self.components.len() - i,
        {
            assert(self.components@.take(i + 1).drop_last() == self.components@.take(i as int));
            match total.checked_add(self.components[i].output_instances) {
                Some(t) => total = t,
                None => {
                    proof {
                        lemma_component_total_grows(self.components@, i + 1);
                    }
                    return None;
                },
            }
            i = i + 1;
        }
        assert(self.components@.take(i as int) == self.components@);
        Some(total)
    }
}

pub const MAX_DISASSEMBLY_COMPONENT_TYPES: usize = 256;

/// A disassembly tool is only needed present: at most 256 of a valid type,
/// never spending charges.
pub open spec fn disassembly_tool_ok(tool: CraftToolRequirementV1) -> bool {
    content_id_ok(tool.type_id@) && tool.amount > 0 && !tool.consumes_charges && tool.amount <= 256
}

/// At most 128 groups of 1..=128 valid presence tools each.
pub open spec fn disassembly_tools_ok(groups: Seq<Vec<CraftToolRequirementV1>>) -> bool {
    &&& groups.len() <= MAX_CRAFT_SUPPORT_GROUPS
    &&& forall|g: int|
        0 <= g < groups.len() ==> {
            let group = (#[trigger] groups[g])@;
            &&& 0 < group.len() <= MAX_CRAFT_SUPPORT_ALTERNATIVES
            &&& forall|i: int| 0 <= i < group.len() ==> disassembly_tool_ok(#[trigger] group[i])
        }
}

/// One component a disassembly yields: a bounded positive instance count
/// (exactly one when counted by charges), a valid prototype, and, when an
/// exact state is recorded, a recoverable valid component that the
/// prototype would construct.
pub open spec fn disassembly_component_ok(c: DisassemblyComponentV1) -> bool {
    &&& c.output_instances > 0
    &&& c.output_instances <= MAX_CRAFT_OUTPUT_INSTANCES
    &&& (!c.count_by_charges || c.output_instances == 1)
    &&& craft_prototype_ok(c.output)
    &&& (c.output_state matches Some(state) ==> {
        &&& state.recoverable
        &&& state.count_by_charges == c.count_by_charges
        &&& root_component_ok(state)
        &&& state_matches_prototype(state, c.output)
    })
}

/// A valid reversible recipe: valid identifiers, a positive time that stays
/// within the action-point range, a bounded difficulty and skills, learning
/// rules, a consistent charge carrier, at most 256 valid components yielding
/// at most 256 instances in all, presence-only tools and valid qualities.
pub open spec fn disassembly_recipe_ok(recipe: DisassemblyRecipeV1) -> bool {
    let components = recipe.components@;
    &&& content_id_ok(recipe.recipe_id@)
    &&& content_id_ok(recipe.target_type_id@)
    &&& recipe.time_moves > 0
    &&& recipe.time_moves * ACTION_POINTS_PER_UPSTREAM_MOVE <= u64::MAX
    &&& recipe.difficulty <= MAX_SKILL_LEVEL
    &&& (recipe.primary_skill_id matches Some(id) ==> skill_id_ok(id@))
    &&& skill_requirements_ok(recipe.learn_requirements@)
    &&& skill_requirements_ok(recipe.autolearn_requirements@)
    &&& (recipe.autolearn || recipe.autolearn_requirements@.len() == 0)
    &&& !(recipe.requires_empty_charges && recipe.unload_charges_as is Some)
    &&& (recipe.unload_charges_as matches Some(a) ==> craft_prototype_ok(a) && a.charges > 0 && a.ammunition_type@.len()
        > 0 && a.ranged_weapon is None)
    &&& components.len() <= MAX_DISASSEMBLY_COMPONENT_TYPES
    &&& forall|i: int| 0 <= i < components.len() ==> disassembly_component_ok(#[trigger] components[i])
    &&& component_total(components) <= MAX_CRAFT_OUTPUT_INSTANCES
    &&& disassembly_tools_ok(recipe.tools@)
    &&& quality_groups_ok(recipe.qualities@)
}

fn disassembly_component_is_ok(c: &DisassemblyComponentV1) -> (r: bool)
    ensures
        r == disassembly_component_ok(*c),
{
    let state_ok = match &c.output_state {
        Some(state) => state.recoverable && state.count_by_charges == c.count_by_charges && valid_item_component_root(
            state,
        ) && component_state_matches_prototype(state, &c.output),
        None => true,
    };
    c.output_instances > 0 && c.output_instances <= MAX_CRAFT_OUTPUT_INSTANCES && (!c.count_by_charges
        || c.output_instances == 1) && valid_craft_item_prototype(&c.output) && state_ok
}

fn disassembly_tools_are_ok(groups: &Vec<Vec<CraftToolRequirementV1>>) -> (r: bool)
    ensures
        r == disassembly_tools_ok(groups@),
{
    if groups.len() > MAX_CRAFT_SUPPORT_GROUPS {
        return false;
    }
    let mut g: usize = 0;
    while g < groups.len()
        invariant
            g <= groups@.len(),
            forall|h: int|
                0 <= h < g ==> {
                    let group = (#[trigger] groups@[h])@;
                    &&& 0 < group.len() <= MAX_CRAFT_SUPPORT_ALTERNATIVES
                    &&& forall|i: int| 0 <= i < group.len() ==> disassembly_tool_ok(#[trigger] group[i])
                },
        decreases groups.len() - g,
    {
        let group = &groups[g];
        if group.len() == 0 || group.len() > MAX_CRAFT_SUPPORT_ALTERNATIVES {
            return false;
        }
        let mut i: usize = 0;
        while i < group.len()
            invariant
                i <= group@.len(),
                forall|k: int| 0 <= k < i ==> disassembly_tool_ok(#[trigger] group@[k]),
            decreases group.len() - i,
        {
            let tool = &group[i];
            if !valid_recipe_id(tool.type_id.as_str()) || tool.amount == 0 || tool.consumes_charges || tool.amount
                > 256 {
                return false;
            }
            i = i + 1;
        }
        g = g + 1;
    }
    true
}

/// Whether a reversible recipe used by disassembly is valid.
pub fn valid_disassembly_recipe(recipe: &DisassemblyRecipeV1) -> (r: bool)
    ensures
        r == disassembly_recipe_ok(*recipe),
{
    let primary_ok = match &recipe.primary_skill_id {
        Some(id) => valid_skill_id(id.as_str()),
        None => true,
    };
    let unload_ok = match &recipe.unload_charges_as {
        Some(a) => valid_craft_item_prototype(a) && a.charges > 0 && !a.ammunition_type.as_str().is_empty()
            && a.ranged_weapon.is_none(),
        None => true,
    };
    if !(valid_recipe_id(recipe.recipe_id.as_str()) && valid_recipe_id(recipe.target_type_id.as_str())
        && recipe.time_moves > 0 && recipe.time_moves <= u64::MAX / 20 && recipe.difficulty <= MAX_SKILL_LEVEL
        && primary_ok && valid_skill_requirements(&recipe.learn_requirements) && valid_skill_requirements(
        &recipe.autolearn_requirements,
    ) && (recipe.autolearn || recipe.autolearn_requirements.len() == 0) && !(recipe.requires_empty_charges
        && recipe.unload_charges_as.is_some()) && unload_ok) {
        return false;
    }
    if recipe.components.len() > MAX_DISASSEMBLY_COMPONENT_TYPES {
        return false;
    }
    let mut i: usize = 0;
    while i < recipe.components.len()
        invariant
            i <= recipe.components@.len(),
            forall|k: int| 0 <= k < i ==> disassembly_component_ok(#[trigger] recipe.components@[k]),
        decreases recipe.components.len() - i,
    {
        if !disassembly_component_is_ok(&recipe.components[i]) {
            return false;
        }
        i = i + 1;
    }
    let total_ok = match recipe.total_component_instances() {
        Some(total) => total <= MAX_CRAFT_OUTPUT_INSTANCES,
        None => false,
    };
    total_ok && disassembly_tools_are_ok(&recipe.tools) && valid_quality_groups(&recipe.qualities)
}

} // verus!
