//! Server-normalized craft, construction, and book-study definitions.

use vstd::prelude::*;

use crate::creatures::{content_id_ok, valid_recipe_id};
use crate::geometry::CommandSequence;
use crate::ids::{id_counter, id_namespace, ActorId, ItemId};
use crate::prototypes::{craft_prototype_ok, valid_craft_item_prototype, CraftItemPrototypeV1};
use crate::text::{bounded_text_is_valid, str_eq, str_less, text_lt, valid_bounded_text};
use crate::worldgen::{FurnitureTileSnapshot, TerrainTileSnapshot};
use crate::worldgen_parts::{furniture_tile_ok, terrain_tile_ok, valid_furniture_tile, valid_terrain_tile};

verus! {

pub const ACTION_POINTS_PER_UPSTREAM_MOVE: i64 = 20;
pub const MAX_CRAFT_COMPONENT_GROUPS: usize = 128;
pub const MAX_CRAFT_COMPONENT_ALTERNATIVES: usize = 128;
pub const MAX_CRAFT_SUPPORT_GROUPS: usize = 128;
pub const MAX_CRAFT_SUPPORT_ALTERNATIVES: usize = 128;
pub const MAX_CRAFT_QUALITY_PROVIDERS: usize = 512;
pub const MAX_CRAFT_PROFICIENCIES: usize = 64;
pub const MAX_CRAFT_BOOK_REQUIREMENTS: usize = 64;
/// Fixed-point scale of proficiency multipliers: one millionth.
pub const CRAFT_PROFICIENCY_SCALE: u32 = 1_000_000;
pub const MAX_CRAFT_PROFICIENCY_MULTIPLIER: u32 = 100_000_000;
pub const MAX_CRAFT_OUTPUT_INSTANCES: u16 = 256;
pub const MAX_CRAFT_BYPRODUCT_TYPES: usize = 64;
pub const MAX_LEARNED_RECIPES: usize = 8_192;
pub const MAX_ACTOR_BASE_STAT: u16 = 100;
pub const MAX_SKILLS: usize = 64;
pub const MAX_SKILL_ID_BYTES: usize = 64;
pub const MAX_SKILL_LEVEL: u8 = 10;
pub const MAX_PROFICIENCIES: usize = 512;
pub const MAX_PROFICIENCY_ID_BYTES: usize = 128;
pub const MAX_PROFICIENCY_PRACTICE_ACTION_POINTS: u64 = 100_000_000_000_000;

#[derive(Clone, Debug, PartialEq, Eq)]
pub struct CraftComponentRequirementV1 {
    pub type_id: String,
    pub count: u32,
    pub count_by_charges: bool,
    /// Whether the exact consumed object can later be recovered.
    pub recoverable: bool,
}

/// A presence tool stays carried; a charge tool spends `amount` charges.
#[derive(Clone, Debug, PartialEq, Eq)]
pub struct CraftToolRequirementV1 {
    pub type_id: String,
    pub amount: u16,
    pub consumes_charges: bool,
}

#[derive(Clone, Debug, PartialEq, Eq)]
pub struct CraftQualityProviderV1 {
    pub type_id: String,
    /// Zero for an inherent quality, else the per-use charge threshold.
    pub minimum_charges: u16,
}

#[derive(Clone, Debug, PartialEq, Eq)]
pub struct CraftQualityRequirementV1 {
    pub quality_id: String,
    pub level: i32,
    pub amount: u16,
    pub providers: Vec<CraftQualityProviderV1>,
}

#[derive(Clone, Debug, PartialEq, Eq)]
pub struct CraftSkillRequirementV1 {
    pub skill_id: String,
    pub level: u8,
}

#[derive(Clone, Debug, PartialEq, Eq)]
pub struct CraftBookRequirementV1 {
    pub book_type_id: String,
    /// The primary skill's theoretical level needed to read the entry.
    pub required_skill_level: u8,
}

#[derive(Clone, Debug, PartialEq, Eq)]
pub struct CraftProficiencyV1 {
    pub proficiency_id: String,
    /// Required proficiencies gate the craft and have a zero multiplier.
    pub required: bool,
    /// Multiplier in millionths for an unlearned proficiency.
    pub time_multiplier_millionths: u32,
    pub skill_penalty_millionths: i32,
    pub learning_time_multiplier_millionths: u32,
    pub max_experience_action_points: Option<u64>,
    pub time_to_learn_action_points: u64,
    pub can_learn: bool,
    /// Sorted direct prerequisites.
    pub required_proficiencies: Vec<String>,
}

#[derive(Clone, Debug, PartialEq, Eq)]
pub struct CraftByproductV1 {
    pub output_instances: u16,
    pub output: CraftItemPrototypeV1,
}

/// Immutable recipe input; clients submit only `recipe_id`.
#[derive(Clone, Debug, PartialEq, Eq)]
pub struct CraftRecipeV1 {
    pub recipe_id: String,
    pub time_moves: u64,
    pub output_instances: u16,
    pub output: CraftItemPrototypeV1,
    /// Reversible non-charge crafts keep their consumed components.
    pub retain_components: bool,
    /// Type-ID-sorted byproducts, reserved after the main results.
    pub byproducts: Vec<CraftByproductV1>,
    pub components: Vec<Vec<CraftComponentRequirementV1>>,
    pub tools: Vec<Vec<CraftToolRequirementV1>>,
    pub qualities: Vec<Vec<CraftQualityRequirementV1>>,
    pub proficiencies: Vec<CraftProficiencyV1>,
    pub primary_skill: Option<CraftSkillRequirementV1>,
    pub required_skills: Vec<CraftSkillRequirementV1>,
    pub autolearn: bool,
    pub autolearn_skills: Vec<CraftSkillRequirementV1>,
    /// Book-type-ID-sorted knowledge sources.
    pub book_requirements: Vec<CraftBookRequirementV1>,
    pub can_be_learned: bool,
}

/// The main results plus every byproduct.
pub open spec fn output_total(recipe: CraftRecipeV1) -> int {
    recipe.output_instances + byproduct_total(recipe.byproducts@)
}

pub open spec fn byproduct_total(byproducts: Seq<CraftByproductV1>) -> int
    decreases byproducts.len(),
{
    if byproducts.len() == 0 {
        0
    } else {
        byproduct_total(byproducts.drop_last()) + byproducts.last().output_instances
    }
}

proof fn lemma_byproduct_total_grows(byproducts: Seq<CraftByproductV1>, i: int)
    requires
        0 <= i <= byproducts.len(),
    ensures
        byproduct_total(byproducts.take(i)) <= byproduct_total(byproducts),
    decreases byproducts.len() - i,
{
    if i < byproducts.len() {
        lemma_byproduct_total_grows(byproducts, i + 1);
        assert(byproducts.take(i + 1).drop_last() == byproducts.take(i));
    } else {
        assert(byproducts.take(i) == byproducts);
    }
}

impl CraftRecipeV1 {
    /// Every result instance a craft produces, if the count fits in `u16`.
    pub fn total_output_instances(&self) -> (r: Option<u16>)
        ensures
            r matches Some(t) ==> t == output_total(*self),
            r is None <==> output_total(*self) > u16::MAX,
    {
        let mut total: u16 = self.output_instances;
        let mut i: usize = 0;
        while i < self.byproducts.len()
            invariant
                i <= self.byproducts@.len(),
                total == self.output_instances + byproduct_total(self.byproducts@.take(i as int)),
            decreases self.byproducts.len() - i,
        {
            assert(self.byproducts@.take(i + 1).drop_last() == self.byproducts@.take(i as int));
            match total.checked_add(self.byproducts[i].output_instances) {
                Some(t) => total = t,
                None => {
                    proof {
                        lemma_byproduct_total_grows(self.byproducts@, i + 1);
                    }
                    return None;
                },
            }
            i = i + 1;
        }
        assert(self.byproducts@.take(i as int) == self.byproducts@);
        Some(total)
    }
}

/// The tile a construction writes: terrain and furniture are separate layers.
#[derive(Clone, Debug, PartialEq, Eq)]
pub enum ConstructionResultV1 {
    Terrain(TerrainTileSnapshot),
    Furniture(FurnitureTileSnapshot),
}

#[derive(Clone, Debug, PartialEq, Eq)]
pub struct ConstructionRecipeV1 {
    pub construction_id: String,
    pub name: String,
    pub time_moves: u64,
    pub required_skills: Vec<CraftSkillRequirementV1>,
    pub components: Vec<Vec<CraftComponentRequirementV1>>,
    /// Non-consuming qualities that must stay available while working.
    pub qualities: Vec<Vec<CraftQualityRequirementV1>>,
    /// Sorted terrain or furniture identifiers accepted before work starts.
    pub pre_terrain: Vec<String>,
    pub requires_empty: bool,
    pub result: ConstructionResultV1,
}

/// A skill book read along the canonical-stat, identified-book path.
#[derive(Clone, Debug, PartialEq, Eq)]
pub struct BookStudyV1 {
    pub book_type_id: String,
    pub skill_id: String,
    pub required_skill_level: u8,
    pub maximum_skill_level: u8,
    pub intelligence_requirement: u16,
    /// Unadjusted reading time in moves.
    pub time_moves: u64,
    /// Unadjusted whole minutes used by reading experience.
    pub source_time_minutes: u32,
}

/// Missing Intelligence points below a book's requirement.
pub open spec fn study_penalty(intelligence_requirement: int, intelligence: int) -> int {
    if intelligence_requirement > intelligence {
        intelligence_requirement - intelligence
    } else {
        0
    }
}

/// Reading time with the low-Intelligence penalty: each missing point adds
/// one sixtieth of the base time, rounded down.
pub open spec fn adjusted_study_time(time_moves: int, intelligence_requirement: int, intelligence: int) -> int {
    time_moves + time_moves * study_penalty(intelligence_requirement, intelligence) / 60
}

/// The adjusted reading time; `None` for a zero base time or Intelligence,
/// stats above the maximum, or a penalty or total that overflows `u64`.
pub fn adjusted_book_study_time_moves(time_moves: u64, intelligence_requirement: u16, intelligence: u16) -> (r: Option<u64>)
    ensures
        r matches Some(t) ==> t == adjusted_study_time(
            time_moves as int,
            intelligence_requirement as int,
            intelligence as int,
        ),
        r is None <==> (time_moves == 0 || intelligence == 0 || intelligence > MAX_ACTOR_BASE_STAT
            || intelligence_requirement > MAX_ACTOR_BASE_STAT || time_moves * study_penalty(
            intelligence_requirement as int,
            intelligence as int,
        ) > u64::MAX || adjusted_study_time(
            time_moves as int,
            intelligence_requirement as int,
            intelligence as int,
        ) > u64::MAX),
{
    if time_moves == 0 || intelligence == 0 || intelligence > MAX_ACTOR_BASE_STAT || intelligence_requirement
        > MAX_ACTOR_BASE_STAT {
        return None;
    }
    let penalty: u64 = if intelligence_requirement > intelligence {
        (intelligence_requirement - intelligence) as u64
    } else {
        0
    };
    match time_moves.checked_mul(penalty) {
        Some(penalty_moves) => time_moves.checked_add(penalty_moves / 60),
        None => None,
    }
}

// ----- validity -----
/// A book read for at most a week of moves.
pub const MAX_BOOK_STUDY_MOVES: u64 = 60_480_000;

/// Moves in one minute of reading experience.
pub const MOVES_PER_STUDY_MINUTE: u64 = 6_000;

/// A study names a book and a skill, raises the skill over a non-empty range
/// within the skill levels, asks for a plausible Intelligence, and takes at
/// most a week even for a reader of Intelligence 1.
pub open spec fn book_study_ok(s: BookStudyV1) -> bool {
    &&& content_id_ok(s.book_type_id@)
    &&& skill_id_ok(s.skill_id@)
    &&& s.required_skill_level < s.maximum_skill_level
    &&& s.maximum_skill_level <= MAX_SKILL_LEVEL
    &&& s.intelligence_requirement <= MAX_ACTOR_BASE_STAT
    &&& 0 < s.time_moves <= MAX_BOOK_STUDY_MOVES
    &&& adjusted_study_time(s.time_moves as int, s.intelligence_requirement as int, 1) <= MAX_BOOK_STUDY_MOVES
    &&& s.source_time_minutes > 0
    &&& s.source_time_minutes * MOVES_PER_STUDY_MINUTE <= MAX_BOOK_STUDY_MOVES
}

pub fn valid_book_study(study: &BookStudyV1) -> (r: bool)
    ensures
        r == book_study_ok(*study),
{
    if !(valid_recipe_id(study.book_type_id.as_str()) && valid_skill_id(study.skill_id.as_str())
        && study.required_skill_level < study.maximum_skill_level && study.maximum_skill_level <= MAX_SKILL_LEVEL
        && study.intelligence_requirement <= MAX_ACTOR_BASE_STAT && study.time_moves > 0 && study.time_moves
        <= MAX_BOOK_STUDY_MOVES) {
        return false;
    }
    proof {
        let penalty = study_penalty(study.intelligence_requirement as int, 1);
        assert(0 <= penalty <= 99);
        assert(study.time_moves * penalty <= MAX_BOOK_STUDY_MOVES * 99) by (nonlinear_arith)
            requires
                0 <= penalty <= 99,
                study.time_moves <= MAX_BOOK_STUDY_MOVES,
        ;
    }
    let adjusted_ok = match adjusted_book_study_time_moves(study.time_moves, study.intelligence_requirement, 1) {
        Some(moves) => moves <= MAX_BOOK_STUDY_MOVES,
        None => false,
    };
    let minutes_ok = match (study.source_time_minutes as u64).checked_mul(MOVES_PER_STUDY_MINUTE) {
        Some(moves) => moves <= MAX_BOOK_STUDY_MOVES,
        None => false,
    };
    adjusted_ok && study.source_time_minutes > 0 && minutes_ok
}


pub open spec fn skill_id_ok(s: Seq<char>) -> bool {
    valid_bounded_text(s, MAX_SKILL_ID_BYTES as nat)
}

pub open spec fn proficiency_id_ok(s: Seq<char>) -> bool {
    valid_bounded_text(s, MAX_PROFICIENCY_ID_BYTES as nat)
}

pub fn valid_skill_id(skill_id: &str) -> (r: bool)
    ensures
        r == skill_id_ok(skill_id@),
{
    bounded_text_is_valid(skill_id, MAX_SKILL_ID_BYTES)
}

pub fn valid_proficiency_id(proficiency_id: &str) -> (r: bool)
    ensures
        r == proficiency_id_ok(proficiency_id@),
{
    bounded_text_is_valid(proficiency_id, MAX_PROFICIENCY_ID_BYTES)
}

/// Strictly increasing texts, compared pairwise by neighbors.
pub open spec fn texts_increasing(texts: Seq<Seq<char>>) -> bool {
    forall|i: int| 0 <= i < texts.len() - 1 ==> text_lt(#[trigger] texts[i], texts[i + 1])
}

pub open spec fn proficiency_ok(p: CraftProficiencyV1) -> bool {
    &&& proficiency_id_ok(p.proficiency_id@)
    &&& if p.required {
        p.time_multiplier_millionths == 0 && p.skill_penalty_millionths == 0
    } else {
        CRAFT_PROFICIENCY_SCALE <= p.time_multiplier_millionths <= MAX_CRAFT_PROFICIENCY_MULTIPLIER
    }
    &&& -(MAX_CRAFT_PROFICIENCY_MULTIPLIER as int) <= p.skill_penalty_millionths <= MAX_CRAFT_PROFICIENCY_MULTIPLIER
    &&& p.learning_time_multiplier_millionths <= MAX_CRAFT_PROFICIENCY_MULTIPLIER
    &&& 0 < p.time_to_learn_action_points <= MAX_PROFICIENCY_PRACTICE_ACTION_POINTS
    &&& (p.max_experience_action_points matches Some(m) ==> 0 < m <= MAX_PROFICIENCY_PRACTICE_ACTION_POINTS)
    &&& p.required_proficiencies@.len() <= MAX_CRAFT_PROFICIENCIES
    &&& forall|i: int| 0 <= i < p.required_proficiencies@.len() ==> proficiency_id_ok((#[trigger] p.required_proficiencies@[i])@)
    &&& texts_increasing(p.required_proficiencies@.map_values(|s: String| s@))
}

fn strings_increasing(items: &Vec<String>) -> (r: bool)
    ensures
        r == texts_increasing(items@.map_values(|s: String| s@)),
{
    let ghost views = items@.map_values(|s: String| s@);
    let mut i: usize = 1;
    while i < items.len()
        invariant
            1 <= i,
            views == items@.map_values(|s: String| s@),
            forall|j: int| 0 <= j < i - 1 && j < views.len() - 1 ==> text_lt(#[trigger] views[j], views[j + 1]),
        decreases items.len() - i,
    {
        if !str_less(items[i - 1].as_str(), items[i].as_str()) {
            assert(!text_lt(views[i - 1], views[i as int]));
            return false;
        }
        i = i + 1;
    }
    true
}

pub fn valid_craft_proficiency(proficiency: &CraftProficiencyV1) -> (r: bool)
    ensures
        r == proficiency_ok(*proficiency),
{
    let multiplier_ok = if proficiency.required {
        proficiency.time_multiplier_millionths == 0 && proficiency.skill_penalty_millionths == 0
    } else {
        CRAFT_PROFICIENCY_SCALE <= proficiency.time_multiplier_millionths
            && proficiency.time_multiplier_millionths <= MAX_CRAFT_PROFICIENCY_MULTIPLIER
    };
    let experience_ok = match proficiency.max_experience_action_points {
        Some(m) => 0 < m && m <= MAX_PROFICIENCY_PRACTICE_ACTION_POINTS,
        None => true,
    };
    if !valid_proficiency_id(proficiency.proficiency_id.as_str()) || !multiplier_ok
        || proficiency.skill_penalty_millionths < -100_000_000i32 || proficiency.skill_penalty_millionths
        > 100_000_000i32 || proficiency.learning_time_multiplier_millionths > MAX_CRAFT_PROFICIENCY_MULTIPLIER
        || proficiency.time_to_learn_action_points == 0 || proficiency.time_to_learn_action_points
        > MAX_PROFICIENCY_PRACTICE_ACTION_POINTS || !experience_ok || proficiency.required_proficiencies.len()
        > MAX_CRAFT_PROFICIENCIES {
        return false;
    }
    let mut i: usize = 0;
    while i < proficiency.required_proficiencies.len()
        invariant
            i <= proficiency.required_proficiencies@.len(),
            forall|k: int| 0 <= k < i ==> proficiency_id_ok((#[trigger] proficiency.required_proficiencies@[k])@),
        decreases proficiency.required_proficiencies.len() - i,
    {
        if !valid_proficiency_id(proficiency.required_proficiencies[i].as_str()) {
            return false;
        }
        i = i + 1;
    }
    strings_increasing(&proficiency.required_proficiencies)
}

pub open spec fn skill_requirement_ok(requirement: CraftSkillRequirementV1) -> bool {
    skill_id_ok(requirement.skill_id@) && requirement.level <= MAX_SKILL_LEVEL
}

/// At most 64 valid requirements in strictly increasing skill order.
pub open spec fn skill_requirements_ok(requirements: Seq<CraftSkillRequirementV1>) -> bool {
    &&& requirements.len() <= MAX_SKILLS
    &&& forall|i: int| 0 <= i < requirements.len() ==> skill_requirement_ok(#[trigger] requirements[i])
    &&& forall|i: int|
        0 <= i < requirements.len() - 1 ==> text_lt((#[trigger] requirements[i]).skill_id@, requirements[i + 1].skill_id@)
}

pub fn valid_skill_requirement(requirement: &CraftSkillRequirementV1) -> (r: bool)
    ensures
        r == skill_requirement_ok(*requirement),
{
    valid_skill_id(requirement.skill_id.as_str()) && requirement.level <= MAX_SKILL_LEVEL
}

pub fn valid_skill_requirements(requirements: &Vec<CraftSkillRequirementV1>) -> (r: bool)
    ensures
        r == skill_requirements_ok(requirements@),
{
    if requirements.len() > MAX_SKILLS {
        return false;
    }
    let mut i: usize = 0;
    while i < requirements.len()
        invariant
            i <= requirements@.len(),
            forall|k: int| 0 <= k < i ==> skill_requirement_ok(#[trigger] requirements@[k]),
            forall|k: int| 0 <= k < i - 1 && k < requirements@.len() - 1 ==> text_lt((#[trigger] requirements@[k]).skill_id@, requirements@[k + 1].skill_id@),
        decreases requirements.len() - i,
    {
        if !valid_skill_requirement(&requirements[i]) {
            return false;
        }
        if i > 0 && !str_less(requirements[i - 1].skill_id.as_str(), requirements[i].skill_id.as_str()) {
            return false;
        }
        i = i + 1;
    }
    true
}

pub open spec fn component_ok(component: CraftComponentRequirementV1) -> bool {
    content_id_ok(component.type_id@) && component.count > 0
}

/// 1..=128 groups of 1..=128 valid alternatives each.
pub open spec fn component_groups_ok(groups: Seq<Vec<CraftComponentRequirementV1>>) -> bool {
    &&& 0 < groups.len() <= MAX_CRAFT_COMPONENT_GROUPS
    &&& forall|g: int| 0 <= g < groups.len() ==> {
        let group = (#[trigger] groups[g])@;
        &&& 0 < group.len() <= MAX_CRAFT_COMPONENT_ALTERNATIVES
        &&& forall|i: int| 0 <= i < group.len() ==> component_ok(#[trigger] group[i])
    }
}

pub open spec fn quality_ok(quality: CraftQualityRequirementV1) -> bool {
    let providers = quality.providers@;
    &&& content_id_ok(quality.quality_id@)
    &&& 0 < quality.amount <= 256
    &&& 0 < providers.len() <= MAX_CRAFT_QUALITY_PROVIDERS
    &&& forall|p: int| 0 <= p < providers.len() ==> content_id_ok((#[trigger] providers[p]).type_id@)
    &&& forall|p: int| 0 <= p < providers.len() - 1 ==> text_lt((#[trigger] providers[p]).type_id@, providers[p + 1].type_id@)
}

/// At most 128 groups of 1..=128 valid quality alternatives each.
pub open spec fn quality_groups_ok(groups: Seq<Vec<CraftQualityRequirementV1>>) -> bool {
    &&& groups.len() <= MAX_CRAFT_SUPPORT_GROUPS
    &&& forall|g: int| 0 <= g < groups.len() ==> {
        let group = (#[trigger] groups[g])@;
        &&& 0 < group.len() <= MAX_CRAFT_SUPPORT_ALTERNATIVES
        &&& forall|i: int| 0 <= i < group.len() ==> quality_ok(#[trigger] group[i])
    }
}

/// A craft tool: charge tools may spend any positive amount, presence tools
/// at most 256.
pub open spec fn craft_tool_ok(tool: CraftToolRequirementV1) -> bool {
    content_id_ok(tool.type_id@) && tool.amount > 0 && (tool.consumes_charges || tool.amount <= 256)
}

pub open spec fn tool_groups_ok(groups: Seq<Vec<CraftToolRequirementV1>>) -> bool {
    &&& groups.len() <= MAX_CRAFT_SUPPORT_GROUPS
    &&& forall|g: int| 0 <= g < groups.len() ==> {
        let group = (#[trigger] groups[g])@;
        &&& 0 < group.len() <= MAX_CRAFT_SUPPORT_ALTERNATIVES
        &&& forall|i: int| 0 <= i < group.len() ==> craft_tool_ok(#[trigger] group[i])
    }
}

fn valid_component_groups(groups: &Vec<Vec<CraftComponentRequirementV1>>) -> (r: bool)
    ensures
        r == component_groups_ok(groups@),
{
    if groups.len() == 0 || groups.len() > MAX_CRAFT_COMPONENT_GROUPS {
        return false;
    }
    let mut g: usize = 0;
    while g < groups.len()
        invariant
            g <= groups@.len(),
            forall|h: int| 0 <= h < g ==> {
                let group = (#[trigger] groups@[h])@;
                &&& 0 < group.len() <= MAX_CRAFT_COMPONENT_ALTERNATIVES
                &&& forall|i: int| 0 <= i < group.len() ==> component_ok(#[trigger] group[i])
            },
        decreases groups.len() - g,
    {
        let group = &groups[g];
        if group.len() == 0 || group.len() > MAX_CRAFT_COMPONENT_ALTERNATIVES {
            return false;
        }
        let mut i: usize = 0;
        while i < group.len()
            invariant
                i <= group@.len(),
                forall|k: int| 0 <= k < i ==> component_ok(#[trigger] group@[k]),
            decreases group.len() - i,
        {
            if !valid_recipe_id(group[i].type_id.as_str()) || group[i].count == 0 {
                return false;
            }
            i = i + 1;
        }
        g = g + 1;
    }
    true
}

fn valid_quality(quality: &CraftQualityRequirementV1) -> (r: bool)
    ensures
        r == quality_ok(*quality),
{
    let providers = &quality.providers;
    if !valid_recipe_id(quality.quality_id.as_str()) || quality.amount == 0 || quality.amount > 256
        || providers.len() == 0 || providers.len() > MAX_CRAFT_QUALITY_PROVIDERS {
        return false;
    }
    let mut p: usize = 0;
    while p < providers.len()
        invariant
            p <= providers@.len(),
            forall|k: int| 0 <= k < p ==> content_id_ok((#[trigger] providers@[k]).type_id@),
            forall|k: int| 0 <= k < p - 1 && k < providers@.len() - 1 ==> text_lt((#[trigger] providers@[k]).type_id@, providers@[k + 1].type_id@),
        decreases providers.len() - p,
    {
        if !valid_recipe_id(providers[p].type_id.as_str()) {
            return false;
        }
        if p > 0 && !str_less(providers[p - 1].type_id.as_str(), providers[p].type_id.as_str()) {
            return false;
        }
        p = p + 1;
    }
    true
}

pub fn valid_quality_groups(groups: &Vec<Vec<CraftQualityRequirementV1>>) -> (r: bool)
    ensures
        r == quality_groups_ok(groups@),
{
    if groups.len() > MAX_CRAFT_SUPPORT_GROUPS {
        return false;
    }
    let mut g: usize = 0;
    while g < groups.len()
        invariant
            g <= groups@.len(),
            forall|h: int| 0 <= h < g ==> {
                let group = (#[trigger] groups@[h])@;
                &&& 0 < group.len() <= MAX_CRAFT_SUPPORT_ALTERNATIVES
                &&& forall|i: int| 0 <= i < group.len() ==> quality_ok(#[trigger] group[i])
            },
        decreases groups.len() - g,
    {
        let group = &groups[g];
        if group.len() == 0 || group.len() > MAX_CRAFT_SUPPORT_ALTERNATIVES {
            return false;
        }
        let mut i: usize = 0;
        while i < group.len()
            invariant
                i <= group@.len(),
                forall|k: int| 0 <= k < i ==> quality_ok(#[trigger] group@[k]),
            decreases group.len() - i,
        {
            if !valid_quality(&group[i]) {
                return false;
            }
            i = i + 1;
        }
        g = g + 1;
    }
    true
}

fn valid_tool_groups(groups: &Vec<Vec<CraftToolRequirementV1>>) -> (r: bool)
    ensures
        r == tool_groups_ok(groups@),
{
    if groups.len() > MAX_CRAFT_SUPPORT_GROUPS {
        return false;
    }
    let mut g: usize = 0;
    while g < groups.len()
        invariant
            g <= groups@.len(),
            forall|h: int| 0 <= h < g ==> {
                let group = (#[trigger] groups@[h])@;
                &&& 0 < group.len() <= MAX_CRAFT_SUPPORT_ALTERNATIVES
                &&& forall|i: int| 0 <= i < group.len() ==> craft_tool_ok(#[trigger] group[i])
            },
        decreases groups.len() - g,
    {
        let group = &groups[g];
        if group.len() == 0 || group.len() > MAX_CRAFT_SUPPORT_ALTERNATIVES {
            return false;
        }
        let mut i: usize = 0;
        while i < group.len()
            invariant
                i <= group@.len(),
                forall|k: int| 0 <= k < i ==> craft_tool_ok(#[trigger] group@[k]),
            decreases group.len() - i,
        {
            let tool = &group[i];
            if !valid_recipe_id(tool.type_id.as_str()) || tool.amount == 0 || (!tool.consumes_charges && tool.amount
                > 256) {
                return false;
            }
            i = i + 1;
        }
        g = g + 1;
    }
    true
}

/// Any two components naming the same type count it the same way.
pub open spec fn charge_modes_consistent(groups: Seq<Vec<CraftComponentRequirementV1>>) -> bool {
    forall|g1: int, i1: int, g2: int, i2: int|
        0 <= g1 < groups.len() && 0 <= i1 < groups[g1]@.len() && 0 <= g2 < groups.len() && 0 <= i2 < groups[g2]@.len()
            && (#[trigger] groups[g1]@[i1]).type_id@ == (#[trigger] groups[g2]@[i2]).type_id@ ==> groups[g1]@[i1].count_by_charges
            == groups[g2]@[i2].count_by_charges
}

fn charge_modes_are_consistent(groups: &Vec<Vec<CraftComponentRequirementV1>>) -> (r: bool)
    ensures
        r == charge_modes_consistent(groups@),
{
    let mut g: usize = 0;
    while g < groups.len()
        invariant
            g <= groups@.len(),
            forall|g1: int, i1: int, g2: int, i2: int|
                0 <= g1 < g && 0 <= i1 < groups@[g1]@.len() && 0 <= g2 < g && 0 <= i2 < groups@[g2]@.len()
                    && (#[trigger] groups@[g1]@[i1]).type_id@ == (#[trigger] groups@[g2]@[i2]).type_id@
                    ==> groups@[g1]@[i1].count_by_charges == groups@[g2]@[i2].count_by_charges,
        decreases groups.len() - g,
    {
        let mut i: usize = 0;
        while i < groups[g].len()
            invariant
                g < groups@.len(),
                i <= groups@[g as int]@.len(),
                forall|g1: int, i1: int, g2: int, i2: int|
                    0 <= g1 < g && 0 <= i1 < groups@[g1]@.len() && 0 <= g2 < g && 0 <= i2 < groups@[g2]@.len()
                        && (#[trigger] groups@[g1]@[i1]).type_id@ == (#[trigger] groups@[g2]@[i2]).type_id@
                        ==> groups@[g1]@[i1].count_by_charges == groups@[g2]@[i2].count_by_charges,
                forall|g1: int, i1: int, i2: int|
                    0 <= g1 < g && 0 <= i1 < groups@[g1]@.len() && 0 <= i2 < i && (#[trigger] groups@[g1]@[i1]).type_id@
                        == (#[trigger] groups@[g as int]@[i2]).type_id@ ==> groups@[g1]@[i1].count_by_charges
                        == groups@[g as int]@[i2].count_by_charges,
                forall|i1: int, i2: int|
                    0 <= i1 < i && 0 <= i2 < i && (#[trigger] groups@[g as int]@[i1]).type_id@ == (
                    #[trigger] groups@[g as int]@[i2]).type_id@ ==> groups@[g as int]@[i1].count_by_charges
                        == groups@[g as int]@[i2].count_by_charges,
            decreases groups@[g as int]@.len() - i,
        {
            let current = &groups[g][i];
            let mut h: usize = 0;
            while h <= g
                invariant
                    g < groups@.len(),
                    i < groups@[g as int]@.len(),
                    *current == groups@[g as int]@[i as int],
                    h <= g + 1,
                    forall|g1: int, i1: int|
                        0 <= g1 < h && 0 <= i1 < groups@[g1]@.len() && (g1 < g || i1 < i) && (#[trigger] groups@[g1]@[i1]).type_id@
                            == current.type_id@ ==> groups@[g1]@[i1].count_by_charges == current.count_by_charges,
                decreases g + 1 - h,
            {
                let limit = if h < g {
                    groups[h].len()
                } else {
                    i
                };
                let mut k: usize = 0;
                while k < limit
                    invariant
                        h <= g < groups@.len(),
                        limit <= groups@[h as int]@.len(),
                        h == g ==> limit == i,
                        h < g ==> limit == groups@[h as int]@.len(),
                        i < groups@[g as int]@.len(),
                        *current == groups@[g as int]@[i as int],
                        k <= limit,
                        forall|g1: int, i1: int|
                            0 <= g1 < h && 0 <= i1 < groups@[g1]@.len() && (g1 < g || i1 < i) && (
                            #[trigger] groups@[g1]@[i1]).type_id@ == current.type_id@ ==> groups@[g1]@[i1].count_by_charges
                                == current.count_by_charges,
                        forall|i1: int|
                            0 <= i1 < k && (#[trigger] groups@[h as int]@[i1]).type_id@ == current.type_id@
                                ==> groups@[h as int]@[i1].count_by_charges == current.count_by_charges,
                    decreases limit - k,
                {
                    let other = &groups[h][k];
                    if str_eq(other.type_id.as_str(), current.type_id.as_str()) && other.count_by_charges
                        != current.count_by_charges {
                        assert(groups@[h as int]@[k as int].type_id@ == groups@[g as int]@[i as int].type_id@);
                        return false;
                    }
                    k = k + 1;
                }
                h = h + 1;
            }
            i = i + 1;
        }
        g = g + 1;
    }
    true
}

/// One byproduct: 1..=256 instances of a valid prototype.
#[verifier::opaque]
pub open spec fn byproduct_ok(byproduct: CraftByproductV1) -> bool {
    0 < byproduct.output_instances <= MAX_CRAFT_OUTPUT_INSTANCES && craft_prototype_ok(byproduct.output)
}

pub open spec fn byproducts_ok(byproducts: Seq<CraftByproductV1>) -> bool {
    &&& byproducts.len() <= MAX_CRAFT_BYPRODUCT_TYPES
    &&& forall|b: int| 0 <= b < byproducts.len() ==> byproduct_ok(#[trigger] byproducts[b])
    &&& texts_increasing(byproducts.map_values(|b: CraftByproductV1| b.output.type_id@))
}

pub open spec fn book_requirements_ok(books: Seq<CraftBookRequirementV1>) -> bool {
    &&& books.len() <= MAX_CRAFT_BOOK_REQUIREMENTS
    &&& forall|b: int| 0 <= b < books.len() ==> content_id_ok((#[trigger] books[b]).book_type_id@) && books[b].required_skill_level <= MAX_SKILL_LEVEL
    &&& forall|b: int| 0 <= b < books.len() - 1 ==> text_lt((#[trigger] books[b]).book_type_id@, books[b + 1].book_type_id@)
}

pub open spec fn proficiencies_ok(proficiencies: Seq<CraftProficiencyV1>) -> bool {
    &&& proficiencies.len() <= MAX_CRAFT_PROFICIENCIES
    &&& forall|p: int| 0 <= p < proficiencies.len() ==> proficiency_ok(#[trigger] proficiencies[p])
    &&& forall|p: int| 0 <= p < proficiencies.len() - 1 ==> text_lt((#[trigger] proficiencies[p]).proficiency_id@, proficiencies[p + 1].proficiency_id@)
}

/// The outputs of a recipe: a bounded identifier and time, 1..=256 main
/// results, valid sorted byproducts, and at most 256 results in all.
pub open spec fn recipe_outputs_ok(recipe: CraftRecipeV1) -> bool {
    &&& content_id_ok(recipe.recipe_id@)
    &&& recipe.time_moves > 0
    &&& 0 < recipe.output_instances <= MAX_CRAFT_OUTPUT_INSTANCES
    &&& craft_prototype_ok(recipe.output)
    &&& byproducts_ok(recipe.byproducts@)
    &&& output_total(recipe) <= MAX_CRAFT_OUTPUT_INSTANCES
}

/// The requirements of a recipe: component, tool, and quality groups with
/// consistent charge counting, sorted proficiencies, and skills.
pub open spec fn recipe_requirements_ok(recipe: CraftRecipeV1) -> bool {
    &&& component_groups_ok(recipe.components@)
    &&& tool_groups_ok(recipe.tools@)
    &&& quality_groups_ok(recipe.qualities@)
    &&& proficiencies_ok(recipe.proficiencies@)
    &&& (recipe.primary_skill matches Some(s) ==> skill_requirement_ok(s))
    &&& skill_requirements_ok(recipe.required_skills@)
    &&& charge_modes_consistent(recipe.components@)
}

/// How a recipe can be known: by autolearning, books, or learning.
pub open spec fn recipe_knowledge_ok(recipe: CraftRecipeV1) -> bool {
    &&& skill_requirements_ok(recipe.autolearn_skills@)
    &&& (recipe.autolearn || recipe.book_requirements@.len() > 0 || recipe.can_be_learned)
    &&& (recipe.autolearn || recipe.autolearn_skills@.len() == 0)
    &&& book_requirements_ok(recipe.book_requirements@)
}

pub open spec fn craft_recipe_ok(recipe: CraftRecipeV1) -> bool {
    recipe_outputs_ok(recipe) && recipe_requirements_ok(recipe) && recipe_knowledge_ok(recipe)
}

fn byproduct_is_ok(byproduct: &CraftByproductV1) -> (r: bool)
    ensures
        r == byproduct_ok(*byproduct),
{
    reveal(byproduct_ok);
    byproduct.output_instances > 0 && byproduct.output_instances <= MAX_CRAFT_OUTPUT_INSTANCES
        && valid_craft_item_prototype(&byproduct.output)
}

fn valid_byproducts(byproducts: &Vec<CraftByproductV1>) -> (r: bool)
    ensures
        r == byproducts_ok(byproducts@),
{
    if byproducts.len() > MAX_CRAFT_BYPRODUCT_TYPES {
        return false;
    }
    let ghost views = byproducts@.map_values(|b: CraftByproductV1| b.output.type_id@);
    let mut b: usize = 0;
    while b < byproducts.len()
        invariant
            b <= byproducts@.len(),
            views == byproducts@.map_values(|b: CraftByproductV1| b.output.type_id@),
            forall|k: int| 0 <= k < b ==> byproduct_ok(#[trigger] byproducts@[k]),
            forall|k: int| 0 <= k < b - 1 && k < views.len() - 1 ==> text_lt(#[trigger] views[k], views[k + 1]),
        decreases byproducts.len() - b,
    {
        if !byproduct_is_ok(&byproducts[b]) {
            return false;
        }
        if b > 0 && !str_less(byproducts[b - 1].output.type_id.as_str(), byproducts[b].output.type_id.as_str()) {
            assert(!text_lt(views[b - 1], views[b as int]));
            return false;
        }
        b = b + 1;
    }
    true
}

fn valid_book_requirements(books: &Vec<CraftBookRequirementV1>) -> (r: bool)
    ensures
        r == book_requirements_ok(books@),
{
    if books.len() > MAX_CRAFT_BOOK_REQUIREMENTS {
        return false;
    }
    let mut b: usize = 0;
    while b < books.len()
        invariant
            b <= books@.len(),
            forall|k: int| 0 <= k < b ==> content_id_ok((#[trigger] books@[k]).book_type_id@) && books@[k].required_skill_level <= MAX_SKILL_LEVEL,
            forall|k: int| 0 <= k < b - 1 && k < books@.len() - 1 ==> text_lt((#[trigger] books@[k]).book_type_id@, books@[k + 1].book_type_id@),
        decreases books.len() - b,
    {
        if !valid_recipe_id(books[b].book_type_id.as_str()) || books[b].required_skill_level > MAX_SKILL_LEVEL {
            return false;
        }
        if b > 0 && !str_less(books[b - 1].book_type_id.as_str(), books[b].book_type_id.as_str()) {
            return false;
        }
        b = b + 1;
    }
    true
}

fn valid_proficiencies(proficiencies: &Vec<CraftProficiencyV1>) -> (r: bool)
    ensures
        r == proficiencies_ok(proficiencies@),
{
    if proficiencies.len() > MAX_CRAFT_PROFICIENCIES {
        return false;
    }
    let mut p: usize = 0;
    while p < proficiencies.len()
        invariant
            p <= proficiencies@.len(),
            forall|k: int| 0 <= k < p ==> proficiency_ok(#[trigger] proficiencies@[k]),
            forall|k: int| 0 <= k < p - 1 && k < proficiencies@.len() - 1 ==> text_lt((#[trigger] proficiencies@[k]).proficiency_id@, proficiencies@[k + 1].proficiency_id@),
        decreases proficiencies.len() - p,
    {
        if !valid_craft_proficiency(&proficiencies[p]) {
            return false;
        }
        if p > 0 && !str_less(proficiencies[p - 1].proficiency_id.as_str(), proficiencies[p].proficiency_id.as_str()) {
            return false;
        }
        p = p + 1;
    }
    true
}

fn recipe_outputs_are_ok(recipe: &CraftRecipeV1) -> (r: bool)
    ensures
        r == recipe_outputs_ok(*recipe),
{
    let total_ok = match recipe.total_output_instances() {
        Some(total) => total <= MAX_CRAFT_OUTPUT_INSTANCES,
        None => false,
    };
    valid_recipe_id(recipe.recipe_id.as_str()) && recipe.time_moves > 0 && recipe.output_instances > 0
        && recipe.output_instances <= MAX_CRAFT_OUTPUT_INSTANCES && valid_craft_item_prototype(&recipe.output)
        && valid_byproducts(&recipe.byproducts) && total_ok
}

fn recipe_requirements_are_ok(recipe: &CraftRecipeV1) -> (r: bool)
    ensures
        r == recipe_requirements_ok(*recipe),
{
    let primary_ok = match &recipe.primary_skill {
        Some(s) => valid_skill_requirement(s),
        None => true,
    };
    valid_component_groups(&recipe.components) && valid_tool_groups(&recipe.tools) && valid_quality_groups(
        &recipe.qualities,
    ) && valid_proficiencies(&recipe.proficiencies) && primary_ok && valid_skill_requirements(&recipe.required_skills)
        && charge_modes_are_consistent(&recipe.components)
}

fn recipe_knowledge_is_ok(recipe: &CraftRecipeV1) -> (r: bool)
    ensures
        r == recipe_knowledge_ok(*recipe),
{
    valid_skill_requirements(&recipe.autolearn_skills) && (recipe.autolearn || recipe.book_requirements.len() > 0
        || recipe.can_be_learned) && (recipe.autolearn || recipe.autolearn_skills.len() == 0)
        && valid_book_requirements(&recipe.book_requirements)
}

pub fn valid_craft_recipe(recipe: &CraftRecipeV1) -> (r: bool)
    ensures
        r == craft_recipe_ok(*recipe),
{
    recipe_outputs_are_ok(recipe) && recipe_requirements_are_ok(recipe) && recipe_knowledge_is_ok(recipe)
}

pub open spec fn construction_result_ok(result: ConstructionResultV1) -> bool {
    match result {
        ConstructionResultV1::Terrain(tile) => terrain_tile_ok(tile),
        ConstructionResultV1::Furniture(tile) => furniture_tile_ok(tile),
    }
}

/// A valid construction: bounded identifiers and name, a positive time that
/// converts to action points, valid skills, components, and qualities, at
/// most 64 sorted accepted predecessors, and a valid result tile.
pub open spec fn construction_recipe_ok(recipe: ConstructionRecipeV1) -> bool {
    &&& content_id_ok(recipe.construction_id@)
    &&& valid_bounded_text(recipe.name@, 512)
    &&& recipe.time_moves > 0
    &&& recipe.time_moves * ACTION_POINTS_PER_UPSTREAM_MOVE <= u64::MAX
    &&& skill_requirements_ok(recipe.required_skills@)
    &&& component_groups_ok(recipe.components@)
    &&& quality_groups_ok(recipe.qualities@)
    &&& recipe.pre_terrain@.len() <= 64
    &&& forall|i: int| 0 <= i < recipe.pre_terrain@.len() ==> content_id_ok((#[trigger] recipe.pre_terrain@[i])@)
    &&& texts_increasing(recipe.pre_terrain@.map_values(|s: String| s@))
    &&& construction_result_ok(recipe.result)
}

pub fn valid_construction_recipe(recipe: &ConstructionRecipeV1) -> (r: bool)
    ensures
        r == construction_recipe_ok(*recipe),
{
    if !valid_recipe_id(recipe.construction_id.as_str()) || !bounded_text_is_valid(recipe.name.as_str(), 512)
        || recipe.time_moves == 0 || recipe.time_moves > u64::MAX / 20 || !valid_skill_requirements(
        &recipe.required_skills,
    ) || !valid_component_groups(&recipe.components) || !valid_quality_groups(&recipe.qualities)
        || recipe.pre_terrain.len() > 64 {
        return false;
    }
    let mut i: usize = 0;
    while i < recipe.pre_terrain.len()
        invariant
            i <= recipe.pre_terrain@.len(),
            forall|k: int| 0 <= k < i ==> content_id_ok((#[trigger] recipe.pre_terrain@[k])@),
        decreases recipe.pre_terrain.len() - i,
    {
        if !valid_recipe_id(recipe.pre_terrain[i].as_str()) {
            return false;
        }
        i = i + 1;
    }
    let result_ok = match &recipe.result {
        ConstructionResultV1::Terrain(tile) => valid_terrain_tile(tile),
        ConstructionResultV1::Furniture(tile) => valid_furniture_tile(tile),
    };
    strings_increasing(&recipe.pre_terrain) && result_ok
}

/// At most 8192 valid recipe identifiers in strictly increasing order.
pub open spec fn learned_recipes_ok(recipes: Seq<String>) -> bool {
    &&& recipes.len() <= MAX_LEARNED_RECIPES
    &&& forall|i: int| 0 <= i < recipes.len() ==> content_id_ok((#[trigger] recipes[i])@)
    &&& texts_increasing(recipes.map_values(|s: String| s@))
}

pub fn valid_learned_recipes(recipes: &Vec<String>) -> (r: bool)
    ensures
        r == learned_recipes_ok(recipes@),
{
    if recipes.len() > MAX_LEARNED_RECIPES {
        return false;
    }
    let mut i: usize = 0;
    while i < recipes.len()
        invariant
            i <= recipes@.len(),
            forall|k: int| 0 <= k < i ==> content_id_ok((#[trigger] recipes@[k])@),
        decreases recipes.len() - i,
    {
        if !valid_recipe_id(recipes[i].as_str()) {
            return false;
        }
        i = i + 1;
    }
    strings_increasing(recipes)
}

/// An interrupted or running skill-book study.
#[derive(Clone, Debug, PartialEq, Eq)]
pub struct BookStudyActivitySnapshotV1 {
    pub study: BookStudyV1,
    pub book_item_id: ItemId,
    pub remaining_action_points: u64,
    /// The accepted start command's sequence names this session's RNG.
    pub rng_sequence: CommandSequence,
    pub interrupted: bool,
}

/// The reading time `adjusted_book_study_time_moves` gives, when it gives one.
pub open spec fn adjusted_study_moves(time_moves: u64, requirement: u16, intelligence: u16) -> Option<int> {
    if time_moves == 0 || intelligence == 0 || intelligence > MAX_ACTOR_BASE_STAT || requirement
        > MAX_ACTOR_BASE_STAT || time_moves * study_penalty(requirement as int, intelligence as int) > u64::MAX
        || adjusted_study_time(time_moves as int, requirement as int, intelligence as int) > u64::MAX {
        None
    } else {
        Some(adjusted_study_time(time_moves as int, requirement as int, intelligence as int))
    }
}

/// A valid study of a book the actor owns in its world, under a named RNG
/// stream, with work left that the reader's adjusted time still covers.
pub open spec fn book_study_activity_ok(a: BookStudyActivitySnapshotV1, actor_id: ActorId, intelligence: u16) -> bool {
    &&& book_study_ok(a.study)
    &&& id_counter(a.book_item_id.0) > 0
    &&& id_namespace(a.book_item_id.0) == id_namespace(actor_id.0)
    &&& a.rng_sequence.0 > 0
    &&& a.remaining_action_points > 0
    &&& adjusted_study_moves(a.study.time_moves, a.study.intelligence_requirement, intelligence) matches Some(m)
        && m * ACTION_POINTS_PER_UPSTREAM_MOVE <= u64::MAX && a.remaining_action_points
        <= m * ACTION_POINTS_PER_UPSTREAM_MOVE
}

pub fn valid_book_study_activity(activity: &BookStudyActivitySnapshotV1, actor_id: ActorId, intelligence: u16) -> (r:
    bool)
    ensures
        r == book_study_activity_ok(*activity, actor_id, intelligence),
{
    let maximum = match adjusted_book_study_time_moves(
        activity.study.time_moves,
        activity.study.intelligence_requirement,
        intelligence,
    ) {
        Some(moves) => moves.checked_mul(ACTION_POINTS_PER_UPSTREAM_MOVE as u64),
        None => None,
    };
    valid_book_study(&activity.study) && activity.book_item_id.counter() > 0
        && activity.book_item_id.world_namespace() == actor_id.world_namespace() && activity.rng_sequence.0 > 0
        && activity.remaining_action_points > 0 && match maximum {
        Some(m) => activity.remaining_action_points <= m,
        None => false,
    }
}

} // verus!
