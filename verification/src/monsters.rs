//! Monster prototypes admitted into deterministic world generation.

use vstd::prelude::*;

use crate::creatures::{corpse_prototype_ok, valid_creature_corpse_prototype, CreatureCorpsePrototypeV1};
use crate::graph::{adjacency, bounded_graph_is_valid, graph_bounded};
use crate::text::{str_eq, str_less, text_lt};
use crate::text_map::TextMap;
use crate::worldgen::{
    valid_worldgen_id, worldgen_id_ok, WorldgenCatalogV1, WorldgenMonsterGroupTargetV1,
    WorldgenMonsterGroupV1, MAX_WORLDGEN_MONSTER_GROUPS, MAX_WORLDGEN_MONSTER_GROUP_DEPTH,
    MAX_WORLDGEN_MONSTER_GROUP_ENTRIES, MAX_WORLDGEN_MONSTER_PACK_SIZE,
    MAX_WORLDGEN_MONSTER_PROTOTYPES,
};
use crate::worldgen_parts::{u16_range_ok, valid_worldgen_u16_range};

verus! {

/// One immutable monster type admitted into deterministic generation.
#[derive(Clone, Debug, PartialEq, Eq)]
pub struct WorldgenMonsterPrototypeV1 {
    pub base: CreatureCorpsePrototypeV1,
    /// Whether the complete inherited behavior is admitted for ordinary
    /// runtime creation.
    pub runtime_spawnable: bool,
    pub leaves_corpse: bool,
    /// Concrete item-ID ammunition assigned to each new creature.
    pub starting_ammunition: TextMap<u32>,
    /// Flat resistances in thousandths of one damage point.
    pub armor_milli: TextMap<i32>,
    pub melee_dice_armor_penetration_milli: i32,
    /// Unique typed components added to the rolled ordinary melee hit.
    pub melee_damage: Vec<WorldgenMonsterMeleeDamageUnitV1>,
    /// Effects applied only after an ordinary melee hit deals damage.
    pub attack_effects: Vec<WorldgenMonsterAttackEffectV1>,
    /// ID-sorted special-attack profiles.
    pub special_attacks: Vec<WorldgenMonsterSpecialAttackV1>,
    /// Sorted monster fields not yet consumed by the runtime creature model.
    pub deferred_behavior_fields: Vec<String>,
}

#[derive(Clone, Copy, Debug, PartialEq, Eq, Structural)]
pub enum WorldgenMonsterSpecialAttackKindV1 {
    Melee,
    Bite,
    Leap,
    Eoc,
    Gun,
    Polymorph,
    Spell,
}

#[derive(Clone, Debug, PartialEq, Eq)]
pub struct WorldgenMonsterGunRangeV1 {
    pub minimum: u32,
    pub maximum: u32,
    pub mode_id: String,
    pub shot_count: u16,
}

#[derive(Clone, Debug, PartialEq, Eq)]
pub struct WorldgenMonsterProjectileFieldEffectV1 {
    pub field_type_id: String,
    pub intensity_minimum: u8,
    pub intensity_maximum: u8,
    pub chance_percent: u8,
    pub radius: u8,
    pub check_passable: bool,
}

#[derive(Clone, Debug, PartialEq, Eq)]
pub struct WorldgenMonsterProjectileOnHitEffectV1 {
    pub effect_id: String,
    pub duration_seconds: u64,
    pub intensity: u32,
    pub maximum_accumulated_duration_seconds: u32,
    pub duration_add_percent: u16,
    pub blocked_by_effect_ids: Vec<String>,
}

#[derive(Clone, Debug, PartialEq, Eq)]
pub struct WorldgenMonsterProjectileEffectV1 {
    pub effect_id: String,
    pub trigger_chance_percent: u8,
    pub area_fields: Vec<WorldgenMonsterProjectileFieldEffectV1>,
    pub trail_fields: Vec<WorldgenMonsterProjectileFieldEffectV1>,
    pub on_hit_effects: Vec<WorldgenMonsterProjectileOnHitEffectV1>,
}

#[derive(Clone, Debug, PartialEq, Eq)]
pub struct WorldgenMonsterSpecialAttackV1 {
    pub attack_id: String,
    pub kind: WorldgenMonsterSpecialAttackKindV1,
    pub cooldown_turns: u32,
    pub move_cost_moves: u32,
    /// `None` uses the owning monster's ordinary melee skill.
    pub accuracy: Option<i32>,
    pub range: u32,
    pub no_adjacent: bool,
    pub dodgeable: bool,
    pub minimum_damage_multiplier_millionths: i32,
    pub maximum_damage_multiplier_millionths: i32,
    pub damage: Vec<WorldgenMonsterMeleeDamageUnitV1>,
    pub effects: Vec<WorldgenMonsterAttackEffectV1>,
    pub effects_require_damage: bool,
    pub attack_amount_minimum: u16,
    pub attack_amount_maximum: u16,
    pub spread_damage: bool,
    pub infection_chance_millionths: u32,
    /// Leap distances are thousandths of one map tile.
    pub leap_minimum_range_milli: u32,
    pub leap_maximum_range_milli: u32,
    pub leap_minimum_consider_range_milli: u32,
    pub leap_maximum_consider_range_milli: u32,
    pub leap_allow_no_target: bool,
    pub leap_prefer: bool,
    pub leap_random: bool,
    pub leap_ignore_destination_danger: bool,
    /// Source-ordered immediate effect-on-condition activations.
    pub eoc_ids: Vec<String>,
    /// Concrete target prototype for a polymorph actor; empty otherwise.
    pub polymorph_monster_type_id: String,
    pub polymorph_keep_speed: bool,
    pub polymorph_keep_hp: bool,
    pub polymorph_keep_aggression: bool,
    /// Concrete hostile prototype emitted by a summon spell; empty otherwise.
    pub spell_summoned_monster_type_id: String,
    pub spell_target_self: bool,
    pub spell_no_projectile: bool,
    pub spell_ignore_walls: bool,
    pub spell_minimum_summons: u16,
    pub spell_maximum_summons: u16,
    pub spell_random_summons: bool,
    pub spell_aoe: u8,
    pub spell_field_type_id: String,
    pub spell_field_chance: u32,
    pub spell_field_intensity: u8,
    pub spell_field_intensity_variance_millionths: u32,
    pub spell_field_duration_turns: u32,
    pub spell_targets_hostile: bool,
    pub spell_targets_ground: bool,
    pub spell_targets_self: bool,
    pub gun_type_id: String,
    pub gun_ammunition_type_id: String,
    pub gun_ranges: Vec<WorldgenMonsterGunRangeV1>,
    pub gun_item_range: u32,
    pub gun_dispersion: u32,
    pub gun_sound_volume: u16,
    pub gun_targeting_cost_moves: u32,
    pub gun_require_targeting_player: bool,
    pub gun_targeting_timeout_turns: u32,
    pub gun_targeting_timeout_extend_turns: i32,
    pub gun_targeting_sound: String,
    pub gun_targeting_volume: u16,
    pub gun_laser_lock: bool,
    pub gun_projectile_effects: Vec<WorldgenMonsterProjectileEffectV1>,
    pub gun_no_damage_scaling: bool,
    pub gun_blinds_eyes: bool,
    pub gun_target_moving_vehicles: bool,
}

#[derive(Clone, Debug, PartialEq, Eq)]
pub struct WorldgenMonsterMeleeDamageUnitV1 {
    pub damage_type_id: String,
    pub amount_milli: i32,
    pub armor_penetration_milli: i32,
    pub armor_multiplier_millionths: i32,
    pub damage_multiplier_millionths: i32,
    pub constant_armor_multiplier_millionths: i32,
    pub constant_damage_multiplier_millionths: i32,
}

#[derive(Clone, Debug, PartialEq, Eq)]
pub struct WorldgenMonsterAttackEffectV1 {
    pub effect_id: String,
    pub chance_millionths: u32,
    pub permanent: bool,
    pub affect_hit_body_part: bool,
    /// Used by intrinsic venom effects, which require cut or stab damage.
    pub requires_cut_or_stab_damage: bool,
    pub body_part_id: Option<String>,
    pub duration_minimum_turns: u32,
    pub duration_maximum_turns: u32,
    pub intensity_minimum: u32,
    pub intensity_maximum: u32,
    pub maximum_accumulated_duration_turns: u32,
    pub duration_add_percent: u16,
    /// IDs of active effects that block this application, sorted uniquely.
    pub blocked_by_effect_ids: Vec<String>,
    /// One entry for every rollable intensity, in ascending order.
    pub intensity_applications: Vec<WorldgenMonsterEffectIntensityApplicationV1>,
}

#[derive(Clone, Copy, Debug, PartialEq, Eq, Structural)]
pub struct WorldgenMonsterEffectIntensityApplicationV1 {
    pub intensity: u32,
}

pub open spec fn within_billion(v: i32) -> bool {
    -1_000_000_000 <= v <= 1_000_000_000
}

pub open spec fn distinct_texts(items: Seq<Seq<char>>) -> bool {
    forall|i: int, j: int| 0 <= i < j < items.len() ==> #[trigger] items[i] != #[trigger] items[j]
}

pub open spec fn damage_type_ids(units: Seq<WorldgenMonsterMeleeDamageUnitV1>) -> Seq<Seq<char>> {
    units.map_values(|unit: WorldgenMonsterMeleeDamageUnitV1| unit.damage_type_id@)
}

pub open spec fn damage_unit_ok(unit: WorldgenMonsterMeleeDamageUnitV1) -> bool {
    &&& worldgen_id_ok(unit.damage_type_id@)
    &&& within_billion(unit.amount_milli)
    &&& within_billion(unit.armor_penetration_milli)
    &&& within_billion(unit.armor_multiplier_millionths)
    &&& 0 < unit.damage_multiplier_millionths <= 1_000_000_000
    &&& within_billion(unit.constant_armor_multiplier_millionths)
    &&& within_billion(unit.constant_damage_multiplier_millionths)
}

/// At most 64 damage units with distinct damage types and bounded values.
pub open spec fn damage_units_ok(units: Seq<WorldgenMonsterMeleeDamageUnitV1>) -> bool {
    &&& units.len() <= 64
    &&& distinct_texts(damage_type_ids(units))
    &&& forall|i: int| 0 <= i < units.len() ==> damage_unit_ok(#[trigger] units[i])
}

fn within_billion_exec(v: i32) -> (r: bool)
    ensures
        r == within_billion(v),
{
    -1_000_000_000 <= v && v <= 1_000_000_000
}

pub fn valid_worldgen_monster_damage(units: &Vec<WorldgenMonsterMeleeDamageUnitV1>) -> (r: bool)
    ensures
        r == damage_units_ok(units@),
{
    if units.len() > 64 {
        return false;
    }
    let ghost ids = damage_type_ids(units@);
    let mut i: usize = 0;
    while i < units.len()
        invariant
            i <= units@.len(),
            ids == damage_type_ids(units@),
            forall|a: int, b: int| 0 <= a < b < i ==> #[trigger] ids[a] != #[trigger] ids[b],
            forall|j: int| 0 <= j < i ==> damage_unit_ok(#[trigger] units@[j]),
        decreases units.len() - i,
    {
        let unit = &units[i];
        if !(valid_worldgen_id(unit.damage_type_id.as_str()) && within_billion_exec(unit.amount_milli)
            && within_billion_exec(unit.armor_penetration_milli) && within_billion_exec(unit.armor_multiplier_millionths)
            && 0 < unit.damage_multiplier_millionths && unit.damage_multiplier_millionths <= 1_000_000_000
            && within_billion_exec(unit.constant_armor_multiplier_millionths)
            && within_billion_exec(unit.constant_damage_multiplier_millionths)) {
            return false;
        }
        let mut j: usize = 0;
        while j < i
            invariant
                j <= i,
                forall|a: int| 0 <= a < j ==> ids[a] != ids[i as int],
            decreases i - j,
        {
            if str_eq(units[j].damage_type_id.as_str(), unit.damage_type_id.as_str()) {
                assert(ids[j as int] == ids[i as int]);
                return false;
            }
            j = j + 1;
        }
        i = i + 1;
    }
    true
}

pub open spec fn attack_effect_ok(effect: WorldgenMonsterAttackEffectV1) -> bool {
    let blocked = effect.blocked_by_effect_ids@;
    let count = effect.intensity_maximum - effect.intensity_minimum + 1;
    &&& worldgen_id_ok(effect.effect_id@)
    &&& effect.chance_millionths <= 1_000_000
    &&& (effect.body_part_id matches Some(id) ==> worldgen_id_ok(id@))
    &&& effect.duration_minimum_turns <= effect.duration_maximum_turns
    &&& effect.duration_maximum_turns <= 1_000_000_000
    &&& effect.intensity_minimum > 0
    &&& effect.intensity_minimum <= effect.intensity_maximum
    &&& effect.intensity_maximum <= 1_000_000
    &&& effect.maximum_accumulated_duration_turns > 0
    &&& effect.duration_add_percent <= 1_000
    &&& blocked.len() <= 64
    &&& forall|i: int| 0 <= i < blocked.len() - 1 ==> text_lt(#[trigger] blocked[i]@, blocked[i + 1]@)
    &&& forall|i: int| 0 <= i < blocked.len() ==> worldgen_id_ok((#[trigger] blocked[i])@)
    &&& count <= 64
    &&& effect.intensity_applications@.len() == count
    &&& forall|i: int| 0 <= i < effect.intensity_applications@.len() ==> 0 < (#[trigger] effect.intensity_applications@[i]).intensity <= 1_000_000
}

/// At most 64 effects, each with bounded chance, durations, intensities,
/// sorted blocking IDs, and one application per rollable intensity.
pub open spec fn attack_effects_ok(effects: Seq<WorldgenMonsterAttackEffectV1>) -> bool {
    effects.len() <= 64 && forall|i: int| 0 <= i < effects.len() ==> attack_effect_ok(#[trigger] effects[i])
}

fn attack_effect_is_ok(effect: &WorldgenMonsterAttackEffectV1) -> (r: bool)
    ensures
        r == attack_effect_ok(*effect),
{
    let body_ok = match &effect.body_part_id {
        Some(id) => valid_worldgen_id(id.as_str()),
        None => true,
    };
    if !(valid_worldgen_id(effect.effect_id.as_str()) && effect.chance_millionths <= 1_000_000 && body_ok
        && effect.duration_minimum_turns <= effect.duration_maximum_turns && effect.duration_maximum_turns <= 1_000_000_000
        && effect.intensity_minimum > 0 && effect.intensity_minimum <= effect.intensity_maximum
        && effect.intensity_maximum <= 1_000_000 && effect.maximum_accumulated_duration_turns > 0
        && effect.duration_add_percent <= 1_000 && effect.blocked_by_effect_ids.len() <= 64) {
        return false;
    }
    let blocked = &effect.blocked_by_effect_ids;
    let mut i: usize = 0;
    while i < blocked.len()
        invariant
            i <= blocked@.len(),
            forall|j: int| 0 <= j < i - 1 && j < blocked@.len() - 1 ==> text_lt(#[trigger] blocked@[j]@, blocked@[j + 1]@),
            forall|j: int| 0 <= j < i ==> worldgen_id_ok((#[trigger] blocked@[j])@),
        decreases blocked.len() - i,
    {
        if i > 0 && !str_less(blocked[i - 1].as_str(), blocked[i].as_str()) {
            assert(blocked@[(i - 1) as int + 1] == blocked@[i as int]);
            return false;
        }
        if !valid_worldgen_id(blocked[i].as_str()) {
            return false;
        }
        i = i + 1;
    }
    let count = (effect.intensity_maximum - effect.intensity_minimum) as usize + 1;
    if count > 64 || effect.intensity_applications.len() != count {
        return false;
    }
    let mut i: usize = 0;
    while i < effect.intensity_applications.len()
        invariant
            i <= effect.intensity_applications@.len(),
            forall|j: int| 0 <= j < i ==> 0 < (#[trigger] effect.intensity_applications@[j]).intensity <= 1_000_000,
        decreases effect.intensity_applications.len() - i,
    {
        let intensity = effect.intensity_applications[i].intensity;
        if intensity == 0 || intensity > 1_000_000 {
            return false;
        }
        i = i + 1;
    }
    true
}

pub fn valid_worldgen_monster_effects(effects: &Vec<WorldgenMonsterAttackEffectV1>) -> (r: bool)
    ensures
        r == attack_effects_ok(effects@),
{
    if effects.len() > 64 {
        return false;
    }
    let mut i: usize = 0;
    while i < effects.len()
        invariant
            i <= effects@.len(),
            forall|j: int| 0 <= j < i ==> attack_effect_ok(#[trigger] effects@[j]),
        decreases effects.len() - i,
    {
        if !attack_effect_is_ok(&effects[i]) {
            return false;
        }
        i = i + 1;
    }
    true
}

/// No gun profile at all.
pub open spec fn gun_empty(a: WorldgenMonsterSpecialAttackV1) -> bool {
    &&& a.gun_type_id@.len() == 0
    &&& a.gun_ammunition_type_id@.len() == 0
    &&& a.gun_ranges@.len() == 0
    &&& a.gun_item_range == 0
    &&& a.gun_dispersion == 0
    &&& a.gun_sound_volume == 0
    &&& a.gun_targeting_cost_moves == 0
    &&& !a.gun_require_targeting_player
    &&& a.gun_targeting_timeout_turns == 0
    &&& a.gun_targeting_timeout_extend_turns == 0
    &&& a.gun_targeting_sound@.len() == 0
    &&& a.gun_targeting_volume == 0
    &&& !a.gun_laser_lock
    &&& a.gun_projectile_effects@.len() == 0
    &&& !a.gun_no_damage_scaling
    &&& !a.gun_blinds_eyes
    &&& !a.gun_target_moving_vehicles
}

/// No leap profile at all.
pub open spec fn leap_empty(a: WorldgenMonsterSpecialAttackV1) -> bool {
    &&& a.leap_minimum_range_milli == 0
    &&& a.leap_maximum_range_milli == 0
    &&& a.leap_minimum_consider_range_milli == 0
    &&& a.leap_maximum_consider_range_milli == 0
    &&& !a.leap_allow_no_target
    &&& !a.leap_prefer
    &&& !a.leap_random
    &&& !a.leap_ignore_destination_danger
}

pub open spec fn polymorph_empty(a: WorldgenMonsterSpecialAttackV1) -> bool {
    a.polymorph_monster_type_id@.len() == 0 && !a.polymorph_keep_speed && !a.polymorph_keep_hp && !a.polymorph_keep_aggression
}

pub open spec fn spell_field_empty(a: WorldgenMonsterSpecialAttackV1) -> bool {
    &&& a.spell_field_type_id@.len() == 0
    &&& a.spell_field_chance == 0
    &&& a.spell_field_intensity == 0
    &&& a.spell_field_intensity_variance_millionths == 0
    &&& a.spell_field_duration_turns == 0
}

pub open spec fn spell_empty(a: WorldgenMonsterSpecialAttackV1) -> bool {
    &&& a.spell_summoned_monster_type_id@.len() == 0
    &&& !a.spell_target_self
    &&& !a.spell_no_projectile
    &&& !a.spell_ignore_walls
    &&& a.spell_minimum_summons == 0
    &&& a.spell_maximum_summons == 0
    &&& !a.spell_random_summons
    &&& a.spell_aoe == 0
    &&& spell_field_empty(a)
    &&& !a.spell_targets_hostile
    &&& !a.spell_targets_ground
    &&& !a.spell_targets_self
}

pub open spec fn spell_field_ok(a: WorldgenMonsterSpecialAttackV1) -> bool {
    &&& worldgen_id_ok(a.spell_field_type_id@)
    &&& 1 <= a.spell_field_chance <= 1_000_000
    &&& a.spell_field_intensity > 0
    &&& a.spell_field_intensity_variance_millionths <= 1_000_000
    &&& a.spell_field_duration_turns <= 10_000_000
}

pub open spec fn no_damage_payload(a: WorldgenMonsterSpecialAttackV1) -> bool {
    a.minimum_damage_multiplier_millionths == 0 && a.maximum_damage_multiplier_millionths == 0 && a.damage@.len() == 0
}

/// A permanent summon of identical hostile monsters around the target.
pub open spec fn spell_summon_ok(a: WorldgenMonsterSpecialAttackV1) -> bool {
    &&& worldgen_id_ok(a.spell_summoned_monster_type_id@)
    &&& 1 <= a.spell_minimum_summons <= 64
    &&& a.spell_minimum_summons <= a.spell_maximum_summons
    &&& a.spell_maximum_summons <= 64
    &&& !a.spell_random_summons
    &&& a.spell_minimum_summons == a.spell_maximum_summons
    &&& 1 <= a.spell_aoe <= 32
    &&& no_damage_payload(a)
    &&& a.effects@.len() == 0
    &&& a.eoc_ids@.len() == 0
    &&& a.spell_targets_ground
    &&& !a.spell_targets_hostile
    &&& spell_field_empty(a)
}

/// A single guaranteed fixed-duration status effect on a hostile target.
pub open spec fn spell_status_ok(a: WorldgenMonsterSpecialAttackV1) -> bool {
    &&& a.spell_summoned_monster_type_id@.len() == 0
    &&& !a.spell_target_self
    &&& a.spell_minimum_summons == 0
    &&& a.spell_maximum_summons == 0
    &&& !a.spell_random_summons
    &&& no_damage_payload(a)
    &&& a.effects@.len() == 1
    &&& a.effects@[0].chance_millionths == 1_000_000
    &&& !a.effects@[0].permanent
    &&& !a.effects@[0].affect_hit_body_part
    &&& !a.effects@[0].requires_cut_or_stab_damage
    &&& a.effects@[0].body_part_id is None
    &&& a.effects@[0].duration_minimum_turns > 0
    &&& a.effects@[0].duration_minimum_turns == a.effects@[0].duration_maximum_turns
    &&& a.effects@[0].intensity_minimum == 1
    &&& a.effects@[0].intensity_maximum == 1
    &&& a.eoc_ids@.len() == 0
    &&& a.spell_aoe == 0
    &&& a.spell_targets_hostile
    &&& !a.spell_targets_ground
    &&& !a.spell_targets_self
    &&& (spell_field_empty(a) || spell_field_ok(a))
}

/// A hostile-targeted spell whose whole effect is its activations.
pub open spec fn spell_eoc_ok(a: WorldgenMonsterSpecialAttackV1) -> bool {
    &&& a.spell_summoned_monster_type_id@.len() == 0
    &&& !a.spell_target_self
    &&& !a.spell_targets_ground
    &&& a.spell_minimum_summons == 0
    &&& a.spell_maximum_summons == 0
    &&& !a.spell_random_summons
    &&& no_damage_payload(a)
    &&& a.effects@.len() == 0
    &&& a.eoc_ids@.len() > 0
    &&& a.spell_aoe == 0
    &&& a.spell_targets_hostile
    &&& !a.spell_targets_self
    &&& spell_field_empty(a)
}

pub open spec fn spell_ok(a: WorldgenMonsterSpecialAttackV1) -> bool {
    &&& a.spell_aoe <= 32
    &&& ((a.spell_target_self && a.range == 0) || (!a.spell_target_self && a.range > 0))
    &&& (a.spell_targets_hostile || a.spell_targets_ground || a.spell_targets_self)
    &&& (spell_summon_ok(a) || spell_status_ok(a) || spell_eoc_ok(a))
}

/// What each kind of special attack admits beyond the common bounds.
pub open spec fn attack_kind_ok(a: WorldgenMonsterSpecialAttackV1) -> bool {
    match a.kind {
        WorldgenMonsterSpecialAttackKindV1::Leap => {
            &&& gun_empty(a)
            &&& a.damage@.len() == 0
            &&& a.effects@.len() == 0
            &&& a.attack_amount_minimum == 1
            &&& a.attack_amount_maximum == 1
            &&& !a.spread_damage
            &&& a.eoc_ids@.len() == 0
            &&& a.leap_maximum_range_milli > 0
            &&& a.leap_maximum_range_milli <= 100_000
            &&& a.leap_minimum_range_milli <= a.leap_maximum_range_milli
            &&& a.leap_minimum_consider_range_milli <= a.leap_maximum_consider_range_milli
        },
        WorldgenMonsterSpecialAttackKindV1::Melee | WorldgenMonsterSpecialAttackKindV1::Bite => {
            gun_empty(a) && leap_empty(a) && a.kind == WorldgenMonsterSpecialAttackKindV1::Melee && a.range == 1
        },
        WorldgenMonsterSpecialAttackKindV1::Eoc => {
            &&& gun_empty(a)
            &&& a.move_cost_moves == 0
            &&& a.accuracy is None
            &&& !a.no_adjacent
            &&& !a.dodgeable
            &&& no_damage_payload(a)
            &&& a.effects@.len() == 0
            &&& a.attack_amount_minimum == 1
            &&& a.attack_amount_maximum == 1
            &&& !a.spread_damage
            &&& a.infection_chance_millionths == 0
            &&& leap_empty(a)
            &&& a.eoc_ids@.len() > 0
        },
        WorldgenMonsterSpecialAttackKindV1::Gun => false,
        WorldgenMonsterSpecialAttackKindV1::Polymorph => {
            &&& a.move_cost_moves == 0
            &&& a.range == 0
            &&& a.accuracy is None
            &&& !a.no_adjacent
            &&& !a.dodgeable
            &&& no_damage_payload(a)
            &&& a.effects@.len() == 0
            &&& !a.effects_require_damage
            &&& a.infection_chance_millionths == 0
            &&& leap_empty(a)
            &&& a.eoc_ids@.len() == 0
            &&& gun_empty(a)
        },
        WorldgenMonsterSpecialAttackKindV1::Spell => {
            &&& a.accuracy is None
            &&& !a.no_adjacent
            &&& !a.dodgeable
            &&& !a.effects_require_damage
            &&& a.infection_chance_millionths == 0
            &&& leap_empty(a)
            &&& polymorph_empty(a)
            &&& gun_empty(a)
        },
    }
}

pub open spec fn is_melee_or_bite(kind: WorldgenMonsterSpecialAttackKindV1) -> bool {
    kind == WorldgenMonsterSpecialAttackKindV1::Melee || kind == WorldgenMonsterSpecialAttackKindV1::Bite
}

/// The bounds common to every special attack, the polymorph and spell
/// profiles, and the kind-specific admission rules.
pub open spec fn special_attack_ok(a: WorldgenMonsterSpecialAttackV1) -> bool {
    &&& worldgen_id_ok(a.attack_id@)
    &&& a.cooldown_turns <= 1_000_000_000
    &&& a.move_cost_moves <= 1_000_000_000
    &&& (a.accuracy matches Some(accuracy) ==> 0 <= accuracy <= 1_000_000)
    &&& (((a.kind == WorldgenMonsterSpecialAttackKindV1::Polymorph || (a.kind == WorldgenMonsterSpecialAttackKindV1::Spell && a.spell_target_self)) && a.range == 0)
        || (1 <= a.range <= 1_000_000))
    &&& 0 <= a.minimum_damage_multiplier_millionths <= 1_000_000_000
    &&& a.minimum_damage_multiplier_millionths <= a.maximum_damage_multiplier_millionths
    &&& a.maximum_damage_multiplier_millionths <= 1_000_000_000
    &&& damage_units_ok(a.damage@)
    &&& attack_effects_ok(a.effects@)
    &&& a.attack_amount_minimum > 0
    &&& a.attack_amount_minimum <= a.attack_amount_maximum
    &&& a.attack_amount_maximum <= 64
    &&& (is_melee_or_bite(a.kind) || (a.attack_amount_minimum == 1 && a.attack_amount_maximum == 1 && !a.spread_damage))
    &&& forall|i: int| 0 <= i < a.eoc_ids@.len() ==> worldgen_id_ok((#[trigger] a.eoc_ids@[i])@)
    &&& (if a.kind == WorldgenMonsterSpecialAttackKindV1::Polymorph { worldgen_id_ok(a.polymorph_monster_type_id@) } else { polymorph_empty(a) })
    &&& (if a.kind == WorldgenMonsterSpecialAttackKindV1::Spell { spell_ok(a) } else { spell_empty(a) })
    &&& a.gun_ranges@.len() <= 64
    &&& a.infection_chance_millionths <= 1_000_000
    &&& (a.kind == WorldgenMonsterSpecialAttackKindV1::Bite || a.infection_chance_millionths == 0)
    &&& attack_kind_ok(a)
}

fn gun_is_empty(a: &WorldgenMonsterSpecialAttackV1) -> (r: bool)
    ensures
        r == gun_empty(*a),
{
    a.gun_type_id.as_str().is_empty() && a.gun_ammunition_type_id.as_str().is_empty() && a.gun_ranges.len() == 0
        && a.gun_item_range == 0 && a.gun_dispersion == 0 && a.gun_sound_volume == 0 && a.gun_targeting_cost_moves == 0
        && !a.gun_require_targeting_player && a.gun_targeting_timeout_turns == 0 && a.gun_targeting_timeout_extend_turns == 0
        && a.gun_targeting_sound.as_str().is_empty() && a.gun_targeting_volume == 0 && !a.gun_laser_lock
        && a.gun_projectile_effects.len() == 0 && !a.gun_no_damage_scaling && !a.gun_blinds_eyes && !a.gun_target_moving_vehicles
}

fn leap_is_empty(a: &WorldgenMonsterSpecialAttackV1) -> (r: bool)
    ensures
        r == leap_empty(*a),
{
    a.leap_minimum_range_milli == 0 && a.leap_maximum_range_milli == 0 && a.leap_minimum_consider_range_milli == 0
        && a.leap_maximum_consider_range_milli == 0 && !a.leap_allow_no_target && !a.leap_prefer && !a.leap_random
        && !a.leap_ignore_destination_danger
}

fn polymorph_is_empty(a: &WorldgenMonsterSpecialAttackV1) -> (r: bool)
    ensures
        r == polymorph_empty(*a),
{
    a.polymorph_monster_type_id.as_str().is_empty() && !a.polymorph_keep_speed && !a.polymorph_keep_hp && !a.polymorph_keep_aggression
}

fn spell_field_is_empty(a: &WorldgenMonsterSpecialAttackV1) -> (r: bool)
    ensures
        r == spell_field_empty(*a),
{
    a.spell_field_type_id.as_str().is_empty() && a.spell_field_chance == 0 && a.spell_field_intensity == 0
        && a.spell_field_intensity_variance_millionths == 0 && a.spell_field_duration_turns == 0
}

fn spell_is_empty(a: &WorldgenMonsterSpecialAttackV1) -> (r: bool)
    ensures
        r == spell_empty(*a),
{
    a.spell_summoned_monster_type_id.as_str().is_empty() && !a.spell_target_self && !a.spell_no_projectile
        && !a.spell_ignore_walls && a.spell_minimum_summons == 0 && a.spell_maximum_summons == 0 && !a.spell_random_summons
        && a.spell_aoe == 0 && spell_field_is_empty(a) && !a.spell_targets_hostile && !a.spell_targets_ground
        && !a.spell_targets_self
}

fn spell_is_ok(a: &WorldgenMonsterSpecialAttackV1) -> (r: bool)
    ensures
        r == spell_ok(*a),
{
    let no_damage = a.minimum_damage_multiplier_millionths == 0 && a.maximum_damage_multiplier_millionths == 0 && a.damage.len() == 0;
    let no_field = spell_field_is_empty(a);
    let field = valid_worldgen_id(a.spell_field_type_id.as_str()) && 1 <= a.spell_field_chance && a.spell_field_chance <= 1_000_000
        && a.spell_field_intensity > 0 && a.spell_field_intensity_variance_millionths <= 1_000_000
        && a.spell_field_duration_turns <= 10_000_000;
    let summon = valid_worldgen_id(a.spell_summoned_monster_type_id.as_str()) && 1 <= a.spell_minimum_summons
        && a.spell_minimum_summons <= 64 && a.spell_minimum_summons <= a.spell_maximum_summons && a.spell_maximum_summons <= 64
        && !a.spell_random_summons && a.spell_minimum_summons == a.spell_maximum_summons && 1 <= a.spell_aoe && a.spell_aoe <= 32
        && no_damage && a.effects.len() == 0 && a.eoc_ids.len() == 0 && a.spell_targets_ground && !a.spell_targets_hostile && no_field;
    let status = a.spell_summoned_monster_type_id.as_str().is_empty() && !a.spell_target_self && a.spell_minimum_summons == 0
        && a.spell_maximum_summons == 0 && !a.spell_random_summons && no_damage && a.effects.len() == 1
        && a.effects[0].chance_millionths == 1_000_000 && !a.effects[0].permanent && !a.effects[0].affect_hit_body_part
        && !a.effects[0].requires_cut_or_stab_damage && a.effects[0].body_part_id.is_none()
        && a.effects[0].duration_minimum_turns > 0 && a.effects[0].duration_minimum_turns == a.effects[0].duration_maximum_turns
        && a.effects[0].intensity_minimum == 1 && a.effects[0].intensity_maximum == 1 && a.eoc_ids.len() == 0
        && a.spell_aoe == 0 && a.spell_targets_hostile && !a.spell_targets_ground && !a.spell_targets_self && (no_field || field);
    let eoc = a.spell_summoned_monster_type_id.as_str().is_empty() && !a.spell_target_self && !a.spell_targets_ground
        && a.spell_minimum_summons == 0 && a.spell_maximum_summons == 0 && !a.spell_random_summons && no_damage
        && a.effects.len() == 0 && a.eoc_ids.len() > 0 && a.spell_aoe == 0 && a.spell_targets_hostile && !a.spell_targets_self
        && no_field;
    a.spell_aoe <= 32 && ((a.spell_target_self && a.range == 0) || (!a.spell_target_self && a.range > 0))
        && (a.spell_targets_hostile || a.spell_targets_ground || a.spell_targets_self) && (summon || status || eoc)
}

fn attack_kind_is_ok(a: &WorldgenMonsterSpecialAttackV1) -> (r: bool)
    ensures
        r == attack_kind_ok(*a),
{
    let no_damage = a.minimum_damage_multiplier_millionths == 0 && a.maximum_damage_multiplier_millionths == 0 && a.damage.len() == 0;
    match a.kind {
        WorldgenMonsterSpecialAttackKindV1::Leap => {
            gun_is_empty(a) && a.damage.len() == 0 && a.effects.len() == 0 && a.attack_amount_minimum == 1
                && a.attack_amount_maximum == 1 && !a.spread_damage && a.eoc_ids.len() == 0 && a.leap_maximum_range_milli > 0
                && a.leap_maximum_range_milli <= 100_000 && a.leap_minimum_range_milli <= a.leap_maximum_range_milli
                && a.leap_minimum_consider_range_milli <= a.leap_maximum_consider_range_milli
        },
        WorldgenMonsterSpecialAttackKindV1::Melee | WorldgenMonsterSpecialAttackKindV1::Bite => {
            gun_is_empty(a) && leap_is_empty(a) && a.kind == WorldgenMonsterSpecialAttackKindV1::Melee && a.range == 1
        },
        WorldgenMonsterSpecialAttackKindV1::Eoc => {
            gun_is_empty(a) && a.move_cost_moves == 0 && a.accuracy.is_none() && !a.no_adjacent && !a.dodgeable && no_damage
                && a.effects.len() == 0 && a.attack_amount_minimum == 1 && a.attack_amount_maximum == 1 && !a.spread_damage
                && a.infection_chance_millionths == 0 && leap_is_empty(a) && a.eoc_ids.len() > 0
        },
        WorldgenMonsterSpecialAttackKindV1::Gun => false,
        WorldgenMonsterSpecialAttackKindV1::Polymorph => {
            a.move_cost_moves == 0 && a.range == 0 && a.accuracy.is_none() && !a.no_adjacent && !a.dodgeable && no_damage
                && a.effects.len() == 0 && !a.effects_require_damage && a.infection_chance_millionths == 0 && leap_is_empty(a)
                && a.eoc_ids.len() == 0 && gun_is_empty(a)
        },
        WorldgenMonsterSpecialAttackKindV1::Spell => {
            a.accuracy.is_none() && !a.no_adjacent && !a.dodgeable && !a.effects_require_damage
                && a.infection_chance_millionths == 0 && leap_is_empty(a) && polymorph_is_empty(a) && gun_is_empty(a)
        },
    }
}

pub fn valid_worldgen_special_attack(a: &WorldgenMonsterSpecialAttackV1) -> (r: bool)
    ensures
        r == special_attack_ok(*a),
{
    let accuracy_ok = match a.accuracy {
        Some(accuracy) => 0 <= accuracy && accuracy <= 1_000_000,
        None => true,
    };
    let is_polymorph = a.kind == WorldgenMonsterSpecialAttackKindV1::Polymorph;
    let is_spell = a.kind == WorldgenMonsterSpecialAttackKindV1::Spell;
    let melee_or_bite = a.kind == WorldgenMonsterSpecialAttackKindV1::Melee || a.kind == WorldgenMonsterSpecialAttackKindV1::Bite;
    if !(valid_worldgen_id(a.attack_id.as_str()) && a.cooldown_turns <= 1_000_000_000 && a.move_cost_moves <= 1_000_000_000
        && accuracy_ok && (((is_polymorph || (is_spell && a.spell_target_self)) && a.range == 0) || (1 <= a.range && a.range <= 1_000_000))
        && 0 <= a.minimum_damage_multiplier_millionths && a.minimum_damage_multiplier_millionths <= 1_000_000_000
        && a.minimum_damage_multiplier_millionths <= a.maximum_damage_multiplier_millionths
        && a.maximum_damage_multiplier_millionths <= 1_000_000_000 && valid_worldgen_monster_damage(&a.damage)
        && valid_worldgen_monster_effects(&a.effects) && a.attack_amount_minimum > 0
        && a.attack_amount_minimum <= a.attack_amount_maximum && a.attack_amount_maximum <= 64
        && (melee_or_bite || (a.attack_amount_minimum == 1 && a.attack_amount_maximum == 1 && !a.spread_damage))) {
        return false;
    }
    let mut i: usize = 0;
    while i < a.eoc_ids.len()
        invariant
            i <= a.eoc_ids@.len(),
            forall|j: int| 0 <= j < i ==> worldgen_id_ok((#[trigger] a.eoc_ids@[j])@),
        decreases a.eoc_ids.len() - i,
    {
        if !valid_worldgen_id(a.eoc_ids[i].as_str()) {
            return false;
        }
        i = i + 1;
    }
    let polymorph_ok = if is_polymorph { valid_worldgen_id(a.polymorph_monster_type_id.as_str()) } else { polymorph_is_empty(a) };
    let spell = if is_spell { spell_is_ok(a) } else { spell_is_empty(a) };
    polymorph_ok && spell && a.gun_ranges.len() <= 64 && a.infection_chance_millionths <= 1_000_000
        && (a.kind == WorldgenMonsterSpecialAttackKindV1::Bite || a.infection_chance_millionths == 0) && attack_kind_is_ok(a)
}

pub open spec fn ids_sorted(ids: Seq<String>) -> bool {
    forall|i: int| 0 <= i < ids.len() - 1 ==> text_lt(#[trigger] ids[i]@, ids[i + 1]@)
}

pub open spec fn monster_prototype_ok(p: WorldgenMonsterPrototypeV1) -> bool {
    let ammunition = p.starting_ammunition.view_entries();
    let armor = p.armor_milli.view_entries();
    let attacks = p.special_attacks@;
    let deferred = p.deferred_behavior_fields@;
    &&& corpse_prototype_ok(p.base)
    &&& worldgen_id_ok(p.base.monster_type_id@)
    &&& ammunition.len() <= 256
    &&& forall|i: int| 0 <= i < ammunition.len() ==> worldgen_id_ok((#[trigger] ammunition[i]).0) && ammunition[i].1 <= 1_000_000_000
    &&& armor.len() <= 64
    &&& forall|i: int| 0 <= i < armor.len() ==> worldgen_id_ok((#[trigger] armor[i]).0) && within_billion(armor[i].1)
    &&& within_billion(p.melee_dice_armor_penetration_milli)
    &&& damage_units_ok(p.melee_damage@)
    &&& attack_effects_ok(p.attack_effects@)
    &&& attacks.len() <= 64
    &&& forall|i: int| 0 <= i < attacks.len() - 1 ==> text_lt(#[trigger] attacks[i].attack_id@, attacks[i + 1].attack_id@)
    &&& forall|i: int| 0 <= i < attacks.len() ==> special_attack_ok(#[trigger] attacks[i])
    &&& p.runtime_spawnable == (deferred.len() == 0)
    &&& deferred.len() <= 1_024
    &&& ids_sorted(deferred)
    &&& forall|i: int| 0 <= i < deferred.len() ==> worldgen_id_ok((#[trigger] deferred[i])@)
}

pub fn valid_worldgen_monster_prototype(p: &WorldgenMonsterPrototypeV1) -> (r: bool)
    ensures
        r == monster_prototype_ok(*p),
{
    if !valid_creature_corpse_prototype(&p.base) || !valid_worldgen_id(p.base.monster_type_id.as_str())
        || p.starting_ammunition.len() > 256 || p.armor_milli.len() > 64 || !within_billion_exec(p.melee_dice_armor_penetration_milli)
        || !valid_worldgen_monster_damage(&p.melee_damage) || !valid_worldgen_monster_effects(&p.attack_effects)
        || p.special_attacks.len() > 64 || p.runtime_spawnable != (p.deferred_behavior_fields.len() == 0)
        || p.deferred_behavior_fields.len() > 1_024 {
        return false;
    }
    let mut i: usize = 0;
    while i < p.starting_ammunition.len()
        invariant
            i <= p.starting_ammunition.view_entries().len(),
            forall|j: int| 0 <= j < i ==> worldgen_id_ok((#[trigger] p.starting_ammunition.view_entries()[j]).0)
                && p.starting_ammunition.view_entries()[j].1 <= 1_000_000_000,
        decreases p.starting_ammunition.view_entries().len() - i,
    {
        let (id, amount) = p.starting_ammunition.entry_at(i);
        if !valid_worldgen_id(id) || *amount > 1_000_000_000 {
            return false;
        }
        i = i + 1;
    }
    let mut i: usize = 0;
    while i < p.armor_milli.len()
        invariant
            i <= p.armor_milli.view_entries().len(),
            forall|j: int| 0 <= j < i ==> worldgen_id_ok((#[trigger] p.armor_milli.view_entries()[j]).0)
                && within_billion(p.armor_milli.view_entries()[j].1),
        decreases p.armor_milli.view_entries().len() - i,
    {
        let (id, resistance) = p.armor_milli.entry_at(i);
        if !valid_worldgen_id(id) || !within_billion_exec(*resistance) {
            return false;
        }
        i = i + 1;
    }
    let attacks = &p.special_attacks;
    let mut i: usize = 0;
    while i < attacks.len()
        invariant
            i <= attacks@.len(),
            forall|j: int| 0 <= j < i - 1 && j < attacks@.len() - 1 ==> text_lt(#[trigger] attacks@[j].attack_id@, attacks@[j + 1].attack_id@),
            forall|j: int| 0 <= j < i ==> special_attack_ok(#[trigger] attacks@[j]),
        decreases attacks.len() - i,
    {
        if i > 0 && !str_less(attacks[i - 1].attack_id.as_str(), attacks[i].attack_id.as_str()) {
            assert(attacks@[(i - 1) as int + 1] == attacks@[i as int]);
            return false;
        }
        if !valid_worldgen_special_attack(&attacks[i]) {
            return false;
        }
        i = i + 1;
    }
    let deferred = &p.deferred_behavior_fields;
    let mut i: usize = 0;
    while i < deferred.len()
        invariant
            i <= deferred@.len(),
            forall|j: int| 0 <= j < i - 1 && j < deferred@.len() - 1 ==> text_lt(#[trigger] deferred@[j]@, deferred@[j + 1]@),
            forall|j: int| 0 <= j < i ==> worldgen_id_ok((#[trigger] deferred@[j])@),
        decreases deferred.len() - i,
    {
        if i > 0 && !str_less(deferred[i - 1].as_str(), deferred[i].as_str()) {
            assert(deferred@[(i - 1) as int + 1] == deferred@[i as int]);
            return false;
        }
        if !valid_worldgen_id(deferred[i].as_str()) {
            return false;
        }
        i = i + 1;
    }
    true
}

/// The prototype a polymorph or summoning spell depends on.
pub open spec fn attack_dependency(a: WorldgenMonsterSpecialAttackV1) -> Option<Seq<char>> {
    match a.kind {
        WorldgenMonsterSpecialAttackKindV1::Polymorph => Some(a.polymorph_monster_type_id@),
        WorldgenMonsterSpecialAttackKindV1::Spell => if a.spell_summoned_monster_type_id@.len() > 0 {
            Some(a.spell_summoned_monster_type_id@)
        } else {
            None
        },
        _ => None,
    }
}

/// A dependency exists, and a runtime-spawnable monster depends only on
/// runtime-spawnable ones.
pub open spec fn dependency_ok(prototypes: Seq<WorldgenMonsterPrototypeV1>, p: WorldgenMonsterPrototypeV1, a: WorldgenMonsterSpecialAttackV1) -> bool {
    match attack_dependency(a) {
        None => true,
        Some(id) => exists|d: int| 0 <= d < prototypes.len() && (#[trigger] prototypes[d]).base.monster_type_id@ == id
            && !(p.runtime_spawnable && !prototypes[d].runtime_spawnable),
    }
}

pub open spec fn group_targets(entries: Seq<crate::worldgen::WorldgenMonsterGroupEntryV1>) -> Seq<usize>
    decreases entries.len(),
{
    if entries.len() == 0 {
        Seq::empty()
    } else {
        group_targets(entries.drop_last()) + match entries.last().target {
            WorldgenMonsterGroupTargetV1::Group { group_index } => seq![group_index as usize],
            WorldgenMonsterGroupTargetV1::Monster { .. } => Seq::empty(),
        }
    }
}

pub open spec fn group_edges(groups: Seq<WorldgenMonsterGroupV1>) -> Seq<Seq<usize>> {
    Seq::new(groups.len(), |g: int| group_targets(groups[g].entries@))
}

pub open spec fn group_entry_total(groups: Seq<WorldgenMonsterGroupV1>) -> int
    decreases groups.len(),
{
    if groups.len() == 0 { 0 } else { group_entry_total(groups.drop_last()) + groups.last().entries@.len() }
}

pub open spec fn monster_group_ok(group: WorldgenMonsterGroupV1, prototype_count: int, group_count: int) -> bool {
    &&& worldgen_id_ok(group.group_id@)
    &&& group.frequency_total > 0
    &&& (group.default_prototype_index matches Some(index) ==> index < prototype_count)
    &&& forall|k: int| 0 <= k < group.entries@.len() ==> {
        let entry = #[trigger] group.entries@[k];
        &&& entry.weight > 0
        &&& u16_range_ok(entry.pack_size, 1, MAX_WORLDGEN_MONSTER_PACK_SIZE)
        &&& match entry.target {
            WorldgenMonsterGroupTargetV1::Monster { prototype_index } => prototype_index < prototype_count,
            WorldgenMonsterGroupTargetV1::Group { group_index } => group_index < group_count,
        }
    }
}

pub open spec fn has_monster_group(groups: Seq<WorldgenMonsterGroupV1>, id: Seq<char>) -> bool {
    exists|g: int| 0 <= g < groups.len() && (#[trigger] groups[g]).group_id@ == id
}

/// Bounded, sorted, valid prototypes; every special population names a
/// group; attack dependencies exist and respect runtime admission; valid
/// groups with at most 65536 entries in all; and group nesting acyclic
/// within 32 levels.
pub open spec fn monster_catalog_ok(catalog: WorldgenCatalogV1) -> bool {
    let prototypes = catalog.monster_prototypes@;
    let groups = catalog.monster_groups@;
    &&& prototypes.len() <= MAX_WORLDGEN_MONSTER_PROTOTYPES
    &&& groups.len() <= MAX_WORLDGEN_MONSTER_GROUPS
    &&& forall|i: int| 0 <= i < prototypes.len() ==> monster_prototype_ok(#[trigger] prototypes[i])
    &&& forall|i: int| 0 <= i < prototypes.len() - 1 ==> text_lt(#[trigger] prototypes[i].base.monster_type_id@, prototypes[i + 1].base.monster_type_id@)
    &&& forall|i: int| 0 <= i < groups.len() - 1 ==> text_lt(#[trigger] groups[i].group_id@, groups[i + 1].group_id@)
    &&& forall|s: int| 0 <= s < catalog.specials@.len() ==> ((#[trigger] catalog.specials@[s]).population matches Some(population) ==> has_monster_group(groups, population.group_id@))
    &&& forall|i: int, a: int| 0 <= i < prototypes.len() && 0 <= a < prototypes[i].special_attacks@.len() ==> dependency_ok(prototypes, prototypes[i], #[trigger] prototypes[i].special_attacks@[a])
    &&& forall|g: int| 0 <= g < groups.len() ==> monster_group_ok(#[trigger] groups[g], prototypes.len() as int, groups.len() as int)
    &&& group_entry_total(groups) <= MAX_WORLDGEN_MONSTER_GROUP_ENTRIES
    &&& graph_bounded(group_edges(groups), MAX_WORLDGEN_MONSTER_GROUP_DEPTH as nat)
}

fn monster_group_exists(groups: &Vec<WorldgenMonsterGroupV1>, id: &str) -> (r: bool)
    ensures
        r == has_monster_group(groups@, id@),
{
    let mut g: usize = 0;
    while g < groups.len()
        invariant
            g <= groups@.len(),
            forall|j: int| 0 <= j < g ==> (#[trigger] groups@[j]).group_id@ != id@,
        decreases groups.len() - g,
    {
        if str_eq(groups[g].group_id.as_str(), id) {
            return true;
        }
        g = g + 1;
    }
    false
}

fn dependency_is_ok(prototypes: &Vec<WorldgenMonsterPrototypeV1>, p: &WorldgenMonsterPrototypeV1, a: &WorldgenMonsterSpecialAttackV1) -> (r: bool)
    ensures
        r == dependency_ok(prototypes@, *p, *a),
{
    let id = match a.kind {
        WorldgenMonsterSpecialAttackKindV1::Polymorph => a.polymorph_monster_type_id.as_str(),
        WorldgenMonsterSpecialAttackKindV1::Spell => {
            if a.spell_summoned_monster_type_id.as_str().is_empty() {
                return true;
            }
            a.spell_summoned_monster_type_id.as_str()
        },
        _ => return true,
    };
    let mut d: usize = 0;
    while d < prototypes.len()
        invariant
            d <= prototypes@.len(),
            attack_dependency(*a) == Some(id@),
            forall|j: int| 0 <= j < d ==> !((#[trigger] prototypes@[j]).base.monster_type_id@ == id@
                && !(p.runtime_spawnable && !prototypes@[j].runtime_spawnable)),
        decreases prototypes.len() - d,
    {
        if str_eq(prototypes[d].base.monster_type_id.as_str(), id) && !(p.runtime_spawnable && !prototypes[d].runtime_spawnable) {
            return true;
        }
        d = d + 1;
    }
    false
}

proof fn lemma_group_entry_prefix(groups: Seq<WorldgenMonsterGroupV1>, k: int)
    requires
        0 <= k <= groups.len(),
    ensures
        group_entry_total(groups.subrange(0, k)) <= group_entry_total(groups),
    decreases groups.len() - k,
{
    if k < groups.len() {
        assert(groups.subrange(0, k + 1).drop_last() =~= groups.subrange(0, k));
        lemma_group_entry_prefix(groups, k + 1);
    } else {
        assert(groups.subrange(0, k) =~= groups);
    }
}

pub fn valid_worldgen_monster_catalog(catalog: &WorldgenCatalogV1) -> (r: bool)
    ensures
        r == monster_catalog_ok(*catalog),
{
    let prototypes = &catalog.monster_prototypes;
    let groups = &catalog.monster_groups;
    if prototypes.len() > MAX_WORLDGEN_MONSTER_PROTOTYPES || groups.len() > MAX_WORLDGEN_MONSTER_GROUPS {
        return false;
    }
    let mut i: usize = 0;
    while i < prototypes.len()
        invariant
            i <= prototypes@.len(),
            forall|j: int| 0 <= j < i ==> monster_prototype_ok(#[trigger] prototypes@[j]),
            forall|j: int| 0 <= j < i - 1 && j < prototypes@.len() - 1 ==> text_lt(#[trigger] prototypes@[j].base.monster_type_id@, prototypes@[j + 1].base.monster_type_id@),
        decreases prototypes.len() - i,
    {
        if !valid_worldgen_monster_prototype(&prototypes[i]) {
            return false;
        }
        if i > 0 && !str_less(prototypes[i - 1].base.monster_type_id.as_str(), prototypes[i].base.monster_type_id.as_str()) {
            assert(prototypes@[(i - 1) as int + 1] == prototypes@[i as int]);
            return false;
        }
        i = i + 1;
    }
    let mut g: usize = 1;
    while g < groups.len()
        invariant
            1 <= g,
            forall|j: int| 0 <= j < g - 1 && j < groups@.len() - 1 ==> text_lt(#[trigger] groups@[j].group_id@, groups@[j + 1].group_id@),
        decreases groups.len() - g,
    {
        if !str_less(groups[g - 1].group_id.as_str(), groups[g].group_id.as_str()) {
            assert(groups@[(g - 1) as int + 1] == groups@[g as int]);
            return false;
        }
        g = g + 1;
    }
    let mut s: usize = 0;
    while s < catalog.specials.len()
        invariant
            s <= catalog.specials@.len(),
            forall|j: int| 0 <= j < s ==> ((#[trigger] catalog.specials@[j]).population matches Some(population) ==> has_monster_group(groups@, population.group_id@)),
        decreases catalog.specials.len() - s,
    {
        match &catalog.specials[s].population {
            Some(population) => {
                if !monster_group_exists(groups, population.group_id.as_str()) {
                    return false;
                }
            },
            None => {},
        }
        s = s + 1;
    }
    let mut i: usize = 0;
    while i < prototypes.len()
        invariant
            i <= prototypes@.len(),
            forall|j: int, a: int| 0 <= j < i && 0 <= a < prototypes@[j].special_attacks@.len() ==> dependency_ok(prototypes@, prototypes@[j], #[trigger] prototypes@[j].special_attacks@[a]),
        decreases prototypes.len() - i,
    {
        let attacks = &prototypes[i].special_attacks;
        let mut a: usize = 0;
        while a < attacks.len()
            invariant
                a <= attacks@.len(),
                forall|b: int| 0 <= b < a ==> dependency_ok(prototypes@, prototypes@[i as int], #[trigger] attacks@[b]),
            decreases attacks.len() - a,
        {
            if !dependency_is_ok(prototypes, &prototypes[i], &attacks[a]) {
                return false;
            }
            a = a + 1;
        }
        i = i + 1;
    }
    let mut count: usize = 0;
    let mut edges: Vec<Vec<usize>> = Vec::new();
    let mut g: usize = 0;
    while g < groups.len()
        invariant
            g <= groups@.len(),
            edges@.len() == g,
            count == group_entry_total(groups@.subrange(0, g as int)),
            count <= MAX_WORLDGEN_MONSTER_GROUP_ENTRIES,
            forall|j: int| 0 <= j < g ==> monster_group_ok(#[trigger] groups@[j], prototypes@.len() as int, groups@.len() as int),
            forall|j: int| 0 <= j < g ==> (#[trigger] edges@[j])@ == group_targets(groups@[j].entries@),
        decreases groups.len() - g,
    {
        assert(groups@.subrange(0, g + 1).drop_last() =~= groups@.subrange(0, g as int));
        let group = &groups[g];
        let default_ok = match group.default_prototype_index {
            Some(index) => (index as usize) < prototypes.len(),
            None => true,
        };
        if !valid_worldgen_id(group.group_id.as_str()) || group.frequency_total == 0 || !default_ok {
            return false;
        }
        if group.entries.len() > MAX_WORLDGEN_MONSTER_GROUP_ENTRIES - count {
            proof {
                lemma_group_entry_prefix(groups@, g + 1);
            }
            return false;
        }
        count = count + group.entries.len();
        let entries = &group.entries;
        let mut row: Vec<usize> = Vec::new();
        let mut k: usize = 0;
        while k < entries.len()
            invariant
                k <= entries@.len(),
                row@ == group_targets(entries@.subrange(0, k as int)),
                forall|m: int| 0 <= m < k ==> {
                    let entry = #[trigger] entries@[m];
                    &&& entry.weight > 0
                    &&& u16_range_ok(entry.pack_size, 1, MAX_WORLDGEN_MONSTER_PACK_SIZE)
                    &&& match entry.target {
                        WorldgenMonsterGroupTargetV1::Monster { prototype_index } => prototype_index < prototypes@.len(),
                        WorldgenMonsterGroupTargetV1::Group { group_index } => group_index < groups@.len(),
                    }
                },
            decreases entries.len() - k,
        {
            assert(entries@.subrange(0, k + 1).drop_last() =~= entries@.subrange(0, k as int));
            let entry = entries[k];
            if entry.weight == 0 || !valid_worldgen_u16_range(entry.pack_size, 1, MAX_WORLDGEN_MONSTER_PACK_SIZE) {
                return false;
            }
            match entry.target {
                WorldgenMonsterGroupTargetV1::Monster { prototype_index } => {
                    if prototype_index as usize >= prototypes.len() {
                        return false;
                    }
                },
                WorldgenMonsterGroupTargetV1::Group { group_index } => {
                    if group_index as usize >= groups.len() {
                        return false;
                    }
                    row.push(group_index as usize);
                },
            }
            assert(row@ =~= group_targets(entries@.subrange(0, k + 1)));
            k = k + 1;
        }
        assert(entries@.subrange(0, k as int) =~= entries@);
        edges.push(row);
        g = g + 1;
    }
    assert(groups@.subrange(0, g as int) =~= groups@);
    assert(adjacency(edges@) =~= group_edges(groups@));
    bounded_graph_is_valid(&edges, MAX_WORLDGEN_MONSTER_GROUP_DEPTH)
}

} // verus!
