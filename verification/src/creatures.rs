//! Static creature prototypes carried by corpses and generated monsters.

use vstd::prelude::*;

use crate::geometry::WorldPosition;
use crate::text::{bounded_text_is_valid, valid_bounded_text};
use crate::time::SimTick;

verus! {

pub const MAX_CRAFT_RECIPE_ID_BYTES: usize = 512;

/// A content identifier: non-empty, at most 512 bytes, no control characters.
pub open spec fn content_id_ok(s: Seq<char>) -> bool {
    valid_bounded_text(s, MAX_CRAFT_RECIPE_ID_BYTES as nat)
}

pub fn valid_recipe_id(recipe_id: &str) -> (r: bool)
    ensures
        r == content_id_ok(recipe_id@),
{
    bounded_text_is_valid(recipe_id, MAX_CRAFT_RECIPE_ID_BYTES)
}

#[derive(Clone, Copy, Debug, PartialEq, Eq, Structural)]
pub struct CreatureSoundGoalV1 {
    pub position: WorldPosition,
    /// Remaining creature actions.
    pub remaining_actions: u32,
}

/// Pathfinding settings. A zero distance disables route search.
#[derive(Clone, Copy, Debug, PartialEq, Eq, Structural)]
pub struct CreaturePathSettingsV1 {
    pub max_distance: u16,
    pub allow_open_doors: bool,
    pub avoid_traps: bool,
    pub avoid_sharp: bool,
    pub avoid_dangerous_fields: bool,
    pub allow_climb_stairs: bool,
}

impl Default for CreaturePathSettingsV1 {
    fn default() -> (r: Self)
        ensures
            r == (CreaturePathSettingsV1 {
                max_distance: 0,
                allow_open_doors: false,
                avoid_traps: false,
                avoid_sharp: false,
                avoid_dangerous_fields: false,
                allow_climb_stairs: true,
            }),
    {
        CreaturePathSettingsV1 {
            max_distance: 0,
            allow_open_doors: false,
            avoid_traps: false,
            avoid_sharp: false,
            avoid_dangerous_fields: false,
            allow_climb_stairs: true,
        }
    }
}

/// Base size derived from a monster type's inherited volume.
#[derive(Clone, Copy, Debug, PartialEq, Eq, Structural, Hash, PartialOrd, Ord)]
pub enum CreatureSizeV1 {
    Tiny,
    Small,
    Medium,
    Large,
    Huge,
}

impl Default for CreatureSizeV1 {
    fn default() -> (r: Self)
        ensures
            r == CreatureSizeV1::Medium,
    {
        CreatureSizeV1::Medium
    }
}

/// Static ordinary-corpse and revival data copied from a monster type.
#[derive(Clone, Debug, PartialEq, Eq)]
pub struct CreatureCorpsePrototypeV1 {
    pub monster_type_id: String,
    pub max_hp: i32,
    pub speed: u16,
    /// Moves spent by an ordinary melee attack.
    pub attack_cost_moves: u16,
    pub aggression: i16,
    pub morale: i32,
    pub melee_skill: u16,
    pub dodge: u16,
    pub size: CreatureSizeV1,
    pub melee_dice: u16,
    pub melee_dice_sides: u16,
    pub can_see: bool,
    pub vision_day: u16,
    pub vision_night: u16,
    pub stumbles: bool,
    pub bashes: bool,
    pub group_bash: bool,
    pub hears: bool,
    pub good_hearing: bool,
    pub clumsy_attacks: bool,
    pub immobile: bool,
    pub pacifist: bool,
    pub can_open_doors: bool,
    pub path_settings: CreaturePathSettingsV1,
    pub blood_field_type_id: String,
    pub revives: bool,
}

#[derive(Clone, Debug, PartialEq, Eq)]
pub struct CreatureCorpseSnapshotV1 {
    pub prototype: CreatureCorpsePrototypeV1,
    pub death_tick: SimTick,
    /// One in twenty reviving corpses get a proximity-gated rise.
    pub revive_special: bool,
    /// False for a corpse damaged enough to be incapable of revival.
    pub revivable: bool,
}

pub open spec fn path_settings_ok(settings: CreaturePathSettingsV1) -> bool {
    settings.max_distance <= 400
}

pub fn valid_creature_path_settings(settings: CreaturePathSettingsV1) -> (r: bool)
    ensures
        r == path_settings_ok(settings),
{
    settings.max_distance <= 400
}

pub open spec fn corpse_prototype_ok(p: CreatureCorpsePrototypeV1) -> bool {
    &&& content_id_ok(p.monster_type_id@)
    &&& p.max_hp > 0
    &&& p.speed > 0
    &&& p.attack_cost_moves > 0
    &&& p.melee_dice_sides > 0
    &&& (!p.group_bash || p.bashes)
    &&& (!p.good_hearing || p.hears)
    &&& path_settings_ok(p.path_settings)
    &&& (!p.can_see || p.vision_day > 0 || p.vision_night > 0)
    &&& (p.blood_field_type_id@.len() == 0 || content_id_ok(p.blood_field_type_id@))
}

pub fn valid_creature_corpse_prototype(prototype: &CreatureCorpsePrototypeV1) -> (r: bool)
    ensures
        r == corpse_prototype_ok(*prototype),
{
    valid_recipe_id(prototype.monster_type_id.as_str())
        && prototype.max_hp > 0
        && prototype.speed > 0
        && prototype.attack_cost_moves > 0
        && prototype.melee_dice_sides > 0
        && (!prototype.group_bash || prototype.bashes)
        && (!prototype.good_hearing || prototype.hears)
        && valid_creature_path_settings(prototype.path_settings)
        && (!prototype.can_see || (prototype.vision_day > 0 || prototype.vision_night > 0))
        && (prototype.blood_field_type_id.as_str().is_empty() || valid_recipe_id(prototype.blood_field_type_id.as_str()))
}

} // verus!
