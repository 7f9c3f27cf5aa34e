//! Character creation inputs.

use vstd::prelude::*;

use crate::recipes::{
    proficiency_id_ok, skill_id_ok, valid_proficiency_id, valid_skill_id, CRAFT_PROFICIENCY_SCALE,
    MAX_ACTOR_BASE_STAT, MAX_PROFICIENCIES, MAX_PROFICIENCY_PRACTICE_ACTION_POINTS, MAX_SKILLS, MAX_SKILL_LEVEL,
};
use crate::text::{str_less, text_lt};
use crate::time::SimTick;

verus! {

pub const MIN_CHARACTER_CREATION_STAT: u16 = 4;
pub const MAX_CHARACTER_CREATION_STAT: u16 = 20;
pub const DEFAULT_CHARACTER_CREATION_STAT: u16 = 8;

/// Freeform base stats chosen at character creation.
#[derive(Clone, Copy, Debug, PartialEq, Eq, Structural)]
pub struct CharacterCreationStatsV1 {
    pub strength: u16,
    pub dexterity: u16,
    pub intelligence: u16,
    pub perception: u16,
}

pub open spec fn creation_stat_ok(stat: u16) -> bool {
    MIN_CHARACTER_CREATION_STAT <= stat <= MAX_CHARACTER_CREATION_STAT
}

impl CharacterCreationStatsV1 {
    /// Every stat lies in 4..=20.
    pub open spec fn spec_is_valid(self) -> bool {
        creation_stat_ok(self.strength) && creation_stat_ok(self.dexterity) && creation_stat_ok(self.intelligence)
            && creation_stat_ok(self.perception)
    }

    pub fn is_valid(self) -> (r: bool)
        ensures
            r == self.spec_is_valid(),
    {
        MIN_CHARACTER_CREATION_STAT <= self.strength && self.strength <= MAX_CHARACTER_CREATION_STAT
            && MIN_CHARACTER_CREATION_STAT <= self.dexterity && self.dexterity <= MAX_CHARACTER_CREATION_STAT
            && MIN_CHARACTER_CREATION_STAT <= self.intelligence && self.intelligence <= MAX_CHARACTER_CREATION_STAT
            && MIN_CHARACTER_CREATION_STAT <= self.perception && self.perception <= MAX_CHARACTER_CREATION_STAT
    }
}

impl Default for CharacterCreationStatsV1 {
    fn default() -> (r: Self)
        ensures
            r.strength == DEFAULT_CHARACTER_CREATION_STAT,
            r.dexterity == DEFAULT_CHARACTER_CREATION_STAT,
            r.intelligence == DEFAULT_CHARACTER_CREATION_STAT,
            r.perception == DEFAULT_CHARACTER_CREATION_STAT,
    {
        CharacterCreationStatsV1 {
            strength: DEFAULT_CHARACTER_CREATION_STAT,
            dexterity: DEFAULT_CHARACTER_CREATION_STAT,
            intelligence: DEFAULT_CHARACTER_CREATION_STAT,
            perception: DEFAULT_CHARACTER_CREATION_STAT,
        }
    }
}

/// Every base stat of a living actor lies in `1..=100`.
pub open spec fn base_stats_ok(strength: u16, dexterity: u16, intelligence: u16, perception: u16) -> bool {
    &&& 1 <= strength <= MAX_ACTOR_BASE_STAT
    &&& 1 <= dexterity <= MAX_ACTOR_BASE_STAT
    &&& 1 <= intelligence <= MAX_ACTOR_BASE_STAT
    &&& 1 <= perception <= MAX_ACTOR_BASE_STAT
}

pub fn valid_base_stats(strength: u16, dexterity: u16, intelligence: u16, perception: u16) -> (r: bool)
    ensures
        r == base_stats_ok(strength, dexterity, intelligence, perception),
{
    1 <= strength && strength <= MAX_ACTOR_BASE_STAT && 1 <= dexterity && dexterity <= MAX_ACTOR_BASE_STAT
        && 1 <= intelligence && intelligence <= MAX_ACTOR_BASE_STAT && 1 <= perception && perception
        <= MAX_ACTOR_BASE_STAT
}

#[derive(Clone, Debug, PartialEq, Eq)]
pub struct SkillLevelSnapshot {
    pub skill_id: String,
    pub practical_level: u8,
    /// Raw exercise points, not the displayed percentage.
    pub practical_experience: u32,
    pub theoretical_level: u8,
    /// Raw knowledge experience points.
    pub theoretical_experience: u32,
    pub last_practiced: SimTick,
}

#[derive(Clone, Debug, PartialEq, Eq)]
pub struct ProficiencyLevelSnapshot {
    pub proficiency_id: String,
    pub practiced_action_points: u64,
    pub practice_remainder_millionths: u32,
    pub learned: bool,
}

/// Experience needed to leave `level`: `10 000 * (level + 1)^2`.
pub open spec fn experience_threshold(level: u8) -> int {
    10_000 * (level + 1) * (level + 1)
}

pub fn skill_experience_threshold(level: u8) -> (r: u64)
    ensures
        r == experience_threshold(level),
{
    let next = level as u64 + 1;
    assert(next * next <= 65_536 && 10_000 * (next * next) == 10_000 * next * next) by (nonlinear_arith)
        requires
            next <= 256,
    ;
    10_000 * (next * next)
}

/// Below the top level, the experience toward the next level stays under
/// its threshold.
pub open spec fn experience_below_next(level: u8, experience: u32) -> bool {
    level == MAX_SKILL_LEVEL || experience < experience_threshold(level)
}

pub open spec fn skill_level_ok(s: SkillLevelSnapshot, now: SimTick) -> bool {
    &&& skill_id_ok(s.skill_id@)
    &&& s.practical_level <= MAX_SKILL_LEVEL
    &&& s.theoretical_level <= MAX_SKILL_LEVEL
    &&& s.theoretical_level >= s.practical_level
    &&& experience_below_next(s.practical_level, s.practical_experience)
    &&& experience_below_next(s.theoretical_level, s.theoretical_experience)
    &&& (s.theoretical_level == s.practical_level ==> s.theoretical_experience >= s.practical_experience)
    &&& s.last_practiced.0 <= now.0
}

pub open spec fn skill_ids(skills: Seq<SkillLevelSnapshot>) -> Seq<Seq<char>> {
    skills.map_values(|s: SkillLevelSnapshot| s.skill_id@)
}

pub open spec fn ids_ascending(ids: Seq<Seq<char>>) -> bool {
    forall|i: int| 0 <= i < ids.len() - 1 ==> text_lt(#[trigger] ids[i], ids[i + 1])
}

/// At most 64 skills sorted strictly by id, each with consistent levels and
/// practised no later than `now`.
pub open spec fn skill_levels_ok(skills: Seq<SkillLevelSnapshot>, now: SimTick) -> bool {
    &&& skills.len() <= MAX_SKILLS
    &&& ids_ascending(skill_ids(skills))
    &&& forall|i: int| 0 <= i < skills.len() ==> skill_level_ok(#[trigger] skills[i], now)
}

pub open spec fn proficiency_level_ok(p: ProficiencyLevelSnapshot) -> bool {
    &&& proficiency_id_ok(p.proficiency_id@)
    &&& p.practiced_action_points <= MAX_PROFICIENCY_PRACTICE_ACTION_POINTS
    &&& p.practice_remainder_millionths < CRAFT_PROFICIENCY_SCALE
    &&& (p.learned || p.practiced_action_points > 0 || p.practice_remainder_millionths > 0)
}

pub open spec fn proficiency_ids(ps: Seq<ProficiencyLevelSnapshot>) -> Seq<Seq<char>> {
    ps.map_values(|p: ProficiencyLevelSnapshot| p.proficiency_id@)
}

/// At most 512 proficiencies sorted strictly by id; each one is learned or
/// has some practice.
pub open spec fn proficiency_levels_ok(ps: Seq<ProficiencyLevelSnapshot>) -> bool {
    &&& ps.len() <= MAX_PROFICIENCIES
    &&& ids_ascending(proficiency_ids(ps))
    &&& forall|i: int| 0 <= i < ps.len() ==> proficiency_level_ok(#[trigger] ps[i])
}

fn valid_skill_level(s: &SkillLevelSnapshot, now: SimTick) -> (r: bool)
    ensures
        r == skill_level_ok(*s, now),
{
    valid_skill_id(s.skill_id.as_str()) && s.practical_level <= MAX_SKILL_LEVEL && s.theoretical_level
        <= MAX_SKILL_LEVEL && s.theoretical_level >= s.practical_level && (s.practical_level == MAX_SKILL_LEVEL
        || (s.practical_experience as u64) < skill_experience_threshold(s.practical_level)) && (
    s.theoretical_level == MAX_SKILL_LEVEL || (s.theoretical_experience as u64) < skill_experience_threshold(
        s.theoretical_level,
    )) && (s.theoretical_level != s.practical_level || s.theoretical_experience >= s.practical_experience)
        && s.last_practiced.0 <= now.0
}

pub fn valid_skill_levels(skills: &[SkillLevelSnapshot], current_tick: SimTick) -> (r: bool)
    ensures
        r == skill_levels_ok(skills@, current_tick),
{
    if skills.len() > MAX_SKILLS {
        return false;
    }
    let ghost ids = skill_ids(skills@);
    let mut i: usize = 0;
    while i < skills.len()
        invariant
            i <= skills@.len(),
            ids == skill_ids(skills@),
            forall|j: int| 0 <= j < i ==> skill_level_ok(#[trigger] skills@[j], current_tick),
            forall|j: int| 0 <= j < i - 1 && j < ids.len() - 1 ==> text_lt(#[trigger] ids[j], ids[j + 1]),
        decreases skills.len() - i,
    {
        if !valid_skill_level(&skills[i], current_tick) {
            return false;
        }
        if i > 0 && !str_less(skills[i - 1].skill_id.as_str(), skills[i].skill_id.as_str()) {
            assert(!text_lt(ids[i - 1], ids[i as int]));
            return false;
        }
        i = i + 1;
    }
    true
}

pub fn valid_proficiency_levels(proficiencies: &[ProficiencyLevelSnapshot]) -> (r: bool)
    ensures
        r == proficiency_levels_ok(proficiencies@),
{
    if proficiencies.len() > MAX_PROFICIENCIES {
        return false;
    }
    let ghost ids = proficiency_ids(proficiencies@);
    let mut i: usize = 0;
    while i < proficiencies.len()
        invariant
            i <= proficiencies@.len(),
            ids == proficiency_ids(proficiencies@),
            forall|j: int| 0 <= j < i ==> proficiency_level_ok(#[trigger] proficiencies@[j]),
            forall|j: int| 0 <= j < i - 1 && j < ids.len() - 1 ==> text_lt(#[trigger] ids[j], ids[j + 1]),
        decreases proficiencies.len() - i,
    {
        let p = &proficiencies[i];
        if !(valid_proficiency_id(p.proficiency_id.as_str()) && p.practiced_action_points
            <= MAX_PROFICIENCY_PRACTICE_ACTION_POINTS && p.practice_remainder_millionths < CRAFT_PROFICIENCY_SCALE
            && (p.learned || p.practiced_action_points > 0 || p.practice_remainder_millionths > 0)) {
            return false;
        }
        if i > 0 && !str_less(proficiencies[i - 1].proficiency_id.as_str(), p.proficiency_id.as_str()) {
            assert(!text_lt(ids[i - 1], ids[i as int]));
            return false;
        }
        i = i + 1;
    }
    true
}

} // verus!
