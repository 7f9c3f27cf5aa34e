use protocol::characters::{
    skill_experience_threshold, valid_base_stats, valid_proficiency_levels, valid_skill_levels,
    ProficiencyLevelSnapshot, SkillLevelSnapshot,
};
use protocol::healing::{default_smash_item_melee_to_hit, healing_item_catalog_is_valid, HealingItemTypeV1};
use protocol::ids::{MissionId, NpcId};
use protocol::missions::{
    actor_missions_are_valid, creature_kill_counts_are_valid, mission_snapshot_is_valid, mission_snapshot_is_valid_for_definition,
    MissionDefinitionV1, MissionGoalV1, MissionSnapshotV1, MissionStatusV1,
};
use protocol::geometry::CommandSequence;
use protocol::ids::{ActorId, ItemId};
use protocol::recipes::{
    adjusted_book_study_time_moves, valid_book_study, valid_book_study_activity, BookStudyActivitySnapshotV1,
    BookStudyV1, MAX_BOOK_STUDY_MOVES,
};
use protocol::text_map::TextMap;
use protocol::time::SimTick;

fn healing(id: &str) -> HealingItemTypeV1 {
    HealingItemTypeV1 {
        item_type_id: id.to_owned(),
        move_cost_moves: 100,
        charges_per_use: 1,
        limb_power_milli: 0,
        head_power_milli: 0,
        torso_power_milli: 0,
        limb_scaling_milli: 0,
        head_scaling_milli: 0,
        torso_scaling_milli: 0,
        bandages_power_milli: 1_000,
        bandages_scaling_milli: 0,
        disinfectant_power_milli: 0,
        disinfectant_scaling_milli: 0,
        bleed: 0,
        bite_chance_millionths: 0,
        infect_chance_millionths: 0,
    }
}

#[test]
fn healing_catalog_is_sorted_bounded_and_every_item_heals() {
    assert!(healing_item_catalog_is_valid(&[]));
    assert!(healing_item_catalog_is_valid(&[healing("bandages"), healing("disinfectant")]));
    assert!(!healing_item_catalog_is_valid(&[healing("disinfectant"), healing("bandages")]));
    assert!(!healing_item_catalog_is_valid(&[healing("bandages"), healing("bandages")]));
    let mut inert = healing("inert");
    inert.bandages_power_milli = 0;
    assert!(!healing_item_catalog_is_valid(&[inert]));
    let mut bleeding = healing("tourniquet");
    bleeding.bandages_power_milli = 0;
    bleeding.bleed = 1;
    assert!(healing_item_catalog_is_valid(&[bleeding]));
    let mut negative = healing("negative");
    negative.head_scaling_milli = -1;
    assert!(!healing_item_catalog_is_valid(&[negative]));
    let mut certain = healing("antiseptic");
    certain.infect_chance_millionths = 1_000_000;
    assert!(healing_item_catalog_is_valid(&[certain]));
    let mut impossible = healing("antiseptic");
    impossible.bite_chance_millionths = 1_000_001;
    assert!(!healing_item_catalog_is_valid(&[impossible]));
    let mut free = healing("free");
    free.move_cost_moves = 0;
    assert!(!healing_item_catalog_is_valid(&[free]));
    assert!(!healing_item_catalog_is_valid(&[healing("")]));
    assert!(!healing_item_catalog_is_valid(&[healing("bad\u{1}")]));
    assert!(healing_item_catalog_is_valid(&[healing(&"x".repeat(512))]));
    assert!(!healing_item_catalog_is_valid(&[healing(&"x".repeat(513))]));
    assert_eq!(default_smash_item_melee_to_hit(), -2);
}

fn definition(id: &str, goal: MissionGoalV1) -> MissionDefinitionV1 {
    MissionDefinitionV1 {
        mission_type_id: id.to_owned(),
        name: String::from("Mission"),
        description: String::new(),
        difficulty: 1,
        value: 100,
        goal,
    }
}

fn mission(counter: u64, type_id: &str) -> MissionSnapshotV1 {
    MissionSnapshotV1 {
        mission_id: MissionId::new(7, counter),
        mission_type_id: type_id.to_owned(),
        origin_npc_id: Some(NpcId::new(7, 1)),
        assigned_at_tick: SimTick(10),
        finished_at_tick: None,
        status: MissionStatusV1::InProgress,
        kill_count_to_reach: None,
    }
}

fn catalog() -> Vec<MissionDefinitionV1> {
    vec![
        definition("MISSION_FIND", MissionGoalV1::FindItem {
            item_type_id: String::from("book"),
            count: 1,
            count_by_charges: false,
        }),
        definition("MISSION_KILL", MissionGoalV1::KillMonsterType {
            monster_type_id: String::from("mon_zombie"),
            count: 10,
        }),
    ]
}

#[test]
fn mission_state_follows_its_definition() {
    let defs = catalog();
    assert!(mission_snapshot_is_valid(&mission(1, "MISSION_FIND"), 7, &defs));
    assert!(!mission_snapshot_is_valid(&mission(1, "MISSION_UNKNOWN"), 7, &defs));
    assert!(!mission_snapshot_is_valid(&mission(1, "MISSION_FIND"), 8, &defs));
    assert!(!mission_snapshot_is_valid(&mission(0, "MISSION_FIND"), 7, &defs));

    let mut kill = mission(2, "MISSION_KILL");
    assert!(!mission_snapshot_is_valid(&kill, 7, &defs), "kill goals carry a threshold");
    kill.kill_count_to_reach = Some(9);
    assert!(!mission_snapshot_is_valid(&kill, 7, &defs));
    kill.kill_count_to_reach = Some(10);
    assert!(mission_snapshot_is_valid(&kill, 7, &defs));

    let mut finished = mission(3, "MISSION_FIND");
    finished.status = MissionStatusV1::Success;
    assert!(!mission_snapshot_is_valid_for_definition(&finished, 7, &defs[0]));
    finished.finished_at_tick = Some(SimTick(9));
    assert!(!mission_snapshot_is_valid_for_definition(&finished, 7, &defs[0]));
    finished.finished_at_tick = Some(SimTick(10));
    assert!(mission_snapshot_is_valid_for_definition(&finished, 7, &defs[0]));
    assert!(!mission_snapshot_is_valid_for_definition(&finished, 7, &defs[1]));

    let mut foreign_npc = mission(4, "MISSION_FIND");
    foreign_npc.origin_npc_id = Some(NpcId::new(8, 1));
    assert!(!mission_snapshot_is_valid(&foreign_npc, 7, &defs));
}

#[test]
fn actor_missions_are_sorted_unique_and_valid() {
    let defs = catalog();
    assert!(actor_missions_are_valid(&[], 7, &defs));
    assert!(actor_missions_are_valid(&[mission(1, "MISSION_FIND"), mission(2, "MISSION_FIND")], 7, &defs));
    assert!(!actor_missions_are_valid(&[mission(2, "MISSION_FIND"), mission(1, "MISSION_FIND")], 7, &defs));
    assert!(!actor_missions_are_valid(&[mission(1, "MISSION_FIND"), mission(1, "MISSION_FIND")], 7, &defs));
    assert!(!actor_missions_are_valid(&[mission(1, "MISSION_FIND"), mission(2, "MISSION_KILL")], 7, &defs));
}

fn skill(id: &str, practical: u8, theoretical: u8) -> SkillLevelSnapshot {
    SkillLevelSnapshot {
        skill_id: id.to_owned(),
        practical_level: practical,
        practical_experience: 0,
        theoretical_level: theoretical,
        theoretical_experience: 0,
        last_practiced: SimTick(10),
    }
}

#[test]
fn skill_levels_keep_theory_ahead_of_practice() {
    assert_eq!(skill_experience_threshold(0), 10_000);
    assert_eq!(skill_experience_threshold(1), 40_000);
    assert_eq!(skill_experience_threshold(255), 655_360_000);
    assert!(valid_skill_levels(&[skill("fabrication", 1, 2), skill("survival", 0, 0)], SimTick(10)));
    assert!(!valid_skill_levels(&[skill("fabrication", 2, 1)], SimTick(10)));
    assert!(!valid_skill_levels(&[skill("survival", 0, 0), skill("fabrication", 0, 0)], SimTick(10)));
    assert!(!valid_skill_levels(&[skill("fabrication", 0, 0)], SimTick(9)));
    let mut near = skill("fabrication", 1, 1);
    near.practical_experience = 39_999;
    near.theoretical_experience = 39_999;
    assert!(valid_skill_levels(std::slice::from_ref(&near), SimTick(10)));
    near.practical_experience = 40_000;
    assert!(!valid_skill_levels(std::slice::from_ref(&near), SimTick(10)));
    let mut top = skill("fabrication", 10, 10);
    top.practical_experience = u32::MAX;
    top.theoretical_experience = u32::MAX;
    assert!(valid_skill_levels(&[top], SimTick(10)));
    let mut behind = skill("fabrication", 1, 1);
    behind.practical_experience = 5;
    behind.theoretical_experience = 4;
    assert!(!valid_skill_levels(&[behind], SimTick(10)));
}

#[test]
fn proficiency_levels_are_learned_or_practised() {
    let proficiency = |id: &str, learned, practiced| ProficiencyLevelSnapshot {
        proficiency_id: id.to_owned(),
        practiced_action_points: practiced,
        practice_remainder_millionths: 0,
        learned,
    };
    assert!(valid_proficiency_levels(&[proficiency("prof_a", true, 0), proficiency("prof_b", false, 3)]));
    assert!(!valid_proficiency_levels(&[proficiency("prof_a", false, 0)]));
    assert!(!valid_proficiency_levels(&[proficiency("prof_b", true, 0), proficiency("prof_a", true, 0)]));
    let mut remainder = proficiency("prof_a", false, 0);
    remainder.practice_remainder_millionths = 999_999;
    assert!(valid_proficiency_levels(std::slice::from_ref(&remainder)));
    remainder.practice_remainder_millionths = 1_000_000;
    assert!(!valid_proficiency_levels(&[remainder]));
}

#[test]
fn base_stats_lie_between_one_and_one_hundred() {
    assert!(valid_base_stats(1, 8, 100, 8));
    assert!(!valid_base_stats(0, 8, 8, 8));
    assert!(!valid_base_stats(8, 8, 8, 101));
}

fn study() -> BookStudyV1 {
    BookStudyV1 {
        book_type_id: String::from("textbook_fabrication"),
        skill_id: String::from("fabrication"),
        required_skill_level: 0,
        maximum_skill_level: 3,
        intelligence_requirement: 8,
        time_moves: 6_000,
        source_time_minutes: 1,
    }
}

#[test]
fn book_study_time_and_activity_stay_within_a_week() {
    assert!(valid_book_study(&study()));
    assert_eq!(adjusted_book_study_time_moves(6_000, 8, 1), Some(6_700));
    assert_eq!(adjusted_book_study_time_moves(6_000, 8, 8), Some(6_000));
    assert_eq!(adjusted_book_study_time_moves(6_000, 8, 0), None);
    assert_eq!(adjusted_book_study_time_moves(u64::MAX, 100, 1), None);
    let mut inverted = study();
    inverted.required_skill_level = 3;
    assert!(!valid_book_study(&inverted));
    let mut too_long = study();
    too_long.time_moves = MAX_BOOK_STUDY_MOVES;
    assert!(!valid_book_study(&too_long), "the slowest reader must still finish within a week");
    too_long.intelligence_requirement = 1;
    assert!(valid_book_study(&too_long));
    let mut long_minutes = study();
    long_minutes.source_time_minutes = 10_081;
    assert!(!valid_book_study(&long_minutes));

    let activity = |remaining_action_points, book_item_id| BookStudyActivitySnapshotV1 {
        study: study(),
        book_item_id,
        remaining_action_points,
        rng_sequence: CommandSequence(1),
        interrupted: false,
    };
    let actor = ActorId::new(3, 1);
    assert!(valid_book_study_activity(&activity(134_000, ItemId::new(3, 9)), actor, 1));
    assert!(!valid_book_study_activity(&activity(134_001, ItemId::new(3, 9)), actor, 1));
    assert!(valid_book_study_activity(&activity(120_000, ItemId::new(3, 9)), actor, 8));
    assert!(!valid_book_study_activity(&activity(120_001, ItemId::new(3, 9)), actor, 8));
    assert!(!valid_book_study_activity(&activity(1, ItemId::new(4, 9)), actor, 8));
    assert!(!valid_book_study_activity(&activity(0, ItemId::new(3, 9)), actor, 8));
}

#[test]
fn kill_tallies_need_named_types_and_positive_counts() {
    let mut counts = TextMap::new();
    assert!(creature_kill_counts_are_valid(&counts, 64));
    counts.insert(String::from("mon_zombie"), 3);
    counts.insert(String::from("mon_dog"), 1);
    assert!(creature_kill_counts_are_valid(&counts, 64));
    assert!(!creature_kill_counts_are_valid(&counts, 5), "an identifier over the byte limit");

    let mut zero = TextMap::new();
    zero.insert(String::from("mon_zombie"), 0);
    assert!(!creature_kill_counts_are_valid(&zero, 64));

    let mut unnamed = TextMap::new();
    unnamed.insert(String::new(), 2);
    assert!(!creature_kill_counts_are_valid(&unnamed, 64));

    let mut control = TextMap::new();
    control.insert(String::from("mon\u{7}"), 2);
    assert!(!creature_kill_counts_are_valid(&control, 64));
}
