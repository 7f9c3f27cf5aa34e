//! Mission programs and the stable per-actor mission state.

use vstd::prelude::*;

use crate::ids::{id_counter, id_namespace, MissionId, NpcId};
use crate::text::{bounded_text_is_valid, str_eq, valid_bounded_text};
use crate::text_map::TextMap;
use crate::time::SimTick;

verus! {

pub const MAX_MISSION_DEFINITIONS: usize = 16_384;
pub const MAX_ACTOR_MISSIONS: usize = 4_096;
pub const MAX_MISSION_TEXT_BYTES: usize = 16_384;
pub const MAX_CREATURE_KILL_COUNT_TYPES: usize = 16_384;

#[derive(Clone, Debug, PartialEq, Eq)]
pub enum MissionGoalV1 {
    Null,
    FindItem { item_type_id: String, count: u32, count_by_charges: bool },
    KillMonsterType { monster_type_id: String, count: u32 },
    KillMonsterSpecies { monster_species_id: String, monster_type_ids: Vec<String>, count: u32 },
}

/// The parts of a mission program that a mission's state is checked
/// against.
#[derive(Clone, Debug, PartialEq, Eq)]
pub struct MissionDefinitionV1 {
    pub mission_type_id: String,
    pub name: String,
    pub description: String,
    pub difficulty: i32,
    pub value: i32,
    pub goal: MissionGoalV1,
}

#[derive(Clone, Copy, Debug, PartialEq, Eq, Structural)]
pub enum MissionStatusV1 {
    InProgress,
    Success,
    Failure,
}

#[derive(Clone, Debug, PartialEq, Eq)]
pub struct MissionSnapshotV1 {
    pub mission_id: MissionId,
    pub mission_type_id: String,
    pub origin_npc_id: Option<NpcId>,
    pub assigned_at_tick: SimTick,
    pub finished_at_tick: Option<SimTick>,
    pub status: MissionStatusV1,
    /// Absolute global count captured at assignment plus the required delta.
    pub kill_count_to_reach: Option<u64>,
}

/// Kill goals carry the count the actor must reach; other goals carry none.
pub open spec fn kill_threshold_ok(goal: MissionGoalV1, threshold: Option<u64>) -> bool {
    match goal {
        MissionGoalV1::KillMonsterType { count, .. } | MissionGoalV1::KillMonsterSpecies { count, .. } => {
            threshold matches Some(t) && t >= count
        },
        MissionGoalV1::Null | MissionGoalV1::FindItem { .. } => threshold is None,
    }
}

/// A finished mission finished no earlier than it was assigned; a running
/// one has not finished.
pub open spec fn mission_timing_ok(m: MissionSnapshotV1) -> bool {
    match m.status {
        MissionStatusV1::InProgress => m.finished_at_tick is None,
        MissionStatusV1::Success | MissionStatusV1::Failure => {
            m.finished_at_tick matches Some(f) && f.0 >= m.assigned_at_tick.0
        },
    }
}

pub open spec fn mission_for_definition_ok(m: MissionSnapshotV1, world_namespace: u64, d: MissionDefinitionV1) -> bool {
    &&& m.mission_type_id@ == d.mission_type_id@
    &&& id_counter(m.mission_id.0) > 0
    &&& id_namespace(m.mission_id.0) == world_namespace
    &&& (m.origin_npc_id matches Some(npc) ==> id_counter(npc.0) > 0 && id_namespace(npc.0) == world_namespace)
    &&& mission_timing_ok(m)
    &&& kill_threshold_ok(d.goal, m.kill_count_to_reach)
}

/// The index of the first definition from `k` on with the given type id.
pub open spec fn first_definition(defs: Seq<MissionDefinitionV1>, type_id: Seq<char>, k: int) -> Option<int>
    decreases defs.len() - k,
{
    if k < 0 || k >= defs.len() {
        None
    } else if defs[k].mission_type_id@ == type_id {
        Some(k)
    } else {
        first_definition(defs, type_id, k + 1)
    }
}

/// A mission is valid against the first definition of its type; one whose
/// type has no definition is not.
pub open spec fn mission_ok(m: MissionSnapshotV1, world_namespace: u64, defs: Seq<MissionDefinitionV1>) -> bool {
    match first_definition(defs, m.mission_type_id@, 0) {
        Some(k) => mission_for_definition_ok(m, world_namespace, defs[k]),
        None => false,
    }
}

pub open spec fn mission_ids(missions: Seq<MissionSnapshotV1>) -> Seq<u128> {
    missions.map_values(|m: MissionSnapshotV1| m.mission_id.0)
}

/// The id at `i` is below the next one.
pub open spec fn id_step_up(ids: Seq<u128>, i: int) -> bool {
    ids[i] < ids[i + 1]
}

pub open spec fn ids_increasing(ids: Seq<u128>) -> bool {
    forall|i: int| 0 <= i < ids.len() - 1 ==> #[trigger] id_step_up(ids, i)
}

pub open spec fn ids_distinct(ids: Seq<u128>) -> bool {
    forall|i: int, j: int| 0 <= i < j < ids.len() ==> #[trigger] ids[i] != #[trigger] ids[j]
}

/// At most 4 096 missions, in strictly increasing id order, with distinct
/// ids, each valid against the catalog.
pub open spec fn actor_missions_ok(
    missions: Seq<MissionSnapshotV1>,
    world_namespace: u64,
    defs: Seq<MissionDefinitionV1>,
) -> bool {
    &&& missions.len() <= MAX_ACTOR_MISSIONS
    &&& ids_increasing(mission_ids(missions))
    &&& forall|i: int| 0 <= i < missions.len() ==> mission_ok(#[trigger] missions[i], world_namespace, defs)
    &&& ids_distinct(mission_ids(missions))
}

/// Whether a mission's state is consistent with the given definition in
/// the world `world_namespace`.
pub fn mission_snapshot_is_valid_for_definition(
    mission: &MissionSnapshotV1,
    world_namespace: u64,
    definition: &MissionDefinitionV1,
) -> (r: bool)
    ensures
        r == mission_for_definition_ok(*mission, world_namespace, *definition),
{
    if !str_eq(mission.mission_type_id.as_str(), definition.mission_type_id.as_str()) {
        return false;
    }
    if !(mission.mission_id.counter() > 0 && mission.mission_id.world_namespace() == world_namespace) {
        return false;
    }
    match mission.origin_npc_id {
        Some(npc) => {
            if !(npc.counter() > 0 && npc.world_namespace() == world_namespace) {
                return false;
            }
        },
        None => {},
    }
    let timing = match mission.status {
        MissionStatusV1::InProgress => mission.finished_at_tick.is_none(),
        MissionStatusV1::Success | MissionStatusV1::Failure => match mission.finished_at_tick {
            Some(f) => f.0 >= mission.assigned_at_tick.0,
            None => false,
        },
    };
    if !timing {
        return false;
    }
    match &definition.goal {
        MissionGoalV1::KillMonsterType { count, .. } | MissionGoalV1::KillMonsterSpecies { count, .. } => {
            match mission.kill_count_to_reach {
                Some(t) => t >= *count as u64,
                None => false,
            }
        },
        MissionGoalV1::Null | MissionGoalV1::FindItem { .. } => mission.kill_count_to_reach.is_none(),
    }
}

/// Whether a mission is valid against the first catalog definition of its
/// type.
pub fn mission_snapshot_is_valid(
    mission: &MissionSnapshotV1,
    world_namespace: u64,
    definitions: &[MissionDefinitionV1],
) -> (r: bool)
    ensures
        r == mission_ok(*mission, world_namespace, definitions@),
{
    let mut k: usize = 0;
    while k < definitions.len()
        invariant
            k <= definitions@.len(),
            first_definition(definitions@, mission.mission_type_id@, 0) == first_definition(
                definitions@,
                mission.mission_type_id@,
                k as int,
            ),
        decreases definitions.len() - k,
    {
        if str_eq(definitions[k].mission_type_id.as_str(), mission.mission_type_id.as_str()) {
            return mission_snapshot_is_valid_for_definition(mission, world_namespace, &definitions[k]);
        }
        k = k + 1;
    }
    false
}

proof fn lemma_increasing_ids_ordered(ids: Seq<u128>)
    requires
        ids_increasing(ids),
    ensures
        forall|i: int, j: int| 0 <= i < j < ids.len() ==> #[trigger] ids[i] < #[trigger] ids[j],
    decreases ids.len(),
{
    if ids.len() > 1 {
        let rest = ids.drop_last();
        assert forall|i: int| 0 <= i < rest.len() - 1 implies #[trigger] id_step_up(rest, i) by {
            assert(id_step_up(ids, i));
            assert(rest[i] == ids[i] && rest[i + 1] == ids[i + 1]);
        }
        lemma_increasing_ids_ordered(rest);
        assert forall|i: int, j: int| 0 <= i < j < ids.len() implies #[trigger] ids[i] < #[trigger] ids[j] by {
            if j < ids.len() - 1 {
                assert(rest[i] == ids[i] && rest[j] == ids[j]);
            } else {
                assert(id_step_up(ids, j - 1));
                if i < j - 1 {
                    assert(rest[i] == ids[i] && rest[j - 1] == ids[j - 1]);
                }
            }
        }
    }
}

/// Whether an actor's mission list is canonical and every mission is valid
/// against the catalog.
pub fn actor_missions_are_valid(
    missions: &[MissionSnapshotV1],
    world_namespace: u64,
    definitions: &[MissionDefinitionV1],
) -> (r: bool)
    ensures
        r == actor_missions_ok(missions@, world_namespace, definitions@),
{
    if missions.len() > MAX_ACTOR_MISSIONS {
        return false;
    }
    let ghost ids = mission_ids(missions@);
    let mut i: usize = 0;
    while i < missions.len()
        invariant
            i <= missions@.len(),
            ids == mission_ids(missions@),
            forall|j: int| 0 <= j < i ==> mission_ok(#[trigger] missions@[j], world_namespace, definitions@),
            forall|j: int| 0 <= j < i - 1 && j < ids.len() - 1 ==> #[trigger] id_step_up(ids, j),
        decreases missions.len() - i,
    {
        if i > 0 && !(missions[i - 1].mission_id.0 < missions[i].mission_id.0) {
            assert(!id_step_up(ids, i - 1));
            return false;
        }
        if !mission_snapshot_is_valid(&missions[i], world_namespace, definitions) {
            return false;
        }
        proof {
            if i > 0 {
                assert(id_step_up(ids, i - 1));
            }
        }
        i = i + 1;
    }
    proof {
        assert(ids_increasing(ids));
        lemma_increasing_ids_ordered(ids);
        assert(ids_distinct(ids));
    }
    true
}

/// Per-creature-type kill tallies: a bounded number of types, each named by a
/// valid identifier of at most `max_id_bytes` bytes, each with a positive count.
pub open spec fn kill_counts_ok(counts: Seq<(Seq<char>, u64)>, max_id_bytes: nat) -> bool {
    &&& counts.len() <= MAX_CREATURE_KILL_COUNT_TYPES
    &&& forall|i: int|
        0 <= i < counts.len() ==> valid_bounded_text((#[trigger] counts[i]).0, max_id_bytes) && counts[i].1 > 0
}

/// Whether the kill tallies are well formed. `max_id_bytes` is the byte limit
/// of an interaction choice identifier, which creature type ids share.
pub fn creature_kill_counts_are_valid(counts: &TextMap<u64>, max_id_bytes: usize) -> (r: bool)
    ensures
        r == kill_counts_ok(counts.view_entries(), max_id_bytes as nat),
{
    if counts.len() > MAX_CREATURE_KILL_COUNT_TYPES {
        return false;
    }
    let mut i: usize = 0;
    while i < counts.len()
        invariant
            i <= counts.view_entries().len(),
            forall|j: int|
                0 <= j < i ==> valid_bounded_text((#[trigger] counts.view_entries()[j]).0, max_id_bytes as nat)
                    && counts.view_entries()[j].1 > 0,
        decreases counts.view_entries().len() - i,
    {
        let (key, count) = counts.entry_at(i);
        if !bounded_text_is_valid(key, max_id_bytes) || *count == 0 {
            return false;
        }
        i = i + 1;
    }
    true
}

} // verus!
