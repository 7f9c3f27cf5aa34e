//! Immutable deterministic world-generation catalogs: wire types, bounds,
//! overmap-terrain matching, and city start distances.

use vstd::prelude::*;

use crate::geometry::ChunkCoord;
use crate::text::{utf8_len};

verus! {

pub const WORLDGEN_GENERATOR_VERSION_V2: u16 = 2;
/// One OMT is two submaps along each horizontal axis.
pub const WORLDGEN_SUBMAPS_PER_OMT_AXIS: usize = 2;
pub const WORLDGEN_OMT_SIZE: usize = 24;
pub const WORLDGEN_CELLS_PER_OMT: usize = 576;
pub const MAX_WORLDGEN_TERRAIN_PROTOTYPES: usize = 2_048;
pub const MAX_WORLDGEN_FURNITURE_PROTOTYPES: usize = 1_024;
pub const MAX_WORLDGEN_REGIONAL_TABLES: usize = 256;
pub const MAX_WORLDGEN_REGIONAL_CHOICES: usize = 256;
pub const MAX_WORLDGEN_REGIONAL_CHOICES_TOTAL: usize = 8_192;
pub const MAX_WORLDGEN_REGIONAL_RESOLUTION_DEPTH: usize = 32;
pub const MAX_WORLDGEN_OMT_GENERATORS: usize = 512;
pub const MAX_WORLDGEN_TEMPLATES_PER_OMT: usize = 32;
pub const MAX_WORLDGEN_TEMPLATES: usize = 512;
pub const MAX_WORLDGEN_NESTED_GENERATORS_PER_OMT: usize = 4_096;
pub const MAX_WORLDGEN_NESTED_TEMPLATES_PER_GENERATOR: usize = 32;
pub const MAX_WORLDGEN_NESTED_TEMPLATES: usize = 16_384;
pub const MAX_WORLDGEN_NESTED_PLACEMENTS_PER_TEMPLATE: usize = 1_024;
pub const MAX_WORLDGEN_NESTED_PLACEMENTS: usize = 65_536;
pub const MAX_WORLDGEN_NESTED_DEPTH: usize = 32;
pub const MAX_WORLDGEN_DEFERRED_FIELDS: usize = 8;
pub const MAX_WORLDGEN_ITEM_PLACEMENT_REPEAT: u16 = 256;
pub const MAX_WORLDGEN_CELL_CHOICES: usize = 32;
pub const MAX_WORLDGEN_CELL_LAYERS: usize = 32;
pub const MAX_WORLDGEN_WEIGHTED_CELL_TARGETS: usize = 1_048_576;
pub const MAX_WORLDGEN_ID_BYTES: usize = 512;
pub const MAX_WORLDGEN_START_TARGETS: usize = 256;
pub const MAX_WORLDGEN_CITIES: usize = 4_096;
pub const MAX_WORLDGEN_CITY_SIZE: u8 = 55;
pub const MAX_WORLDGEN_RIVER_NODES: usize = 64;
pub const MAX_WORLDGEN_SPECIAL_PLACEMENTS: usize = 4_096;
pub const MAX_WORLDGEN_SPECIAL_OMTS: usize = 65_536;
pub const MAX_WORLDGEN_MONSTER_PROTOTYPES: usize = 16_384;
pub const MAX_WORLDGEN_MONSTER_GROUPS: usize = 16_384;
pub const MAX_WORLDGEN_MONSTER_GROUP_ENTRIES: usize = 65_536;
pub const MAX_WORLDGEN_MONSTER_GROUP_DEPTH: usize = 32;
pub const MAX_WORLDGEN_MONSTER_PLACEMENTS: usize = 65_536;
pub const MAX_WORLDGEN_MONSTER_REPEAT: u16 = 1_024;
pub const MAX_WORLDGEN_NPC_NAME_CATEGORIES: usize = 64;
pub const MAX_WORLDGEN_NPC_NAME_CHOICES: usize = 32_768;
pub const MAX_WORLDGEN_NPC_NAME_TEXT_BYTES: usize = 256;
pub const MAX_WORLDGEN_NPC_NAME_EXPANSION_DEPTH: usize = 16;
pub const MAX_WORLDGEN_MONSTER_PACK_SIZE: u16 = 1_024;
pub const MAX_WORLDGEN_MONSTER_DENSITY_MILLIONTHS: u32 = 81_920_000;
/// Pinned overmaps own 180x180 overmap-terrain coordinates per z-level.
pub const WORLDGEN_OVERMAP_WIDTH: u16 = 180;
pub const WORLDGEN_OVERMAP_HEIGHT: u16 = 180;
pub const MAX_WORLDGEN_OMT_IDENTITIES: usize = 512;
pub const MAX_WORLDGEN_OVERMAP_LAYERS: usize = 21;
pub const MAX_WORLDGEN_OVERMAP_RUNS: usize = 32_400;

#[derive(Clone, Debug, PartialEq, Eq)]
pub struct TerrainTileSnapshot {
    pub terrain_id: String,
    pub move_cost: i32,
    pub transparent: bool,
    pub flat: bool,
    pub open: String,
    pub open_move_cost: Option<i32>,
    pub open_transparent: Option<bool>,
    pub open_flat: Option<bool>,
    pub close: String,
    pub close_move_cost: Option<i32>,
    pub close_transparent: Option<bool>,
    pub close_flat: Option<bool>,
}

#[derive(Clone, Debug, PartialEq, Eq)]
pub struct FurnitureTileSnapshot {
    pub furniture_id: String,
    pub move_cost_mod: i32,
    pub transparent: bool,
    pub blocks_door: bool,
    pub comfort: i32,
    pub floor_bedding_warmth: i32,
}

/// A weighted prototype reference used by a regional terrain table. A
/// prototype whose terrain ID names another regional table is a retained
/// pseudo-terrain edge and causes a fresh weighted roll.
#[derive(Clone, Copy, Debug, PartialEq, Eq, Structural)]
pub struct WorldgenWeightedPrototypeV1 {
    pub prototype_index: u16,
    pub weight: u32,
}

#[derive(Clone, Copy, Debug, PartialEq, Eq, Structural)]
pub enum WorldgenFurniturePrototypeTargetV1 {
    Empty,
    Prototype(u16),
}

#[derive(Clone, Copy, Debug, PartialEq, Eq, Structural)]
pub struct WorldgenWeightedFurniturePrototypeV1 {
    pub target: WorldgenFurniturePrototypeTargetV1,
    pub weight: u32,
}

/// One ID-sorted regional substitution table.
#[derive(Clone, Debug, PartialEq, Eq)]
pub struct WorldgenRegionalTerrainTableV1 {
    pub regional_id: String,
    pub choices: Vec<WorldgenWeightedPrototypeV1>,
}

/// Furniture regional substitutions can explicitly produce no furniture.
#[derive(Clone, Debug, PartialEq, Eq)]
pub struct WorldgenRegionalFurnitureTableV1 {
    pub regional_id: String,
    pub choices: Vec<WorldgenWeightedFurniturePrototypeV1>,
}

#[derive(Clone, Copy, Debug, PartialEq, Eq, Structural)]
pub enum WorldgenTerrainTargetV1 {
    Prototype(u16),
    Regional(u16),
}

#[derive(Clone, Copy, Debug, PartialEq, Eq, Structural)]
pub struct WorldgenWeightedTerrainTargetV1 {
    pub target: WorldgenTerrainTargetV1,
    pub weight: u32,
}

#[derive(Clone, Copy, Debug, PartialEq, Eq, Structural)]
pub enum WorldgenFurnitureTargetV1 {
    Empty,
    Prototype(u16),
    Regional(u16),
}

#[derive(Clone, Copy, Debug, PartialEq, Eq, Structural)]
pub struct WorldgenWeightedFurnitureTargetV1 {
    pub target: WorldgenFurnitureTargetV1,
    pub weight: u32,
}

#[derive(Clone, Debug, PartialEq, Eq)]
pub struct WorldgenItemGroupPlacementV1 {
    pub group_id: String,
    /// Independent collection-style chance in 1..=100.
    pub chance: u8,
    /// Inclusive repetition interval; zero is a no-placement branch.
    pub repeat_minimum: u16,
    pub repeat_maximum: u16,
}

#[derive(Clone, Copy, Debug, PartialEq, Eq, Structural)]
pub struct WorldgenCoordinateRangeV1 {
    pub minimum: i8,
    pub maximum: i8,
}

#[derive(Clone, Debug, PartialEq, Eq)]
pub struct WorldgenAreaItemPlacementV1 {
    pub item_group: WorldgenItemGroupPlacementV1,
    pub x: WorldgenCoordinateRangeV1,
    pub y: WorldgenCoordinateRangeV1,
}

#[derive(Clone, Copy, Debug, PartialEq, Eq, Structural)]
pub struct WorldgenU16RangeV1 {
    pub minimum: u16,
    pub maximum: u16,
}

#[derive(Clone, Debug, PartialEq, Eq)]
pub struct WorldgenNpcPlacementV1 {
    pub template_id: String,
    /// Empty for a template with a unique name, one category for a fixed
    /// gender, or male/female categories in draw order for random gender.
    pub generated_name_category_ids: Vec<String>,
    pub repeat: WorldgenU16RangeV1,
    pub x: WorldgenCoordinateRangeV1,
    pub y: WorldgenCoordinateRangeV1,
}

#[derive(Clone, Debug, PartialEq, Eq)]
pub struct WorldgenNpcNameChoiceV1 {
    pub text: String,
    pub weight: u64,
}

#[derive(Clone, Debug, PartialEq, Eq)]
pub struct WorldgenNpcNameCategoryV1 {
    pub category_id: String,
    pub choices: Vec<WorldgenNpcNameChoiceV1>,
}

#[derive(Clone, Debug, PartialEq, Eq)]
pub struct WorldgenNestedChoiceV1 {
    /// `null` is the explicit no-op branch.
    pub nested_id: String,
    pub weight: u32,
}

/// One precompiled adjacent-OMT predicate over full identity IDs.
#[derive(Clone, Debug, PartialEq, Eq)]
pub struct WorldgenNeighborConditionV1 {
    pub offset_x: i8,
    pub offset_y: i8,
    /// Full overmap-terrain IDs, sorted and unique.
    pub allowed_identity_ids: Vec<String>,
}

#[derive(Clone, Debug, PartialEq, Eq)]
pub struct WorldgenNestedConditionsV1 {
    /// Every predicate must match.
    pub all_neighbors: Vec<WorldgenNeighborConditionV1>,
    /// Empty means no disjunction; otherwise at least one predicate must match.
    pub any_neighbors: Vec<WorldgenNeighborConditionV1>,
    /// Root predecessor generator IDs, sorted and unique.
    pub predecessor_ids: Vec<String>,
}

impl Default for WorldgenNestedConditionsV1 {
    fn default() -> (r: Self)
        ensures
            r.all_neighbors@.len() == 0,
            r.any_neighbors@.len() == 0,
            r.predecessor_ids@.len() == 0,
    {
        WorldgenNestedConditionsV1 { all_neighbors: Vec::new(), any_neighbors: Vec::new(), predecessor_ids: Vec::new() }
    }
}

#[derive(Clone, Debug, PartialEq, Eq)]
pub struct WorldgenNestedPlacementV1 {
    pub chunks: Vec<WorldgenNestedChoiceV1>,
    pub else_chunks: Vec<WorldgenNestedChoiceV1>,
    pub x: WorldgenCoordinateRangeV1,
    pub y: WorldgenCoordinateRangeV1,
    pub conditions: WorldgenNestedConditionsV1,
}

/// One row-major local-map cell. Every inner vector is one weighted choice.
#[derive(Clone, Debug, PartialEq, Eq)]
pub struct WorldgenCellV1 {
    pub terrain: Vec<Vec<WorldgenWeightedTerrainTargetV1>>,
    pub furniture: Vec<Vec<WorldgenWeightedFurnitureTargetV1>>,
    pub item_group: Option<WorldgenItemGroupPlacementV1>,
}

/// Bounded mapgen algorithms whose random choices cannot be expressed as
/// independent cell layers.
#[derive(Clone, Copy, Debug, PartialEq, Eq, Structural)]
pub enum WorldgenBuiltinMapgenV1 {
    RiverStraight,
    RiverCurved { rotation: u8 },
    RiverCurvedNot { rotation: u8 },
    ForestWater,
}

pub open spec fn builtin_mapgen_is_valid(builtin: WorldgenBuiltinMapgenV1) -> bool {
    match builtin {
        WorldgenBuiltinMapgenV1::RiverStraight | WorldgenBuiltinMapgenV1::ForestWater => true,
        WorldgenBuiltinMapgenV1::RiverCurved { rotation } | WorldgenBuiltinMapgenV1::RiverCurvedNot { rotation } => rotation < 4,
    }
}

impl WorldgenBuiltinMapgenV1 {
    /// Curved river variants carry a quarter-turn rotation below four.
    pub fn is_valid(self) -> (r: bool)
        ensures
            r == builtin_mapgen_is_valid(self),
    {
        match self {
            WorldgenBuiltinMapgenV1::RiverStraight | WorldgenBuiltinMapgenV1::ForestWater => true,
            WorldgenBuiltinMapgenV1::RiverCurved { rotation } | WorldgenBuiltinMapgenV1::RiverCurvedNot { rotation } => rotation < 4,
        }
    }
}

#[derive(Clone, Debug, PartialEq, Eq)]
pub struct WorldgenTemplateV1 {
    pub weight: u32,
    /// Optional ordinary mapgen run before this overlay.
    pub predecessor_id: Option<String>,
    /// Exact bounded algorithm used instead of independent cell layers.
    pub builtin: Option<WorldgenBuiltinMapgenV1>,
    /// Exactly 576 row-major cells: one 24x24 OMT.
    pub cells: Vec<WorldgenCellV1>,
    pub nested: Vec<WorldgenNestedPlacementV1>,
    pub area_items: Vec<WorldgenAreaItemPlacementV1>,
    pub npc_placements: Vec<WorldgenNpcPlacementV1>,
    pub monster_placements: Vec<WorldgenMonsterPlacementV1>,
    pub individual_monster_placements: Vec<WorldgenIndividualMonsterPlacementV1>,
    pub erase_all_before_placing_terrain: bool,
    /// Sorted semantic phases owned by later generalized families.
    pub deferred_fields: Vec<String>,
}

#[derive(Clone, Debug, PartialEq, Eq)]
pub struct WorldgenNestedTemplateV1 {
    pub weight: u32,
    pub width: u8,
    pub height: u8,
    /// Exactly `width * height` row-major overlay cells.
    pub cells: Vec<WorldgenCellV1>,
    pub nested: Vec<WorldgenNestedPlacementV1>,
    pub area_items: Vec<WorldgenAreaItemPlacementV1>,
    pub npc_placements: Vec<WorldgenNpcPlacementV1>,
    pub monster_placements: Vec<WorldgenMonsterPlacementV1>,
    pub individual_monster_placements: Vec<WorldgenIndividualMonsterPlacementV1>,
    pub erase_all_before_placing_terrain: bool,
    pub deferred_fields: Vec<String>,
}

#[derive(Clone, Debug, PartialEq, Eq)]
pub struct WorldgenNestedGeneratorV1 {
    pub nested_id: String,
    pub templates: Vec<WorldgenNestedTemplateV1>,
}

#[derive(Clone, Copy, Debug, PartialEq, Eq, Structural)]
pub enum WorldgenMonsterGroupTargetV1 {
    Monster { prototype_index: u16 },
    Group { group_index: u16 },
}

#[derive(Clone, Copy, Debug, PartialEq, Eq, Structural)]
pub struct WorldgenMonsterGroupEntryV1 {
    pub target: WorldgenMonsterGroupTargetV1,
    pub weight: u32,
    pub cost_multiplier: i32,
    pub pack_size: WorldgenU16RangeV1,
}

#[derive(Clone, Debug, PartialEq, Eq)]
pub struct WorldgenMonsterGroupV1 {
    pub group_id: String,
    pub default_prototype_index: Option<u16>,
    pub frequency_total: u32,
    pub is_animal: bool,
    pub is_safe: bool,
    pub entries: Vec<WorldgenMonsterGroupEntryV1>,
}

/// One mapgen monster-group placement. Chance is a one-in divisor; density
/// is a multiplier, and repeat is rolled once per application.
#[derive(Clone, Copy, Debug, PartialEq, Eq, Structural)]
pub struct WorldgenMonsterPlacementV1 {
    pub group_index: u16,
    pub chance: WorldgenU16RangeV1,
    pub density_millionths: u32,
    pub repeat: WorldgenU16RangeV1,
    pub x: WorldgenCoordinateRangeV1,
    pub y: WorldgenCoordinateRangeV1,
}

#[derive(Clone, Copy, Debug, PartialEq, Eq, Structural)]
pub enum WorldgenIndividualMonsterTargetV1 {
    Monster { prototype_index: u16 },
    Group { group_index: u16 },
}

#[derive(Clone, Copy, Debug, PartialEq, Eq, Structural)]
pub struct WorldgenIndividualMonsterPlacementV1 {
    pub target: WorldgenIndividualMonsterTargetV1,
    pub chance_percent: WorldgenU16RangeV1,
    pub pack_size: WorldgenU16RangeV1,
    pub repeat: WorldgenU16RangeV1,
    pub x: WorldgenCoordinateRangeV1,
    pub y: WorldgenCoordinateRangeV1,
}

/// One OMT-ID-sorted generator. Template order is source order because it is
/// observable through deterministic weighted selection.
#[derive(Clone, Debug, PartialEq, Eq)]
pub struct WorldgenOmtGeneratorV1 {
    pub omt_id: String,
    pub templates: Vec<WorldgenTemplateV1>,
    /// ID-sorted exact closure reachable from this root generator.
    pub nested_generators: Vec<WorldgenNestedGeneratorV1>,
}

/// The three identities used by terrain matching, plus the normalized
/// local-map generator selected for this terrain.
#[derive(Clone, Debug, PartialEq, Eq)]
pub struct WorldgenOmtIdentityV1 {
    pub full_id: String,
    pub type_id: String,
    pub subtype_id: String,
    pub generator_id: String,
    /// Clockwise local-map quarter turns for this concrete OMT.
    pub rotation: u8,
}

/// One canonical row-major run in a coordinate-owned overmap layer.
#[derive(Clone, Copy, Debug, PartialEq, Eq, Structural)]
pub struct WorldgenOvermapRunV1 {
    pub identity_index: u16,
    pub length: u32,
}

/// One z-level of a fixed-size overmap. Runs expand to exactly 180x180 cells.
#[derive(Clone, Debug, PartialEq, Eq)]
pub struct WorldgenOvermapLayerV1 {
    pub z: i32,
    pub runs: Vec<WorldgenOvermapRunV1>,
}

/// A bounded coordinate-owned overmap layout.
#[derive(Clone, Debug, PartialEq, Eq)]
pub struct WorldgenOvermapLayoutV1 {
    pub origin_x: i32,
    pub origin_y: i32,
    /// Full-ID-sorted concrete identities referenced by compact run indices.
    pub identities: Vec<WorldgenOmtIdentityV1>,
    /// Strictly z-sorted layers, including z=0.
    pub layers: Vec<WorldgenOvermapLayerV1>,
}

/// Stable identity for a city seed: dense placement-order values from one.
#[derive(Clone, Copy, Debug, PartialEq, Eq, Structural, Hash, PartialOrd, Ord)]
pub struct WorldgenCityId(pub u32);

/// One authoritative city seed.
#[derive(Clone, Copy, Debug, PartialEq, Eq, Structural)]
pub struct WorldgenCityV1 {
    pub city_id: WorldgenCityId,
    /// Absolute OMT coordinate in the catalog's overmap.
    pub center: ChunkCoord,
    pub size: u8,
}

/// One retained river curve.
#[derive(Clone, Copy, Debug, PartialEq, Eq, Structural)]
pub struct WorldgenRiverNodeV1 {
    pub start: ChunkCoord,
    pub end: ChunkCoord,
    pub control_start: ChunkCoord,
    pub control_end: ChunkCoord,
    pub size: u32,
    pub major: bool,
}

/// Stable identity for an overmap-special placement.
#[derive(Clone, Copy, Debug, PartialEq, Eq, Structural, Hash, PartialOrd, Ord)]
pub struct WorldgenSpecialId(pub u32);

#[derive(Clone, Copy, Debug, PartialEq, Eq, Structural)]
pub enum WorldgenSpecialUniquenessV1 {
    Unrestricted,
    Overmap,
    Global,
}

#[derive(Clone, Copy, Debug, PartialEq, Eq, Structural)]
pub struct WorldgenU32RangeV1 {
    pub minimum: u32,
    pub maximum: u32,
}

#[derive(Clone, Debug, PartialEq, Eq)]
pub struct WorldgenSpecialPopulationV1 {
    pub group_id: String,
    pub population: WorldgenU32RangeV1,
    pub radius: WorldgenU16RangeV1,
}

/// One atomically placed fixed overmap special.
#[derive(Clone, Debug, PartialEq, Eq)]
pub struct WorldgenSpecialPlacementV1 {
    pub placement_id: WorldgenSpecialId,
    pub special_id: String,
    pub origin: ChunkCoord,
    pub rotation: u8,
    pub uniqueness: WorldgenSpecialUniquenessV1,
    pub terrain_omts: Vec<ChunkCoord>,
    pub population: Option<WorldgenSpecialPopulationV1>,
}

#[derive(Clone, Copy, Debug, PartialEq, Eq, Structural)]
pub struct WorldgenI32IntervalV1 {
    pub minimum: i32,
    pub maximum: i32,
}

impl WorldgenI32IntervalV1 {
    /// Whether `value` lies in the closed interval.
    pub fn contains(self, value: i32) -> (r: bool)
        ensures
            r == (self.minimum <= value <= self.maximum),
    {
        value >= self.minimum && value <= self.maximum
    }
}

#[derive(Clone, Copy, Debug, PartialEq, Eq, Structural)]
pub enum WorldgenOmtMatchTypeV1 {
    Exact,
    Type,
    Subtype,
    Prefix,
    Contains,
}

#[derive(Clone, Debug, PartialEq, Eq)]
pub struct WorldgenStartTargetV1 {
    pub omt: String,
    pub match_type: WorldgenOmtMatchTypeV1,
}

/// One parameter-free starting location: targets in source order, with city
/// size and edge-distance filters.
#[derive(Clone, Debug, PartialEq, Eq)]
pub struct WorldgenStartLocationV1 {
    pub start_location_id: String,
    pub targets: Vec<WorldgenStartTargetV1>,
    pub city_sizes: WorldgenI32IntervalV1,
    pub city_distance: WorldgenI32IntervalV1,
}

pub open spec fn start_requires_city(start: WorldgenStartLocationV1) -> bool {
    start.city_sizes.minimum > 0 || start.city_distance.maximum < WORLDGEN_OVERMAP_WIDTH as i32
}

impl WorldgenStartLocationV1 {
    /// A start needs a city when it bounds the city size from below or the
    /// city distance below the overmap width.
    pub fn requires_city(&self) -> (r: bool)
        ensures
            r == start_requires_city(*self),
    {
        self.city_sizes.minimum > 0 || self.city_distance.maximum < 180
    }
}

/// Immutable deterministic generation definitions retained by one world.
#[derive(Clone, Debug, PartialEq, Eq)]
pub struct WorldgenCatalogV1 {
    pub generator_version: u16,
    pub overmap: WorldgenOvermapLayoutV1,
    /// Placement-order city seeds, strictly sorted by `city_id`.
    pub cities: Vec<WorldgenCityV1>,
    pub rivers: Vec<WorldgenRiverNodeV1>,
    /// Placement-order fixed specials, strictly sorted by `placement_id`.
    pub specials: Vec<WorldgenSpecialPlacementV1>,
    pub start_location: Option<WorldgenStartLocationV1>,
    /// Prototype-ID-sorted, unique catalogs referenced by compact indices.
    pub terrain_prototypes: Vec<TerrainTileSnapshot>,
    pub furniture_prototypes: Vec<FurnitureTileSnapshot>,
    pub monster_prototypes: Vec<crate::monsters::WorldgenMonsterPrototypeV1>,
    pub monster_groups: Vec<WorldgenMonsterGroupV1>,
    /// Regional-table-ID-sorted, unique catalogs referenced by compact indices.
    pub regional_terrain: Vec<WorldgenRegionalTerrainTableV1>,
    pub regional_furniture: Vec<WorldgenRegionalFurnitureTableV1>,
    pub npc_name_categories: Vec<WorldgenNpcNameCategoryV1>,
    /// OMT-ID-sorted, unique generators.
    pub omt_generators: Vec<WorldgenOmtGeneratorV1>,
}

/// Non-empty, at most 512 UTF-8 bytes, free of control characters.
pub open spec fn worldgen_id_ok(s: Seq<char>) -> bool {
    crate::text::valid_bounded_text(s, MAX_WORLDGEN_ID_BYTES as nat)
}

pub fn valid_worldgen_id(value: &str) -> (r: bool)
    ensures
        r == worldgen_id_ok(value@),
{
    crate::text::bounded_text_is_valid(value, MAX_WORLDGEN_ID_BYTES)
}

/// Whether `text` begins with `prefix`, byte for byte.
pub open spec fn is_prefix_of(prefix: Seq<u8>, text: Seq<u8>) -> bool {
    prefix.len() <= text.len() && text.subrange(0, prefix.len() as int) == prefix
}

/// Whether `needle` occurs as a contiguous byte run of `haystack`.
pub open spec fn occurs_in(needle: Seq<u8>, haystack: Seq<u8>) -> bool {
    exists|start: int| 0 <= start <= haystack.len() - needle.len() && #[trigger] haystack.subrange(start, start + needle.len()) == needle
}

/// Overmap-terrain matching: exact full ID, type, subtype, a full-ID prefix
/// ending at the ID's end or at an underscore, or a full-ID substring.
pub open spec fn omt_matches(target: Seq<char>, match_type: WorldgenOmtMatchTypeV1, identity: WorldgenOmtIdentityV1) -> bool {
    let t = vstd::utf8::encode_utf8(target);
    let full = vstd::utf8::encode_utf8(identity.full_id@);
    match match_type {
        WorldgenOmtMatchTypeV1::Exact => target == identity.full_id@,
        WorldgenOmtMatchTypeV1::Type => target == identity.type_id@,
        WorldgenOmtMatchTypeV1::Subtype => target == identity.subtype_id@,
        WorldgenOmtMatchTypeV1::Prefix => is_prefix_of(t, full) && (full.len() == t.len() || full[t.len() as int] == 0x5fu8),
        WorldgenOmtMatchTypeV1::Contains => occurs_in(t, full),
    }
}

/// What each match kind means for an identity, byte for byte over UTF-8: an
/// exact match is the full ID itself, a type or subtype match that field; a
/// prefix match is the full ID continuing after the target with nothing or
/// with an underscore; a contains match finds the target anywhere in the
/// full ID.
pub proof fn law_omt_match_meanings(target: Seq<char>, identity: WorldgenOmtIdentityV1)
    ensures
        omt_matches(target, WorldgenOmtMatchTypeV1::Exact, identity) == (target == identity.full_id@),
        omt_matches(target, WorldgenOmtMatchTypeV1::Type, identity) == (target == identity.type_id@),
        omt_matches(target, WorldgenOmtMatchTypeV1::Subtype, identity) == (target == identity.subtype_id@),
        omt_matches(target, WorldgenOmtMatchTypeV1::Prefix, identity) == exists|rest: Seq<u8>|
            vstd::utf8::encode_utf8(identity.full_id@) == vstd::utf8::encode_utf8(target) + rest && (rest.len() == 0
                || rest[0] == 0x5fu8),
        omt_matches(target, WorldgenOmtMatchTypeV1::Contains, identity) == exists|before: Seq<u8>, after: Seq<u8>|
            vstd::utf8::encode_utf8(identity.full_id@) == before + vstd::utf8::encode_utf8(target) + after,
{
    let t = vstd::utf8::encode_utf8(target);
    let full = vstd::utf8::encode_utf8(identity.full_id@);
    if omt_matches(target, WorldgenOmtMatchTypeV1::Prefix, identity) {
        let rest = full.subrange(t.len() as int, full.len() as int);
        assert(full =~= t + rest);
    }
    if exists|rest: Seq<u8>| full == t + rest && (rest.len() == 0 || rest[0] == 0x5fu8) {
        let rest = choose|rest: Seq<u8>| full == t + rest && (rest.len() == 0 || rest[0] == 0x5fu8);
        assert(full.subrange(0, t.len() as int) =~= t);
        if rest.len() > 0 {
            assert(full[t.len() as int] == rest[0]);
        }
    }
    if omt_matches(target, WorldgenOmtMatchTypeV1::Contains, identity) {
        let start = choose|start: int| 0 <= start <= full.len() - t.len() && #[trigger] full.subrange(start, start + t.len()) == t;
        let before = full.subrange(0, start);
        let after = full.subrange(start + t.len(), full.len() as int);
        assert(full =~= before + t + after);
    }
    if exists|before: Seq<u8>, after: Seq<u8>| full == before + t + after {
        let (before, after) = choose|before: Seq<u8>, after: Seq<u8>| full == before + t + after;
        assert(full.subrange(before.len() as int, (before.len() + t.len()) as int) =~= t);
    }
}

/// An exact match is also a prefix match, and a prefix match is also a
/// contains match.
pub proof fn law_omt_matches_nest(target: Seq<char>, identity: WorldgenOmtIdentityV1)
    ensures
        omt_matches(target, WorldgenOmtMatchTypeV1::Exact, identity) ==> omt_matches(
            target,
            WorldgenOmtMatchTypeV1::Prefix,
            identity,
        ),
        omt_matches(target, WorldgenOmtMatchTypeV1::Prefix, identity) ==> omt_matches(
            target,
            WorldgenOmtMatchTypeV1::Contains,
            identity,
        ),
{
    let t = vstd::utf8::encode_utf8(target);
    let full = vstd::utf8::encode_utf8(identity.full_id@);
    if omt_matches(target, WorldgenOmtMatchTypeV1::Exact, identity) {
        assert(full.subrange(0, t.len() as int) =~= t);
    }
    if omt_matches(target, WorldgenOmtMatchTypeV1::Prefix, identity) {
        assert(full.subrange(0, (0 + t.len()) as int) == t);
    }
}

/// Whether `a[at..at + b.len()]` equals `b`.
fn bytes_match_at(a: &[u8], at: usize, b: &[u8]) -> (r: bool)
    requires
        at + b@.len() <= a@.len(),
    ensures
        r == (a@.subrange(at as int, at + b@.len()) == b@),
{
    let mut i: usize = 0;
    while i < b.len()
        invariant
            i <= b@.len(),
            at + b@.len() <= a@.len(),
            a@.len() == a.len(),
            forall|j: int| 0 <= j < i ==> a@[at + j] == b@[j],
        decreases b.len() - i,
    {
        if a[at + i] != b[i] {
            assert(a@.subrange(at as int, at + b@.len())[i as int] != b@[i as int]);
            return false;
        }
        i = i + 1;
    }
    assert(a@.subrange(at as int, at + b@.len()) =~= b@);
    true
}

/// Overmap-terrain matching of `target` against a normalized identity.
#[verifier::loop_isolation(false)]
pub fn worldgen_omt_matches(target: &str, match_type: WorldgenOmtMatchTypeV1, identity: &WorldgenOmtIdentityV1) -> (r: bool)
    ensures
        r == omt_matches(target@, match_type, *identity),
{
    match match_type {
        WorldgenOmtMatchTypeV1::Exact => crate::text::str_eq(target, identity.full_id.as_str()),
        WorldgenOmtMatchTypeV1::Type => crate::text::str_eq(target, identity.type_id.as_str()),
        WorldgenOmtMatchTypeV1::Subtype => crate::text::str_eq(target, identity.subtype_id.as_str()),
        WorldgenOmtMatchTypeV1::Prefix => {
            let t = target.as_bytes();
            let full = identity.full_id.as_str().as_bytes();
            assert(t@ == vstd::utf8::encode_utf8(target@));
            assert(full@ == vstd::utf8::encode_utf8(identity.full_id@));
            if t.len() > full.len() {
                return false;
            }
            bytes_match_at(full, 0, t) && (full.len() == t.len() || full[t.len()] == 0x5f)
        },
        WorldgenOmtMatchTypeV1::Contains => {
            let t = target.as_bytes();
            let full = identity.full_id.as_str().as_bytes();
            assert(t@ == vstd::utf8::encode_utf8(target@));
            assert(full@ == vstd::utf8::encode_utf8(identity.full_id@));
            if t.len() > full.len() {
                return false;
            }
            let last = full.len() - t.len();
            let mut start: usize = 0;
            while start <= last
                invariant
                    t@.len() <= full@.len(),
                    last == full@.len() - t@.len(),
                    start <= last + 1,
                    forall|s: int| 0 <= s < start ==> #[trigger] full@.subrange(s, s + t@.len()) != t@,
                decreases last + 1 - start,
            {
                if bytes_match_at(full, start, t) {
                    assert(full@.subrange(start as int, start + t@.len()) == t@);
                    assert(occurs_in(t@, full@));
                    return true;
                }
                if start == last {
                    break;
                }
                start = start + 1;
            }
            false
        },
    }
}

/// The greatest `r` with `r * r <= value`.
pub open spec fn is_integer_sqrt(value: int, r: int) -> bool {
    0 <= r && r * r <= value < (r + 1) * (r + 1)
}

fn integer_sqrt_u64(value: u64) -> (r: u64)
    ensures
        is_integer_sqrt(value as int, r as int),
{
    if value < 2 {
        assert(is_integer_sqrt(value as int, value as int)) by (nonlinear_arith)
            requires value < 2;
        return value;
    }
    let mut lower: u64 = 1;
    let mut upper: u64 = if value < 0xffff_ffff { value + 1 } else { 0x1_0000_0000 };
    assert(upper * upper > value) by (nonlinear_arith)
        requires
            value >= 2,
            upper == value + 1 || upper == 0x1_0000_0000u64,
            upper == value + 1 || value >= 0xffff_ffff,
    ;
    while lower + 1 < upper
        invariant
            1 <= lower < upper <= 0x1_0000_0000,
            lower * lower <= value,
            upper * upper > value,
        decreases upper - lower,
    {
        let middle = lower + (upper - lower) / 2;
        assert(lower < middle < upper);
        let quotient = value / middle;
        if middle <= quotient {
            assert(middle * middle <= value) by (nonlinear_arith)
                requires
                    middle > 0,
                    middle <= quotient,
                    quotient == value / middle,
            ;
            lower = middle;
        } else {
            assert(middle * middle > value) by (nonlinear_arith)
                requires
                    middle > 0,
                    middle > quotient,
                    quotient == value / middle,
            ;
            upper = middle;
        }
    }
    assert(upper == lower + 1);
    lower
}

/// The integer square root of a nonnegative value.
pub open spec fn isqrt(value: int) -> int {
    choose|r: int| is_integer_sqrt(value, r)
}

proof fn lemma_isqrt_unique(value: int, a: int, b: int)
    requires
        is_integer_sqrt(value, a),
        is_integer_sqrt(value, b),
    ensures
        a == b,
{
    if a < b {
        assert((a + 1) * (a + 1) <= b * b) by (nonlinear_arith)
            requires 0 <= a, a + 1 <= b;
    } else if b < a {
        assert((b + 1) * (b + 1) <= a * a) by (nonlinear_arith)
            requires 0 <= b, b + 1 <= a;
    }
}

/// The squared horizontal distance from the city center, saturated at
/// `i64::MAX` as the signed 64-bit computation saturates.
pub open spec fn squared_distance(city: WorldgenCityV1, omt: ChunkCoord) -> int {
    let dx = omt.x - city.center.x;
    let dy = omt.y - city.center.y;
    let d = dx * dx + dy * dy;
    if d > i64::MAX { i64::MAX as int } else { d }
}

/// City start distance: the radial distance (integer square root of the
/// squared distance, saturated to `i32`) minus the city size, clamped at
/// zero, minus the city size again.
pub open spec fn city_start_distance(city: WorldgenCityV1, omt: ChunkCoord) -> int {
    let root = isqrt(squared_distance(city, omt));
    let radial = if root > i32::MAX { i32::MAX as int } else { root };
    let inner = radial - city.size;
    let clamped = if inner < 0 { 0 } else { inner };
    clamped - city.size
}

/// Start-distance projection used by city-origin start locations. Inside
/// the city the result is negative: the size is subtracted twice.
pub fn worldgen_city_start_distance(city: &WorldgenCityV1, omt: ChunkCoord) -> (r: i32)
    ensures
        r == city_start_distance(*city, omt),
{
    let dx: i128 = omt.x as i128 - city.center.x as i128;
    let dy: i128 = omt.y as i128 - city.center.y as i128;
    assert(0 <= dx * dx <= 0x4_0000_0000_0000_0000) by (nonlinear_arith)
        requires -0x1_0000_0000 <= dx <= 0x1_0000_0000;
    assert(0 <= dy * dy <= 0x4_0000_0000_0000_0000) by (nonlinear_arith)
        requires -0x1_0000_0000 <= dy <= 0x1_0000_0000;
    let total: i128 = dx * dx + dy * dy;
    let squared: u64 = if total > 0x7fff_ffff_ffff_ffff { 0x7fff_ffff_ffff_ffff } else { total as u64 };
    let root = integer_sqrt_u64(squared);
    proof {
        assert(squared as int == squared_distance(*city, omt));
        let witness = root as int;
        assert(is_integer_sqrt(squared as int, witness));
        let chosen = isqrt(squared as int);
        assert(is_integer_sqrt(squared as int, chosen));
        lemma_isqrt_unique(squared as int, chosen, witness);
    }
    let radial: i32 = if root > 0x7fff_ffff { 0x7fff_ffff } else { root as i32 };
    let size = city.size as i32;
    let inner = radial - size;
    let clamped = if inner < 0 { 0 } else { inner };
    clamped - size
}

/// A city start distance is never below minus the city's size, and it is
/// exactly minus the size wherever the radial distance is within the size.
pub proof fn law_city_start_distance_lower_bound(city: WorldgenCityV1, omt: ChunkCoord)
    ensures
        city_start_distance(city, omt) >= -(city.size as int),
        isqrt(squared_distance(city, omt)) <= city.size ==> city_start_distance(city, omt) == -(city.size as int),
{
}

/// Along an axis through the center, `k` tiles away, the radial distance is
/// `k` itself: the start distance is `max(k - size, 0) - size`.
pub proof fn law_city_start_distance_along_an_axis(city: WorldgenCityV1, omt: ChunkCoord, k: int)
    requires
        0 <= k <= i32::MAX,
        omt.x == city.center.x + k,
        omt.y == city.center.y,
    ensures
        city_start_distance(city, omt) == (if k > city.size { k - city.size } else { 0 }) - city.size,
{
    assert(0 <= k * k <= 0x4000_0000_0000_0000) by (nonlinear_arith)
        requires 0 <= k <= 0x7fff_ffff;
    assert(squared_distance(city, omt) == k * k);
    assert(is_integer_sqrt(k * k, k)) by (nonlinear_arith)
        requires 0 <= k;
    lemma_isqrt_unique(k * k, isqrt(k * k), k);
}

} // verus!
