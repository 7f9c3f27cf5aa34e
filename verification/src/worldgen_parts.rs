//! Validation of the parts of a world-generation catalog: tile prototypes,
//! regional tables, cells, and placements.

use vstd::prelude::*;

use crate::text::{has_control, str_eq, str_has_control, str_less, text_len, text_lt, utf8_len, valid_bounded_text};
use crate::weights::{checked_positive_weight_sum, positive_weights_fit, weights_of, Weighted};
use crate::worldgen::{
    builtin_mapgen_is_valid, valid_worldgen_id, worldgen_id_ok, FurnitureTileSnapshot,
    TerrainTileSnapshot, WorldgenAreaItemPlacementV1, WorldgenBuiltinMapgenV1, WorldgenCatalogV1,
    WorldgenCellV1, WorldgenCoordinateRangeV1, WorldgenFurniturePrototypeTargetV1,
    WorldgenFurnitureTargetV1, WorldgenIndividualMonsterPlacementV1,
    WorldgenIndividualMonsterTargetV1, WorldgenItemGroupPlacementV1, WorldgenMonsterPlacementV1,
    WorldgenNeighborConditionV1, WorldgenNestedChoiceV1, WorldgenNestedPlacementV1,
    WorldgenNestedTemplateV1, WorldgenOmtIdentityV1, MAX_WORLDGEN_OMT_IDENTITIES, WorldgenNpcNameCategoryV1,
    WorldgenNpcPlacementV1, WorldgenRegionalFurnitureTableV1, WorldgenRegionalTerrainTableV1,
    WorldgenTemplateV1, WorldgenTerrainTargetV1, WorldgenU16RangeV1,
    WorldgenWeightedFurniturePrototypeV1, WorldgenWeightedFurnitureTargetV1,
    WorldgenWeightedPrototypeV1, WorldgenWeightedTerrainTargetV1, MAX_WORLDGEN_CELL_CHOICES,
    MAX_WORLDGEN_CELL_LAYERS, MAX_WORLDGEN_DEFERRED_FIELDS, MAX_WORLDGEN_ITEM_PLACEMENT_REPEAT,
    MAX_WORLDGEN_MONSTER_DENSITY_MILLIONTHS, MAX_WORLDGEN_MONSTER_PACK_SIZE,
    MAX_WORLDGEN_MONSTER_REPEAT, MAX_WORLDGEN_REGIONAL_CHOICES,
};

verus! {

impl Weighted for WorldgenWeightedPrototypeV1 {
    open spec fn weight_of(&self) -> u32 {
        self.weight
    }

    fn weight(&self) -> (r: u32) {
        self.weight
    }
}

impl Weighted for WorldgenWeightedFurniturePrototypeV1 {
    open spec fn weight_of(&self) -> u32 {
        self.weight
    }

    fn weight(&self) -> (r: u32) {
        self.weight
    }
}

impl Weighted for WorldgenWeightedTerrainTargetV1 {
    open spec fn weight_of(&self) -> u32 {
        self.weight
    }

    fn weight(&self) -> (r: u32) {
        self.weight
    }
}

impl Weighted for WorldgenWeightedFurnitureTargetV1 {
    open spec fn weight_of(&self) -> u32 {
        self.weight
    }

    fn weight(&self) -> (r: u32) {
        self.weight
    }
}

impl Weighted for WorldgenNestedChoiceV1 {
    open spec fn weight_of(&self) -> u32 {
        self.weight
    }

    fn weight(&self) -> (r: u32) {
        self.weight
    }
}

impl Weighted for WorldgenTemplateV1 {
    open spec fn weight_of(&self) -> u32 {
        self.weight
    }

    fn weight(&self) -> (r: u32) {
        self.weight
    }
}

impl Weighted for WorldgenNestedTemplateV1 {
    open spec fn weight_of(&self) -> u32 {
        self.weight
    }

    fn weight(&self) -> (r: u32) {
        self.weight
    }
}

/// At most 512 UTF-8 bytes and free of control characters.
pub open spec fn tile_text_ok(s: Seq<char>) -> bool {
    utf8_len(s) <= 512 && !has_control(s)
}

/// A transition is either wholly absent or names a target with its full state.
pub open spec fn transition_ok(target: Seq<char>, move_cost: Option<i32>, transparent: Option<bool>, flat: Option<bool>) -> bool {
    ||| target.len() == 0 && move_cost is None && transparent is None && flat is None
    ||| target.len() > 0 && (move_cost matches Some(cost) && cost >= -1) && transparent is Some && flat is Some
}

pub open spec fn terrain_tile_ok(tile: TerrainTileSnapshot) -> bool {
    &&& tile.terrain_id@.len() > 0
    &&& tile.move_cost >= -1
    &&& tile_text_ok(tile.terrain_id@)
    &&& tile_text_ok(tile.open@)
    &&& tile_text_ok(tile.close@)
    &&& transition_ok(tile.open@, tile.open_move_cost, tile.open_transparent, tile.open_flat)
    &&& transition_ok(tile.close@, tile.close_move_cost, tile.close_transparent, tile.close_flat)
}

fn tile_text_is_ok(s: &str) -> (r: bool)
    ensures
        r == tile_text_ok(s@),
{
    text_len(s) <= 512 && !str_has_control(s)
}

fn transition_is_ok(target: &str, move_cost: Option<i32>, transparent: Option<bool>, flat: Option<bool>) -> (r: bool)
    ensures
        r == transition_ok(target@, move_cost, transparent, flat),
{
    if target.is_empty() {
        move_cost.is_none() && transparent.is_none() && flat.is_none()
    } else {
        match move_cost {
            Some(cost) => cost >= -1 && transparent.is_some() && flat.is_some(),
            None => false,
        }
    }
}

pub fn valid_terrain_tile(tile: &TerrainTileSnapshot) -> (r: bool)
    ensures
        r == terrain_tile_ok(*tile),
{
    !tile.terrain_id.as_str().is_empty()
        && tile.move_cost >= -1
        && tile_text_is_ok(tile.terrain_id.as_str())
        && tile_text_is_ok(tile.open.as_str())
        && tile_text_is_ok(tile.close.as_str())
        && transition_is_ok(tile.open.as_str(), tile.open_move_cost, tile.open_transparent, tile.open_flat)
        && transition_is_ok(tile.close.as_str(), tile.close_move_cost, tile.close_transparent, tile.close_flat)
}

pub open spec fn furniture_tile_ok(tile: FurnitureTileSnapshot) -> bool {
    valid_bounded_text(tile.furniture_id@, 512)
}

pub fn valid_furniture_tile(tile: &FurnitureTileSnapshot) -> (r: bool)
    ensures
        r == furniture_tile_ok(*tile),
{
    crate::text::bounded_text_is_valid(tile.furniture_id.as_str(), 512)
}

pub open spec fn regional_terrain_table_ok(table: WorldgenRegionalTerrainTableV1, prototype_count: int) -> bool {
    &&& worldgen_id_ok(table.regional_id@)
    &&& table.choices@.len() > 0
    &&& table.choices@.len() <= MAX_WORLDGEN_REGIONAL_CHOICES
    &&& positive_weights_fit(weights_of(table.choices@))
    &&& forall|c: int| 0 <= c < table.choices@.len() ==> (#[trigger] table.choices@[c]).prototype_index < prototype_count
}

pub fn valid_worldgen_regional_terrain_table(table: &WorldgenRegionalTerrainTableV1, prototype_count: usize) -> (r: bool)
    ensures
        r == regional_terrain_table_ok(*table, prototype_count as int),
{
    if !valid_worldgen_id(table.regional_id.as_str()) || table.choices.len() == 0 || table.choices.len() > MAX_WORLDGEN_REGIONAL_CHOICES
        || !checked_positive_weight_sum(&table.choices) {
        return false;
    }
    let mut c: usize = 0;
    while c < table.choices.len()
        invariant
            c <= table.choices@.len(),
            forall|j: int| 0 <= j < c ==> (#[trigger] table.choices@[j]).prototype_index < prototype_count,
        decreases table.choices.len() - c,
    {
        if table.choices[c].prototype_index as usize >= prototype_count {
            return false;
        }
        c = c + 1;
    }
    true
}

pub open spec fn furniture_prototype_target_ok(target: WorldgenFurniturePrototypeTargetV1, prototype_count: int) -> bool {
    match target {
        WorldgenFurniturePrototypeTargetV1::Empty => true,
        WorldgenFurniturePrototypeTargetV1::Prototype(index) => index < prototype_count,
    }
}

pub open spec fn regional_furniture_table_ok(table: WorldgenRegionalFurnitureTableV1, prototype_count: int) -> bool {
    &&& worldgen_id_ok(table.regional_id@)
    &&& table.choices@.len() > 0
    &&& table.choices@.len() <= MAX_WORLDGEN_REGIONAL_CHOICES
    &&& positive_weights_fit(weights_of(table.choices@))
    &&& forall|c: int| 0 <= c < table.choices@.len() ==> furniture_prototype_target_ok((#[trigger] table.choices@[c]).target, prototype_count)
}

pub fn valid_worldgen_regional_furniture_table(table: &WorldgenRegionalFurnitureTableV1, prototype_count: usize) -> (r: bool)
    ensures
        r == regional_furniture_table_ok(*table, prototype_count as int),
{
    if !valid_worldgen_id(table.regional_id.as_str()) || table.choices.len() == 0 || table.choices.len() > MAX_WORLDGEN_REGIONAL_CHOICES
        || !checked_positive_weight_sum(&table.choices) {
        return false;
    }
    let mut c: usize = 0;
    while c < table.choices.len()
        invariant
            c <= table.choices@.len(),
            forall|j: int| 0 <= j < c ==> furniture_prototype_target_ok((#[trigger] table.choices@[j]).target, prototype_count as int),
        decreases table.choices.len() - c,
    {
        let ok = match table.choices[c].target {
            WorldgenFurniturePrototypeTargetV1::Empty => true,
            WorldgenFurniturePrototypeTargetV1::Prototype(index) => (index as usize) < prototype_count,
        };
        if !ok {
            return false;
        }
        c = c + 1;
    }
    true
}

pub open spec fn item_placement_ok(placement: WorldgenItemGroupPlacementV1) -> bool {
    &&& worldgen_id_ok(placement.group_id@)
    &&& 1 <= placement.chance <= 100
    &&& placement.repeat_minimum <= placement.repeat_maximum
    &&& placement.repeat_maximum <= MAX_WORLDGEN_ITEM_PLACEMENT_REPEAT
}

pub fn valid_worldgen_item_placement(placement: &WorldgenItemGroupPlacementV1) -> (r: bool)
    ensures
        r == item_placement_ok(*placement),
{
    valid_worldgen_id(placement.group_id.as_str())
        && 1 <= placement.chance && placement.chance <= 100
        && placement.repeat_minimum <= placement.repeat_maximum
        && placement.repeat_maximum <= MAX_WORLDGEN_ITEM_PLACEMENT_REPEAT
}

/// An ordered offset range whose ends lie strictly within one OMT width.
pub open spec fn coordinate_range_ok(range: WorldgenCoordinateRangeV1) -> bool {
    &&& range.minimum <= range.maximum
    &&& -24 < range.minimum < 24
    &&& -24 < range.maximum < 24
}

pub fn valid_worldgen_coordinate_range(range: WorldgenCoordinateRangeV1) -> (r: bool)
    ensures
        r == coordinate_range_ok(range),
{
    range.minimum <= range.maximum && -24 < range.minimum && range.minimum < 24 && -24 < range.maximum && range.maximum < 24
}

/// The semantic phases that a template may defer.
pub open spec fn deferred_field_known(field: Seq<char>) -> bool {
    ||| field == "forest_components"@
    ||| field == "place_monsters"@
    ||| field == "place_vehicles"@
    ||| field == "signage_text"@
}

pub open spec fn deferred_fields_ok(fields: Seq<String>) -> bool {
    &&& fields.len() <= MAX_WORLDGEN_DEFERRED_FIELDS
    &&& forall|i: int| 0 <= i < fields.len() - 1 ==> text_lt(#[trigger] fields[i]@, fields[i + 1]@)
    &&& forall|i: int| 0 <= i < fields.len() ==> deferred_field_known(#[trigger] fields[i]@)
}

fn deferred_field_is_known(field: &str) -> (r: bool)
    ensures
        r == deferred_field_known(field@),
{
    str_eq(field, "forest_components") || str_eq(field, "place_monsters") || str_eq(field, "place_vehicles") || str_eq(field, "signage_text")
}

pub fn valid_worldgen_deferred_fields(fields: &Vec<String>) -> (r: bool)
    ensures
        r == deferred_fields_ok(fields@),
{
    if fields.len() > MAX_WORLDGEN_DEFERRED_FIELDS {
        return false;
    }
    let mut i: usize = 0;
    while i < fields.len()
        invariant
            i <= fields@.len(),
            forall|j: int| 0 <= j < i - 1 && j < fields@.len() - 1 ==> text_lt(#[trigger] fields@[j]@, fields@[j + 1]@),
            forall|j: int| 0 <= j < i ==> deferred_field_known(#[trigger] fields@[j]@),
        decreases fields.len() - i,
    {
        if !deferred_field_is_known(fields[i].as_str()) {
            return false;
        }
        if i > 0 && !str_less(fields[i - 1].as_str(), fields[i].as_str()) {
            assert(fields@[(i - 1) as int + 1] == fields@[i as int]);
            return false;
        }
        i = i + 1;
    }
    true
}

pub open spec fn u16_range_ok(range: WorldgenU16RangeV1, minimum: u16, maximum: u16) -> bool {
    range.minimum >= minimum && range.minimum <= range.maximum && range.maximum <= maximum
}

pub fn valid_worldgen_u16_range(range: WorldgenU16RangeV1, minimum: u16, maximum: u16) -> (r: bool)
    ensures
        r == u16_range_ok(range, minimum, maximum),
{
    range.minimum >= minimum && range.minimum <= range.maximum && range.maximum <= maximum
}

pub open spec fn area_item_placement_ok(placement: WorldgenAreaItemPlacementV1) -> bool {
    item_placement_ok(placement.item_group) && coordinate_range_ok(placement.x) && coordinate_range_ok(placement.y)
}

pub fn valid_worldgen_area_item_placement(placement: &WorldgenAreaItemPlacementV1) -> (r: bool)
    ensures
        r == area_item_placement_ok(*placement),
{
    valid_worldgen_item_placement(&placement.item_group) && valid_worldgen_coordinate_range(placement.x)
        && valid_worldgen_coordinate_range(placement.y)
}

pub open spec fn monster_placement_ok(placement: WorldgenMonsterPlacementV1, group_count: int) -> bool {
    &&& placement.group_index < group_count
    &&& u16_range_ok(placement.chance, 1, u16::MAX)
    &&& placement.density_millionths <= MAX_WORLDGEN_MONSTER_DENSITY_MILLIONTHS
    &&& u16_range_ok(placement.repeat, 1, MAX_WORLDGEN_MONSTER_REPEAT)
    &&& coordinate_range_ok(placement.x)
    &&& coordinate_range_ok(placement.y)
}

pub fn valid_worldgen_monster_placement(placement: &WorldgenMonsterPlacementV1, group_count: usize) -> (r: bool)
    ensures
        r == monster_placement_ok(*placement, group_count as int),
{
    (placement.group_index as usize) < group_count
        && valid_worldgen_u16_range(placement.chance, 1, u16::MAX)
        && placement.density_millionths <= MAX_WORLDGEN_MONSTER_DENSITY_MILLIONTHS
        && valid_worldgen_u16_range(placement.repeat, 1, MAX_WORLDGEN_MONSTER_REPEAT)
        && valid_worldgen_coordinate_range(placement.x)
        && valid_worldgen_coordinate_range(placement.y)
}

pub open spec fn individual_monster_placement_ok(placement: WorldgenIndividualMonsterPlacementV1, prototype_count: int, group_count: int) -> bool {
    &&& match placement.target {
        WorldgenIndividualMonsterTargetV1::Monster { prototype_index } => prototype_index < prototype_count,
        WorldgenIndividualMonsterTargetV1::Group { group_index } => group_index < group_count,
    }
    &&& u16_range_ok(placement.chance_percent, 1, 100)
    &&& u16_range_ok(placement.pack_size, 1, MAX_WORLDGEN_MONSTER_PACK_SIZE)
    &&& u16_range_ok(placement.repeat, 1, MAX_WORLDGEN_MONSTER_REPEAT)
    &&& coordinate_range_ok(placement.x)
    &&& coordinate_range_ok(placement.y)
}

pub fn valid_worldgen_individual_monster_placement(
    placement: &WorldgenIndividualMonsterPlacementV1,
    prototype_count: usize,
    group_count: usize,
) -> (r: bool)
    ensures
        r == individual_monster_placement_ok(*placement, prototype_count as int, group_count as int),
{
    let target_is_valid = match placement.target {
        WorldgenIndividualMonsterTargetV1::Monster { prototype_index } => (prototype_index as usize) < prototype_count,
        WorldgenIndividualMonsterTargetV1::Group { group_index } => (group_index as usize) < group_count,
    };
    target_is_valid
        && valid_worldgen_u16_range(placement.chance_percent, 1, 100)
        && valid_worldgen_u16_range(placement.pack_size, 1, MAX_WORLDGEN_MONSTER_PACK_SIZE)
        && valid_worldgen_u16_range(placement.repeat, 1, MAX_WORLDGEN_MONSTER_REPEAT)
        && valid_worldgen_coordinate_range(placement.x)
        && valid_worldgen_coordinate_range(placement.y)
}

/// Whether some name category has the given ID.
pub open spec fn has_name_category(categories: Seq<WorldgenNpcNameCategoryV1>, id: Seq<char>) -> bool {
    exists|c: int| 0 <= c < categories.len() && (#[trigger] categories[c]).category_id@ == id
}

pub fn name_category_exists(categories: &Vec<WorldgenNpcNameCategoryV1>, id: &str) -> (r: bool)
    ensures
        r == has_name_category(categories@, id@),
{
    let mut c: usize = 0;
    while c < categories.len()
        invariant
            c <= categories@.len(),
            forall|j: int| 0 <= j < c ==> (#[trigger] categories@[j]).category_id@ != id@,
        decreases categories.len() - c,
    {
        if str_eq(categories[c].category_id.as_str(), id) {
            return true;
        }
        c = c + 1;
    }
    false
}

pub open spec fn npc_placement_ok(placement: WorldgenNpcPlacementV1, categories: Seq<WorldgenNpcNameCategoryV1>) -> bool {
    &&& worldgen_id_ok(placement.template_id@)
    &&& placement.generated_name_category_ids@.len() <= 2
    &&& forall|i: int| 0 <= i < placement.generated_name_category_ids@.len() ==> has_name_category(categories, (#[trigger] placement.generated_name_category_ids@[i])@)
    &&& u16_range_ok(placement.repeat, 0, MAX_WORLDGEN_MONSTER_REPEAT)
    &&& coordinate_range_ok(placement.x)
    &&& coordinate_range_ok(placement.y)
}

pub fn valid_worldgen_npc_placement(placement: &WorldgenNpcPlacementV1, categories: &Vec<WorldgenNpcNameCategoryV1>) -> (r: bool)
    ensures
        r == npc_placement_ok(*placement, categories@),
{
    let ids = &placement.generated_name_category_ids;
    if !valid_worldgen_id(placement.template_id.as_str()) || ids.len() > 2 {
        return false;
    }
    let mut i: usize = 0;
    while i < ids.len()
        invariant
            i <= ids@.len(),
            forall|j: int| 0 <= j < i ==> has_name_category(categories@, (#[trigger] ids@[j])@),
        decreases ids.len() - i,
    {
        if !name_category_exists(categories, ids[i].as_str()) {
            return false;
        }
        i = i + 1;
    }
    valid_worldgen_u16_range(placement.repeat, 0, MAX_WORLDGEN_MONSTER_REPEAT)
        && valid_worldgen_coordinate_range(placement.x)
        && valid_worldgen_coordinate_range(placement.y)
}

pub open spec fn terrain_target_ok(target: WorldgenTerrainTargetV1, catalog: WorldgenCatalogV1) -> bool {
    match target {
        WorldgenTerrainTargetV1::Prototype(index) => index < catalog.terrain_prototypes@.len(),
        WorldgenTerrainTargetV1::Regional(index) => index < catalog.regional_terrain@.len(),
    }
}

pub open spec fn furniture_target_ok(target: WorldgenFurnitureTargetV1, catalog: WorldgenCatalogV1) -> bool {
    match target {
        WorldgenFurnitureTargetV1::Empty => true,
        WorldgenFurnitureTargetV1::Prototype(index) => index < catalog.furniture_prototypes@.len(),
        WorldgenFurnitureTargetV1::Regional(index) => index < catalog.regional_furniture@.len(),
    }
}

pub open spec fn terrain_layer_ok(layer: Seq<WorldgenWeightedTerrainTargetV1>, catalog: WorldgenCatalogV1) -> bool {
    &&& layer.len() > 0
    &&& layer.len() <= MAX_WORLDGEN_CELL_CHOICES
    &&& positive_weights_fit(weights_of(layer))
    &&& forall|k: int| 0 <= k < layer.len() ==> terrain_target_ok((#[trigger] layer[k]).target, catalog)
}

pub open spec fn furniture_layer_ok(layer: Seq<WorldgenWeightedFurnitureTargetV1>, catalog: WorldgenCatalogV1) -> bool {
    &&& layer.len() > 0
    &&& layer.len() <= MAX_WORLDGEN_CELL_CHOICES
    &&& positive_weights_fit(weights_of(layer))
    &&& forall|k: int| 0 <= k < layer.len() ==> furniture_target_ok((#[trigger] layer[k]).target, catalog)
}

/// At most 32 terrain and 32 furniture phases, each a non-empty weighted
/// choice of at most 32 in-range targets, and an optional valid item group.
pub open spec fn cell_shape_ok(cell: WorldgenCellV1, catalog: WorldgenCatalogV1) -> bool {
    &&& cell.terrain@.len() <= MAX_WORLDGEN_CELL_LAYERS
    &&& cell.furniture@.len() <= MAX_WORLDGEN_CELL_LAYERS
    &&& forall|l: int| 0 <= l < cell.terrain@.len() ==> terrain_layer_ok((#[trigger] cell.terrain@[l])@, catalog)
    &&& forall|l: int| 0 <= l < cell.furniture@.len() ==> furniture_layer_ok((#[trigger] cell.furniture@[l])@, catalog)
    &&& (cell.item_group matches Some(placement) ==> item_placement_ok(placement))
}

fn terrain_layer_is_ok(layer: &Vec<WorldgenWeightedTerrainTargetV1>, catalog: &WorldgenCatalogV1) -> (r: bool)
    ensures
        r == terrain_layer_ok(layer@, *catalog),
{
    if layer.len() == 0 || layer.len() > MAX_WORLDGEN_CELL_CHOICES || !checked_positive_weight_sum(layer) {
        return false;
    }
    let mut k: usize = 0;
    while k < layer.len()
        invariant
            k <= layer@.len(),
            forall|j: int| 0 <= j < k ==> terrain_target_ok((#[trigger] layer@[j]).target, *catalog),
        decreases layer.len() - k,
    {
        let ok = match layer[k].target {
            WorldgenTerrainTargetV1::Prototype(index) => (index as usize) < catalog.terrain_prototypes.len(),
            WorldgenTerrainTargetV1::Regional(index) => (index as usize) < catalog.regional_terrain.len(),
        };
        if !ok {
            return false;
        }
        k = k + 1;
    }
    true
}

fn furniture_layer_is_ok(layer: &Vec<WorldgenWeightedFurnitureTargetV1>, catalog: &WorldgenCatalogV1) -> (r: bool)
    ensures
        r == furniture_layer_ok(layer@, *catalog),
{
    if layer.len() == 0 || layer.len() > MAX_WORLDGEN_CELL_CHOICES || !checked_positive_weight_sum(layer) {
        return false;
    }
    let mut k: usize = 0;
    while k < layer.len()
        invariant
            k <= layer@.len(),
            forall|j: int| 0 <= j < k ==> furniture_target_ok((#[trigger] layer@[j]).target, *catalog),
        decreases layer.len() - k,
    {
        let ok = match layer[k].target {
            WorldgenFurnitureTargetV1::Empty => true,
            WorldgenFurnitureTargetV1::Prototype(index) => (index as usize) < catalog.furniture_prototypes.len(),
            WorldgenFurnitureTargetV1::Regional(index) => (index as usize) < catalog.regional_furniture.len(),
        };
        if !ok {
            return false;
        }
        k = k + 1;
    }
    true
}

pub fn valid_worldgen_cell_shape(cell: &WorldgenCellV1, catalog: &WorldgenCatalogV1) -> (r: bool)
    ensures
        r == cell_shape_ok(*cell, *catalog),
{
    if cell.terrain.len() > MAX_WORLDGEN_CELL_LAYERS || cell.furniture.len() > MAX_WORLDGEN_CELL_LAYERS {
        return false;
    }
    let mut l: usize = 0;
    while l < cell.terrain.len()
        invariant
            l <= cell.terrain@.len(),
            forall|j: int| 0 <= j < l ==> terrain_layer_ok((#[trigger] cell.terrain@[j])@, *catalog),
        decreases cell.terrain.len() - l,
    {
        if !terrain_layer_is_ok(&cell.terrain[l], catalog) {
            return false;
        }
        l = l + 1;
    }
    let mut l: usize = 0;
    while l < cell.furniture.len()
        invariant
            l <= cell.furniture@.len(),
            forall|j: int| 0 <= j < l ==> furniture_layer_ok((#[trigger] cell.furniture@[j])@, *catalog),
        decreases cell.furniture.len() - l,
    {
        if !furniture_layer_is_ok(&cell.furniture[l], catalog) {
            return false;
        }
        l = l + 1;
    }
    match &cell.item_group {
        Some(placement) => valid_worldgen_item_placement(placement),
        None => true,
    }
}

/// Whether some terrain prototype has the given ID.
pub open spec fn has_terrain(catalog: WorldgenCatalogV1, id: Seq<char>) -> bool {
    exists|t: int| 0 <= t < catalog.terrain_prototypes@.len() && (#[trigger] catalog.terrain_prototypes@[t]).terrain_id@ == id
}

pub open spec fn has_regional_terrain(catalog: WorldgenCatalogV1, id: Seq<char>) -> bool {
    exists|t: int| 0 <= t < catalog.regional_terrain@.len() && (#[trigger] catalog.regional_terrain@[t]).regional_id@ == id
}

fn terrain_exists(catalog: &WorldgenCatalogV1, id: &str) -> (r: bool)
    ensures
        r == has_terrain(*catalog, id@),
{
    let mut t: usize = 0;
    while t < catalog.terrain_prototypes.len()
        invariant
            t <= catalog.terrain_prototypes@.len(),
            forall|j: int| 0 <= j < t ==> (#[trigger] catalog.terrain_prototypes@[j]).terrain_id@ != id@,
        decreases catalog.terrain_prototypes.len() - t,
    {
        if str_eq(catalog.terrain_prototypes[t].terrain_id.as_str(), id) {
            return true;
        }
        t = t + 1;
    }
    false
}

fn regional_terrain_exists(catalog: &WorldgenCatalogV1, id: &str) -> (r: bool)
    ensures
        r == has_regional_terrain(*catalog, id@),
{
    let mut t: usize = 0;
    while t < catalog.regional_terrain.len()
        invariant
            t <= catalog.regional_terrain@.len(),
            forall|j: int| 0 <= j < t ==> (#[trigger] catalog.regional_terrain@[j]).regional_id@ != id@,
        decreases catalog.regional_terrain.len() - t,
    {
        if str_eq(catalog.regional_terrain[t].regional_id.as_str(), id) {
            return true;
        }
        t = t + 1;
    }
    false
}

/// A builtin algorithm is valid and every terrain (and, for forest water,
/// the regional groundcover table) it writes exists in the catalog.
pub open spec fn builtin_mapgen_ok(builtin: WorldgenBuiltinMapgenV1, catalog: WorldgenCatalogV1) -> bool {
    &&& builtin_mapgen_is_valid(builtin)
    &&& match builtin {
        WorldgenBuiltinMapgenV1::ForestWater => {
            &&& has_terrain(catalog, "t_water_dp"@)
            &&& has_terrain(catalog, "t_water_murky"@)
            &&& has_terrain(catalog, "t_water_sh"@)
            &&& has_regional_terrain(catalog, "t_region_groundcover_swamp"@)
        },
        _ => {
            &&& has_terrain(catalog, "t_clay"@)
            &&& has_terrain(catalog, "t_dirt"@)
            &&& has_terrain(catalog, "t_grass"@)
            &&& has_terrain(catalog, "t_sand"@)
            &&& has_terrain(catalog, "t_water_moving_dp"@)
            &&& has_terrain(catalog, "t_water_moving_sh"@)
        },
    }
}

pub fn valid_worldgen_builtin_mapgen(builtin: WorldgenBuiltinMapgenV1, catalog: &WorldgenCatalogV1) -> (r: bool)
    ensures
        r == builtin_mapgen_ok(builtin, *catalog),
{
    if !builtin.is_valid() {
        return false;
    }
    match builtin {
        WorldgenBuiltinMapgenV1::ForestWater => {
            terrain_exists(catalog, "t_water_dp") && terrain_exists(catalog, "t_water_murky")
                && terrain_exists(catalog, "t_water_sh") && regional_terrain_exists(catalog, "t_region_groundcover_swamp")
        },
        _ => {
            terrain_exists(catalog, "t_clay") && terrain_exists(catalog, "t_dirt") && terrain_exists(catalog, "t_grass")
                && terrain_exists(catalog, "t_sand") && terrain_exists(catalog, "t_water_moving_dp")
                && terrain_exists(catalog, "t_water_moving_sh")
        },
    }
}

/// Whether some overmap identity has the given full ID.
pub open spec fn has_identity(identities: Seq<WorldgenOmtIdentityV1>, id: Seq<char>) -> bool {
    exists|i: int| 0 <= i < identities.len() && (#[trigger] identities[i]).full_id@ == id
}

pub fn identity_exists(identities: &Vec<WorldgenOmtIdentityV1>, id: &str) -> (r: bool)
    ensures
        r == has_identity(identities@, id@),
{
    let mut i: usize = 0;
    while i < identities.len()
        invariant
            i <= identities@.len(),
            forall|j: int| 0 <= j < i ==> (#[trigger] identities@[j]).full_id@ != id@,
        decreases identities.len() - i,
    {
        if str_eq(identities[i].full_id.as_str(), id) {
            return true;
        }
        i = i + 1;
    }
    false
}

/// One of the eight neighbouring offsets, with a sorted, unique list of at
/// most 512 existing identity IDs.
pub open spec fn neighbor_condition_ok(condition: WorldgenNeighborConditionV1, identities: Seq<WorldgenOmtIdentityV1>) -> bool {
    let allowed = condition.allowed_identity_ids@;
    &&& -1 <= condition.offset_x <= 1
    &&& -1 <= condition.offset_y <= 1
    &&& (condition.offset_x != 0 || condition.offset_y != 0)
    &&& allowed.len() <= MAX_WORLDGEN_OMT_IDENTITIES
    &&& forall|i: int| 0 <= i < allowed.len() - 1 ==> text_lt(#[trigger] allowed[i]@, allowed[i + 1]@)
    &&& forall|i: int| 0 <= i < allowed.len() ==> has_identity(identities, (#[trigger] allowed[i])@)
}

pub fn valid_worldgen_neighbor_condition(condition: &WorldgenNeighborConditionV1, identities: &Vec<WorldgenOmtIdentityV1>) -> (r: bool)
    ensures
        r == neighbor_condition_ok(*condition, identities@),
{
    let allowed = &condition.allowed_identity_ids;
    if condition.offset_x < -1 || condition.offset_x > 1 || condition.offset_y < -1 || condition.offset_y > 1
        || (condition.offset_x == 0 && condition.offset_y == 0) || allowed.len() > MAX_WORLDGEN_OMT_IDENTITIES {
        return false;
    }
    if !crate::text::strings_strictly_sorted(allowed) {
        proof {
            assert(!forall|i: int| 0 <= i < allowed@.len() - 1 ==> text_lt(#[trigger] allowed@[i]@, allowed@[i + 1]@)) by {
                let k = choose|k: int| 0 <= k < crate::text::string_views(allowed@).len() - 1 && !text_lt(#[trigger] crate::text::string_views(allowed@)[k], crate::text::string_views(allowed@)[k + 1]);
                assert(!text_lt(allowed@[k]@, allowed@[k + 1]@));
            }
        }
        return false;
    }
    let mut i: usize = 0;
    while i < allowed.len()
        invariant
            i <= allowed@.len(),
            forall|j: int| 0 <= j < i ==> has_identity(identities@, (#[trigger] allowed@[j])@),
        decreases allowed.len() - i,
    {
        if !identity_exists(identities, allowed[i].as_str()) {
            return false;
        }
        i = i + 1;
    }
    proof {
        assert forall|k: int| 0 <= k < allowed@.len() - 1 implies text_lt(#[trigger] allowed@[k]@, allowed@[k + 1]@) by {
            assert(text_lt(crate::text::string_views(allowed@)[k], crate::text::string_views(allowed@)[k + 1]));
        }
    }
    true
}

pub open spec fn nested_choices_ok(choices: Seq<WorldgenNestedChoiceV1>) -> bool {
    &&& choices.len() <= MAX_WORLDGEN_CELL_CHOICES
    &&& (choices.len() == 0 || positive_weights_fit(weights_of(choices)))
    &&& forall|k: int| 0 <= k < choices.len() ==> worldgen_id_ok((#[trigger] choices[k]).nested_id@)
}

fn nested_choices_are_ok(choices: &Vec<WorldgenNestedChoiceV1>) -> (r: bool)
    ensures
        r == nested_choices_ok(choices@),
{
    if choices.len() > MAX_WORLDGEN_CELL_CHOICES || (choices.len() != 0 && !checked_positive_weight_sum(choices)) {
        return false;
    }
    let mut k: usize = 0;
    while k < choices.len()
        invariant
            k <= choices@.len(),
            forall|j: int| 0 <= j < k ==> worldgen_id_ok((#[trigger] choices@[j]).nested_id@),
        decreases choices.len() - k,
    {
        if !valid_worldgen_id(choices[k].nested_id.as_str()) {
            return false;
        }
        k = k + 1;
    }
    true
}

/// Some branch to place, valid weighted choices, offsets within the OMT,
/// valid neighbour predicates, and sorted valid predecessor IDs.
pub open spec fn nested_placement_ok(placement: WorldgenNestedPlacementV1, identities: Seq<WorldgenOmtIdentityV1>) -> bool {
    let conditions = placement.conditions;
    let predecessors = conditions.predecessor_ids@;
    &&& (placement.chunks@.len() > 0 || placement.else_chunks@.len() > 0)
    &&& nested_choices_ok(placement.chunks@)
    &&& nested_choices_ok(placement.else_chunks@)
    &&& coordinate_range_ok(placement.x)
    &&& coordinate_range_ok(placement.y)
    &&& forall|i: int| 0 <= i < conditions.all_neighbors@.len() ==> neighbor_condition_ok(#[trigger] conditions.all_neighbors@[i], identities)
    &&& forall|i: int| 0 <= i < conditions.any_neighbors@.len() ==> neighbor_condition_ok(#[trigger] conditions.any_neighbors@[i], identities)
    &&& forall|i: int| 0 <= i < predecessors.len() - 1 ==> text_lt(#[trigger] predecessors[i]@, predecessors[i + 1]@)
    &&& forall|i: int| 0 <= i < predecessors.len() ==> worldgen_id_ok((#[trigger] predecessors[i])@)
}

pub fn valid_worldgen_nested_placement(placement: &WorldgenNestedPlacementV1, identities: &Vec<WorldgenOmtIdentityV1>) -> (r: bool)
    ensures
        r == nested_placement_ok(*placement, identities@),
{
    let conditions = &placement.conditions;
    if (placement.chunks.len() == 0 && placement.else_chunks.len() == 0) || !nested_choices_are_ok(&placement.chunks)
        || !nested_choices_are_ok(&placement.else_chunks) || !valid_worldgen_coordinate_range(placement.x)
        || !valid_worldgen_coordinate_range(placement.y) {
        return false;
    }
    let mut i: usize = 0;
    while i < conditions.all_neighbors.len()
        invariant
            i <= conditions.all_neighbors@.len(),
            forall|j: int| 0 <= j < i ==> neighbor_condition_ok(#[trigger] conditions.all_neighbors@[j], identities@),
        decreases conditions.all_neighbors.len() - i,
    {
        if !valid_worldgen_neighbor_condition(&conditions.all_neighbors[i], identities) {
            return false;
        }
        i = i + 1;
    }
    let mut i: usize = 0;
    while i < conditions.any_neighbors.len()
        invariant
            i <= conditions.any_neighbors@.len(),
            forall|j: int| 0 <= j < i ==> neighbor_condition_ok(#[trigger] conditions.any_neighbors@[j], identities@),
        decreases conditions.any_neighbors.len() - i,
    {
        if !valid_worldgen_neighbor_condition(&conditions.any_neighbors[i], identities) {
            return false;
        }
        i = i + 1;
    }
    let predecessors = &conditions.predecessor_ids;
    let mut i: usize = 0;
    while i < predecessors.len()
        invariant
            i <= predecessors@.len(),
            forall|j: int| 0 <= j < i - 1 && j < predecessors@.len() - 1 ==> text_lt(#[trigger] predecessors@[j]@, predecessors@[j + 1]@),
            forall|j: int| 0 <= j < i ==> worldgen_id_ok((#[trigger] predecessors@[j])@),
        decreases predecessors.len() - i,
    {
        if i > 0 && !str_less(predecessors[i - 1].as_str(), predecessors[i].as_str()) {
            assert(predecessors@[(i - 1) as int + 1] == predecessors@[i as int]);
            return false;
        }
        if !valid_worldgen_id(predecessors[i].as_str()) {
            return false;
        }
        i = i + 1;
    }
    true
}

} // verus!
