//! What bashing terrain and furniture leaves behind.

use vstd::prelude::*;

use crate::item_group_types::ItemGroupSourceV1;
use crate::worldgen::{FurnitureTileSnapshot, TerrainTileSnapshot};

verus! {

/// A field left behind by bashing a tile.
#[derive(Clone, Debug, PartialEq, Eq)]
pub struct BashFieldEffectV1 {
    pub field_type_id: String,
    pub intensity: u8,
}

#[derive(Debug, PartialEq, Eq)]
pub struct TerrainBashTypeV1 {
    pub terrain_id: String,
    pub str_min: i32,
    pub str_max: i32,
    pub str_min_blocked: i32,
    pub str_max_blocked: i32,
    pub str_min_supported: i32,
    pub str_max_supported: i32,
    pub bash_multiplier_millionths: u32,
    pub result: TerrainTileSnapshot,
    pub drop_source: Option<ItemGroupSourceV1>,
    pub hit_field: Option<BashFieldEffectV1>,
    pub destroyed_field: Option<BashFieldEffectV1>,
    pub sound: String,
    pub failure_sound: String,
    pub sound_volume: i32,
    pub failure_sound_volume: i32,
}

#[derive(Debug, PartialEq, Eq)]
pub struct FurnitureBashTypeV1 {
    pub furniture_id: String,
    pub str_min: i32,
    pub str_max: i32,
    pub str_min_blocked: i32,
    pub str_max_blocked: i32,
    pub str_min_supported: i32,
    pub str_max_supported: i32,
    pub bash_multiplier_millionths: u32,
    pub result: Option<FurnitureTileSnapshot>,
    pub drop_source: Option<ItemGroupSourceV1>,
    pub hit_field: Option<BashFieldEffectV1>,
    pub destroyed_field: Option<BashFieldEffectV1>,
    pub sound: String,
    pub failure_sound: String,
    pub sound_volume: i32,
    pub failure_sound_volume: i32,
}

} // verus!
