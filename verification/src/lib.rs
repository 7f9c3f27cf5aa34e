#![verifier::loop_isolation(false)]

use vstd::prelude::*;

pub mod accounts;
pub mod bash;
pub mod catalog_laws;
pub mod characters;
pub mod commands;
pub mod control;
pub mod creatures;
pub mod description;
pub mod disassembly;
pub mod geometry;
pub mod graph;
pub mod healing;
pub mod ids;
pub mod item_combining;
pub mod item_components;
pub mod item_group_catalog;
pub mod item_group_closure;
pub mod item_group_eval;
pub mod item_group_items;
pub mod item_group_metrics;
pub mod item_group_resolve;
pub mod item_group_shape;
pub mod item_group_types;
pub mod item_groups;
pub mod item_sameness;
pub mod item_snapshots;
pub mod items;
pub mod laws;
pub mod missions;
pub mod monsters;
pub mod npc_names;
pub mod overmap;
pub mod prototypes;
pub mod recipes;
pub mod text;
pub mod text_map;
pub mod time;
pub mod weights;
pub mod worldgen;
pub mod worldgen_catalog;
pub mod worldgen_counts;
pub mod worldgen_graphs;
pub mod worldgen_parts;
pub mod worldgen_references;
pub mod world_item_groups;

verus! {

} // verus!
