//! Whole-catalog validation of deterministic world generation.

use vstd::prelude::*;

use crate::monsters::{monster_catalog_ok, valid_worldgen_monster_catalog};
use crate::npc_names::{name_catalog_ok, valid_worldgen_npc_name_catalog};
use crate::overmap::{
    cities_ok, layout_ok, rivers_ok, specials_ok, start_location_ok, surface_uses,
    valid_worldgen_cities, valid_worldgen_overmap_layout, valid_worldgen_rivers,
    valid_worldgen_specials, valid_worldgen_start_location,
};
use crate::text::{str_eq, str_less, text_lt};
use crate::weights::{checked_positive_weight_sum, positive_weights_fit, weights_of};
use crate::worldgen::{
    valid_worldgen_id, worldgen_id_ok, WorldgenBuiltinMapgenV1, WorldgenCatalogV1,
    WorldgenNestedGeneratorV1, WorldgenNestedTemplateV1, WorldgenOmtGeneratorV1,
    WorldgenTemplateV1, MAX_WORLDGEN_FURNITURE_PROTOTYPES, MAX_WORLDGEN_NESTED_GENERATORS_PER_OMT,
    MAX_WORLDGEN_NESTED_PLACEMENTS, MAX_WORLDGEN_NESTED_PLACEMENTS_PER_TEMPLATE,
    MAX_WORLDGEN_NESTED_TEMPLATES, MAX_WORLDGEN_NESTED_TEMPLATES_PER_GENERATOR,
    MAX_WORLDGEN_OMT_GENERATORS, MAX_WORLDGEN_REGIONAL_CHOICES_TOTAL,
    MAX_WORLDGEN_REGIONAL_RESOLUTION_DEPTH, MAX_WORLDGEN_REGIONAL_TABLES,
    MAX_WORLDGEN_TEMPLATES, MAX_WORLDGEN_TEMPLATES_PER_OMT, MAX_WORLDGEN_TERRAIN_PROTOTYPES,
    MAX_WORLDGEN_WEIGHTED_CELL_TARGETS, WORLDGEN_CELLS_PER_OMT, WORLDGEN_GENERATOR_VERSION_V2,
};
use crate::worldgen_counts::{
    generators_cell_total, generators_cells, generators_nested_templates,
    generators_placement_total, generators_placements, generators_root_templates,
    generators_template_totals,
};
use crate::worldgen_graphs::{
    nested_graph_ok, predecessor_graph_ok, regional_furniture_edges, regional_terrain_edges,
    valid_worldgen_nested_graph, valid_worldgen_predecessor_graph,
    valid_worldgen_regional_furniture_graph, valid_worldgen_regional_terrain_graph,
};
use crate::worldgen_parts::{
    area_item_placement_ok, builtin_mapgen_ok, cell_shape_ok, deferred_fields_ok,
    furniture_tile_ok, individual_monster_placement_ok, monster_placement_ok,
    nested_placement_ok, npc_placement_ok, regional_furniture_table_ok,
    regional_terrain_table_ok, terrain_tile_ok, valid_furniture_tile, valid_terrain_tile,
    valid_worldgen_area_item_placement, valid_worldgen_builtin_mapgen, valid_worldgen_cell_shape,
    valid_worldgen_deferred_fields, valid_worldgen_individual_monster_placement,
    valid_worldgen_monster_placement, valid_worldgen_nested_placement,
    valid_worldgen_npc_placement, valid_worldgen_regional_furniture_table,
    valid_worldgen_regional_terrain_table,
};
use crate::graph::graph_bounded;

verus! {

/// The placement lists shared by root and nested templates.
pub open spec fn placements_ok(
    catalog: WorldgenCatalogV1,
    nested: Seq<crate::worldgen::WorldgenNestedPlacementV1>,
    area_items: Seq<crate::worldgen::WorldgenAreaItemPlacementV1>,
    npcs: Seq<crate::worldgen::WorldgenNpcPlacementV1>,
    monsters: Seq<crate::worldgen::WorldgenMonsterPlacementV1>,
    individuals: Seq<crate::worldgen::WorldgenIndividualMonsterPlacementV1>,
    deferred: Seq<String>,
) -> bool {
    let identities = catalog.overmap.identities@;
    &&& nested.len() <= MAX_WORLDGEN_NESTED_PLACEMENTS_PER_TEMPLATE
    &&& forall|i: int| 0 <= i < nested.len() ==> nested_placement_ok(#[trigger] nested[i], identities)
    &&& forall|i: int| 0 <= i < area_items.len() ==> area_item_placement_ok(#[trigger] area_items[i])
    &&& forall|i: int| 0 <= i < npcs.len() ==> npc_placement_ok(#[trigger] npcs[i], catalog.npc_name_categories@)
    &&& forall|i: int| 0 <= i < monsters.len() ==> monster_placement_ok(#[trigger] monsters[i], catalog.monster_groups@.len() as int)
    &&& forall|i: int| 0 <= i < individuals.len() ==> individual_monster_placement_ok(#[trigger] individuals[i],
        catalog.monster_prototypes@.len() as int, catalog.monster_groups@.len() as int)
    &&& deferred_fields_ok(deferred)
}

fn placements_are_ok(
    catalog: &WorldgenCatalogV1,
    nested: &Vec<crate::worldgen::WorldgenNestedPlacementV1>,
    area_items: &Vec<crate::worldgen::WorldgenAreaItemPlacementV1>,
    npcs: &Vec<crate::worldgen::WorldgenNpcPlacementV1>,
    monsters: &Vec<crate::worldgen::WorldgenMonsterPlacementV1>,
    individuals: &Vec<crate::worldgen::WorldgenIndividualMonsterPlacementV1>,
    deferred: &Vec<String>,
) -> (r: bool)
    ensures
        r == placements_ok(*catalog, nested@, area_items@, npcs@, monsters@, individuals@, deferred@),
{
    if nested.len() > MAX_WORLDGEN_NESTED_PLACEMENTS_PER_TEMPLATE {
        return false;
    }
    let mut i: usize = 0;
    while i < nested.len()
        invariant
            i <= nested@.len(),
            forall|j: int| 0 <= j < i ==> nested_placement_ok(#[trigger] nested@[j], catalog.overmap.identities@),
        decreases nested.len() - i,
    {
        if !valid_worldgen_nested_placement(&nested[i], &catalog.overmap.identities) {
            return false;
        }
        i = i + 1;
    }
    let mut i: usize = 0;
    while i < area_items.len()
        invariant
            i <= area_items@.len(),
            forall|j: int| 0 <= j < i ==> area_item_placement_ok(#[trigger] area_items@[j]),
        decreases area_items.len() - i,
    {
        if !valid_worldgen_area_item_placement(&area_items[i]) {
            return false;
        }
        i = i + 1;
    }
    let mut i: usize = 0;
    while i < npcs.len()
        invariant
            i <= npcs@.len(),
            forall|j: int| 0 <= j < i ==> npc_placement_ok(#[trigger] npcs@[j], catalog.npc_name_categories@),
        decreases npcs.len() - i,
    {
        if !valid_worldgen_npc_placement(&npcs[i], &catalog.npc_name_categories) {
            return false;
        }
        i = i + 1;
    }
    let mut i: usize = 0;
    while i < monsters.len()
        invariant
            i <= monsters@.len(),
            forall|j: int| 0 <= j < i ==> monster_placement_ok(#[trigger] monsters@[j], catalog.monster_groups@.len() as int),
        decreases monsters.len() - i,
    {
        if !valid_worldgen_monster_placement(&monsters[i], catalog.monster_groups.len()) {
            return false;
        }
        i = i + 1;
    }
    let mut i: usize = 0;
    while i < individuals.len()
        invariant
            i <= individuals@.len(),
            forall|j: int| 0 <= j < i ==> individual_monster_placement_ok(#[trigger] individuals@[j],
                catalog.monster_prototypes@.len() as int, catalog.monster_groups@.len() as int),
        decreases individuals.len() - i,
    {
        if !valid_worldgen_individual_monster_placement(&individuals[i], catalog.monster_prototypes.len(), catalog.monster_groups.len()) {
            return false;
        }
        i = i + 1;
    }
    valid_worldgen_deferred_fields(deferred)
}

pub open spec fn cells_ok(cells: Seq<crate::worldgen::WorldgenCellV1>, catalog: WorldgenCatalogV1) -> bool {
    forall|i: int| 0 <= i < cells.len() ==> cell_shape_ok(#[trigger] cells[i], catalog)
}

fn cells_are_ok(cells: &Vec<crate::worldgen::WorldgenCellV1>, catalog: &WorldgenCatalogV1) -> (r: bool)
    ensures
        r == cells_ok(cells@, *catalog),
{
    let mut i: usize = 0;
    while i < cells.len()
        invariant
            i <= cells@.len(),
            forall|j: int| 0 <= j < i ==> cell_shape_ok(#[trigger] cells@[j], *catalog),
        decreases cells.len() - i,
    {
        if !valid_worldgen_cell_shape(&cells[i], catalog) {
            return false;
        }
        i = i + 1;
    }
    true
}

/// A builtin body has no cells or placements and defers exactly what the
/// algorithm leaves to later families; an ordinary body has one OMT of
/// cells, each writing terrain unless a predecessor runs first.
pub open spec fn template_body_ok(template: WorldgenTemplateV1, catalog: WorldgenCatalogV1) -> bool {
    match template.builtin {
        Some(builtin) => {
            &&& builtin_mapgen_ok(builtin, catalog)
            &&& template.cells@.len() == 0
            &&& template.predecessor_id is None
            &&& template.nested@.len() == 0
            &&& template.area_items@.len() == 0
            &&& template.npc_placements@.len() == 0
            &&& template.monster_placements@.len() == 0
            &&& template.individual_monster_placements@.len() == 0
            &&& !template.erase_all_before_placing_terrain
            &&& match builtin {
                WorldgenBuiltinMapgenV1::ForestWater => template.deferred_fields@.len() == 1
                    && template.deferred_fields@[0]@ == "forest_components"@,
                _ => template.deferred_fields@.len() == 0,
            }
        },
        None => {
            &&& template.cells@.len() == WORLDGEN_CELLS_PER_OMT
            &&& (template.predecessor_id is Some || forall|c: int| 0 <= c < template.cells@.len() ==> (#[trigger] template.cells@[c]).terrain@.len() > 0)
        },
    }
}

pub open spec fn root_template_ok(template: WorldgenTemplateV1, catalog: WorldgenCatalogV1) -> bool {
    &&& template_body_ok(template, catalog)
    &&& (template.predecessor_id matches Some(id) ==> worldgen_id_ok(id@))
    &&& placements_ok(catalog, template.nested@, template.area_items@, template.npc_placements@, template.monster_placements@,
        template.individual_monster_placements@, template.deferred_fields@)
    &&& cells_ok(template.cells@, catalog)
}

fn template_body_is_ok(template: &WorldgenTemplateV1, catalog: &WorldgenCatalogV1) -> (r: bool)
    ensures
        r == template_body_ok(*template, *catalog),
{
    match template.builtin {
        Some(builtin) => {
            let deferred_ok = match builtin {
                WorldgenBuiltinMapgenV1::ForestWater => template.deferred_fields.len() == 1
                    && str_eq(template.deferred_fields[0].as_str(), "forest_components"),
                _ => template.deferred_fields.len() == 0,
            };
            valid_worldgen_builtin_mapgen(builtin, catalog) && template.cells.len() == 0 && template.predecessor_id.is_none()
                && template.nested.len() == 0 && template.area_items.len() == 0 && template.npc_placements.len() == 0
                && template.monster_placements.len() == 0 && template.individual_monster_placements.len() == 0
                && !template.erase_all_before_placing_terrain && deferred_ok
        },
        None => {
            if template.cells.len() != WORLDGEN_CELLS_PER_OMT {
                return false;
            }
            if template.predecessor_id.is_some() {
                return true;
            }
            let mut c: usize = 0;
            while c < template.cells.len()
                invariant
                    c <= template.cells@.len(),
                    forall|j: int| 0 <= j < c ==> (#[trigger] template.cells@[j]).terrain@.len() > 0,
                decreases template.cells.len() - c,
            {
                if template.cells[c].terrain.len() == 0 {
                    return false;
                }
                c = c + 1;
            }
            true
        },
    }
}

fn root_template_is_ok(template: &WorldgenTemplateV1, catalog: &WorldgenCatalogV1) -> (r: bool)
    ensures
        r == root_template_ok(*template, *catalog),
{
    let predecessor_ok = match &template.predecessor_id {
        Some(id) => valid_worldgen_id(id.as_str()),
        None => true,
    };
    template_body_is_ok(template, catalog) && predecessor_ok
        && placements_are_ok(catalog, &template.nested, &template.area_items, &template.npc_placements,
            &template.monster_placements, &template.individual_monster_placements, &template.deferred_fields)
        && cells_are_ok(&template.cells, catalog)
}

pub open spec fn nested_template_ok(template: WorldgenNestedTemplateV1, catalog: WorldgenCatalogV1) -> bool {
    &&& 1 <= template.width <= 24
    &&& 1 <= template.height <= 24
    &&& template.cells@.len() == template.width * template.height
    &&& placements_ok(catalog, template.nested@, template.area_items@, template.npc_placements@, template.monster_placements@,
        template.individual_monster_placements@, template.deferred_fields@)
    &&& cells_ok(template.cells@, catalog)
}

fn nested_template_is_ok(template: &WorldgenNestedTemplateV1, catalog: &WorldgenCatalogV1) -> (r: bool)
    ensures
        r == nested_template_ok(*template, *catalog),
{
    if template.width < 1 || template.width > 24 || template.height < 1 || template.height > 24 {
        return false;
    }
    assert((template.width as usize) * (template.height as usize) <= 576) by (nonlinear_arith)
        requires
            template.width <= 24,
            template.height <= 24,
    ;
    let expected = (template.width as usize) * (template.height as usize);
    expected == template.cells.len()
        && placements_are_ok(catalog, &template.nested, &template.area_items, &template.npc_placements,
            &template.monster_placements, &template.individual_monster_placements, &template.deferred_fields)
        && cells_are_ok(&template.cells, catalog)
}

pub open spec fn nested_generator_ok(nested: WorldgenNestedGeneratorV1, catalog: WorldgenCatalogV1) -> bool {
    let templates = nested.templates@;
    &&& worldgen_id_ok(nested.nested_id@)
    &&& nested.nested_id@ != "null"@
    &&& templates.len() > 0
    &&& templates.len() <= MAX_WORLDGEN_NESTED_TEMPLATES_PER_GENERATOR
    &&& positive_weights_fit(weights_of(templates))
    &&& forall|t: int| 0 <= t < templates.len() ==> nested_template_ok(#[trigger] templates[t], catalog)
}

/// A generator's ID, weighted root templates, and sorted nested closure.
pub open spec fn generator_ok(generator: WorldgenOmtGeneratorV1, catalog: WorldgenCatalogV1) -> bool {
    let templates = generator.templates@;
    let nested = generator.nested_generators@;
    &&& worldgen_id_ok(generator.omt_id@)
    &&& templates.len() > 0
    &&& templates.len() <= MAX_WORLDGEN_TEMPLATES_PER_OMT
    &&& positive_weights_fit(weights_of(templates))
    &&& forall|t: int| 0 <= t < templates.len() ==> root_template_ok(#[trigger] templates[t], catalog)
    &&& nested.len() <= MAX_WORLDGEN_NESTED_GENERATORS_PER_OMT
    &&& forall|n: int| 0 <= n < nested.len() - 1 ==> text_lt(#[trigger] nested[n].nested_id@, nested[n + 1].nested_id@)
    &&& nested_graph_ok(generator)
    &&& forall|n: int| 0 <= n < nested.len() ==> nested_generator_ok(#[trigger] nested[n], catalog)
}

fn generator_is_ok(generator: &WorldgenOmtGeneratorV1, catalog: &WorldgenCatalogV1) -> (r: bool)
    ensures
        r == generator_ok(*generator, *catalog),
{
    let templates = &generator.templates;
    let nested = &generator.nested_generators;
    if !valid_worldgen_id(generator.omt_id.as_str()) || templates.len() == 0 || templates.len() > MAX_WORLDGEN_TEMPLATES_PER_OMT
        || !checked_positive_weight_sum(templates) {
        return false;
    }
    let mut t: usize = 0;
    while t < templates.len()
        invariant
            t <= templates@.len(),
            forall|j: int| 0 <= j < t ==> root_template_ok(#[trigger] templates@[j], *catalog),
        decreases templates.len() - t,
    {
        if !root_template_is_ok(&templates[t], catalog) {
            return false;
        }
        t = t + 1;
    }
    if nested.len() > MAX_WORLDGEN_NESTED_GENERATORS_PER_OMT {
        return false;
    }
    let mut n: usize = 1;
    while n < nested.len()
        invariant
            1 <= n,
            forall|j: int| 0 <= j < n - 1 && j < nested@.len() - 1 ==> text_lt(#[trigger] nested@[j].nested_id@, nested@[j + 1].nested_id@),
        decreases nested.len() - n,
    {
        if !str_less(nested[n - 1].nested_id.as_str(), nested[n].nested_id.as_str()) {
            assert(nested@[(n - 1) as int + 1] == nested@[n as int]);
            return false;
        }
        n = n + 1;
    }
    if !valid_worldgen_nested_graph(generator) {
        return false;
    }
    let mut n: usize = 0;
    while n < nested.len()
        invariant
            n <= nested@.len(),
            forall|j: int| 0 <= j < n ==> nested_generator_ok(#[trigger] nested@[j], *catalog),
        decreases nested.len() - n,
    {
        let inner = &nested[n];
        if !valid_worldgen_id(inner.nested_id.as_str()) || str_eq(inner.nested_id.as_str(), "null") || inner.templates.len() == 0
            || inner.templates.len() > MAX_WORLDGEN_NESTED_TEMPLATES_PER_GENERATOR || !checked_positive_weight_sum(&inner.templates) {
            return false;
        }
        let mut t: usize = 0;
        while t < inner.templates.len()
            invariant
                t <= inner.templates@.len(),
                forall|j: int| 0 <= j < t ==> nested_template_ok(#[trigger] inner.templates@[j], *catalog),
            decreases inner.templates.len() - t,
        {
            if !nested_template_is_ok(&inner.templates[t], catalog) {
                return false;
            }
            t = t + 1;
        }
        n = n + 1;
    }
    true
}

pub open spec fn names_sorted<T>(items: Seq<T>, name: spec_fn(T) -> Seq<char>) -> bool {
    forall|i: int| 0 <= i < items.len() - 1 ==> text_lt(name(#[trigger] items[i]), name(items[i + 1]))
}

pub open spec fn regional_choice_total(catalog: WorldgenCatalogV1) -> int {
    terrain_choice_total(catalog.regional_terrain@) + furniture_choice_total(catalog.regional_furniture@)
}

pub open spec fn terrain_choice_total(tables: Seq<crate::worldgen::WorldgenRegionalTerrainTableV1>) -> int
    decreases tables.len(),
{
    if tables.len() == 0 { 0 } else { terrain_choice_total(tables.drop_last()) + tables.last().choices@.len() }
}

pub open spec fn furniture_choice_total(tables: Seq<crate::worldgen::WorldgenRegionalFurnitureTableV1>) -> int
    decreases tables.len(),
{
    if tables.len() == 0 { 0 } else { furniture_choice_total(tables.drop_last()) + tables.last().choices@.len() }
}

/// For each identity, whether the surface layer uses it.
pub open spec fn surface_flags(catalog: WorldgenCatalogV1) -> Seq<bool> {
    Seq::new(catalog.overmap.identities@.len(), |i: int| surface_uses(catalog.overmap, i))
}

pub open spec fn has_generator(catalog: WorldgenCatalogV1, id: Seq<char>) -> bool {
    exists|g: int| 0 <= g < catalog.omt_generators@.len() && (#[trigger] catalog.omt_generators@[g]).omt_id@ == id
}

/// The overmap placements, start location, prototype-count bounds, monster
/// and name catalogs, and table and generator counts.
pub open spec fn catalog_header_ok(catalog: WorldgenCatalogV1) -> bool {
    &&& catalog.generator_version == WORLDGEN_GENERATOR_VERSION_V2
    &&& cities_ok(catalog.overmap, catalog.cities@)
    &&& rivers_ok(catalog.overmap, catalog.rivers@)
    &&& specials_ok(catalog.overmap, catalog.specials@)
    &&& (catalog.start_location matches Some(start) ==> start_location_ok(start, surface_flags(catalog), catalog.overmap.identities@, catalog.cities@))
    &&& catalog.terrain_prototypes@.len() > 0
    &&& catalog.terrain_prototypes@.len() <= MAX_WORLDGEN_TERRAIN_PROTOTYPES
    &&& catalog.furniture_prototypes@.len() <= MAX_WORLDGEN_FURNITURE_PROTOTYPES
    &&& monster_catalog_ok(catalog)
    &&& name_catalog_ok(catalog.npc_name_categories@)
    &&& catalog.regional_terrain@.len() <= MAX_WORLDGEN_REGIONAL_TABLES
    &&& catalog.regional_furniture@.len() <= MAX_WORLDGEN_REGIONAL_TABLES
    &&& catalog.omt_generators@.len() > 0
    &&& catalog.omt_generators@.len() <= MAX_WORLDGEN_OMT_GENERATORS
}

/// Valid tiles, and every prototype, table, and generator list sorted by ID.
pub open spec fn catalog_order_ok(catalog: WorldgenCatalogV1) -> bool {
    let terrain = catalog.terrain_prototypes@;
    let furniture = catalog.furniture_prototypes@;
    let regional_terrain = catalog.regional_terrain@;
    let regional_furniture = catalog.regional_furniture@;
    let generators = catalog.omt_generators@;
    &&& forall|i: int| 0 <= i < terrain.len() ==> terrain_tile_ok(#[trigger] terrain[i])
    &&& forall|i: int| 0 <= i < terrain.len() - 1 ==> text_lt(#[trigger] terrain[i].terrain_id@, terrain[i + 1].terrain_id@)
    &&& forall|i: int| 0 <= i < furniture.len() ==> furniture_tile_ok(#[trigger] furniture[i])
    &&& forall|i: int| 0 <= i < furniture.len() - 1 ==> text_lt(#[trigger] furniture[i].furniture_id@, furniture[i + 1].furniture_id@)
    &&& forall|i: int| 0 <= i < regional_terrain.len() - 1 ==> text_lt(#[trigger] regional_terrain[i].regional_id@, regional_terrain[i + 1].regional_id@)
    &&& forall|i: int| 0 <= i < regional_furniture.len() - 1 ==> text_lt(#[trigger] regional_furniture[i].regional_id@, regional_furniture[i + 1].regional_id@)
    &&& forall|i: int| 0 <= i < generators.len() - 1 ==> text_lt(#[trigger] generators[i].omt_id@, generators[i + 1].omt_id@)
}

/// Valid regional tables with at most 8192 choices in all, whose
/// resolution graphs stay within the resolution depth.
pub open spec fn catalog_regional_ok(catalog: WorldgenCatalogV1) -> bool {
    let regional_terrain = catalog.regional_terrain@;
    let regional_furniture = catalog.regional_furniture@;
    &&& forall|i: int| 0 <= i < regional_terrain.len() ==> regional_terrain_table_ok(#[trigger] regional_terrain[i], catalog.terrain_prototypes@.len() as int)
    &&& forall|i: int| 0 <= i < regional_furniture.len() ==> regional_furniture_table_ok(#[trigger] regional_furniture[i], catalog.furniture_prototypes@.len() as int)
    &&& regional_choice_total(catalog) <= MAX_WORLDGEN_REGIONAL_CHOICES_TOTAL
    &&& graph_bounded(regional_terrain_edges(catalog), MAX_WORLDGEN_REGIONAL_RESOLUTION_DEPTH as nat)
    &&& graph_bounded(regional_furniture_edges(catalog), MAX_WORLDGEN_REGIONAL_RESOLUTION_DEPTH as nat)
}

/// Valid generators within the catalog-wide totals, predecessors that
/// resolve acyclically, and a generator for every identity.
pub open spec fn catalog_generators_ok(catalog: WorldgenCatalogV1) -> bool {
    let generators = catalog.omt_generators@;
    &&& forall|g: int| 0 <= g < generators.len() ==> generator_ok(#[trigger] generators[g], catalog)
    &&& generators_root_templates(generators) <= MAX_WORLDGEN_TEMPLATES
    &&& generators_nested_templates(generators) <= MAX_WORLDGEN_NESTED_TEMPLATES
    &&& generators_placements(generators) <= MAX_WORLDGEN_NESTED_PLACEMENTS
    &&& generators_cells(generators) <= MAX_WORLDGEN_WEIGHTED_CELL_TARGETS
    &&& predecessor_graph_ok(catalog)
    &&& forall|i: int| 0 <= i < catalog.overmap.identities@.len() ==> has_generator(catalog, (#[trigger] catalog.overmap.identities@[i]).generator_id@)
}

/// Every local bound and index of a catalog, without the item-group catalog.
pub open spec fn catalog_shape_ok(catalog: WorldgenCatalogV1) -> bool {
    &&& layout_ok(catalog.overmap)
    &&& catalog_header_ok(catalog)
    &&& catalog_order_ok(catalog)
    &&& catalog_regional_ok(catalog)
    &&& catalog_generators_ok(catalog)
}

fn generator_exists(catalog: &WorldgenCatalogV1, id: &str) -> (r: bool)
    ensures
        r == has_generator(*catalog, id@),
{
    let mut g: usize = 0;
    while g < catalog.omt_generators.len()
        invariant
            g <= catalog.omt_generators@.len(),
            forall|j: int| 0 <= j < g ==> (#[trigger] catalog.omt_generators@[j]).omt_id@ != id@,
        decreases catalog.omt_generators.len() - g,
    {
        if str_eq(catalog.omt_generators[g].omt_id.as_str(), id) {
            return true;
        }
        g = g + 1;
    }
    false
}

proof fn lemma_terrain_choice_prefix(tables: Seq<crate::worldgen::WorldgenRegionalTerrainTableV1>, k: int)
    requires
        0 <= k <= tables.len(),
    ensures
        terrain_choice_total(tables.subrange(0, k)) <= terrain_choice_total(tables),
    decreases tables.len() - k,
{
    if k < tables.len() {
        assert(tables.subrange(0, k + 1).drop_last() =~= tables.subrange(0, k));
        lemma_terrain_choice_prefix(tables, k + 1);
    } else {
        assert(tables.subrange(0, k) =~= tables);
    }
}

proof fn lemma_terrain_total_nonneg(tables: Seq<crate::worldgen::WorldgenRegionalTerrainTableV1>)
    ensures
        terrain_choice_total(tables) >= 0,
    decreases tables.len(),
{
    if tables.len() > 0 {
        lemma_terrain_total_nonneg(tables.drop_last());
    }
}

proof fn lemma_furniture_total_nonneg(tables: Seq<crate::worldgen::WorldgenRegionalFurnitureTableV1>)
    ensures
        furniture_choice_total(tables) >= 0,
    decreases tables.len(),
{
    if tables.len() > 0 {
        lemma_furniture_total_nonneg(tables.drop_last());
    }
}

proof fn lemma_furniture_choice_prefix(tables: Seq<crate::worldgen::WorldgenRegionalFurnitureTableV1>, k: int)
    requires
        0 <= k <= tables.len(),
    ensures
        furniture_choice_total(tables.subrange(0, k)) <= furniture_choice_total(tables),
    decreases tables.len() - k,
{
    if k < tables.len() {
        assert(tables.subrange(0, k + 1).drop_last() =~= tables.subrange(0, k));
        lemma_furniture_choice_prefix(tables, k + 1);
    } else {
        assert(tables.subrange(0, k) =~= tables);
    }
}

fn catalog_header_is_ok(catalog: &WorldgenCatalogV1, surface: &Vec<bool>) -> (r: bool)
    requires
        layout_ok(catalog.overmap),
        surface@ == surface_flags(*catalog),
    ensures
        r == catalog_header_ok(*catalog),
{
    if catalog.generator_version != WORLDGEN_GENERATOR_VERSION_V2 || !valid_worldgen_cities(&catalog.overmap, &catalog.cities)
        || !valid_worldgen_rivers(&catalog.overmap, &catalog.rivers) || !valid_worldgen_specials(&catalog.overmap, &catalog.specials) {
        return false;
    }
    match &catalog.start_location {
        Some(start) => {
            if !valid_worldgen_start_location(start, surface, &catalog.overmap.identities, &catalog.cities) {
                return false;
            }
        },
        None => {},
    }
    !(catalog.terrain_prototypes.len() == 0 || catalog.terrain_prototypes.len() > MAX_WORLDGEN_TERRAIN_PROTOTYPES
        || catalog.furniture_prototypes.len() > MAX_WORLDGEN_FURNITURE_PROTOTYPES || !valid_worldgen_monster_catalog(catalog)
        || !valid_worldgen_npc_name_catalog(&catalog.npc_name_categories)
        || catalog.regional_terrain.len() > MAX_WORLDGEN_REGIONAL_TABLES
        || catalog.regional_furniture.len() > MAX_WORLDGEN_REGIONAL_TABLES || catalog.omt_generators.len() == 0
        || catalog.omt_generators.len() > MAX_WORLDGEN_OMT_GENERATORS)
}

fn catalog_order_is_ok(catalog: &WorldgenCatalogV1) -> (r: bool)
    ensures
        r == catalog_order_ok(*catalog),
{
    let terrain = &catalog.terrain_prototypes;
    let mut i: usize = 0;
    while i < terrain.len()
        invariant
            i <= terrain@.len(),
            forall|j: int| 0 <= j < i ==> terrain_tile_ok(#[trigger] terrain@[j]),
            forall|j: int| 0 <= j < i - 1 && j < terrain@.len() - 1 ==> text_lt(#[trigger] terrain@[j].terrain_id@, terrain@[j + 1].terrain_id@),
        decreases terrain.len() - i,
    {
        if !valid_terrain_tile(&terrain[i]) {
            return false;
        }
        if i > 0 && !str_less(terrain[i - 1].terrain_id.as_str(), terrain[i].terrain_id.as_str()) {
            assert(terrain@[(i - 1) as int + 1] == terrain@[i as int]);
            return false;
        }
        i = i + 1;
    }
    let furniture = &catalog.furniture_prototypes;
    let mut i: usize = 0;
    while i < furniture.len()
        invariant
            i <= furniture@.len(),
            forall|j: int| 0 <= j < i ==> furniture_tile_ok(#[trigger] furniture@[j]),
            forall|j: int| 0 <= j < i - 1 && j < furniture@.len() - 1 ==> text_lt(#[trigger] furniture@[j].furniture_id@, furniture@[j + 1].furniture_id@),
        decreases furniture.len() - i,
    {
        if !valid_furniture_tile(&furniture[i]) {
            return false;
        }
        if i > 0 && !str_less(furniture[i - 1].furniture_id.as_str(), furniture[i].furniture_id.as_str()) {
            assert(furniture@[(i - 1) as int + 1] == furniture@[i as int]);
            return false;
        }
        i = i + 1;
    }
    let tables = &catalog.regional_terrain;
    let mut i: usize = 1;
    while i < tables.len()
        invariant
            1 <= i,
            forall|j: int| 0 <= j < i - 1 && j < tables@.len() - 1 ==> text_lt(#[trigger] tables@[j].regional_id@, tables@[j + 1].regional_id@),
        decreases tables.len() - i,
    {
        if !str_less(tables[i - 1].regional_id.as_str(), tables[i].regional_id.as_str()) {
            assert(tables@[(i - 1) as int + 1] == tables@[i as int]);
            return false;
        }
        i = i + 1;
    }
    let furniture_tables = &catalog.regional_furniture;
    let mut i: usize = 1;
    while i < furniture_tables.len()
        invariant
            1 <= i,
            forall|j: int| 0 <= j < i - 1 && j < furniture_tables@.len() - 1 ==> text_lt(#[trigger] furniture_tables@[j].regional_id@, furniture_tables@[j + 1].regional_id@),
        decreases furniture_tables.len() - i,
    {
        if !str_less(furniture_tables[i - 1].regional_id.as_str(), furniture_tables[i].regional_id.as_str()) {
            assert(furniture_tables@[(i - 1) as int + 1] == furniture_tables@[i as int]);
            return false;
        }
        i = i + 1;
    }
    let generators = &catalog.omt_generators;
    let mut i: usize = 1;
    while i < generators.len()
        invariant
            1 <= i,
            forall|j: int| 0 <= j < i - 1 && j < generators@.len() - 1 ==> text_lt(#[trigger] generators@[j].omt_id@, generators@[j + 1].omt_id@),
        decreases generators.len() - i,
    {
        if !str_less(generators[i - 1].omt_id.as_str(), generators[i].omt_id.as_str()) {
            assert(generators@[(i - 1) as int + 1] == generators@[i as int]);
            return false;
        }
        i = i + 1;
    }
    true
}

fn catalog_regional_is_ok(catalog: &WorldgenCatalogV1) -> (r: bool)
    ensures
        r == catalog_regional_ok(*catalog),
{
    let tables = &catalog.regional_terrain;
    let furniture_tables = &catalog.regional_furniture;
    let mut choices: usize = 0;
    let mut i: usize = 0;
    while i < tables.len()
        invariant
            i <= tables@.len(),
            choices == terrain_choice_total(tables@.subrange(0, i as int)),
            choices <= MAX_WORLDGEN_REGIONAL_CHOICES_TOTAL,
            forall|j: int| 0 <= j < i ==> regional_terrain_table_ok(#[trigger] tables@[j], catalog.terrain_prototypes@.len() as int),
        decreases tables.len() - i,
    {
        assert(tables@.subrange(0, i + 1).drop_last() =~= tables@.subrange(0, i as int));
        if !valid_worldgen_regional_terrain_table(&tables[i], catalog.terrain_prototypes.len()) {
            return false;
        }
        if tables[i].choices.len() > MAX_WORLDGEN_REGIONAL_CHOICES_TOTAL - choices {
            proof {
                lemma_terrain_choice_prefix(tables@, i + 1);
                lemma_furniture_total_nonneg(furniture_tables@);
            }
            return false;
        }
        choices = choices + tables[i].choices.len();
        i = i + 1;
    }
    assert(tables@.subrange(0, i as int) =~= tables@);
    let mut furniture_choices: usize = 0;
    let mut i: usize = 0;
    while i < furniture_tables.len()
        invariant
            i <= furniture_tables@.len(),
            furniture_choices == furniture_choice_total(furniture_tables@.subrange(0, i as int)),
            choices + furniture_choices <= MAX_WORLDGEN_REGIONAL_CHOICES_TOTAL,
            forall|j: int| 0 <= j < i ==> regional_furniture_table_ok(#[trigger] furniture_tables@[j], catalog.furniture_prototypes@.len() as int),
        decreases furniture_tables.len() - i,
    {
        assert(furniture_tables@.subrange(0, i + 1).drop_last() =~= furniture_tables@.subrange(0, i as int));
        if !valid_worldgen_regional_furniture_table(&furniture_tables[i], catalog.furniture_prototypes.len()) {
            return false;
        }
        if furniture_tables[i].choices.len() > MAX_WORLDGEN_REGIONAL_CHOICES_TOTAL - choices - furniture_choices {
            proof {
                lemma_furniture_choice_prefix(furniture_tables@, i + 1);
            }
            return false;
        }
        furniture_choices = furniture_choices + furniture_tables[i].choices.len();
        i = i + 1;
    }
    assert(furniture_tables@.subrange(0, i as int) =~= furniture_tables@);
    valid_worldgen_regional_terrain_graph(catalog) && valid_worldgen_regional_furniture_graph(catalog)
}

fn catalog_generators_are_ok(catalog: &WorldgenCatalogV1) -> (r: bool)
    ensures
        r == catalog_generators_ok(*catalog),
{
    let generators = &catalog.omt_generators;
    let mut g: usize = 0;
    while g < generators.len()
        invariant
            g <= generators@.len(),
            forall|j: int| 0 <= j < g ==> generator_ok(#[trigger] generators@[j], *catalog),
        decreases generators.len() - g,
    {
        if !generator_is_ok(&generators[g], catalog) {
            return false;
        }
        g = g + 1;
    }
    let (root_templates, nested_templates) = generators_template_totals(generators, MAX_WORLDGEN_TEMPLATES, MAX_WORLDGEN_NESTED_TEMPLATES);
    if root_templates > MAX_WORLDGEN_TEMPLATES || nested_templates > MAX_WORLDGEN_NESTED_TEMPLATES
        || generators_placement_total(generators, MAX_WORLDGEN_NESTED_PLACEMENTS) > MAX_WORLDGEN_NESTED_PLACEMENTS
        || generators_cell_total(generators, MAX_WORLDGEN_WEIGHTED_CELL_TARGETS) > MAX_WORLDGEN_WEIGHTED_CELL_TARGETS {
        return false;
    }
    if !valid_worldgen_predecessor_graph(catalog) {
        return false;
    }
    let identities = &catalog.overmap.identities;
    let mut i: usize = 0;
    while i < identities.len()
        invariant
            i <= identities@.len(),
            forall|j: int| 0 <= j < i ==> has_generator(*catalog, (#[trigger] identities@[j]).generator_id@),
        decreases identities.len() - i,
    {
        if !generator_exists(catalog, identities[i].generator_id.as_str()) {
            return false;
        }
        i = i + 1;
    }
    true
}

/// Validates all local bounds and indices of a catalog without requiring
/// an item-group catalog.
pub fn worldgen_catalog_shape_is_valid(catalog: &WorldgenCatalogV1) -> (r: bool)
    ensures
        r == catalog_shape_ok(*catalog),
{
    let surface = match valid_worldgen_overmap_layout(&catalog.overmap) {
        None => return false,
        Some(surface) => surface,
    };
    assert(surface@ =~= surface_flags(*catalog));
    catalog_header_is_ok(catalog, &surface) && catalog_order_is_ok(catalog) && catalog_regional_is_ok(catalog)
        && catalog_generators_are_ok(catalog)
}

} // verus!
