//! Properties that hold across the library's functions and states.

use vstd::prelude::*;

use crate::bash::{FurnitureBashTypeV1, TerrainBashTypeV1};
use crate::geometry::{WorldPosition, SUBMAP_SIZE};
use crate::item_group_closure::{last_group, lemma_last_group_range, named_closure_exact, source_names};
use crate::item_group_catalog::{catalog_ok, inline_entry_total, inline_node_total, source_eval, sources_ok};
use crate::item_group_eval::{full_group, group_index, lemma_graph_bounds, lemma_group_index};
use crate::item_group_types::{ItemGroupDefinitionV1, ItemGroupSourceV1, MAX_ITEM_GROUP_OUTPUTS};
use crate::overmap::{
    cells_per_layer, find_layer, identity_index_at, in_extent, layer_and_cell, layer_ok, layout_ok, local_cell,
    run_lookup, runs_total,
};
use crate::time::{calendar_at, calendar_seconds, SimTick};
use crate::world_item_groups::{
    lemma_area_placement_source, lemma_cell_placement_source, lemma_template_placements_are_sources, world_sources,
};
use crate::worldgen::{
    WorldgenAreaItemPlacementV1, WorldgenCatalogV1, WorldgenCellV1, WorldgenOvermapLayoutV1, WorldgenOvermapRunV1,
};
use crate::worldgen_references::{areas_name_groups, cells_name_groups, group_named, placements_name_groups};

verus! {

/// The calendar only changes on whole seconds: ticks within one second of
/// the 20 Hz clock show the same calendar.
pub proof fn law_calendar_changes_only_on_whole_seconds(a: SimTick, b: SimTick)
    requires
        a.0 / SimTick::HZ == b.0 / SimTick::HZ,
    ensures
        calendar_at(a) == calendar_at(b),
{
}

/// Twenty ticks later, the calendar is exactly one second later.
pub proof fn law_calendar_advances_one_second_per_twenty_ticks(a: SimTick, b: SimTick)
    requires
        b.0 == a.0 + SimTick::HZ,
    ensures
        calendar_seconds(b) == calendar_seconds(a) + 1,
{
    assert(b.0 as nat / 20 == a.0 as nat / 20 + 1) by (nonlinear_arith)
        requires
            b.0 == a.0 + 20,
    ;
}

/// A position is its chunk times the submap size plus its tile within the
/// chunk, which lies in `0..12`, for negative coordinates too.
pub proof fn law_chunk_decomposition(p: WorldPosition)
    ensures
        ((p.x as int) / (SUBMAP_SIZE as int)) * (SUBMAP_SIZE as int) + (p.x as int) % (SUBMAP_SIZE as int) == p.x as int,
        ((p.y as int) / (SUBMAP_SIZE as int)) * (SUBMAP_SIZE as int) + (p.y as int) % (SUBMAP_SIZE as int) == p.y as int,
        0 <= (p.x as int) % (SUBMAP_SIZE as int) < SUBMAP_SIZE as int,
        0 <= (p.y as int) % (SUBMAP_SIZE as int) < SUBMAP_SIZE as int,
{
    vstd::arithmetic::div_mod::lemma_fundamental_div_mod(p.x as int, SUBMAP_SIZE as int);
    vstd::arithmetic::div_mod::lemma_fundamental_div_mod(p.y as int, SUBMAP_SIZE as int);
    vstd::arithmetic::div_mod::lemma_mod_bound(p.x as int, SUBMAP_SIZE as int);
    vstd::arithmetic::div_mod::lemma_mod_bound(p.y as int, SUBMAP_SIZE as int);
}

proof fn lemma_runs_total_grows(runs: Seq<WorldgenOvermapRunV1>, k: int, j: int)
    requires
        0 <= k <= j <= runs.len(),
        forall|i: int| 0 <= i < runs.len() ==> (#[trigger] runs[i]).length > 0,
    ensures
        runs_total(runs, k) <= runs_total(runs, j),
    decreases j - k,
{
    if k < j {
        lemma_runs_total_grows(runs, k, j - 1);
    }
}

/// Within runs that cover `cell`, the lookup from the end of the first `k`
/// runs finds the run holding it.
proof fn lemma_run_lookup_finds(runs: Seq<WorldgenOvermapRunV1>, k: int, cell: int, identity_count: int)
    requires
        0 <= k <= runs.len(),
        forall|i: int| 0 <= i < runs.len() ==> (#[trigger] runs[i]).length > 0 && runs[i].identity_index < identity_count,
        runs_total(runs, runs.len() as int) <= u32::MAX,
        runs_total(runs, k) <= cell < runs_total(runs, runs.len() as int),
    ensures
        run_lookup(runs.subrange(k, runs.len() as int), cell, runs_total(runs, k)) matches Some(i) && 0 <= i < identity_count,
    decreases runs.len() - k,
{
    let rest = runs.subrange(k, runs.len() as int);
    if k == runs.len() {
    } else {
        assert(rest[0] == runs[k]);
        assert(runs_total(runs, k + 1) == runs_total(runs, k) + runs[k].length);
        lemma_runs_total_grows(runs, k + 1, runs.len() as int);
        if cell >= runs_total(runs, k + 1) {
            assert(rest.drop_first() == runs.subrange(k + 1, runs.len() as int));
            lemma_run_lookup_finds(runs, k + 1, cell, identity_count);
        }
    }
}

proof fn lemma_find_layer_in_range(layers: Seq<crate::worldgen::WorldgenOvermapLayerV1>, z: i32, k: int)
    ensures
        find_layer(layers, z, k) matches Some(l) ==> 0 <= l < layers.len(),
    decreases layers.len() - k,
{
    if 0 <= k < layers.len() && layers[k].z != z {
        lemma_find_layer_in_range(layers, z, k + 1);
    }
}

/// A valid overmap layout routes exactly the coordinates it contains, each
/// to one of its identities; every other coordinate has no identity.
pub proof fn law_layout_routes_every_contained_coordinate(layout: WorldgenOvermapLayoutV1, omt: crate::geometry::ChunkCoord)
    requires
        layout_ok(layout),
    ensures
        (identity_index_at(layout, omt) is Some) == (layer_and_cell(layout, omt) is Some),
        identity_index_at(layout, omt) matches Some(i) ==> 0 <= i < layout.identities@.len(),
{
    if layer_and_cell(layout, omt) is Some {
        let (l, cell) = layer_and_cell(layout, omt).unwrap();
        lemma_find_layer_in_range(layout.layers@, omt.z, 0);
        let layer = layout.layers@[l];
        assert(layer_ok(layer, layout.identities@.len() as int));
        let runs = layer.runs@;
        assert(0 <= cell < cells_per_layer()) by (nonlinear_arith)
            requires
                in_extent(layout, omt.x, omt.y),
                cell == local_cell(layout, omt.x, omt.y),
        ;
        assert(runs.subrange(0, runs.len() as int) == runs);
        lemma_run_lookup_finds(runs, 0, cell, layout.identities@.len() as int);
    }
}

/// A source's maximum output fits in one reserved identifier block.
pub proof fn law_source_outputs_fit_one_block(defs: Seq<ItemGroupDefinitionV1>, source: ItemGroupSourceV1)
    requires
        source_eval(defs, source) is Some,
    ensures
        source_eval(defs, source).unwrap().outputs <= MAX_ITEM_GROUP_OUTPUTS,
{
    match source {
        ItemGroupSourceV1::Group(id) => {
            lemma_group_index(defs, id@);
            let j = group_index(defs, id@).unwrap();
            lemma_graph_bounds(defs, defs[j].graph, crate::item_group_eval::contents_fuel(), crate::item_group_eval::path_fuel());
        },
        ItemGroupSourceV1::Inline(graph) => {
            lemma_graph_bounds(defs, graph, crate::item_group_eval::contents_fuel(), crate::item_group_eval::path_fuel());
        },
    }
}

/// Every group of a valid catalog is a valid source on its own.
pub proof fn law_valid_catalog_groups_are_valid_sources(defs: Seq<ItemGroupDefinitionV1>, g: int)
    requires
        catalog_ok(defs),
        0 <= g < defs.len(),
    ensures
        sources_ok(defs, seq![ItemGroupSourceV1::Group(defs[g].group_id)]),
{
    let source = ItemGroupSourceV1::Group(defs[g].group_id);
    let sources = seq![source];
    lemma_group_index(defs, defs[g].group_id@);
    let j = group_index(defs, defs[g].group_id@).unwrap();
    assert(full_group(defs, j) is Some);
    assert(sources.drop_last() =~= Seq::<ItemGroupSourceV1>::empty());
    assert(inline_node_total(Seq::<ItemGroupSourceV1>::empty()) == 0);
    assert(inline_entry_total(Seq::<ItemGroupSourceV1>::empty()) == 0);
    assert(sources[0] == source);
}

/// Named references share the catalog's storage: adding one to a list of
/// sources leaves the budget as it was, and the list stays valid exactly when
/// the named group evaluates.
pub proof fn law_named_sources_share_storage(
    defs: Seq<ItemGroupDefinitionV1>,
    sources: Seq<ItemGroupSourceV1>,
    id: String,
)
    ensures
        sources_ok(defs, sources.push(ItemGroupSourceV1::Group(id))) == (sources_ok(defs, sources) && source_eval(
            defs,
            ItemGroupSourceV1::Group(id),
        ) is Some),
{
    let more = sources.push(ItemGroupSourceV1::Group(id));
    assert(more.drop_last() == sources);
    assert(inline_node_total(more) == inline_node_total(sources));
    assert(inline_entry_total(more) == inline_entry_total(sources));
    assert(more[sources.len() as int] == ItemGroupSourceV1::Group(id));
    if sources_ok(defs, sources) && source_eval(defs, ItemGroupSourceV1::Group(id)) is Some {
        assert forall|i: int| 0 <= i < more.len() implies (#[trigger] source_eval(defs, more[i])) is Some by {
            if i < sources.len() {
                assert(more[i] == sources[i]);
            }
        }
    }
    if sources_ok(defs, more) {
        assert forall|i: int| 0 <= i < sources.len() implies (#[trigger] source_eval(defs, sources[i])) is Some by {
            assert(more[i] == sources[i]);
            assert(source_eval(defs, more[i]) is Some);
        }
        assert(source_eval(defs, more[sources.len() as int]) is Some);
    }
}

proof fn lemma_listed_group_is_named(
    groups: Seq<ItemGroupDefinitionV1>,
    sources: Seq<ItemGroupSourceV1>,
    id: String,
)
    requires
        named_closure_exact(groups, sources),
        sources.contains(ItemGroupSourceV1::Group(id)),
    ensures
        group_named(groups, id@),
{
    let s = choose|s: int| 0 <= s < sources.len() && sources[s] == ItemGroupSourceV1::Group(id);
    assert(source_names(sources[s], id@));
    lemma_last_group_range(groups, id@);
    let j = last_group(groups, id@).unwrap();
    assert(groups[j].group_id@ == id@);
}

proof fn lemma_template_names_groups(
    groups: Seq<ItemGroupDefinitionV1>,
    terrain: Seq<TerrainBashTypeV1>,
    furniture: Seq<FurnitureBashTypeV1>,
    catalog: WorldgenCatalogV1,
    cells: Seq<WorldgenCellV1>,
    areas: Seq<WorldgenAreaItemPlacementV1>,
    g: int,
    n: Option<int>,
    t: int,
)
    requires
        named_closure_exact(groups, world_sources(terrain, furniture, Some(catalog))),
        0 <= g < catalog.omt_generators@.len(),
        match n {
            None => 0 <= t < catalog.omt_generators@[g].templates@.len() && cells
                == catalog.omt_generators@[g].templates@[t].cells@ && areas
                == catalog.omt_generators@[g].templates@[t].area_items@,
            Some(k) => 0 <= k < catalog.omt_generators@[g].nested_generators@.len() && 0 <= t
                < catalog.omt_generators@[g].nested_generators@[k].templates@.len() && cells
                == catalog.omt_generators@[g].nested_generators@[k].templates@[t].cells@ && areas
                == catalog.omt_generators@[g].nested_generators@[k].templates@[t].area_items@,
        },
    ensures
        cells_name_groups(cells, groups),
        areas_name_groups(areas, groups),
{
    let w = world_sources(terrain, furniture, Some(catalog));
    assert forall|c: int| 0 <= c < cells.len() implies ((#[trigger] cells[c]).item_group matches Some(p) ==> group_named(
        groups,
        p.group_id@,
    )) by {
        if cells[c].item_group is Some {
            let x = ItemGroupSourceV1::Group(cells[c].item_group.unwrap().group_id);
            lemma_cell_placement_source(cells, c);
            lemma_template_placements_are_sources(terrain, furniture, catalog, x, g, n, t);
            lemma_listed_group_is_named(groups, w, cells[c].item_group.unwrap().group_id);
        }
    }
    assert forall|a: int| 0 <= a < areas.len() implies group_named(groups, (#[trigger] areas[a]).item_group.group_id@) by {
        let x = ItemGroupSourceV1::Group(areas[a].item_group.group_id);
        lemma_area_placement_source(areas, a);
        lemma_template_placements_are_sources(terrain, furniture, catalog, x, g, n, t);
        lemma_listed_group_is_named(groups, w, areas[a].item_group.group_id);
    }
}

/// A world whose item groups are valid has a valid item-group catalog, and
/// every item-group placement of its worldgen catalog, root or nested, names
/// a group of that catalog.
pub proof fn law_valid_world_item_groups_cover_worldgen_placements(
    groups: Seq<ItemGroupDefinitionV1>,
    terrain: Seq<TerrainBashTypeV1>,
    furniture: Seq<FurnitureBashTypeV1>,
    catalog: WorldgenCatalogV1,
)
    requires
        sources_ok(groups, world_sources(terrain, furniture, Some(catalog))),
        named_closure_exact(groups, world_sources(terrain, furniture, Some(catalog))),
    ensures
        catalog_ok(groups),
        placements_name_groups(catalog, groups),
{
    let generators = catalog.omt_generators@;
    assert forall|g: int, t: int| 0 <= g < generators.len() && 0 <= t < generators[g].templates@.len() implies {
        let template = #[trigger] generators[g].templates@[t];
        cells_name_groups(template.cells@, groups) && areas_name_groups(template.area_items@, groups)
    } by {
        let template = generators[g].templates@[t];
        lemma_template_names_groups(groups, terrain, furniture, catalog, template.cells@, template.area_items@, g, None, t);
    }
    assert forall|g: int, k: int, t: int|
        0 <= g < generators.len() && 0 <= k < generators[g].nested_generators@.len() && 0 <= t
            < generators[g].nested_generators@[k].templates@.len() implies {
        let template = #[trigger] generators[g].nested_generators@[k].templates@[t];
        cells_name_groups(template.cells@, groups) && areas_name_groups(template.area_items@, groups)
    } by {
        let template = generators[g].nested_generators@[k].templates@[t];
        lemma_template_names_groups(
            groups,
            terrain,
            furniture,
            catalog,
            template.cells@,
            template.area_items@,
            g,
            Some(k),
            t,
        );
    }
}

} // verus!
