//! A worldgen catalog together with the item-group catalog its placements name.

use vstd::prelude::*;

use crate::item_group_catalog::{catalog_ok, item_group_catalog_is_valid};
use crate::item_group_eval::{lemma_group_index};
use crate::item_group_resolve::find_group;
use crate::item_group_types::ItemGroupDefinitionV1;
use crate::worldgen::{WorldgenAreaItemPlacementV1, WorldgenCatalogV1, WorldgenCellV1};
use crate::worldgen_catalog::{catalog_shape_ok, worldgen_catalog_shape_is_valid};

verus! {

pub open spec fn group_named(groups: Seq<ItemGroupDefinitionV1>, id: Seq<char>) -> bool {
    exists|i: int| 0 <= i < groups.len() && (#[trigger] groups[i]).group_id@ == id
}

pub open spec fn cells_name_groups(cells: Seq<WorldgenCellV1>, groups: Seq<ItemGroupDefinitionV1>) -> bool {
    forall|c: int| 0 <= c < cells.len() ==> ((#[trigger] cells[c]).item_group matches Some(p) ==> group_named(groups, p.group_id@))
}

pub open spec fn areas_name_groups(areas: Seq<WorldgenAreaItemPlacementV1>, groups: Seq<ItemGroupDefinitionV1>) -> bool {
    forall|a: int| 0 <= a < areas.len() ==> group_named(groups, (#[trigger] areas[a]).item_group.group_id@)
}

/// Every item-group placement of every root and nested template names a
/// group of `groups`.
pub open spec fn placements_name_groups(catalog: WorldgenCatalogV1, groups: Seq<ItemGroupDefinitionV1>) -> bool {
    let generators = catalog.omt_generators@;
    &&& forall|g: int, t: int|
        0 <= g < generators.len() && 0 <= t < generators[g].templates@.len() ==> {
            let template = #[trigger] generators[g].templates@[t];
            cells_name_groups(template.cells@, groups) && areas_name_groups(template.area_items@, groups)
        }
    &&& forall|g: int, n: int, t: int|
        0 <= g < generators.len() && 0 <= n < generators[g].nested_generators@.len() && 0 <= t
            < generators[g].nested_generators@[n].templates@.len() ==> {
            let template = #[trigger] generators[g].nested_generators@[n].templates@[t];
            cells_name_groups(template.cells@, groups) && areas_name_groups(template.area_items@, groups)
        }
}

/// A valid worldgen catalog, a valid item-group catalog, and placements that
/// only name groups of it. The item-group catalog may hold other groups.
pub open spec fn worldgen_catalog_ok(catalog: WorldgenCatalogV1, groups: Seq<ItemGroupDefinitionV1>) -> bool {
    &&& catalog_shape_ok(catalog)
    &&& catalog_ok(groups)
    &&& placements_name_groups(catalog, groups)
}

fn names_group(groups: &[ItemGroupDefinitionV1], id: &str) -> (r: bool)
    ensures
        r == group_named(groups@, id@),
{
    proof {
        lemma_group_index(groups@, id@);
    }
    find_group(groups, id).is_some()
}

fn cells_are_named(cells: &Vec<WorldgenCellV1>, groups: &[ItemGroupDefinitionV1]) -> (r: bool)
    ensures
        r == cells_name_groups(cells@, groups@),
{
    let mut c: usize = 0;
    while c < cells.len()
        invariant
            c <= cells@.len(),
            forall|k: int| 0 <= k < c ==> ((#[trigger] cells@[k]).item_group matches Some(p) ==> group_named(groups@, p.group_id@)),
        decreases cells.len() - c,
    {
        if let Some(placement) = &cells[c].item_group {
            if !names_group(groups, placement.group_id.as_str()) {
                return false;
            }
        }
        c = c + 1;
    }
    true
}

fn areas_are_named(areas: &Vec<WorldgenAreaItemPlacementV1>, groups: &[ItemGroupDefinitionV1]) -> (r: bool)
    ensures
        r == areas_name_groups(areas@, groups@),
{
    let mut a: usize = 0;
    while a < areas.len()
        invariant
            a <= areas@.len(),
            forall|k: int| 0 <= k < a ==> group_named(groups@, (#[trigger] areas@[k]).item_group.group_id@),
        decreases areas.len() - a,
    {
        if !names_group(groups, areas[a].item_group.group_id.as_str()) {
            return false;
        }
        a = a + 1;
    }
    true
}

fn placements_are_named(catalog: &WorldgenCatalogV1, groups: &[ItemGroupDefinitionV1]) -> (r: bool)
    ensures
        r == placements_name_groups(*catalog, groups@),
{
    let generators = &catalog.omt_generators;
    let mut g: usize = 0;
    while g < generators.len()
        invariant
            g <= generators@.len(),
            *generators == catalog.omt_generators,
            forall|h: int, t: int|
                0 <= h < g && 0 <= t < generators@[h].templates@.len() ==> {
                    let template = #[trigger] generators@[h].templates@[t];
                    cells_name_groups(template.cells@, groups@) && areas_name_groups(template.area_items@, groups@)
                },
            forall|h: int, n: int, t: int|
                0 <= h < g && 0 <= n < generators@[h].nested_generators@.len() && 0 <= t
                    < generators@[h].nested_generators@[n].templates@.len() ==> {
                    let template = #[trigger] generators@[h].nested_generators@[n].templates@[t];
                    cells_name_groups(template.cells@, groups@) && areas_name_groups(template.area_items@, groups@)
                },
        decreases generators.len() - g,
    {
        let templates = &generators[g].templates;
        let mut t: usize = 0;
        while t < templates.len()
            invariant
                g < generators@.len(),
                *templates == generators@[g as int].templates,
                t <= templates@.len(),
                forall|k: int| 0 <= k < t ==> {
                    let template = #[trigger] templates@[k];
                    cells_name_groups(template.cells@, groups@) && areas_name_groups(template.area_items@, groups@)
                },
            decreases templates.len() - t,
        {
            if !cells_are_named(&templates[t].cells, groups) || !areas_are_named(&templates[t].area_items, groups) {
                return false;
            }
            t = t + 1;
        }
        let nested = &generators[g].nested_generators;
        let mut n: usize = 0;
        while n < nested.len()
            invariant
                g < generators@.len(),
                *nested == generators@[g as int].nested_generators,
                n <= nested@.len(),
                forall|m: int, k: int| 0 <= m < n && 0 <= k < nested@[m].templates@.len() ==> {
                    let template = #[trigger] nested@[m].templates@[k];
                    cells_name_groups(template.cells@, groups@) && areas_name_groups(template.area_items@, groups@)
                },
            decreases nested.len() - n,
        {
            let nested_templates = &nested[n].templates;
            let mut t: usize = 0;
            while t < nested_templates.len()
                invariant
                    n < nested@.len(),
                    *nested_templates == nested@[n as int].templates,
                    t <= nested_templates@.len(),
                    forall|k: int| 0 <= k < t ==> {
                        let template = #[trigger] nested_templates@[k];
                        cells_name_groups(template.cells@, groups@) && areas_name_groups(template.area_items@, groups@)
                    },
                decreases nested_templates.len() - t,
            {
                if !cells_are_named(&nested_templates[t].cells, groups) || !areas_are_named(
                    &nested_templates[t].area_items,
                    groups,
                ) {
                    return false;
                }
                t = t + 1;
            }
            n = n + 1;
        }
        g = g + 1;
    }
    true
}

/// Validates a worldgen catalog and every named item-group placement in it.
pub fn worldgen_catalog_is_valid(catalog: &WorldgenCatalogV1, item_groups: &[ItemGroupDefinitionV1]) -> (r: bool)
    ensures
        r == worldgen_catalog_ok(*catalog, item_groups@),
{
    if !worldgen_catalog_shape_is_valid(catalog) || !item_group_catalog_is_valid(item_groups) {
        return false;
    }
    placements_are_named(catalog, item_groups)
}

} // verus!
