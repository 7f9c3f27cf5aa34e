//! The item-group catalog of a world checked against everything that draws
//! from it: bash drops and worldgen placements.

use vstd::prelude::*;

use crate::bash::{FurnitureBashTypeV1, TerrainBashTypeV1};
use crate::item_group_catalog::{deref_sources, item_group_sources_are_valid, sources_ok};
use crate::item_group_closure::{item_group_sources_have_exact_named_closure, named_closure_exact};
use crate::item_group_types::{ItemGroupDefinitionV1, ItemGroupSourceV1};
use crate::worldgen::{
    WorldgenAreaItemPlacementV1, WorldgenCatalogV1, WorldgenCellV1, WorldgenNestedGeneratorV1,
    WorldgenNestedTemplateV1, WorldgenOmtGeneratorV1, WorldgenTemplateV1,
};

verus! {

/// The groups the cells place, in cell order.
pub open spec fn cell_sources(cells: Seq<WorldgenCellV1>) -> Seq<ItemGroupSourceV1>
    decreases cells.len(),
{
    if cells.len() == 0 {
        seq![]
    } else {
        cell_sources(cells.drop_last()) + match cells.last().item_group {
            Some(p) => seq![ItemGroupSourceV1::Group(p.group_id)],
            None => seq![],
        }
    }
}

pub open spec fn area_sources(areas: Seq<WorldgenAreaItemPlacementV1>) -> Seq<ItemGroupSourceV1>
    decreases areas.len(),
{
    if areas.len() == 0 {
        seq![]
    } else {
        area_sources(areas.drop_last()) + seq![ItemGroupSourceV1::Group(areas.last().item_group.group_id)]
    }
}

/// Per template: the cells' groups, then the area placements' groups.
pub open spec fn template_sources(templates: Seq<WorldgenTemplateV1>) -> Seq<ItemGroupSourceV1>
    decreases templates.len(),
{
    if templates.len() == 0 {
        seq![]
    } else {
        template_sources(templates.drop_last()) + cell_sources(templates.last().cells@) + area_sources(
            templates.last().area_items@,
        )
    }
}

pub open spec fn nested_template_sources(templates: Seq<WorldgenNestedTemplateV1>) -> Seq<ItemGroupSourceV1>
    decreases templates.len(),
{
    if templates.len() == 0 {
        seq![]
    } else {
        nested_template_sources(templates.drop_last()) + cell_sources(templates.last().cells@) + area_sources(
            templates.last().area_items@,
        )
    }
}

pub open spec fn nested_generator_sources(nested: Seq<WorldgenNestedGeneratorV1>) -> Seq<ItemGroupSourceV1>
    decreases nested.len(),
{
    if nested.len() == 0 {
        seq![]
    } else {
        nested_generator_sources(nested.drop_last()) + nested_template_sources(nested.last().templates@)
    }
}

/// Per generator: its root templates' groups, then its nested generators'.
pub open spec fn generator_sources(generators: Seq<WorldgenOmtGeneratorV1>) -> Seq<ItemGroupSourceV1>
    decreases generators.len(),
{
    if generators.len() == 0 {
        seq![]
    } else {
        generator_sources(generators.drop_last()) + template_sources(generators.last().templates@)
            + nested_generator_sources(generators.last().nested_generators@)
    }
}

pub open spec fn terrain_drops(types: Seq<TerrainBashTypeV1>) -> Seq<ItemGroupSourceV1>
    decreases types.len(),
{
    if types.len() == 0 {
        seq![]
    } else {
        terrain_drops(types.drop_last()) + match types.last().drop_source {
            Some(s) => seq![s],
            None => seq![],
        }
    }
}

pub open spec fn furniture_drops(types: Seq<FurnitureBashTypeV1>) -> Seq<ItemGroupSourceV1>
    decreases types.len(),
{
    if types.len() == 0 {
        seq![]
    } else {
        furniture_drops(types.drop_last()) + match types.last().drop_source {
            Some(s) => seq![s],
            None => seq![],
        }
    }
}

/// Every source a world draws items from: terrain drops, furniture drops,
/// then each worldgen placement as a named group.
pub open spec fn world_sources(
    terrain: Seq<TerrainBashTypeV1>,
    furniture: Seq<FurnitureBashTypeV1>,
    worldgen: Option<WorldgenCatalogV1>,
) -> Seq<ItemGroupSourceV1> {
    terrain_drops(terrain) + furniture_drops(furniture) + match worldgen {
        Some(catalog) => generator_sources(catalog.omt_generators@),
        None => seq![],
    }
}

fn push_cells(cells: &Vec<WorldgenCellV1>, out: &mut Vec<ItemGroupSourceV1>)
    ensures
        final(out)@ == old(out)@ + cell_sources(cells@),
{
    let ghost base = out@;
    let mut i: usize = 0;
    while i < cells.len()
        invariant
            i <= cells@.len(),
            out@ == base + cell_sources(cells@.take(i as int)),
        decreases cells.len() - i,
    {
        assert(cells@.take(i + 1).drop_last() == cells@.take(i as int));
        if let Some(p) = &cells[i].item_group {
            out.push(ItemGroupSourceV1::Group(p.group_id.clone()));
        }
        i = i + 1;
    }
    assert(cells@.take(i as int) == cells@);
}

fn push_areas(areas: &Vec<WorldgenAreaItemPlacementV1>, out: &mut Vec<ItemGroupSourceV1>)
    ensures
        final(out)@ == old(out)@ + area_sources(areas@),
{
    let ghost base = out@;
    let mut i: usize = 0;
    while i < areas.len()
        invariant
            i <= areas@.len(),
            out@ == base + area_sources(areas@.take(i as int)),
        decreases areas.len() - i,
    {
        assert(areas@.take(i + 1).drop_last() == areas@.take(i as int));
        out.push(ItemGroupSourceV1::Group(areas[i].item_group.group_id.clone()));
        i = i + 1;
    }
    assert(areas@.take(i as int) == areas@);
}

fn push_templates(templates: &Vec<WorldgenTemplateV1>, out: &mut Vec<ItemGroupSourceV1>)
    ensures
        final(out)@ == old(out)@ + template_sources(templates@),
{
    let ghost base = out@;
    let mut i: usize = 0;
    while i < templates.len()
        invariant
            i <= templates@.len(),
            out@ == base + template_sources(templates@.take(i as int)),
        decreases templates.len() - i,
    {
        assert(templates@.take(i + 1).drop_last() == templates@.take(i as int));
        push_cells(&templates[i].cells, out);
        push_areas(&templates[i].area_items, out);
        i = i + 1;
    }
    assert(templates@.take(i as int) == templates@);
}

fn push_nested_templates(templates: &Vec<WorldgenNestedTemplateV1>, out: &mut Vec<ItemGroupSourceV1>)
    ensures
        final(out)@ == old(out)@ + nested_template_sources(templates@),
{
    let ghost base = out@;
    let mut i: usize = 0;
    while i < templates.len()
        invariant
            i <= templates@.len(),
            out@ == base + nested_template_sources(templates@.take(i as int)),
        decreases templates.len() - i,
    {
        assert(templates@.take(i + 1).drop_last() == templates@.take(i as int));
        push_cells(&templates[i].cells, out);
        push_areas(&templates[i].area_items, out);
        i = i + 1;
    }
    assert(templates@.take(i as int) == templates@);
}

fn push_nested_generators(nested: &Vec<WorldgenNestedGeneratorV1>, out: &mut Vec<ItemGroupSourceV1>)
    ensures
        final(out)@ == old(out)@ + nested_generator_sources(nested@),
{
    let ghost base = out@;
    let mut i: usize = 0;
    while i < nested.len()
        invariant
            i <= nested@.len(),
            out@ == base + nested_generator_sources(nested@.take(i as int)),
        decreases nested.len() - i,
    {
        assert(nested@.take(i + 1).drop_last() == nested@.take(i as int));
        push_nested_templates(&nested[i].templates, out);
        i = i + 1;
    }
    assert(nested@.take(i as int) == nested@);
}

fn push_generators(generators: &Vec<WorldgenOmtGeneratorV1>, out: &mut Vec<ItemGroupSourceV1>)
    ensures
        final(out)@ == old(out)@ + generator_sources(generators@),
{
    let ghost base = out@;
    let mut i: usize = 0;
    while i < generators.len()
        invariant
            i <= generators@.len(),
            out@ == base + generator_sources(generators@.take(i as int)),
        decreases generators.len() - i,
    {
        assert(generators@.take(i + 1).drop_last() == generators@.take(i as int));
        push_templates(&generators[i].templates, out);
        push_nested_generators(&generators[i].nested_generators, out);
        i = i + 1;
    }
    assert(generators@.take(i as int) == generators@);
}

/// Validates a world's item-group catalog against every source that draws
/// from it: the catalog and all sources are valid within one shared budget,
/// and the catalog holds exactly the groups those sources reach.
pub fn item_groups_are_valid(
    item_groups: &[ItemGroupDefinitionV1],
    terrain_bash_types: &[TerrainBashTypeV1],
    furniture_bash_types: &[FurnitureBashTypeV1],
    worldgen: &Option<WorldgenCatalogV1>,
) -> (r: bool)
    ensures
        r == ({
            let sources = world_sources(terrain_bash_types@, furniture_bash_types@, *worldgen);
            sources_ok(item_groups@, sources) && named_closure_exact(item_groups@, sources)
        }),
{
    let mut named: Vec<ItemGroupSourceV1> = Vec::new();
    if let Some(catalog) = worldgen {
        push_generators(&catalog.omt_generators, &mut named);
    }
    assert(named@ == match *worldgen {
        Some(catalog) => generator_sources(catalog.omt_generators@),
        None => Seq::<ItemGroupSourceV1>::empty(),
    });
    let mut refs: Vec<&ItemGroupSourceV1> = Vec::new();
    let mut i: usize = 0;
    while i < terrain_bash_types.len()
        invariant
            i <= terrain_bash_types@.len(),
            deref_sources(refs@) == terrain_drops(terrain_bash_types@.take(i as int)),
        decreases terrain_bash_types.len() - i,
    {
        assert(terrain_bash_types@.take(i + 1).drop_last() == terrain_bash_types@.take(i as int));
        if let Some(source) = &terrain_bash_types[i].drop_source {
            refs.push(source);
        }
        assert(deref_sources(refs@) =~= terrain_drops(terrain_bash_types@.take(i + 1)));
        i = i + 1;
    }
    assert(terrain_bash_types@.take(i as int) == terrain_bash_types@);
    let ghost terrain = deref_sources(refs@);
    let mut i: usize = 0;
    while i < furniture_bash_types.len()
        invariant
            i <= furniture_bash_types@.len(),
            deref_sources(refs@) == terrain + furniture_drops(furniture_bash_types@.take(i as int)),
        decreases furniture_bash_types.len() - i,
    {
        assert(furniture_bash_types@.take(i + 1).drop_last() == furniture_bash_types@.take(i as int));
        let ghost before = refs@;
        if let Some(source) = &furniture_bash_types[i].drop_source {
            refs.push(source);
            assert(deref_sources(refs@) =~= deref_sources(before).push(*source));
        }
        assert(deref_sources(refs@) =~= terrain + furniture_drops(furniture_bash_types@.take(i + 1)));
        i = i + 1;
    }
    assert(furniture_bash_types@.take(i as int) == furniture_bash_types@);
    let ghost drops = deref_sources(refs@);
    let mut k: usize = 0;
    while k < named.len()
        invariant
            k <= named@.len(),
            deref_sources(refs@) == drops + named@.take(k as int),
        decreases named.len() - k,
    {
        let ghost before = refs@;
        refs.push(&named[k]);
        assert(deref_sources(refs@) =~= deref_sources(before).push(named@[k as int]));
        assert(named@.take(k + 1) =~= named@.take(k as int).push(named@[k as int]));
        assert(deref_sources(refs@) =~= drops + named@.take(k + 1));
        k = k + 1;
    }
    assert(named@.take(k as int) == named@);
    assert(deref_sources(refs@) == world_sources(terrain_bash_types@, furniture_bash_types@, *worldgen));
    item_group_sources_are_valid(item_groups, refs.as_slice()) && item_group_sources_have_exact_named_closure(
        item_groups,
        refs.as_slice(),
    )
}

proof fn lemma_concat_contains<A>(a: Seq<A>, b: Seq<A>, x: A)
    ensures
        a.contains(x) ==> (a + b).contains(x),
        b.contains(x) ==> (a + b).contains(x),
{
    if a.contains(x) {
        let k = choose|k: int| 0 <= k < a.len() && a[k] == x;
        assert((a + b)[k] == x);
    }
    if b.contains(x) {
        let k = choose|k: int| 0 <= k < b.len() && b[k] == x;
        assert((a + b)[a.len() + k] == x);
    }
}

proof fn lemma_cell_sources_contain(cells: Seq<WorldgenCellV1>, c: int)
    requires
        0 <= c < cells.len(),
        cells[c].item_group is Some,
    ensures
        cell_sources(cells).contains(ItemGroupSourceV1::Group(cells[c].item_group.unwrap().group_id)),
    decreases cells.len(),
{
    let x = ItemGroupSourceV1::Group(cells[c].item_group.unwrap().group_id);
    if c < cells.len() - 1 {
        lemma_cell_sources_contain(cells.drop_last(), c);
        lemma_concat_contains(cell_sources(cells.drop_last()), seq![x], x);
        let tail = match cells.last().item_group {
            Some(p) => seq![ItemGroupSourceV1::Group(p.group_id)],
            None => seq![],
        };
        lemma_concat_contains(cell_sources(cells.drop_last()), tail, x);
    } else {
        assert(seq![x].contains(x)) by {
            assert(seq![x][0] == x);
        }
        lemma_concat_contains(cell_sources(cells.drop_last()), seq![x], x);
    }
}

proof fn lemma_area_sources_contain(areas: Seq<WorldgenAreaItemPlacementV1>, a: int)
    requires
        0 <= a < areas.len(),
    ensures
        area_sources(areas).contains(ItemGroupSourceV1::Group(areas[a].item_group.group_id)),
    decreases areas.len(),
{
    let x = ItemGroupSourceV1::Group(areas[a].item_group.group_id);
    let last = seq![ItemGroupSourceV1::Group(areas.last().item_group.group_id)];
    if a < areas.len() - 1 {
        lemma_area_sources_contain(areas.drop_last(), a);
    } else {
        assert(last[0] == x);
    }
    lemma_concat_contains(area_sources(areas.drop_last()), last, x);
}

proof fn lemma_template_sources_contain(templates: Seq<WorldgenTemplateV1>, t: int, x: ItemGroupSourceV1)
    requires
        0 <= t < templates.len(),
        cell_sources(templates[t].cells@).contains(x) || area_sources(templates[t].area_items@).contains(x),
    ensures
        template_sources(templates).contains(x),
    decreases templates.len(),
{
    let front = template_sources(templates.drop_last());
    let cells = cell_sources(templates.last().cells@);
    let areas = area_sources(templates.last().area_items@);
    if t < templates.len() - 1 {
        lemma_template_sources_contain(templates.drop_last(), t, x);
        lemma_concat_contains(front, cells, x);
    } else {
        lemma_concat_contains(front, cells, x);
    }
    lemma_concat_contains(front + cells, areas, x);
}

proof fn lemma_nested_template_sources_contain(templates: Seq<WorldgenNestedTemplateV1>, t: int, x: ItemGroupSourceV1)
    requires
        0 <= t < templates.len(),
        cell_sources(templates[t].cells@).contains(x) || area_sources(templates[t].area_items@).contains(x),
    ensures
        nested_template_sources(templates).contains(x),
    decreases templates.len(),
{
    let front = nested_template_sources(templates.drop_last());
    let cells = cell_sources(templates.last().cells@);
    let areas = area_sources(templates.last().area_items@);
    if t < templates.len() - 1 {
        lemma_nested_template_sources_contain(templates.drop_last(), t, x);
        lemma_concat_contains(front, cells, x);
    } else {
        lemma_concat_contains(front, cells, x);
    }
    lemma_concat_contains(front + cells, areas, x);
}

proof fn lemma_nested_generator_sources_contain(nested: Seq<WorldgenNestedGeneratorV1>, n: int, x: ItemGroupSourceV1)
    requires
        0 <= n < nested.len(),
        nested_template_sources(nested[n].templates@).contains(x),
    ensures
        nested_generator_sources(nested).contains(x),
    decreases nested.len(),
{
    let front = nested_generator_sources(nested.drop_last());
    let last = nested_template_sources(nested.last().templates@);
    if n < nested.len() - 1 {
        lemma_nested_generator_sources_contain(nested.drop_last(), n, x);
    }
    lemma_concat_contains(front, last, x);
}

proof fn lemma_generator_sources_contain(generators: Seq<WorldgenOmtGeneratorV1>, g: int, x: ItemGroupSourceV1)
    requires
        0 <= g < generators.len(),
        template_sources(generators[g].templates@).contains(x) || nested_generator_sources(
            generators[g].nested_generators@,
        ).contains(x),
    ensures
        generator_sources(generators).contains(x),
    decreases generators.len(),
{
    let front = generator_sources(generators.drop_last());
    let roots = template_sources(generators.last().templates@);
    let nested = nested_generator_sources(generators.last().nested_generators@);
    if g < generators.len() - 1 {
        lemma_generator_sources_contain(generators.drop_last(), g, x);
        lemma_concat_contains(front, roots, x);
    } else {
        lemma_concat_contains(front, roots, x);
    }
    lemma_concat_contains(front + roots, nested, x);
}

/// Every group a template places is among the world's sources.
pub proof fn lemma_template_placements_are_sources(
    terrain: Seq<TerrainBashTypeV1>,
    furniture: Seq<FurnitureBashTypeV1>,
    catalog: WorldgenCatalogV1,
    x: ItemGroupSourceV1,
    g: int,
    n: Option<int>,
    t: int,
)
    requires
        0 <= g < catalog.omt_generators@.len(),
        match n {
            None => 0 <= t < catalog.omt_generators@[g].templates@.len() && ({
                let template = catalog.omt_generators@[g].templates@[t];
                cell_sources(template.cells@).contains(x) || area_sources(template.area_items@).contains(x)
            }),
            Some(k) => 0 <= k < catalog.omt_generators@[g].nested_generators@.len() && 0 <= t
                < catalog.omt_generators@[g].nested_generators@[k].templates@.len() && ({
                let template = catalog.omt_generators@[g].nested_generators@[k].templates@[t];
                cell_sources(template.cells@).contains(x) || area_sources(template.area_items@).contains(x)
            }),
        },
    ensures
        world_sources(terrain, furniture, Some(catalog)).contains(x),
{
    let generator = catalog.omt_generators@[g];
    match n {
        None => {
            lemma_template_sources_contain(generator.templates@, t, x);
        },
        Some(k) => {
            lemma_nested_template_sources_contain(generator.nested_generators@[k].templates@, t, x);
            lemma_nested_generator_sources_contain(generator.nested_generators@, k, x);
        },
    }
    lemma_generator_sources_contain(catalog.omt_generators@, g, x);
    lemma_concat_contains(
        terrain_drops(terrain) + furniture_drops(furniture),
        generator_sources(catalog.omt_generators@),
        x,
    );
}

pub proof fn lemma_cell_placement_source(cells: Seq<WorldgenCellV1>, c: int)
    requires
        0 <= c < cells.len(),
        cells[c].item_group is Some,
    ensures
        cell_sources(cells).contains(ItemGroupSourceV1::Group(cells[c].item_group.unwrap().group_id)),
{
    lemma_cell_sources_contain(cells, c);
}

pub proof fn lemma_area_placement_source(areas: Seq<WorldgenAreaItemPlacementV1>, a: int)
    requires
        0 <= a < areas.len(),
    ensures
        area_sources(areas).contains(ItemGroupSourceV1::Group(areas[a].item_group.group_id)),
{
    lemma_area_sources_contain(areas, a);
}

} // verus!
