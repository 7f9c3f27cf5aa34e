//! The reference graphs of a world-generation catalog: regional tables that
//! resolve to other regional tables, predecessor generators, and nested
//! generators. Each must be acyclic within a bounded depth.

use vstd::prelude::*;

use crate::graph::{adjacency, bounded_graph_is_valid, graph_bounded};
use crate::text::str_eq;
use crate::worldgen::{
    WorldgenCatalogV1, WorldgenFurniturePrototypeTargetV1, WorldgenNestedChoiceV1,
    WorldgenNestedPlacementV1, WorldgenNestedTemplateV1, WorldgenOmtGeneratorV1,
    WorldgenRegionalFurnitureTableV1, WorldgenRegionalTerrainTableV1, WorldgenTemplateV1,
    WorldgenWeightedFurniturePrototypeV1, WorldgenWeightedPrototypeV1,
    MAX_WORLDGEN_NESTED_DEPTH, MAX_WORLDGEN_REGIONAL_RESOLUTION_DEPTH,
};
use crate::worldgen_parts::{has_identity, identity_exists};

verus! {

/// Whether every regional resolution path visits at most 32 tables.
pub fn valid_worldgen_regional_graph(edges: &Vec<Vec<usize>>) -> (r: bool)
    ensures
        r == graph_bounded(adjacency(edges@), MAX_WORLDGEN_REGIONAL_RESOLUTION_DEPTH as nat),
{
    bounded_graph_is_valid(edges, MAX_WORLDGEN_REGIONAL_RESOLUTION_DEPTH)
}

pub open spec fn opt_edge(target: Option<int>) -> Seq<usize> {
    match target {
        Some(i) => seq![i as usize],
        None => Seq::empty(),
    }
}

/// The last of the first `k` regional terrain tables named `id`.
pub open spec fn last_terrain_table(tables: Seq<WorldgenRegionalTerrainTableV1>, id: Seq<char>, k: int) -> Option<int>
    decreases k,
{
    if k <= 0 || k > tables.len() {
        None
    } else if tables[k - 1].regional_id@ == id {
        Some(k - 1)
    } else {
        last_terrain_table(tables, id, k - 1)
    }
}

/// The regional table that a weighted terrain prototype resolves to, when
/// the prototype's terrain ID names a regional table.
pub open spec fn terrain_choice_target(catalog: WorldgenCatalogV1, choice: WorldgenWeightedPrototypeV1) -> Option<int> {
    if choice.prototype_index < catalog.terrain_prototypes@.len() {
        let id = catalog.terrain_prototypes@[choice.prototype_index as int].terrain_id@;
        last_terrain_table(catalog.regional_terrain@, id, catalog.regional_terrain@.len() as int)
    } else {
        None
    }
}

pub open spec fn terrain_choice_targets(catalog: WorldgenCatalogV1, choices: Seq<WorldgenWeightedPrototypeV1>) -> Seq<usize>
    decreases choices.len(),
{
    if choices.len() == 0 {
        Seq::empty()
    } else {
        terrain_choice_targets(catalog, choices.drop_last()) + opt_edge(terrain_choice_target(catalog, choices.last()))
    }
}

pub open spec fn regional_terrain_edges(catalog: WorldgenCatalogV1) -> Seq<Seq<usize>> {
    Seq::new(catalog.regional_terrain@.len(), |t: int| terrain_choice_targets(catalog, catalog.regional_terrain@[t].choices@))
}

fn find_last_terrain_table(catalog: &WorldgenCatalogV1, id: &str) -> (r: Option<usize>)
    ensures
        match last_terrain_table(catalog.regional_terrain@, id@, catalog.regional_terrain@.len() as int) {
            Some(t) => r == Some(t as usize),
            None => r is None,
        },
{
    let mut k: usize = catalog.regional_terrain.len();
    while k > 0
        invariant
            k <= catalog.regional_terrain@.len(),
            last_terrain_table(catalog.regional_terrain@, id@, catalog.regional_terrain@.len() as int)
                == last_terrain_table(catalog.regional_terrain@, id@, k as int),
        decreases k,
    {
        if str_eq(catalog.regional_terrain[k - 1].regional_id.as_str(), id) {
            return Some(k - 1);
        }
        k = k - 1;
    }
    None
}

/// The regional terrain tables reached through prototypes named like tables
/// stay within the resolution depth.
pub fn valid_worldgen_regional_terrain_graph(catalog: &WorldgenCatalogV1) -> (r: bool)
    ensures
        r == graph_bounded(regional_terrain_edges(*catalog), MAX_WORLDGEN_REGIONAL_RESOLUTION_DEPTH as nat),
{
    let tables = &catalog.regional_terrain;
    let mut edges: Vec<Vec<usize>> = Vec::new();
    let mut t: usize = 0;
    while t < tables.len()
        invariant
            t <= tables@.len(),
            edges@.len() == t,
            forall|j: int| 0 <= j < t ==> (#[trigger] edges@[j])@ == terrain_choice_targets(*catalog, tables@[j].choices@),
        decreases tables.len() - t,
    {
        let choices = &tables[t].choices;
        let mut row: Vec<usize> = Vec::new();
        let mut k: usize = 0;
        while k < choices.len()
            invariant
                k <= choices@.len(),
                row@ == terrain_choice_targets(*catalog, choices@.subrange(0, k as int)),
            decreases choices.len() - k,
        {
            assert(choices@.subrange(0, k + 1).drop_last() =~= choices@.subrange(0, k as int));
            let index = choices[k].prototype_index as usize;
            if index < catalog.terrain_prototypes.len() {
                match find_last_terrain_table(catalog, catalog.terrain_prototypes[index].terrain_id.as_str()) {
                    Some(target) => row.push(target),
                    None => {},
                }
            }
            assert(row@ =~= terrain_choice_targets(*catalog, choices@.subrange(0, k + 1)));
            k = k + 1;
        }
        assert(choices@.subrange(0, k as int) =~= choices@);
        edges.push(row);
        t = t + 1;
    }
    assert(adjacency(edges@) =~= regional_terrain_edges(*catalog));
    bounded_graph_is_valid(&edges, MAX_WORLDGEN_REGIONAL_RESOLUTION_DEPTH)
}

pub open spec fn last_furniture_table(tables: Seq<WorldgenRegionalFurnitureTableV1>, id: Seq<char>, k: int) -> Option<int>
    decreases k,
{
    if k <= 0 || k > tables.len() {
        None
    } else if tables[k - 1].regional_id@ == id {
        Some(k - 1)
    } else {
        last_furniture_table(tables, id, k - 1)
    }
}

pub open spec fn furniture_choice_target(catalog: WorldgenCatalogV1, choice: WorldgenWeightedFurniturePrototypeV1) -> Option<int> {
    match choice.target {
        WorldgenFurniturePrototypeTargetV1::Prototype(index) => if index < catalog.furniture_prototypes@.len() {
            let id = catalog.furniture_prototypes@[index as int].furniture_id@;
            last_furniture_table(catalog.regional_furniture@, id, catalog.regional_furniture@.len() as int)
        } else {
            None
        },
        WorldgenFurniturePrototypeTargetV1::Empty => None,
    }
}

pub open spec fn furniture_choice_targets(catalog: WorldgenCatalogV1, choices: Seq<WorldgenWeightedFurniturePrototypeV1>) -> Seq<usize>
    decreases choices.len(),
{
    if choices.len() == 0 {
        Seq::empty()
    } else {
        furniture_choice_targets(catalog, choices.drop_last()) + opt_edge(furniture_choice_target(catalog, choices.last()))
    }
}

pub open spec fn regional_furniture_edges(catalog: WorldgenCatalogV1) -> Seq<Seq<usize>> {
    Seq::new(catalog.regional_furniture@.len(), |t: int| furniture_choice_targets(catalog, catalog.regional_furniture@[t].choices@))
}

fn find_last_furniture_table(catalog: &WorldgenCatalogV1, id: &str) -> (r: Option<usize>)
    ensures
        match last_furniture_table(catalog.regional_furniture@, id@, catalog.regional_furniture@.len() as int) {
            Some(t) => r == Some(t as usize),
            None => r is None,
        },
{
    let mut k: usize = catalog.regional_furniture.len();
    while k > 0
        invariant
            k <= catalog.regional_furniture@.len(),
            last_furniture_table(catalog.regional_furniture@, id@, catalog.regional_furniture@.len() as int)
                == last_furniture_table(catalog.regional_furniture@, id@, k as int),
        decreases k,
    {
        if str_eq(catalog.regional_furniture[k - 1].regional_id.as_str(), id) {
            return Some(k - 1);
        }
        k = k - 1;
    }
    None
}

pub fn valid_worldgen_regional_furniture_graph(catalog: &WorldgenCatalogV1) -> (r: bool)
    ensures
        r == graph_bounded(regional_furniture_edges(*catalog), MAX_WORLDGEN_REGIONAL_RESOLUTION_DEPTH as nat),
{
    let tables = &catalog.regional_furniture;
    let mut edges: Vec<Vec<usize>> = Vec::new();
    let mut t: usize = 0;
    while t < tables.len()
        invariant
            t <= tables@.len(),
            edges@.len() == t,
            forall|j: int| 0 <= j < t ==> (#[trigger] edges@[j])@ == furniture_choice_targets(*catalog, tables@[j].choices@),
        decreases tables.len() - t,
    {
        let choices = &tables[t].choices;
        let mut row: Vec<usize> = Vec::new();
        let mut k: usize = 0;
        while k < choices.len()
            invariant
                k <= choices@.len(),
                row@ == furniture_choice_targets(*catalog, choices@.subrange(0, k as int)),
            decreases choices.len() - k,
        {
            assert(choices@.subrange(0, k + 1).drop_last() =~= choices@.subrange(0, k as int));
            match choices[k].target {
                WorldgenFurniturePrototypeTargetV1::Prototype(index) => {
                    if (index as usize) < catalog.furniture_prototypes.len() {
                        match find_last_furniture_table(catalog, catalog.furniture_prototypes[index as usize].furniture_id.as_str()) {
                            Some(target) => row.push(target),
                            None => {},
                        }
                    }
                },
                WorldgenFurniturePrototypeTargetV1::Empty => {},
            }
            assert(row@ =~= furniture_choice_targets(*catalog, choices@.subrange(0, k + 1)));
            k = k + 1;
        }
        assert(choices@.subrange(0, k as int) =~= choices@);
        edges.push(row);
        t = t + 1;
    }
    assert(adjacency(edges@) =~= regional_furniture_edges(*catalog));
    bounded_graph_is_valid(&edges, MAX_WORLDGEN_REGIONAL_RESOLUTION_DEPTH)
}

pub open spec fn last_generator(generators: Seq<WorldgenOmtGeneratorV1>, id: Seq<char>, k: int) -> Option<int>
    decreases k,
{
    if k <= 0 || k > generators.len() {
        None
    } else if generators[k - 1].omt_id@ == id {
        Some(k - 1)
    } else {
        last_generator(generators, id, k - 1)
    }
}

/// The generator a predecessor ID resolves to: it must name a concrete
/// overmap identity and a generator.
pub open spec fn predecessor_target(catalog: WorldgenCatalogV1, id: Seq<char>) -> Option<int> {
    if has_identity(catalog.overmap.identities@, id) {
        last_generator(catalog.omt_generators@, id, catalog.omt_generators@.len() as int)
    } else {
        None
    }
}

pub open spec fn predecessor_targets(catalog: WorldgenCatalogV1, templates: Seq<WorldgenTemplateV1>) -> Seq<usize>
    decreases templates.len(),
{
    if templates.len() == 0 {
        Seq::empty()
    } else {
        predecessor_targets(catalog, templates.drop_last()) + match templates.last().predecessor_id {
            Some(id) => opt_edge(predecessor_target(catalog, id@)),
            None => Seq::empty(),
        }
    }
}

pub open spec fn predecessor_resolves(catalog: WorldgenCatalogV1, template: WorldgenTemplateV1) -> bool {
    match template.predecessor_id {
        Some(id) => predecessor_target(catalog, id@) is Some,
        None => true,
    }
}

pub open spec fn predecessors_resolve(catalog: WorldgenCatalogV1) -> bool {
    forall|g: int, t: int| 0 <= g < catalog.omt_generators@.len() && 0 <= t < catalog.omt_generators@[g].templates@.len()
        ==> predecessor_resolves(catalog, #[trigger] catalog.omt_generators@[g].templates@[t])
}

pub open spec fn predecessor_edges(catalog: WorldgenCatalogV1) -> Seq<Seq<usize>> {
    Seq::new(catalog.omt_generators@.len(), |g: int| predecessor_targets(catalog, catalog.omt_generators@[g].templates@))
}

/// Every predecessor resolves, and predecessor chains are acyclic within
/// the nesting depth.
pub open spec fn predecessor_graph_ok(catalog: WorldgenCatalogV1) -> bool {
    predecessors_resolve(catalog) && graph_bounded(predecessor_edges(catalog), MAX_WORLDGEN_NESTED_DEPTH as nat)
}

fn find_last_generator(catalog: &WorldgenCatalogV1, id: &str) -> (r: Option<usize>)
    ensures
        match last_generator(catalog.omt_generators@, id@, catalog.omt_generators@.len() as int) {
            Some(t) => r == Some(t as usize),
            None => r is None,
        },
{
    let mut k: usize = catalog.omt_generators.len();
    while k > 0
        invariant
            k <= catalog.omt_generators@.len(),
            last_generator(catalog.omt_generators@, id@, catalog.omt_generators@.len() as int)
                == last_generator(catalog.omt_generators@, id@, k as int),
        decreases k,
    {
        if str_eq(catalog.omt_generators[k - 1].omt_id.as_str(), id) {
            return Some(k - 1);
        }
        k = k - 1;
    }
    None
}

pub fn valid_worldgen_predecessor_graph(catalog: &WorldgenCatalogV1) -> (r: bool)
    ensures
        r == predecessor_graph_ok(*catalog),
{
    let generators = &catalog.omt_generators;
    let mut edges: Vec<Vec<usize>> = Vec::new();
    let mut g: usize = 0;
    while g < generators.len()
        invariant
            g <= generators@.len(),
            edges@.len() == g,
            forall|j: int| 0 <= j < g ==> (#[trigger] edges@[j])@ == predecessor_targets(*catalog, generators@[j].templates@),
            forall|j: int, t: int| 0 <= j < g && 0 <= t < generators@[j].templates@.len()
                ==> predecessor_resolves(*catalog, #[trigger] generators@[j].templates@[t]),
        decreases generators.len() - g,
    {
        let templates = &generators[g].templates;
        let mut row: Vec<usize> = Vec::new();
        let mut k: usize = 0;
        while k < templates.len()
            invariant
                k <= templates@.len(),
                row@ == predecessor_targets(*catalog, templates@.subrange(0, k as int)),
                forall|t: int| 0 <= t < k ==> predecessor_resolves(*catalog, #[trigger] templates@[t]),
            decreases templates.len() - k,
        {
            assert(templates@.subrange(0, k + 1).drop_last() =~= templates@.subrange(0, k as int));
            match &templates[k].predecessor_id {
                Some(id) => {
                    if !identity_exists(&catalog.overmap.identities, id.as_str()) {
                        return false;
                    }
                    match find_last_generator(catalog, id.as_str()) {
                        Some(target) => row.push(target),
                        None => return false,
                    }
                },
                None => {},
            }
            assert(row@ =~= predecessor_targets(*catalog, templates@.subrange(0, k + 1)));
            k = k + 1;
        }
        assert(templates@.subrange(0, k as int) =~= templates@);
        edges.push(row);
        g = g + 1;
    }
    assert(adjacency(edges@) =~= predecessor_edges(*catalog));
    bounded_graph_is_valid(&edges, MAX_WORLDGEN_NESTED_DEPTH)
}

pub open spec fn last_nested(generator: WorldgenOmtGeneratorV1, id: Seq<char>, k: int) -> Option<int>
    decreases k,
{
    if k <= 0 || k > generator.nested_generators@.len() {
        None
    } else if generator.nested_generators@[k - 1].nested_id@ == id {
        Some(k - 1)
    } else {
        last_nested(generator, id, k - 1)
    }
}

pub open spec fn nested_target(generator: WorldgenOmtGeneratorV1, id: Seq<char>) -> Option<int> {
    last_nested(generator, id, generator.nested_generators@.len() as int)
}

/// `null` is the explicit no-op branch and names no generator.
pub open spec fn choice_targets(generator: WorldgenOmtGeneratorV1, choices: Seq<WorldgenNestedChoiceV1>) -> Seq<usize>
    decreases choices.len(),
{
    if choices.len() == 0 {
        Seq::empty()
    } else {
        choice_targets(generator, choices.drop_last()) + if choices.last().nested_id@ == "null"@ {
            Seq::empty()
        } else {
            opt_edge(nested_target(generator, choices.last().nested_id@))
        }
    }
}

pub open spec fn choices_resolve(generator: WorldgenOmtGeneratorV1, choices: Seq<WorldgenNestedChoiceV1>) -> bool {
    forall|k: int| 0 <= k < choices.len() && (#[trigger] choices[k]).nested_id@ != "null"@ ==> nested_target(generator, choices[k].nested_id@) is Some
}

pub open spec fn placement_targets(generator: WorldgenOmtGeneratorV1, placements: Seq<WorldgenNestedPlacementV1>) -> Seq<usize>
    decreases placements.len(),
{
    if placements.len() == 0 {
        Seq::empty()
    } else {
        placement_targets(generator, placements.drop_last()) + choice_targets(generator, placements.last().chunks@)
            + choice_targets(generator, placements.last().else_chunks@)
    }
}

pub open spec fn placements_resolve(generator: WorldgenOmtGeneratorV1, placements: Seq<WorldgenNestedPlacementV1>) -> bool {
    forall|p: int| 0 <= p < placements.len() ==> choices_resolve(generator, (#[trigger] placements[p]).chunks@)
        && choices_resolve(generator, placements[p].else_chunks@)
}

pub open spec fn template_targets(generator: WorldgenOmtGeneratorV1, templates: Seq<WorldgenNestedTemplateV1>) -> Seq<usize>
    decreases templates.len(),
{
    if templates.len() == 0 {
        Seq::empty()
    } else {
        template_targets(generator, templates.drop_last()) + placement_targets(generator, templates.last().nested@)
    }
}

pub open spec fn nested_references_resolve(generator: WorldgenOmtGeneratorV1) -> bool {
    forall|n: int, t: int| 0 <= n < generator.nested_generators@.len() && 0 <= t < generator.nested_generators@[n].templates@.len()
        ==> placements_resolve(generator, (#[trigger] generator.nested_generators@[n].templates@[t]).nested@)
}

pub open spec fn nested_edges(generator: WorldgenOmtGeneratorV1) -> Seq<Seq<usize>> {
    Seq::new(generator.nested_generators@.len(), |n: int| template_targets(generator, generator.nested_generators@[n].templates@))
}

/// Every nested reference names a nested generator of this root, and nested
/// chains are acyclic within the nesting depth.
pub open spec fn nested_graph_ok(generator: WorldgenOmtGeneratorV1) -> bool {
    nested_references_resolve(generator) && graph_bounded(nested_edges(generator), MAX_WORLDGEN_NESTED_DEPTH as nat)
}

fn find_last_nested(generator: &WorldgenOmtGeneratorV1, id: &str) -> (r: Option<usize>)
    ensures
        match nested_target(*generator, id@) {
            Some(t) => r == Some(t as usize),
            None => r is None,
        },
{
    let mut k: usize = generator.nested_generators.len();
    while k > 0
        invariant
            k <= generator.nested_generators@.len(),
            nested_target(*generator, id@) == last_nested(*generator, id@, k as int),
        decreases k,
    {
        if str_eq(generator.nested_generators[k - 1].nested_id.as_str(), id) {
            return Some(k - 1);
        }
        k = k - 1;
    }
    None
}

fn push_choice_targets(row: &mut Vec<usize>, generator: &WorldgenOmtGeneratorV1, choices: &Vec<WorldgenNestedChoiceV1>) -> (r: bool)
    ensures
        r == choices_resolve(*generator, choices@),
        r ==> final(row)@ == old(row)@ + choice_targets(*generator, choices@),
{
    let ghost start = row@;
    let mut k: usize = 0;
    while k < choices.len()
        invariant
            k <= choices@.len(),
            row@ == start + choice_targets(*generator, choices@.subrange(0, k as int)),
            forall|j: int| 0 <= j < k && (#[trigger] choices@[j]).nested_id@ != "null"@ ==> nested_target(*generator, choices@[j].nested_id@) is Some,
        decreases choices.len() - k,
    {
        assert(choices@.subrange(0, k + 1).drop_last() =~= choices@.subrange(0, k as int));
        let id = choices[k].nested_id.as_str();
        if !str_eq(id, "null") {
            match find_last_nested(generator, id) {
                Some(target) => row.push(target),
                None => return false,
            }
        }
        assert(row@ =~= start + choice_targets(*generator, choices@.subrange(0, k + 1)));
        k = k + 1;
    }
    assert(choices@.subrange(0, k as int) =~= choices@);
    true
}

fn push_placement_targets(row: &mut Vec<usize>, generator: &WorldgenOmtGeneratorV1, placements: &Vec<WorldgenNestedPlacementV1>) -> (r: bool)
    ensures
        r == placements_resolve(*generator, placements@),
        r ==> final(row)@ == old(row)@ + placement_targets(*generator, placements@),
{
    let ghost start = row@;
    let mut p: usize = 0;
    while p < placements.len()
        invariant
            p <= placements@.len(),
            row@ == start + placement_targets(*generator, placements@.subrange(0, p as int)),
            forall|j: int| 0 <= j < p ==> choices_resolve(*generator, (#[trigger] placements@[j]).chunks@)
                && choices_resolve(*generator, placements@[j].else_chunks@),
        decreases placements.len() - p,
    {
        assert(placements@.subrange(0, p + 1).drop_last() =~= placements@.subrange(0, p as int));
        let ghost before = row@;
        if !push_choice_targets(row, generator, &placements[p].chunks) {
            return false;
        }
        if !push_choice_targets(row, generator, &placements[p].else_chunks) {
            return false;
        }
        assert(row@ =~= start + placement_targets(*generator, placements@.subrange(0, p + 1)));
        p = p + 1;
    }
    assert(placements@.subrange(0, p as int) =~= placements@);
    true
}

pub fn valid_worldgen_nested_graph(generator: &WorldgenOmtGeneratorV1) -> (r: bool)
    ensures
        r == nested_graph_ok(*generator),
{
    let nested = &generator.nested_generators;
    let mut edges: Vec<Vec<usize>> = Vec::new();
    let mut n: usize = 0;
    while n < nested.len()
        invariant
            n <= nested@.len(),
            edges@.len() == n,
            forall|j: int| 0 <= j < n ==> (#[trigger] edges@[j])@ == template_targets(*generator, nested@[j].templates@),
            forall|j: int, t: int| 0 <= j < n && 0 <= t < nested@[j].templates@.len()
                ==> placements_resolve(*generator, (#[trigger] nested@[j].templates@[t]).nested@),
        decreases nested.len() - n,
    {
        let templates = &nested[n].templates;
        let mut row: Vec<usize> = Vec::new();
        let mut t: usize = 0;
        while t < templates.len()
            invariant
                t <= templates@.len(),
                row@ == template_targets(*generator, templates@.subrange(0, t as int)),
                forall|j: int| 0 <= j < t ==> placements_resolve(*generator, (#[trigger] templates@[j]).nested@),
            decreases templates.len() - t,
        {
            assert(templates@.subrange(0, t + 1).drop_last() =~= templates@.subrange(0, t as int));
            if !push_placement_targets(&mut row, generator, &templates[t].nested) {
                return false;
            }
            t = t + 1;
        }
        assert(templates@.subrange(0, t as int) =~= templates@);
        edges.push(row);
        n = n + 1;
    }
    assert(adjacency(edges@) =~= nested_edges(*generator));
    bounded_graph_is_valid(&edges, MAX_WORLDGEN_NESTED_DEPTH)
}

} // verus!
