//! Catalog-wide totals of templates, placements, and weighted cell targets,
//! computed with a saturating cap just above each limit.

use vstd::prelude::*;

use crate::worldgen::{
    WorldgenCellV1, WorldgenNestedGeneratorV1, WorldgenNestedTemplateV1, WorldgenOmtGeneratorV1,
    WorldgenTemplateV1,
};

verus! {

/// `value`, or `limit + 1` once it exceeds `limit`.
pub open spec fn cap(value: int, limit: int) -> int {
    if value > limit { limit + 1 } else { value }
}

fn add_capped(total: usize, value: usize, limit: usize) -> (r: usize)
    requires
        total <= limit + 1,
        value <= limit + 1,
        limit < 0x1000_0000,
    ensures
        r == cap(total + value, limit as int),
{
    if (total as u64) + (value as u64) > limit as u64 { limit + 1 } else { total + value }
}

pub open spec fn lens_total<T>(layers: Seq<Vec<T>>) -> int
    decreases layers.len(),
{
    if layers.len() == 0 { 0 } else { lens_total(layers.drop_last()) + layers.last()@.len() }
}

pub open spec fn cell_targets(cell: WorldgenCellV1) -> int {
    lens_total(cell.terrain@) + lens_total(cell.furniture@)
}

pub open spec fn cells_targets(cells: Seq<WorldgenCellV1>) -> int
    decreases cells.len(),
{
    if cells.len() == 0 { 0 } else { cells_targets(cells.drop_last()) + cell_targets(cells.last()) }
}

pub open spec fn root_templates_cells(templates: Seq<WorldgenTemplateV1>) -> int
    decreases templates.len(),
{
    if templates.len() == 0 { 0 } else { root_templates_cells(templates.drop_last()) + cells_targets(templates.last().cells@) }
}

pub open spec fn nested_templates_cells(templates: Seq<WorldgenNestedTemplateV1>) -> int
    decreases templates.len(),
{
    if templates.len() == 0 { 0 } else { nested_templates_cells(templates.drop_last()) + cells_targets(templates.last().cells@) }
}

pub open spec fn nested_generators_cells(nested: Seq<WorldgenNestedGeneratorV1>) -> int
    decreases nested.len(),
{
    if nested.len() == 0 { 0 } else { nested_generators_cells(nested.drop_last()) + nested_templates_cells(nested.last().templates@) }
}

/// Weighted cell targets of every root and nested template of every generator.
pub open spec fn generators_cells(generators: Seq<WorldgenOmtGeneratorV1>) -> int
    decreases generators.len(),
{
    if generators.len() == 0 {
        0
    } else {
        generators_cells(generators.drop_last()) + root_templates_cells(generators.last().templates@)
            + nested_generators_cells(generators.last().nested_generators@)
    }
}

pub open spec fn root_template_placements(t: WorldgenTemplateV1) -> int {
    (t.nested@.len() + t.area_items@.len() + t.npc_placements@.len() + t.monster_placements@.len() + t.individual_monster_placements@.len()) as int
}

pub open spec fn nested_template_placements(t: WorldgenNestedTemplateV1) -> int {
    (t.nested@.len() + t.area_items@.len() + t.npc_placements@.len() + t.monster_placements@.len() + t.individual_monster_placements@.len()) as int
}

pub open spec fn root_templates_placements(templates: Seq<WorldgenTemplateV1>) -> int
    decreases templates.len(),
{
    if templates.len() == 0 { 0 } else { root_templates_placements(templates.drop_last()) + root_template_placements(templates.last()) }
}

pub open spec fn nested_templates_placements(templates: Seq<WorldgenNestedTemplateV1>) -> int
    decreases templates.len(),
{
    if templates.len() == 0 { 0 } else { nested_templates_placements(templates.drop_last()) + nested_template_placements(templates.last()) }
}

pub open spec fn nested_generators_placements(nested: Seq<WorldgenNestedGeneratorV1>) -> int
    decreases nested.len(),
{
    if nested.len() == 0 { 0 } else { nested_generators_placements(nested.drop_last()) + nested_templates_placements(nested.last().templates@) }
}

/// Placements of every root and nested template of every generator.
pub open spec fn generators_placements(generators: Seq<WorldgenOmtGeneratorV1>) -> int
    decreases generators.len(),
{
    if generators.len() == 0 {
        0
    } else {
        generators_placements(generators.drop_last()) + root_templates_placements(generators.last().templates@)
            + nested_generators_placements(generators.last().nested_generators@)
    }
}

pub open spec fn generators_root_templates(generators: Seq<WorldgenOmtGeneratorV1>) -> int
    decreases generators.len(),
{
    if generators.len() == 0 { 0 } else { generators_root_templates(generators.drop_last()) + generators.last().templates@.len() }
}

pub open spec fn nested_generators_templates(nested: Seq<WorldgenNestedGeneratorV1>) -> int
    decreases nested.len(),
{
    if nested.len() == 0 { 0 } else { nested_generators_templates(nested.drop_last()) + nested.last().templates@.len() }
}

pub open spec fn generators_nested_templates(generators: Seq<WorldgenOmtGeneratorV1>) -> int
    decreases generators.len(),
{
    if generators.len() == 0 {
        0
    } else {
        generators_nested_templates(generators.drop_last()) + nested_generators_templates(generators.last().nested_generators@)
    }
}

proof fn lemma_lens_nonneg<T>(layers: Seq<Vec<T>>)
    ensures
        lens_total(layers) >= 0,
    decreases layers.len(),
{
    if layers.len() > 0 {
        lemma_lens_nonneg(layers.drop_last());
    }
}

fn layers_total<T>(layers: &Vec<Vec<T>>, limit: usize) -> (r: usize)
    requires
        limit < 0x1000_0000,
    ensures
        r == cap(lens_total(layers@), limit as int),
{
    let mut total: usize = 0;
    let mut k: usize = 0;
    while k < layers.len()
        invariant
            k <= layers@.len(),
            limit < 0x1000_0000,
            total == cap(lens_total(layers@.subrange(0, k as int)), limit as int),
            lens_total(layers@.subrange(0, k as int)) >= 0,
        decreases layers.len() - k,
    {
        assert(layers@.subrange(0, k + 1).drop_last() =~= layers@.subrange(0, k as int));
        let n = layers[k].len();
        let piece = if n > limit { limit + 1 } else { n };
        total = add_capped(total, piece, limit);
        k = k + 1;
    }
    assert(layers@.subrange(0, k as int) =~= layers@);
    total
}

fn cells_total(cells: &Vec<WorldgenCellV1>, limit: usize) -> (r: usize)
    requires
        limit < 0x1000_0000,
    ensures
        r == cap(cells_targets(cells@), limit as int),
        cells_targets(cells@) >= 0,
{
    let mut total: usize = 0;
    let mut k: usize = 0;
    while k < cells.len()
        invariant
            k <= cells@.len(),
            limit < 0x1000_0000,
            total == cap(cells_targets(cells@.subrange(0, k as int)), limit as int),
            cells_targets(cells@.subrange(0, k as int)) >= 0,
        decreases cells.len() - k,
    {
        assert(cells@.subrange(0, k + 1).drop_last() =~= cells@.subrange(0, k as int));
        proof {
            lemma_lens_nonneg(cells@[k as int].terrain@);
            lemma_lens_nonneg(cells@[k as int].furniture@);
        }
        let terrain = layers_total(&cells[k].terrain, limit);
        let furniture = layers_total(&cells[k].furniture, limit);
        let piece = add_capped(terrain, furniture, limit);
        total = add_capped(total, piece, limit);
        k = k + 1;
    }
    assert(cells@.subrange(0, k as int) =~= cells@);
    total
}

fn count_capped(n: usize, limit: usize) -> (r: usize)
    ensures
        r == cap(n as int, limit as int),
{
    if n > limit { limit + 1 } else { n }
}

fn root_template_placement_count(t: &WorldgenTemplateV1, limit: usize) -> (r: usize)
    requires
        limit < 0x1000_0000,
    ensures
        r == cap(root_template_placements(*t), limit as int),
{
    let a = add_capped(count_capped(t.nested.len(), limit), count_capped(t.area_items.len(), limit), limit);
    let b = add_capped(a, count_capped(t.npc_placements.len(), limit), limit);
    let c = add_capped(b, count_capped(t.monster_placements.len(), limit), limit);
    add_capped(c, count_capped(t.individual_monster_placements.len(), limit), limit)
}

fn nested_template_placement_count(t: &WorldgenNestedTemplateV1, limit: usize) -> (r: usize)
    requires
        limit < 0x1000_0000,
    ensures
        r == cap(nested_template_placements(*t), limit as int),
{
    let a = add_capped(count_capped(t.nested.len(), limit), count_capped(t.area_items.len(), limit), limit);
    let b = add_capped(a, count_capped(t.npc_placements.len(), limit), limit);
    let c = add_capped(b, count_capped(t.monster_placements.len(), limit), limit);
    add_capped(c, count_capped(t.individual_monster_placements.len(), limit), limit)
}

/// The catalog-wide weighted cell targets, capped just above `limit`.
pub fn generators_cell_total(generators: &Vec<WorldgenOmtGeneratorV1>, limit: usize) -> (r: usize)
    requires
        limit < 0x1000_0000,
    ensures
        r == cap(generators_cells(generators@), limit as int),
{
    let mut total: usize = 0;
    let mut g: usize = 0;
    while g < generators.len()
        invariant
            g <= generators@.len(),
            limit < 0x1000_0000,
            total == cap(generators_cells(generators@.subrange(0, g as int)), limit as int),
            generators_cells(generators@.subrange(0, g as int)) >= 0,
        decreases generators.len() - g,
    {
        assert(generators@.subrange(0, g + 1).drop_last() =~= generators@.subrange(0, g as int));
        let templates = &generators[g].templates;
        let mut root: usize = 0;
        let mut t: usize = 0;
        while t < templates.len()
            invariant
                t <= templates@.len(),
                root == cap(root_templates_cells(templates@.subrange(0, t as int)), limit as int),
                root_templates_cells(templates@.subrange(0, t as int)) >= 0,
            decreases templates.len() - t,
        {
            assert(templates@.subrange(0, t + 1).drop_last() =~= templates@.subrange(0, t as int));
            let piece = cells_total(&templates[t].cells, limit);
            root = add_capped(root, piece, limit);
            t = t + 1;
        }
        assert(templates@.subrange(0, t as int) =~= templates@);
        let nested = &generators[g].nested_generators;
        let mut inner: usize = 0;
        let mut n: usize = 0;
        while n < nested.len()
            invariant
                n <= nested@.len(),
                inner == cap(nested_generators_cells(nested@.subrange(0, n as int)), limit as int),
                nested_generators_cells(nested@.subrange(0, n as int)) >= 0,
            decreases nested.len() - n,
        {
            assert(nested@.subrange(0, n + 1).drop_last() =~= nested@.subrange(0, n as int));
            let nested_templates = &nested[n].templates;
            let mut sub: usize = 0;
            let mut t: usize = 0;
            while t < nested_templates.len()
                invariant
                    t <= nested_templates@.len(),
                    sub == cap(nested_templates_cells(nested_templates@.subrange(0, t as int)), limit as int),
                    nested_templates_cells(nested_templates@.subrange(0, t as int)) >= 0,
                decreases nested_templates.len() - t,
            {
                assert(nested_templates@.subrange(0, t + 1).drop_last() =~= nested_templates@.subrange(0, t as int));
                let piece = cells_total(&nested_templates[t].cells, limit);
                sub = add_capped(sub, piece, limit);
                t = t + 1;
            }
            assert(nested_templates@.subrange(0, t as int) =~= nested_templates@);
            inner = add_capped(inner, sub, limit);
            n = n + 1;
        }
        assert(nested@.subrange(0, n as int) =~= nested@);
        let piece = add_capped(root, inner, limit);
        total = add_capped(total, piece, limit);
        g = g + 1;
    }
    assert(generators@.subrange(0, g as int) =~= generators@);
    total
}

/// The catalog-wide placements, capped just above `limit`.
pub fn generators_placement_total(generators: &Vec<WorldgenOmtGeneratorV1>, limit: usize) -> (r: usize)
    requires
        limit < 0x1000_0000,
    ensures
        r == cap(generators_placements(generators@), limit as int),
{
    let mut total: usize = 0;
    let mut g: usize = 0;
    while g < generators.len()
        invariant
            g <= generators@.len(),
            limit < 0x1000_0000,
            total == cap(generators_placements(generators@.subrange(0, g as int)), limit as int),
            generators_placements(generators@.subrange(0, g as int)) >= 0,
        decreases generators.len() - g,
    {
        assert(generators@.subrange(0, g + 1).drop_last() =~= generators@.subrange(0, g as int));
        let templates = &generators[g].templates;
        let mut root: usize = 0;
        let mut t: usize = 0;
        while t < templates.len()
            invariant
                t <= templates@.len(),
                root == cap(root_templates_placements(templates@.subrange(0, t as int)), limit as int),
                root_templates_placements(templates@.subrange(0, t as int)) >= 0,
            decreases templates.len() - t,
        {
            assert(templates@.subrange(0, t + 1).drop_last() =~= templates@.subrange(0, t as int));
            let piece = root_template_placement_count(&templates[t], limit);
            root = add_capped(root, piece, limit);
            t = t + 1;
        }
        assert(templates@.subrange(0, t as int) =~= templates@);
        let nested = &generators[g].nested_generators;
        let mut inner: usize = 0;
        let mut n: usize = 0;
        while n < nested.len()
            invariant
                n <= nested@.len(),
                inner == cap(nested_generators_placements(nested@.subrange(0, n as int)), limit as int),
                nested_generators_placements(nested@.subrange(0, n as int)) >= 0,
            decreases nested.len() - n,
        {
            assert(nested@.subrange(0, n + 1).drop_last() =~= nested@.subrange(0, n as int));
            let nested_templates = &nested[n].templates;
            let mut sub: usize = 0;
            let mut t: usize = 0;
            while t < nested_templates.len()
                invariant
                    t <= nested_templates@.len(),
                    sub == cap(nested_templates_placements(nested_templates@.subrange(0, t as int)), limit as int),
                    nested_templates_placements(nested_templates@.subrange(0, t as int)) >= 0,
                decreases nested_templates.len() - t,
            {
                assert(nested_templates@.subrange(0, t + 1).drop_last() =~= nested_templates@.subrange(0, t as int));
                let piece = nested_template_placement_count(&nested_templates[t], limit);
                sub = add_capped(sub, piece, limit);
                t = t + 1;
            }
            assert(nested_templates@.subrange(0, t as int) =~= nested_templates@);
            inner = add_capped(inner, sub, limit);
            n = n + 1;
        }
        assert(nested@.subrange(0, n as int) =~= nested@);
        let piece = add_capped(root, inner, limit);
        total = add_capped(total, piece, limit);
        g = g + 1;
    }
    assert(generators@.subrange(0, g as int) =~= generators@);
    total
}

/// Root and nested template totals, each capped just above its limit.
pub fn generators_template_totals(generators: &Vec<WorldgenOmtGeneratorV1>, root_limit: usize, nested_limit: usize) -> (r: (usize, usize))
    requires
        root_limit < 0x1000_0000,
        nested_limit < 0x1000_0000,
    ensures
        r.0 == cap(generators_root_templates(generators@), root_limit as int),
        r.1 == cap(generators_nested_templates(generators@), nested_limit as int),
{
    let mut root: usize = 0;
    let mut nested_total: usize = 0;
    let mut g: usize = 0;
    while g < generators.len()
        invariant
            g <= generators@.len(),
            root_limit < 0x1000_0000,
            nested_limit < 0x1000_0000,
            root == cap(generators_root_templates(generators@.subrange(0, g as int)), root_limit as int),
            generators_root_templates(generators@.subrange(0, g as int)) >= 0,
            nested_total == cap(generators_nested_templates(generators@.subrange(0, g as int)), nested_limit as int),
            generators_nested_templates(generators@.subrange(0, g as int)) >= 0,
        decreases generators.len() - g,
    {
        assert(generators@.subrange(0, g + 1).drop_last() =~= generators@.subrange(0, g as int));
        root = add_capped(root, count_capped(generators[g].templates.len(), root_limit), root_limit);
        let nested = &generators[g].nested_generators;
        let mut inner: usize = 0;
        let mut n: usize = 0;
        while n < nested.len()
            invariant
                n <= nested@.len(),
                inner == cap(nested_generators_templates(nested@.subrange(0, n as int)), nested_limit as int),
                nested_generators_templates(nested@.subrange(0, n as int)) >= 0,
            decreases nested.len() - n,
        {
            assert(nested@.subrange(0, n + 1).drop_last() =~= nested@.subrange(0, n as int));
            inner = add_capped(inner, count_capped(nested[n].templates.len(), nested_limit), nested_limit);
            n = n + 1;
        }
        assert(nested@.subrange(0, n as int) =~= nested@);
        nested_total = add_capped(nested_total, inner, nested_limit);
        g = g + 1;
    }
    assert(generators@.subrange(0, g as int) =~= generators@);
    (root, nested_total)
}

} // verus!
