//! What a successful validation of a content catalog guarantees.

use vstd::prelude::*;
use vstd::utf8::encode_utf8;

use crate::description::{all_categories, expand_len, expansion_is_valid, max_bytes, reach_text};
use crate::item_group_catalog::{
    catalog_entry_total, catalog_node_total, catalog_ok, inline_entry_total, inline_node_total,
    lemma_entry_total_nonnegative, source_eval, sources_ok,
};
use crate::item_group_closure::{graph_names, lemma_last_group_range, named_closure_exact, reachable_groups, source_names};
use crate::item_group_eval::{
    contents_eval, contents_fuel, empty_contents, entries_eval, full_group, group_eval, group_index,
    lemma_graph_bounds, lemma_group_index, node_eval, path_fuel, target_eval,
};
use crate::item_group_metrics::{accumulate, entry_outcome, ContentsSummary, ItemGroupMetrics};
use crate::item_group_shape::node_index;
use crate::item_group_types::{ItemGroupContentsSourceV1, ItemGroupEntryV1, ItemGroupGraphV1, ItemGroupKindV1, ItemGroupTargetV1};
use crate::item_group_types::{
    ItemGroupDefinitionV1, ItemGroupSourceV1, MAX_ITEM_GROUP_DEFINITIONS, MAX_ITEM_GROUP_ENTRIES, MAX_ITEM_GROUP_NODES,
    MAX_ITEM_GROUP_OUTPUTS,
};
use crate::item_groups::ItemDescriptionExpansionV1;
use crate::bash::{FurnitureBashTypeV1, TerrainBashTypeV1};
use crate::weights::{positive_weights_fit, weights_of};
use crate::world_item_groups::world_sources;
use crate::worldgen_catalog::catalog_shape_ok;
use crate::worldgen_references::worldgen_catalog_ok;
use crate::worldgen::WorldgenCatalogV1;
use crate::text::{has_control, has_disallowed_control, lemma_text_lt_order, text_lt, utf8_len};

verus! {

/// Adjacent names in increasing order are pairwise in increasing order.
proof fn lemma_sorted_pairwise(names: Seq<Seq<char>>, i: int, j: int)
    requires
        forall|k: int| 0 <= k < names.len() - 1 ==> text_lt(#[trigger] names[k], names[k + 1]),
        0 <= i < j < names.len(),
    ensures
        text_lt(names[i], names[j]),
    decreases j - i,
{
    if j > i + 1 {
        lemma_sorted_pairwise(names, i, j - 1);
        lemma_text_lt_order(names[i], names[j - 1], names[j]);
    }
}

/// A valid item-group catalog holds at most 512 definitions whose
/// identifiers strictly increase, at most 2048 nodes and 8192 entries in
/// all, and every group evaluates (each name it uses is defined, no group
/// reaches itself, paths stay within the depth limit) to at most 4096
/// outputs.
pub proof fn law_valid_item_group_catalog_bounds(defs: Seq<ItemGroupDefinitionV1>)
    requires
        catalog_ok(defs),
    ensures
        defs.len() <= MAX_ITEM_GROUP_DEFINITIONS,
        forall|i: int, j: int| 0 <= i < j < defs.len() ==> text_lt(#[trigger] defs[i].group_id@, #[trigger] defs[j].group_id@),
        catalog_node_total(defs) <= MAX_ITEM_GROUP_NODES,
        catalog_entry_total(defs) <= MAX_ITEM_GROUP_ENTRIES,
        forall|g: int|
            0 <= g < defs.len() ==> (#[trigger] full_group(defs, g)) is Some && full_group(defs, g).unwrap().outputs
                <= MAX_ITEM_GROUP_OUTPUTS,
{
    let names = defs.map_values(|d: ItemGroupDefinitionV1| d.group_id@);
    assert forall|i: int, j: int| 0 <= i < j < defs.len() implies text_lt(
        #[trigger] defs[i].group_id@,
        #[trigger] defs[j].group_id@,
    ) by {
        assert forall|k: int| 0 <= k < names.len() - 1 implies text_lt(#[trigger] names[k], names[k + 1]) by {
            assert(text_lt(defs[k].group_id@, defs[k + 1].group_id@));
        }
        lemma_sorted_pairwise(names, i, j);
    }
    assert forall|g: int| 0 <= g < defs.len() implies (#[trigger] full_group(defs, g)) is Some && full_group(
        defs,
        g,
    ).unwrap().outputs <= MAX_ITEM_GROUP_OUTPUTS by {
        lemma_graph_bounds(defs, defs[g].graph, contents_fuel(), path_fuel());
    }
}

/// Valid sources rest on a valid catalog, name only defined groups, and
/// share the node and entry budget with it.
pub proof fn law_valid_sources_name_defined_groups(defs: Seq<ItemGroupDefinitionV1>, sources: Seq<ItemGroupSourceV1>)
    requires
        sources_ok(defs, sources),
    ensures
        catalog_ok(defs),
        forall|i: int|
            0 <= i < sources.len() && (#[trigger] sources[i]) is Group ==> exists|j: int|
                0 <= j < defs.len() && (#[trigger] defs[j]).group_id@ == sources[i]->Group_0@,
        catalog_node_total(defs) + inline_node_total(sources) <= MAX_ITEM_GROUP_NODES,
        catalog_entry_total(defs) + inline_entry_total(sources) <= MAX_ITEM_GROUP_ENTRIES,
{
    assert forall|i: int| 0 <= i < sources.len() && (#[trigger] sources[i]) is Group implies exists|j: int|
        0 <= j < defs.len() && (#[trigger] defs[j]).group_id@ == sources[i]->Group_0@ by {
        assert(source_eval(defs, sources[i]) is Some);
        lemma_group_index(defs, sources[i]->Group_0@);
    }
}

proof fn lemma_inline_totals_split(s: Seq<ItemGroupSourceV1>, t: Seq<ItemGroupSourceV1>)
    ensures
        inline_node_total(s + t) == inline_node_total(s) + inline_node_total(t),
        inline_entry_total(s + t) == inline_entry_total(s) + inline_entry_total(t),
        inline_node_total(t) >= 0,
        inline_entry_total(t) >= 0,
    decreases t.len(),
{
    if t.len() == 0 {
        assert(s + t =~= s);
    } else {
        assert((s + t).drop_last() =~= s + t.drop_last());
        lemma_inline_totals_split(s, t.drop_last());
        if let ItemGroupSourceV1::Inline(graph) = t.last() {
            lemma_entry_total_nonnegative(graph.nodes@);
        }
    }
}

/// Removing trailing sources never makes a valid list invalid: if the
/// sources `s` followed by `t` are valid, so are the sources `s` alone.
pub proof fn law_valid_sources_prefix(
    defs: Seq<ItemGroupDefinitionV1>,
    s: Seq<ItemGroupSourceV1>,
    t: Seq<ItemGroupSourceV1>,
)
    requires
        sources_ok(defs, s + t),
    ensures
        sources_ok(defs, s),
{
    lemma_inline_totals_split(s, t);
    assert forall|i: int| 0 <= i < s.len() implies (#[trigger] source_eval(defs, s[i])) is Some by {
        assert((s + t)[i] == s[i]);
    }
}

/// A valid description plan has bounded texts free of disallowed control
/// characters, category tags of the form `<...>` in strictly increasing
/// order, an expansion that terminates within the depth limit with at most
/// 16384 bytes, and every category reachable from the template.
pub proof fn law_valid_description_bounds(expansion: ItemDescriptionExpansionV1)
    requires
        expansion_is_valid(expansion),
    ensures
        ({
            let cats = expansion.categories@;
            &&& utf8_len(expansion.template@) <= max_bytes() && !has_disallowed_control(expansion.template@)
            &&& forall|c: int, k: int|
                0 <= c < cats.len() && 0 <= k < cats[c].choices@.len() ==> utf8_len(
                    (#[trigger] cats[c].choices@[k]).text@,
                ) <= max_bytes() && !has_disallowed_control(cats[c].choices@[k].text@)
            &&& forall|c: int|
                0 <= c < cats.len() ==> {
                    let name = (#[trigger] cats[c]).category@;
                    name.len() > 0 && name[0] == '<' && name[name.len() - 1] == '>' && !has_control(name)
                }
            &&& forall|i: int, j: int|
                0 <= i < j < cats.len() ==> text_lt(#[trigger] cats[i].category@, #[trigger] cats[j].category@)
            &&& expand_len(cats, encode_utf8(expansion.template@), 0) is Some
            &&& expand_len(cats, encode_utf8(expansion.template@), 0).unwrap() <= max_bytes()
            &&& forall|c: int| 0 <= c < cats.len() ==> #[trigger] reach_text(cats, encode_utf8(expansion.template@), 0).contains(c)
        }),
{
    let cats = expansion.categories@;
    let names = cats.map_values(|c: crate::item_groups::ItemDescriptionSnippetCategoryV1| c.category@);
    assert forall|i: int, j: int| 0 <= i < j < cats.len() implies text_lt(
        #[trigger] cats[i].category@,
        #[trigger] cats[j].category@,
    ) by {
        assert forall|k: int| 0 <= k < names.len() - 1 implies text_lt(#[trigger] names[k], names[k + 1]) by {
            assert(text_lt(cats[k].category@, cats[k + 1].category@));
        }
        lemma_sorted_pairwise(names, i, j);
    }
    assert forall|c: int| 0 <= c < cats.len() implies #[trigger] reach_text(
        cats,
        encode_utf8(expansion.template@),
        0,
    ).contains(c) by {
        assert(all_categories(cats.len() as int).contains(c));
    }
}

/// When the world's item groups are valid, every group that a bash drop or
/// a worldgen placement names is defined, every group a reached definition
/// names is defined, and every definition is reached from those sources: the
/// catalog is exactly the closure of what the world uses.
pub proof fn law_valid_world_item_groups_are_the_closure(
    defs: Seq<ItemGroupDefinitionV1>,
    terrain: Seq<TerrainBashTypeV1>,
    furniture: Seq<FurnitureBashTypeV1>,
    worldgen: Option<WorldgenCatalogV1>,
)
    requires
        sources_ok(defs, world_sources(terrain, furniture, worldgen)),
        named_closure_exact(defs, world_sources(terrain, furniture, worldgen)),
    ensures
        ({
            let sources = world_sources(terrain, furniture, worldgen);
            &&& forall|s: int, id: Seq<char>|
                0 <= s < sources.len() && #[trigger] source_names(sources[s], id) ==> exists|j: int|
                    0 <= j < defs.len() && (#[trigger] defs[j]).group_id@ == id
            &&& forall|i: int, id: Seq<char>|
                0 <= i < defs.len() && reachable_groups(defs, sources).contains(i) && #[trigger] graph_names(
                    defs[i].graph,
                    id,
                ) ==> exists|j: int| 0 <= j < defs.len() && (#[trigger] defs[j]).group_id@ == id
            &&& forall|i: int| 0 <= i < defs.len() ==> #[trigger] reachable_groups(defs, sources).contains(i)
        }),
{
    let sources = world_sources(terrain, furniture, worldgen);
    assert forall|s: int, id: Seq<char>|
        0 <= s < sources.len() && #[trigger] source_names(sources[s], id) implies exists|j: int|
        0 <= j < defs.len() && (#[trigger] defs[j]).group_id@ == id by {
        lemma_last_group_range(defs, id);
    }
    assert forall|i: int, id: Seq<char>|
        0 <= i < defs.len() && reachable_groups(defs, sources).contains(i) && #[trigger] graph_names(
            defs[i].graph,
            id,
        ) implies exists|j: int| 0 <= j < defs.len() && (#[trigger] defs[j]).group_id@ == id by {
        lemma_last_group_range(defs, id);
    }
}

/// Every weighted choice list of a valid worldgen catalog has positive
/// weights whose total fits in `u32`: the regional terrain and furniture
/// tables, each generator's and nested generator's templates, and every
/// terrain and furniture layer of every root and nested template cell.
pub proof fn law_valid_worldgen_weights_fit(catalog: WorldgenCatalogV1)
    requires
        catalog_shape_ok(catalog),
    ensures
        forall|i: int|
            0 <= i < catalog.regional_terrain@.len() ==> positive_weights_fit(
                weights_of((#[trigger] catalog.regional_terrain@[i]).choices@),
            ),
        forall|i: int|
            0 <= i < catalog.regional_furniture@.len() ==> positive_weights_fit(
                weights_of((#[trigger] catalog.regional_furniture@[i]).choices@),
            ),
        forall|g: int|
            0 <= g < catalog.omt_generators@.len() ==> positive_weights_fit(
                weights_of((#[trigger] catalog.omt_generators@[g]).templates@),
            ),
        forall|g: int, n: int|
            0 <= g < catalog.omt_generators@.len() && 0 <= n < catalog.omt_generators@[g].nested_generators@.len()
                ==> positive_weights_fit(
                weights_of((#[trigger] catalog.omt_generators@[g].nested_generators@[n]).templates@),
            ),
        forall|g: int, t: int, c: int, l: int|
            0 <= g < catalog.omt_generators@.len() && 0 <= t < catalog.omt_generators@[g].templates@.len() && 0 <= c
                < catalog.omt_generators@[g].templates@[t].cells@.len() && 0 <= l
                < catalog.omt_generators@[g].templates@[t].cells@[c].terrain@.len() ==> positive_weights_fit(
                weights_of((#[trigger] catalog.omt_generators@[g].templates@[t].cells@[c].terrain@[l])@),
            ),
        forall|g: int, t: int, c: int, l: int|
            0 <= g < catalog.omt_generators@.len() && 0 <= t < catalog.omt_generators@[g].templates@.len() && 0 <= c
                < catalog.omt_generators@[g].templates@[t].cells@.len() && 0 <= l
                < catalog.omt_generators@[g].templates@[t].cells@[c].furniture@.len() ==> positive_weights_fit(
                weights_of((#[trigger] catalog.omt_generators@[g].templates@[t].cells@[c].furniture@[l])@),
            ),
        forall|g: int, n: int, t: int, c: int, l: int|
            0 <= g < catalog.omt_generators@.len() && 0 <= n < catalog.omt_generators@[g].nested_generators@.len()
                && 0 <= t < catalog.omt_generators@[g].nested_generators@[n].templates@.len() && 0 <= c
                < catalog.omt_generators@[g].nested_generators@[n].templates@[t].cells@.len() && 0 <= l
                < catalog.omt_generators@[g].nested_generators@[n].templates@[t].cells@[c].terrain@.len()
                ==> positive_weights_fit(
                weights_of(
                    (#[trigger] catalog.omt_generators@[g].nested_generators@[n].templates@[t].cells@[c].terrain@[l])@,
                ),
            ),
        forall|g: int, n: int, t: int, c: int, l: int|
            0 <= g < catalog.omt_generators@.len() && 0 <= n < catalog.omt_generators@[g].nested_generators@.len()
                && 0 <= t < catalog.omt_generators@[g].nested_generators@[n].templates@.len() && 0 <= c
                < catalog.omt_generators@[g].nested_generators@[n].templates@[t].cells@.len() && 0 <= l
                < catalog.omt_generators@[g].nested_generators@[n].templates@[t].cells@[c].furniture@.len()
                ==> positive_weights_fit(
                weights_of(
                    (#[trigger] catalog.omt_generators@[g].nested_generators@[n].templates@[t].cells@[c].furniture@[l])@,
                ),
            ),
{
    let gens = catalog.omt_generators@;
    assert forall|g: int, t: int, c: int, l: int|
        0 <= g < gens.len() && 0 <= t < gens[g].templates@.len() && 0 <= c < gens[g].templates@[t].cells@.len()
            && 0 <= l < gens[g].templates@[t].cells@[c].terrain@.len() implies positive_weights_fit(
        weights_of((#[trigger] gens[g].templates@[t].cells@[c].terrain@[l])@),
    ) by {
        assert(crate::worldgen_catalog::generator_ok(gens[g], catalog));
        assert(crate::worldgen_catalog::root_template_ok(gens[g].templates@[t], catalog));
        assert(crate::worldgen_parts::cell_shape_ok(gens[g].templates@[t].cells@[c], catalog));
    }
    assert forall|g: int, t: int, c: int, l: int|
        0 <= g < gens.len() && 0 <= t < gens[g].templates@.len() && 0 <= c < gens[g].templates@[t].cells@.len()
            && 0 <= l < gens[g].templates@[t].cells@[c].furniture@.len() implies positive_weights_fit(
        weights_of((#[trigger] gens[g].templates@[t].cells@[c].furniture@[l])@),
    ) by {
        assert(crate::worldgen_catalog::generator_ok(gens[g], catalog));
        assert(crate::worldgen_catalog::root_template_ok(gens[g].templates@[t], catalog));
        assert(crate::worldgen_parts::cell_shape_ok(gens[g].templates@[t].cells@[c], catalog));
    }
    assert forall|g: int, n: int, t: int, c: int, l: int|
        0 <= g < gens.len() && 0 <= n < gens[g].nested_generators@.len() && 0 <= t
            < gens[g].nested_generators@[n].templates@.len() && 0 <= c
            < gens[g].nested_generators@[n].templates@[t].cells@.len() && 0 <= l
            < gens[g].nested_generators@[n].templates@[t].cells@[c].terrain@.len() implies positive_weights_fit(
        weights_of((#[trigger] gens[g].nested_generators@[n].templates@[t].cells@[c].terrain@[l])@),
    ) by {
        assert(crate::worldgen_catalog::generator_ok(gens[g], catalog));
        assert(crate::worldgen_catalog::nested_generator_ok(gens[g].nested_generators@[n], catalog));
        assert(crate::worldgen_catalog::nested_template_ok(gens[g].nested_generators@[n].templates@[t], catalog));
        assert(crate::worldgen_parts::cell_shape_ok(gens[g].nested_generators@[n].templates@[t].cells@[c], catalog));
    }
    assert forall|g: int, n: int, t: int, c: int, l: int|
        0 <= g < gens.len() && 0 <= n < gens[g].nested_generators@.len() && 0 <= t
            < gens[g].nested_generators@[n].templates@.len() && 0 <= c
            < gens[g].nested_generators@[n].templates@[t].cells@.len() && 0 <= l
            < gens[g].nested_generators@[n].templates@[t].cells@[c].furniture@.len() implies positive_weights_fit(
        weights_of((#[trigger] gens[g].nested_generators@[n].templates@[t].cells@[c].furniture@[l])@),
    ) by {
        assert(crate::worldgen_catalog::generator_ok(gens[g], catalog));
        assert(crate::worldgen_catalog::nested_generator_ok(gens[g].nested_generators@[n], catalog));
        assert(crate::worldgen_catalog::nested_template_ok(gens[g].nested_generators@[n].templates@[t], catalog));
        assert(crate::worldgen_parts::cell_shape_ok(gens[g].nested_generators@[n].templates@[t].cells@[c], catalog));
    }
    assert forall|g: int, n: int|
        0 <= g < gens.len() && 0 <= n < gens[g].nested_generators@.len() implies positive_weights_fit(
        weights_of((#[trigger] gens[g].nested_generators@[n]).templates@),
    ) by {
        assert(crate::worldgen_catalog::generator_ok(gens[g], catalog));
        assert(crate::worldgen_catalog::nested_generator_ok(gens[g].nested_generators@[n], catalog));
    }
}

/// A worldgen catalog is valid against an item-group catalog exactly when
/// its own shape is valid, the item-group catalog is valid, and every cell
/// and area placement of every root and nested template names a defined
/// group.
pub proof fn law_worldgen_catalog_validity(catalog: WorldgenCatalogV1, groups: Seq<ItemGroupDefinitionV1>)
    ensures
        worldgen_catalog_ok(catalog, groups) == ({
            let gens = catalog.omt_generators@;
            &&& catalog_shape_ok(catalog)
            &&& catalog_ok(groups)
            &&& forall|g: int, t: int, c: int|
                0 <= g < gens.len() && 0 <= t < gens[g].templates@.len() && 0 <= c < gens[g].templates@[t].cells@.len()
                    ==> ((#[trigger] gens[g].templates@[t].cells@[c]).item_group matches Some(p) ==> exists|i: int|
                    0 <= i < groups.len() && (#[trigger] groups[i]).group_id@ == p.group_id@)
            &&& forall|g: int, t: int, a: int|
                0 <= g < gens.len() && 0 <= t < gens[g].templates@.len() && 0 <= a
                    < gens[g].templates@[t].area_items@.len() ==> exists|i: int|
                    0 <= i < groups.len() && (#[trigger] groups[i]).group_id@
                        == (#[trigger] gens[g].templates@[t].area_items@[a]).item_group.group_id@
            &&& forall|g: int, n: int, t: int, c: int|
                0 <= g < gens.len() && 0 <= n < gens[g].nested_generators@.len() && 0 <= t
                    < gens[g].nested_generators@[n].templates@.len() && 0 <= c
                    < gens[g].nested_generators@[n].templates@[t].cells@.len() ==> ((#[trigger] gens[g].nested_generators@[n].templates@[t].cells@[c]).item_group matches Some(
                    p,
                ) ==> exists|i: int| 0 <= i < groups.len() && (#[trigger] groups[i]).group_id@ == p.group_id@)
            &&& forall|g: int, n: int, t: int, a: int|
                0 <= g < gens.len() && 0 <= n < gens[g].nested_generators@.len() && 0 <= t
                    < gens[g].nested_generators@[n].templates@.len() && 0 <= a
                    < gens[g].nested_generators@[n].templates@[t].area_items@.len() ==> exists|i: int|
                    0 <= i < groups.len() && (#[trigger] groups[i]).group_id@
                        == (#[trigger] gens[g].nested_generators@[n].templates@[t].area_items@[a]).item_group.group_id@
        }),
{
}

/// Every entry from position `i` on of a node that evaluates has a target
/// and contents that evaluate.
proof fn lemma_entries_parts_evaluate(
    defs: Seq<ItemGroupDefinitionV1>,
    graph: ItemGroupGraphV1,
    c: nat,
    f: nat,
    kind: ItemGroupKindV1,
    entries: Seq<ItemGroupEntryV1>,
    i: nat,
    acc: ItemGroupMetrics,
    j: int,
)
    requires
        entries_eval(defs, graph, c, f, kind, entries, i, acc) is Some,
        i <= j < entries.len(),
    ensures
        target_eval(defs, graph, c, f, entries[j].target) is Some,
        contents_eval(defs, c, entries[j].contents@, 0, empty_contents()) is Some,
    decreases j - i,
{
    if j > i {
        let e = entries[i as int];
        let found = target_eval(defs, graph, c, f, e.target).unwrap();
        let summary = contents_eval(defs, c, e.contents@, 0, empty_contents()).unwrap();
        let outcome = entry_outcome(e, found, summary).unwrap();
        let next = accumulate(kind, acc, outcome).unwrap();
        lemma_entries_parts_evaluate(defs, graph, c, f, kind, entries, i + 1, next, j);
    }
}

/// Contents that evaluate name only defined groups.
proof fn lemma_contents_names_defined(
    defs: Seq<ItemGroupDefinitionV1>,
    c: nat,
    contents: Seq<ItemGroupContentsSourceV1>,
    j: nat,
    acc: ContentsSummary,
    k: int,
)
    requires
        contents_eval(defs, c, contents, j, acc) is Some,
        j <= k < contents.len(),
    ensures
        contents[k] matches ItemGroupContentsSourceV1::Group(id) ==> group_index(defs, id@) is Some,
    decreases k - j,
{
    if k > j {
        let m = match contents[j as int] {
            ItemGroupContentsSourceV1::Item(item) => Some(crate::item_group_metrics::item_metrics(*item)),
            ItemGroupContentsSourceV1::Group(id) => match group_index(defs, id@) {
                None => None,
                Some(g) => if c == 0 {
                    None
                } else {
                    group_eval(defs, (c - 1) as nat, path_fuel(), g)
                },
            },
        };
        let m = m.unwrap();
        let next: ContentsSummary = (
            (acc.0 + m.outputs) as u64,
            crate::item_group_metrics::max_int(acc.1 as int, m.containment_depth as int) as u64,
            acc.2 && m.all_top_level_estorable,
        );
        lemma_contents_names_defined(defs, c, contents, j + 1, next, k);
    }
}

/// The root node's entry at position `i` of a graph, if any.
pub open spec fn root_entry(graph: ItemGroupGraphV1, i: int) -> Option<ItemGroupEntryV1> {
    match node_index(graph.nodes@, graph.root_node) {
        Some(k) => if 0 <= k < graph.nodes@.len() && 0 <= i < graph.nodes@[k].entries@.len() {
            Some(graph.nodes@[k].entries@[i])
        } else {
            None
        },
        None => None,
    }
}

/// A group whose root node names the group itself never evaluates, however
/// much fuel it is given.
proof fn lemma_self_naming_root_fails(defs: Seq<ItemGroupDefinitionV1>, c: nat, f: nat, g: int, i: int)
    requires
        0 <= g < defs.len(),
        group_index(defs, defs[g].group_id@) == Some(g),
        root_entry(defs[g].graph, i) matches Some(e) && e.target matches ItemGroupTargetV1::Group(id) && id@
            == defs[g].group_id@,
    ensures
        group_eval(defs, c, f, g) is None,
    decreases f,
{
    let graph = defs[g].graph;
    if group_eval(defs, c, f, g) is Some {
        let k = node_index(graph.nodes@, graph.root_node).unwrap();
        assert(node_eval(defs, graph, c, f, k) is Some);
        let node = graph.nodes@[k];
        lemma_entries_parts_evaluate(defs, graph, c, f, node.kind, node.entries@, 0, crate::item_group_metrics::empty_metrics(), i);
        if f > 0 {
            lemma_self_naming_root_fails(defs, c, (f - 1) as nat, g, i);
        }
    }
}

/// What the root entries of an evaluating group with a unique identifier name.
proof fn lemma_root_entry_names(defs: Seq<ItemGroupDefinitionV1>, g: int, i: int)
    requires
        0 <= g < defs.len(),
        full_group(defs, g) is Some,
        root_entry(defs[g].graph, i) is Some,
        forall|j: int| 0 <= j < g ==> text_lt(#[trigger] defs[j].group_id@, defs[g].group_id@),
    ensures
        ({
            let e = root_entry(defs[g].graph, i).unwrap();
            &&& e.target matches ItemGroupTargetV1::Group(id) ==> id@ != defs[g].group_id@ && exists|j: int|
                0 <= j < defs.len() && (#[trigger] defs[j]).group_id@ == id@
            &&& forall|m: int|
                0 <= m < e.contents@.len() ==> ((#[trigger] e.contents@[m]) matches ItemGroupContentsSourceV1::Group(
                    id,
                ) ==> exists|j: int| 0 <= j < defs.len() && (#[trigger] defs[j]).group_id@ == id@)
        }),
{
    let graph = defs[g].graph;
    let e = root_entry(graph, i).unwrap();
    let c = contents_fuel();
    let f = path_fuel();
    let k = node_index(graph.nodes@, graph.root_node).unwrap();
    assert(node_eval(defs, graph, c, f, k) is Some);
    let node = graph.nodes@[k];
    lemma_entries_parts_evaluate(defs, graph, c, f, node.kind, node.entries@, 0, crate::item_group_metrics::empty_metrics(), i);
    if let ItemGroupTargetV1::Group(id) = e.target {
        lemma_group_index(defs, id@);
        if id@ == defs[g].group_id@ {
            lemma_group_index(defs, defs[g].group_id@);
            let first = group_index(defs, defs[g].group_id@).unwrap();
            if first < g {
                lemma_text_lt_order(defs[first].group_id@, defs[g].group_id@, defs[g].group_id@);
            }
            lemma_self_naming_root_fails(defs, c, f, g, i);
        }
    }
    assert forall|m: int|
        0 <= m < e.contents@.len() implies ((#[trigger] e.contents@[m]) matches ItemGroupContentsSourceV1::Group(
        id,
    ) ==> exists|j: int| 0 <= j < defs.len() && (#[trigger] defs[j]).group_id@ == id@) by {
        lemma_contents_names_defined(defs, c, e.contents@, 0, empty_contents(), m);
        if let ItemGroupContentsSourceV1::Group(id) = e.contents@[m] {
            lemma_group_index(defs, id@);
        }
    }
}

/// In a valid catalog, every entry of each group's root node names only
/// defined groups, as its target and in its contents, and never names its
/// own group: a group that reaches itself directly makes the catalog invalid.
pub proof fn law_valid_catalog_root_entries_name_other_defined_groups(
    defs: Seq<ItemGroupDefinitionV1>,
    g: int,
    i: int,
)
    requires
        catalog_ok(defs),
        0 <= g < defs.len(),
        root_entry(defs[g].graph, i) is Some,
    ensures
        ({
            let e = root_entry(defs[g].graph, i).unwrap();
            &&& e.target matches ItemGroupTargetV1::Group(id) ==> id@ != defs[g].group_id@ && exists|j: int|
                0 <= j < defs.len() && (#[trigger] defs[j]).group_id@ == id@
            &&& forall|m: int|
                0 <= m < e.contents@.len() ==> ((#[trigger] e.contents@[m]) matches ItemGroupContentsSourceV1::Group(
                    id,
                ) ==> exists|j: int| 0 <= j < defs.len() && (#[trigger] defs[j]).group_id@ == id@)
        }),
{
    law_valid_item_group_catalog_bounds(defs);
    assert(full_group(defs, g) is Some);
    assert forall|j: int| 0 <= j < g implies text_lt(#[trigger] defs[j].group_id@, defs[g].group_id@) by {
        assert(text_lt(defs[j].group_id@, defs[g].group_id@));
    }
    lemma_root_entry_names(defs, g, i);
}

} // verus!
