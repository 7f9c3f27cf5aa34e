//! Which named groups a set of sources reaches, and whether a catalog holds
//! exactly those groups.

use vstd::prelude::*;

use crate::item_group_catalog::deref_sources;
use crate::item_group_types::{
    ItemGroupContentsSourceV1, ItemGroupDefinitionV1, ItemGroupEntryV1, ItemGroupGraphV1, ItemGroupSourceV1,
    ItemGroupTargetV1,
};
use crate::text::str_eq;

verus! {

pub open spec fn target_names(t: ItemGroupTargetV1, id: Seq<char>) -> bool {
    t matches ItemGroupTargetV1::Group(g) && g@ == id
}

pub open spec fn contents_names(c: ItemGroupContentsSourceV1, id: Seq<char>) -> bool {
    c matches ItemGroupContentsSourceV1::Group(g) && g@ == id
}

/// The entry names group `id`, as its target or among its contents.
pub open spec fn entry_names(e: ItemGroupEntryV1, id: Seq<char>) -> bool {
    ||| target_names(e.target, id)
    ||| exists|c: int| 0 <= c < e.contents@.len() && contents_names(#[trigger] e.contents@[c], id)
}

/// Some entry of some node of the graph names group `id`.
pub open spec fn graph_names(g: ItemGroupGraphV1, id: Seq<char>) -> bool {
    exists|n: int, e: int|
        0 <= n < g.nodes@.len() && 0 <= e < g.nodes@[n].entries@.len() && entry_names(
            #[trigger] g.nodes@[n].entries@[e],
            id,
        )
}

/// A named source names its group; an inline one, the groups its graph names.
pub open spec fn source_names(s: ItemGroupSourceV1, id: Seq<char>) -> bool {
    match s {
        ItemGroupSourceV1::Group(g) => g@ == id,
        ItemGroupSourceV1::Inline(graph) => graph_names(graph, id),
    }
}

/// The last of the first `k` definitions with identifier `id`.
pub open spec fn last_group_below(defs: Seq<ItemGroupDefinitionV1>, id: Seq<char>, k: int) -> Option<int>
    decreases k,
{
    if k <= 0 || k > defs.len() {
        None
    } else if defs[k - 1].group_id@ == id {
        Some(k - 1)
    } else {
        last_group_below(defs, id, k - 1)
    }
}

/// The definition a name refers to: the last one with that identifier.
pub open spec fn last_group(defs: Seq<ItemGroupDefinitionV1>, id: Seq<char>) -> Option<int> {
    last_group_below(defs, id, defs.len() as int)
}

/// The definitions the sources name directly.
pub open spec fn initial_groups(defs: Seq<ItemGroupDefinitionV1>, sources: Seq<ItemGroupSourceV1>) -> Set<int> {
    Set::new(
        |j: int|
            exists|s: int, id: Seq<char>|
                0 <= s < sources.len() && #[trigger] source_names(sources[s], id) && #[trigger] last_group(defs, id)
                    == Some(j),
    )
}

/// The definitions named by the graphs of the definitions in `reached`.
pub open spec fn named_by(defs: Seq<ItemGroupDefinitionV1>, reached: Set<int>) -> Set<int> {
    Set::new(
        |j: int|
            exists|i: int, id: Seq<char>|
                reached.contains(i) && 0 <= i < defs.len() && #[trigger] graph_names(defs[i].graph, id)
                    && #[trigger] last_group(defs, id) == Some(j),
    )
}

/// The definitions reached from the sources in at most `k` steps.
pub open spec fn groups_within(defs: Seq<ItemGroupDefinitionV1>, sources: Seq<ItemGroupSourceV1>, k: nat) -> Set<int>
    decreases k,
{
    if k == 0 {
        initial_groups(defs, sources)
    } else {
        let before = groups_within(defs, sources, (k - 1) as nat);
        before.union(named_by(defs, before))
    }
}

/// Every definition the sources reach; a catalog of `n` definitions is
/// covered in `n` steps.
pub open spec fn reachable_groups(defs: Seq<ItemGroupDefinitionV1>, sources: Seq<ItemGroupSourceV1>) -> Set<int> {
    groups_within(defs, sources, defs.len())
}

/// Every name the sources or a reached definition use is defined, and every
/// definition is reached: the catalog is exactly the sources' closure.
pub open spec fn named_closure_exact(defs: Seq<ItemGroupDefinitionV1>, sources: Seq<ItemGroupSourceV1>) -> bool {
    &&& forall|s: int, id: Seq<char>|
        0 <= s < sources.len() && #[trigger] source_names(sources[s], id) ==> last_group(defs, id) is Some
    &&& forall|i: int, id: Seq<char>|
        reachable_groups(defs, sources).contains(i) && 0 <= i < defs.len() && #[trigger] graph_names(defs[i].graph, id)
            ==> last_group(defs, id) is Some
    &&& forall|i: int| 0 <= i < defs.len() ==> #[trigger] reachable_groups(defs, sources).contains(i)
}

/// The indices marked in a flag vector.
pub open spec fn marks(flags: Seq<bool>) -> Set<int> {
    Set::new(|i: int| 0 <= i < flags.len() && flags[i])
}

proof fn lemma_last_group_below_range(defs: Seq<ItemGroupDefinitionV1>, id: Seq<char>, k: int)
    ensures
        last_group_below(defs, id, k) matches Some(j) ==> 0 <= j < k && j < defs.len() && defs[j].group_id@ == id,
    decreases k,
{
    if k > 0 && k <= defs.len() && defs[k - 1].group_id@ != id {
        lemma_last_group_below_range(defs, id, k - 1);
    }
}

/// The definition a name refers to carries that name.
pub proof fn lemma_last_group_range(defs: Seq<ItemGroupDefinitionV1>, id: Seq<char>)
    ensures
        last_group(defs, id) matches Some(j) ==> 0 <= j < defs.len() && defs[j].group_id@ == id,
{
    lemma_last_group_below_range(defs, id, defs.len() as int);
}

/// The index `last_group` names.
fn last_group_index(defs: &[ItemGroupDefinitionV1], id: &str) -> (r: Option<usize>)
    ensures
        match r {
            Some(j) => last_group(defs@, id@) == Some(j as int),
            None => last_group(defs@, id@) is None,
        },
{
    let mut k: usize = defs.len();
    while k > 0
        invariant
            k <= defs@.len(),
            last_group(defs@, id@) == last_group_below(defs@, id@, k as int),
        decreases k,
    {
        if str_eq(defs[k - 1].group_id.as_str(), id) {
            return Some(k - 1);
        }
        k = k - 1;
    }
    None
}

/// Marks the definition `id` names, if there is one.
fn mark_name(defs: &[ItemGroupDefinitionV1], id: &str, flags: &mut Vec<bool>) -> (ok: bool)
    requires
        old(flags)@.len() == defs@.len(),
    ensures
        final(flags)@.len() == defs@.len(),
        ok == last_group(defs@, id@) is Some,
        ok ==> marks(final(flags)@) == marks(old(flags)@).insert(last_group(defs@, id@).unwrap()),
{
    proof {
        lemma_last_group_range(defs@, id@);
    }
    match last_group_index(defs, id) {
        Some(j) => {
            flags.set(j, true);
            assert(marks(flags@) =~= marks(old(flags)@).insert(j as int));
            true
        },
        None => false,
    }
}

/// The definitions an entry's names refer to.
pub open spec fn entry_targets(defs: Seq<ItemGroupDefinitionV1>, e: ItemGroupEntryV1) -> Set<int> {
    Set::new(|j: int| exists|id: Seq<char>| #[trigger] entry_names(e, id) && last_group(defs, id) == Some(j))
}

pub open spec fn entry_defined(defs: Seq<ItemGroupDefinitionV1>, e: ItemGroupEntryV1) -> bool {
    forall|id: Seq<char>| #[trigger] entry_names(e, id) ==> last_group(defs, id) is Some
}

fn mark_entry(defs: &[ItemGroupDefinitionV1], e: &ItemGroupEntryV1, flags: &mut Vec<bool>) -> (ok: bool)
    requires
        old(flags)@.len() == defs@.len(),
    ensures
        final(flags)@.len() == defs@.len(),
        ok == entry_defined(defs@, *e),
        ok ==> marks(final(flags)@) == marks(old(flags)@).union(entry_targets(defs@, *e)),
{
    let ghost start = marks(flags@);
    let ghost mut seen: Set<int> = Set::empty();
    if let ItemGroupTargetV1::Group(g) = &e.target {
        if !mark_name(defs, g.as_str(), flags) {
            assert(target_names(e.target, g@));
            assert(entry_names(*e, g@));
            return false;
        }
        proof {
            assert(target_names(e.target, g@));
            assert(entry_names(*e, g@));
            assert(entry_targets(defs@, *e).contains(last_group(defs@, g@).unwrap()));
            seen = seen.insert(last_group(defs@, g@).unwrap());
            assert(marks(flags@) =~= start.union(seen));
        }
    }
    let mut c: usize = 0;
    while c < e.contents.len()
        invariant
            flags@.len() == defs@.len(),
            c <= e.contents@.len(),
            marks(flags@) == start.union(seen),
            forall|j: int| #[trigger] seen.contains(j) ==> entry_targets(defs@, *e).contains(j),
            e.target matches ItemGroupTargetV1::Group(g) ==> last_group(defs@, g@) is Some && seen.contains(
                last_group(defs@, g@).unwrap(),
            ),
            forall|k: int|
                0 <= k < c ==> ((#[trigger] e.contents@[k]) matches ItemGroupContentsSourceV1::Group(g) ==> last_group(
                    defs@,
                    g@,
                ) is Some && seen.contains(last_group(defs@, g@).unwrap())),
        decreases e.contents.len() - c,
    {
        if let ItemGroupContentsSourceV1::Group(g) = &e.contents[c] {
            let ghost before = marks(flags@);
            if !mark_name(defs, g.as_str(), flags) {
                assert(contents_names(e.contents@[c as int], g@));
                assert(entry_names(*e, g@));
                return false;
            }
            proof {
                assert(contents_names(e.contents@[c as int], g@));
                assert(entry_names(*e, g@));
                assert(entry_targets(defs@, *e).contains(last_group(defs@, g@).unwrap()));
                seen = seen.insert(last_group(defs@, g@).unwrap());
                assert(marks(flags@) =~= start.union(seen));
            }
        }
        c = c + 1;
    }
    proof {
        assert forall|id: Seq<char>| #[trigger] entry_names(*e, id) implies last_group(defs@, id) is Some
            && seen.contains(last_group(defs@, id).unwrap()) by {
            if !target_names(e.target, id) {
                let k = choose|k: int| 0 <= k < e.contents@.len() && contents_names(#[trigger] e.contents@[k], id);
            }
        }
        assert(seen =~= entry_targets(defs@, *e));
    }
    true
}

/// The definitions a graph's names refer to.
pub open spec fn graph_targets(defs: Seq<ItemGroupDefinitionV1>, g: ItemGroupGraphV1) -> Set<int> {
    Set::new(|j: int| exists|id: Seq<char>| #[trigger] graph_names(g, id) && last_group(defs, id) == Some(j))
}

pub open spec fn graph_defined(defs: Seq<ItemGroupDefinitionV1>, g: ItemGroupGraphV1) -> bool {
    forall|id: Seq<char>| #[trigger] graph_names(g, id) ==> last_group(defs, id) is Some
}

fn mark_graph(defs: &[ItemGroupDefinitionV1], g: &ItemGroupGraphV1, flags: &mut Vec<bool>) -> (ok: bool)
    requires
        old(flags)@.len() == defs@.len(),
    ensures
        final(flags)@.len() == defs@.len(),
        ok == graph_defined(defs@, *g),
        ok ==> marks(final(flags)@) == marks(old(flags)@).union(graph_targets(defs@, *g)),
{
    let ghost start = marks(flags@);
    let ghost mut seen: Set<int> = Set::empty();
    let mut n: usize = 0;
    while n < g.nodes.len()
        invariant
            flags@.len() == defs@.len(),
            n <= g.nodes@.len(),
            marks(flags@) == start.union(seen),
            forall|j: int| #[trigger] seen.contains(j) ==> graph_targets(defs@, *g).contains(j),
            forall|a: int, b: int|
                0 <= a < n && 0 <= b < g.nodes@[a].entries@.len() ==> entry_defined(
                    defs@,
                    #[trigger] g.nodes@[a].entries@[b],
                ) && entry_targets(defs@, g.nodes@[a].entries@[b]).subset_of(seen),
        decreases g.nodes.len() - n,
    {
        let node = &g.nodes[n];
        let mut e: usize = 0;
        while e < node.entries.len()
            invariant
                flags@.len() == defs@.len(),
                n < g.nodes@.len(),
                *node == g.nodes@[n as int],
                e <= node.entries@.len(),
                marks(flags@) == start.union(seen),
                forall|j: int| #[trigger] seen.contains(j) ==> graph_targets(defs@, *g).contains(j),
                forall|a: int, b: int|
                    0 <= a < n && 0 <= b < g.nodes@[a].entries@.len() ==> entry_defined(
                        defs@,
                        #[trigger] g.nodes@[a].entries@[b],
                    ) && entry_targets(defs@, g.nodes@[a].entries@[b]).subset_of(seen),
                forall|b: int|
                    0 <= b < e ==> entry_defined(defs@, #[trigger] node.entries@[b]) && entry_targets(
                        defs@,
                        node.entries@[b],
                    ).subset_of(seen),
            decreases node.entries.len() - e,
        {
            let entry = &node.entries[e];
            let ghost before = marks(flags@);
            if !mark_entry(defs, entry, flags) {
                proof {
                    let id = choose|id: Seq<char>| #[trigger] entry_names(*entry, id) && last_group(defs@, id) is None;
                    assert(graph_names(*g, id));
                }
                return false;
            }
            proof {
                assert forall|j: int| #[trigger] entry_targets(defs@, *entry).contains(j) implies graph_targets(
                    defs@,
                    *g,
                ).contains(j) by {
                    let id = choose|id: Seq<char>| #[trigger] entry_names(*entry, id) && last_group(defs@, id) == Some(j);
                    assert(graph_names(*g, id));
                }
                seen = seen.union(entry_targets(defs@, *entry));
                assert(marks(flags@) =~= start.union(seen));
            }
            e = e + 1;
        }
        n = n + 1;
    }
    proof {
        assert forall|id: Seq<char>| #[trigger] graph_names(*g, id) implies last_group(defs@, id) is Some && seen.contains(
            last_group(defs@, id).unwrap(),
        ) by {
            let (a, b) = choose|a: int, b: int|
                0 <= a < g.nodes@.len() && 0 <= b < g.nodes@[a].entries@.len() && entry_names(
                    #[trigger] g.nodes@[a].entries@[b],
                    id,
                );
            let entry = g.nodes@[a].entries@[b];
            assert(entry_defined(defs@, entry));
            assert(entry_targets(defs@, entry).contains(last_group(defs@, id).unwrap()));
        }
        assert(seen =~= graph_targets(defs@, *g));
    }
    true
}

/// Whether every graph of a definition in `reached` uses only defined names.
pub open spec fn reached_defined(defs: Seq<ItemGroupDefinitionV1>, reached: Set<int>) -> bool {
    forall|i: int, id: Seq<char>|
        reached.contains(i) && 0 <= i < defs.len() && #[trigger] graph_names(defs[i].graph, id) ==> last_group(
            defs,
            id,
        ) is Some
}

/// One step: the marked definitions and every definition their graphs name.
fn expand_round(defs: &[ItemGroupDefinitionV1], current: &Vec<bool>) -> (r: Option<Vec<bool>>)
    requires
        current@.len() == defs@.len(),
    ensures
        r is Some <==> reached_defined(defs@, marks(current@)),
        r matches Some(next) ==> next@.len() == defs@.len() && marks(next@) == marks(current@).union(
            named_by(defs@, marks(current@)),
        ),
{
    let mut next: Vec<bool> = Vec::new();
    let mut c: usize = 0;
    while c < current.len()
        invariant
            c <= current@.len(),
            next@ == current@.take(c as int),
        decreases current.len() - c,
    {
        next.push(current[c]);
        c = c + 1;
    }
    assert(next@ =~= current@);
    let ghost start = marks(current@);
    let ghost mut added: Set<int> = Set::empty();
    let mut i: usize = 0;
    while i < defs.len()
        invariant
            i <= defs@.len(),
            next@.len() == defs@.len(),
            current@.len() == defs@.len(),
            start == marks(current@),
            marks(next@) == start.union(added),
            added.subset_of(named_by(defs@, start)),
            forall|a: int| 0 <= a < i && start.contains(a) ==> graph_defined(defs@, #[trigger] defs@[a].graph)
                && graph_targets(defs@, defs@[a].graph).subset_of(added),
        decreases defs.len() - i,
    {
        if current[i] {
            assert(start.contains(i as int));
            if !mark_graph(defs, &defs[i].graph, &mut next) {
                proof {
                    let id = choose|id: Seq<char>| #[trigger] graph_names(defs@[i as int].graph, id) && last_group(defs@, id) is None;
                    assert(graph_names(defs@[i as int].graph, id));
                }
                return None;
            }
            proof {
                assert forall|j: int| #[trigger] graph_targets(defs@, defs@[i as int].graph).contains(j) implies named_by(
                    defs@,
                    start,
                ).contains(j) by {
                    let id = choose|id: Seq<char>| #[trigger] graph_names(defs@[i as int].graph, id) && last_group(defs@, id) == Some(j);
                    assert(graph_names(defs@[i as int].graph, id));
                }
                added = added.union(graph_targets(defs@, defs@[i as int].graph));
                assert(marks(next@) =~= start.union(added));
            }
        }
        i = i + 1;
    }
    proof {
        assert forall|j: int| #[trigger] named_by(defs@, start).contains(j) implies added.contains(j) by {
            let (a, id) = choose|a: int, id: Seq<char>|
                start.contains(a) && 0 <= a < defs@.len() && #[trigger] graph_names(defs@[a].graph, id)
                    && #[trigger] last_group(defs@, id) == Some(j);
            assert(graph_targets(defs@, defs@[a].graph).contains(j));
        }
        assert(added =~= named_by(defs@, start));
        assert forall|a: int, id: Seq<char>|
            start.contains(a) && 0 <= a < defs@.len() && #[trigger] graph_names(defs@[a].graph, id) implies last_group(
            defs@,
            id,
        ) is Some by {
            assert(graph_defined(defs@, defs@[a].graph));
        }
    }
    Some(next)
}

pub open spec fn sources_defined(defs: Seq<ItemGroupDefinitionV1>, sources: Seq<ItemGroupSourceV1>) -> bool {
    forall|s: int, id: Seq<char>|
        0 <= s < sources.len() && #[trigger] source_names(sources[s], id) ==> last_group(defs, id) is Some
}

/// Marks every definition the sources name directly.
fn initial_marks(defs: &[ItemGroupDefinitionV1], sources: &[&ItemGroupSourceV1]) -> (r: Option<Vec<bool>>)
    ensures
        r is Some <==> sources_defined(defs@, deref_sources(sources@)),
        r matches Some(flags) ==> flags@.len() == defs@.len() && marks(flags@) == initial_groups(
            defs@,
            deref_sources(sources@),
        ),
{
    let ghost view = deref_sources(sources@);
    let mut flags: Vec<bool> = Vec::new();
    let mut c: usize = 0;
    while c < defs.len()
        invariant
            c <= defs@.len(),
            flags@.len() == c,
            forall|j: int| 0 <= j < c ==> !flags@[j],
        decreases defs.len() - c,
    {
        flags.push(false);
        c = c + 1;
    }
    assert(marks(flags@) =~= Set::<int>::empty());
    let ghost mut seen: Set<int> = Set::empty();
    let mut s: usize = 0;
    while s < sources.len()
        invariant
            s <= sources@.len(),
            view == deref_sources(sources@),
            flags@.len() == defs@.len(),
            marks(flags@) == seen,
            seen.subset_of(initial_groups(defs@, view)),
            forall|a: int, id: Seq<char>|
                0 <= a < s && #[trigger] source_names(view[a], id) ==> last_group(defs@, id) is Some && seen.contains(
                    last_group(defs@, id).unwrap(),
                ),
        decreases sources.len() - s,
    {
        let source: &ItemGroupSourceV1 = sources[s];
        assert(*source == view[s as int]);
        match source {
            ItemGroupSourceV1::Group(g) => {
                if !mark_name(defs, g.as_str(), &mut flags) {
                    assert(source_names(view[s as int], g@));
                    return None;
                }
                proof {
                    assert(source_names(view[s as int], g@));
                    assert(initial_groups(defs@, view).contains(last_group(defs@, g@).unwrap()));
                    seen = seen.insert(last_group(defs@, g@).unwrap());
                }
            },
            ItemGroupSourceV1::Inline(graph) => {
                if !mark_graph(defs, graph, &mut flags) {
                    proof {
                        let id = choose|id: Seq<char>| #[trigger] graph_names(*graph, id) && last_group(defs@, id) is None;
                        assert(source_names(view[s as int], id));
                    }
                    return None;
                }
                proof {
                    assert forall|j: int| #[trigger] graph_targets(defs@, *graph).contains(j) implies initial_groups(
                        defs@,
                        view,
                    ).contains(j) by {
                        let id = choose|id: Seq<char>| #[trigger] graph_names(*graph, id) && last_group(defs@, id) == Some(j);
                        assert(source_names(view[s as int], id));
                    }
                    seen = seen.union(graph_targets(defs@, *graph));
                    assert forall|id: Seq<char>| #[trigger] source_names(view[s as int], id) implies last_group(
                        defs@,
                        id,
                    ) is Some && seen.contains(last_group(defs@, id).unwrap()) by {
                        assert(graph_names(*graph, id));
                        assert(graph_targets(defs@, *graph).contains(last_group(defs@, id).unwrap()));
                    }
                }
            },
        }
        s = s + 1;
    }
    proof {
        assert forall|j: int| #[trigger] initial_groups(defs@, view).contains(j) implies seen.contains(j) by {
            let (a, id) = choose|a: int, id: Seq<char>|
                0 <= a < view.len() && #[trigger] source_names(view[a], id) && #[trigger] last_group(defs@, id)
                    == Some(j);
        }
        assert(seen =~= initial_groups(defs@, view));
    }
    Some(flags)
}

proof fn lemma_within_grows(defs: Seq<ItemGroupDefinitionV1>, sources: Seq<ItemGroupSourceV1>, a: nat, b: nat)
    requires
        a <= b,
    ensures
        groups_within(defs, sources, a).subset_of(groups_within(defs, sources, b)),
    decreases b,
{
    if a < b {
        lemma_within_grows(defs, sources, a, (b - 1) as nat);
    }
}

proof fn lemma_within_stable(defs: Seq<ItemGroupDefinitionV1>, sources: Seq<ItemGroupSourceV1>, k: nat, m: nat)
    requires
        k <= m,
        groups_within(defs, sources, k + 1) == groups_within(defs, sources, k),
    ensures
        groups_within(defs, sources, m) == groups_within(defs, sources, k),
    decreases m,
{
    if k < m {
        lemma_within_stable(defs, sources, k, (m - 1) as nat);
    }
}

fn same_flags(a: &Vec<bool>, b: &Vec<bool>) -> (r: bool)
    requires
        a@.len() == b@.len(),
    ensures
        r == (a@ == b@),
{
    let mut i: usize = 0;
    while i < a.len()
        invariant
            a@.len() == b@.len(),
            i <= a@.len(),
            forall|j: int| 0 <= j < i ==> a@[j] == b@[j],
        decreases a.len() - i,
    {
        if a[i] != b[i] {
            return false;
        }
        i = i + 1;
    }
    assert(a@ =~= b@);
    true
}

fn all_marked(flags: &Vec<bool>) -> (r: bool)
    ensures
        r == forall|i: int| 0 <= i < flags@.len() ==> #[trigger] marks(flags@).contains(i),
{
    let mut i: usize = 0;
    while i < flags.len()
        invariant
            i <= flags@.len(),
            forall|j: int| 0 <= j < i ==> #[trigger] marks(flags@).contains(j),
        decreases flags.len() - i,
    {
        if !flags[i] {
            assert(!marks(flags@).contains(i as int));
            return false;
        }
        i = i + 1;
    }
    true
}

/// Whether every name the sources use, directly or through the definitions
/// they reach, is defined, and the catalog holds no definition they do not
/// reach.
pub fn item_group_sources_have_exact_named_closure(
    definitions: &[ItemGroupDefinitionV1],
    sources: &[&ItemGroupSourceV1],
) -> (r: bool)
    ensures
        r == named_closure_exact(definitions@, deref_sources(sources@)),
{
    let ghost view = deref_sources(sources@);
    let mut current = match initial_marks(definitions, sources) {
        Some(flags) => flags,
        None => {
            return false;
        },
    };
    let n = definitions.len();
    let mut k: usize = 0;
    let mut stable = false;
    while k < n && !stable
        invariant
            view == deref_sources(sources@),
            n == definitions@.len(),
            k <= n,
            current@.len() == n,
            marks(current@) == groups_within(definitions@, view, k as nat),
            stable ==> groups_within(definitions@, view, n as nat) == groups_within(definitions@, view, k as nat),
            sources_defined(definitions@, view),
        decreases n - k, if stable { 0int } else { 1int },
    {
        let next = match expand_round(definitions, &current) {
            Some(flags) => flags,
            None => {
                proof {
                    lemma_within_grows(definitions@, view, k as nat, n as nat);
                    let (i, id) = choose|i: int, id: Seq<char>|
                        marks(current@).contains(i) && 0 <= i < definitions@.len() && #[trigger] graph_names(
                            definitions@[i].graph,
                            id,
                        ) && last_group(definitions@, id) is None;
                    assert(reachable_groups(definitions@, view).contains(i));
                }
                return false;
            },
        };
        if same_flags(&current, &next) {
            proof {
                assert(groups_within(definitions@, view, (k + 1) as nat) == groups_within(definitions@, view, k as nat));
                lemma_within_stable(definitions@, view, k as nat, n as nat);
            }
            stable = true;
        } else {
            current = next;
            k = k + 1;
        }
    }
    assert(marks(current@) == reachable_groups(definitions@, view));
    match expand_round(definitions, &current) {
        Some(_) => all_marked(&current),
        None => false,
    }
}

} // verus!
