//! The coordinate-owned overmap layout: run-length layers, identity lookup,
//! and the cities, rivers, specials, and start location placed on it.

use vstd::prelude::*;

use crate::geometry::ChunkCoord;
use crate::text::{str_less, text_lt};
use crate::worldgen::{
    omt_matches, start_requires_city, valid_worldgen_id, worldgen_id_ok, worldgen_omt_matches,
    WorldgenCatalogV1, WorldgenCityV1, WorldgenRiverNodeV1, WorldgenSpecialPlacementV1,
    WorldgenSpecialUniquenessV1, WorldgenStartLocationV1, MAX_WORLDGEN_CITIES,
    MAX_WORLDGEN_CITY_SIZE, MAX_WORLDGEN_RIVER_NODES, MAX_WORLDGEN_SPECIAL_OMTS,
    MAX_WORLDGEN_SPECIAL_PLACEMENTS, MAX_WORLDGEN_START_TARGETS, WorldgenOmtIdentityV1, WorldgenOvermapLayerV1,
    WorldgenOvermapLayoutV1, WorldgenOvermapRunV1, MAX_WORLDGEN_OMT_IDENTITIES,
    MAX_WORLDGEN_OVERMAP_LAYERS, MAX_WORLDGEN_OVERMAP_RUNS, WORLDGEN_OVERMAP_HEIGHT,
    WORLDGEN_OVERMAP_WIDTH,
};

verus! {

pub open spec fn identity_ok(identity: WorldgenOmtIdentityV1) -> bool {
    &&& worldgen_id_ok(identity.full_id@)
    &&& worldgen_id_ok(identity.type_id@)
    &&& worldgen_id_ok(identity.subtype_id@)
    &&& worldgen_id_ok(identity.generator_id@)
    &&& identity.rotation <= 3
}

pub fn valid_worldgen_omt_identity(identity: &WorldgenOmtIdentityV1) -> (r: bool)
    ensures
        r == identity_ok(*identity),
{
    valid_worldgen_id(identity.full_id.as_str())
        && valid_worldgen_id(identity.type_id.as_str())
        && valid_worldgen_id(identity.subtype_id.as_str())
        && valid_worldgen_id(identity.generator_id.as_str())
        && identity.rotation <= 3
}

pub open spec fn cells_per_layer() -> int {
    WORLDGEN_OVERMAP_WIDTH as int * WORLDGEN_OVERMAP_HEIGHT as int
}

/// The total length of the first `k` runs.
pub open spec fn runs_total(runs: Seq<WorldgenOvermapRunV1>, k: int) -> int
    decreases k,
{
    if k <= 0 { 0 } else { runs_total(runs, k - 1) + runs[k - 1].length }
}

/// Non-empty runs of positive length over existing identities, no two
/// neighbours naming the same identity, covering exactly one 180x180 layer.
pub open spec fn layer_ok(layer: WorldgenOvermapLayerV1, identity_count: int) -> bool {
    let runs = layer.runs@;
    &&& runs.len() > 0
    &&& runs.len() <= MAX_WORLDGEN_OVERMAP_RUNS
    &&& forall|k: int| 0 <= k < runs.len() ==> (#[trigger] runs[k]).length > 0 && runs[k].identity_index < identity_count
    &&& forall|k: int| 0 < k < runs.len() ==> (#[trigger] runs[k]).identity_index != runs[k - 1].identity_index
    &&& runs_total(runs, runs.len() as int) == cells_per_layer()
}

pub open spec fn layer_uses(layer: WorldgenOvermapLayerV1, index: int) -> bool {
    exists|k: int| 0 <= k < layer.runs@.len() && (#[trigger] layer.runs@[k]).identity_index == index
}

pub open spec fn layout_header_ok(layout: WorldgenOvermapLayoutV1) -> bool {
    let ids = layout.identities@;
    let layers = layout.layers@;
    &&& ids.len() > 0
    &&& ids.len() <= MAX_WORLDGEN_OMT_IDENTITIES
    &&& layers.len() > 0
    &&& layers.len() <= MAX_WORLDGEN_OVERMAP_LAYERS
    &&& forall|i: int| 0 <= i < ids.len() ==> identity_ok(#[trigger] ids[i])
    &&& forall|i: int| 0 <= i < ids.len() - 1 ==> text_lt(#[trigger] ids[i].full_id@, ids[i + 1].full_id@)
    &&& forall|i: int| 0 <= i < layers.len() - 1 ==> (#[trigger] layers[i]).z < layers[i + 1].z
    &&& layout.origin_x + (WORLDGEN_OVERMAP_WIDTH - 1) <= i32::MAX
    &&& layout.origin_y + (WORLDGEN_OVERMAP_HEIGHT - 1) <= i32::MAX
}

/// A valid layout: a well-formed header, well-formed layers that together
/// use every identity, and a surface (z = 0) layer.
pub open spec fn layout_ok(layout: WorldgenOvermapLayoutV1) -> bool {
    let layers = layout.layers@;
    &&& layout_header_ok(layout)
    &&& forall|l: int| 0 <= l < layers.len() ==> layer_ok(#[trigger] layers[l], layout.identities@.len() as int)
    &&& forall|i: int| 0 <= i < layout.identities@.len() ==> #[trigger] layout_uses(layout, i)
    &&& exists|l: int| 0 <= l < layers.len() && (#[trigger] layers[l]).z == 0
}

pub open spec fn layout_uses(layout: WorldgenOvermapLayoutV1, index: int) -> bool {
    exists|l: int| 0 <= l < layout.layers@.len() && layer_uses(#[trigger] layout.layers@[l], index)
}

/// The identities used by the surface layer.
pub open spec fn surface_uses(layout: WorldgenOvermapLayoutV1, index: int) -> bool {
    exists|l: int| 0 <= l < layout.layers@.len() && (#[trigger] layout.layers@[l]).z == 0 && layer_uses(layout.layers@[l], index)
}

#[verifier::loop_isolation(false)]
fn valid_layer(layer: &WorldgenOvermapLayerV1, identity_count: usize, used: &mut Vec<bool>) -> (r: bool)
    requires
        old(used)@.len() == identity_count,
    ensures
        final(used)@.len() == identity_count,
        r == layer_ok(*layer, identity_count as int),
        r ==> forall|i: int| 0 <= i < identity_count ==> (#[trigger] final(used)@[i] <==> old(used)@[i] || layer_uses(*layer, i)),
{
    let runs = &layer.runs;
    if runs.len() == 0 || runs.len() > MAX_WORLDGEN_OVERMAP_RUNS {
        return false;
    }
    let ghost start = used@;
    let mut total: u32 = 0;
    let mut k: usize = 0;
    while k < runs.len()
        invariant
            k <= runs@.len(),
            used@.len() == identity_count,
            total == runs_total(runs@, k as int),
            forall|j: int| 0 <= j < k ==> (#[trigger] runs@[j]).length > 0 && runs@[j].identity_index < identity_count,
            forall|j: int| 0 < j < k ==> (#[trigger] runs@[j]).identity_index != runs@[j - 1].identity_index,
            forall|i: int| 0 <= i < identity_count ==> (#[trigger] used@[i] <==> start[i] || exists|j: int| 0 <= j < k && (#[trigger] runs@[j]).identity_index == i),
        decreases runs.len() - k,
    {
        let run = runs[k];
        if run.length == 0 || run.identity_index as usize >= identity_count || (k > 0 && runs[k - 1].identity_index == run.identity_index) {
            return false;
        }
        match total.checked_add(run.length) {
            None => {
                proof {
                    lemma_runs_total_monotone(runs@, k as int + 1, runs@.len() as int);
                }
                return false;
            },
            Some(next) => {
                total = next;
            },
        }
        used.set(run.identity_index as usize, true);
        proof {
            assert forall|i: int| 0 <= i < identity_count implies (#[trigger] used@[i] <==> start[i] || exists|j: int| 0 <= j < k + 1 && (#[trigger] runs@[j]).identity_index == i) by {
                if i == run.identity_index {
                    assert(runs@[k as int].identity_index == i);
                } else if exists|j: int| 0 <= j < k + 1 && (#[trigger] runs@[j]).identity_index == i {
                    let j = choose|j: int| 0 <= j < k + 1 && (#[trigger] runs@[j]).identity_index == i;
                    assert(j < k);
                }
            }
        }
        k = k + 1;
    }
    if total != 32_400 {
        return false;
    }
    true
}

proof fn lemma_runs_total_monotone(runs: Seq<WorldgenOvermapRunV1>, a: int, b: int)
    requires
        0 <= a <= b <= runs.len(),
    ensures
        runs_total(runs, a) <= runs_total(runs, b),
    decreases b - a,
{
    if a < b {
        lemma_runs_total_monotone(runs, a, b - 1);
    }
}

#[verifier::loop_isolation(false)]
fn valid_layout_header(layout: &WorldgenOvermapLayoutV1) -> (r: bool)
    ensures
        r == layout_header_ok(*layout),
{
    let ids = &layout.identities;
    let layers = &layout.layers;
    if ids.len() == 0 || ids.len() > MAX_WORLDGEN_OMT_IDENTITIES || layers.len() == 0 || layers.len() > MAX_WORLDGEN_OVERMAP_LAYERS {
        return false;
    }
    let mut i: usize = 0;
    while i < ids.len()
        invariant
            i <= ids@.len(),
            forall|j: int| 0 <= j < i ==> identity_ok(#[trigger] ids@[j]),
            forall|j: int| 0 <= j < i - 1 && j < ids@.len() - 1 ==> text_lt(#[trigger] ids@[j].full_id@, ids@[j + 1].full_id@),
        decreases ids.len() - i,
    {
        if !valid_worldgen_omt_identity(&ids[i]) {
            return false;
        }
        if i > 0 && !str_less(ids[i - 1].full_id.as_str(), ids[i].full_id.as_str()) {
            assert(ids@[(i - 1) as int + 1] == ids@[i as int]);
            return false;
        }
        i = i + 1;
    }
    let mut l: usize = 1;
    while l < layers.len()
        invariant
            1 <= l,
            forall|j: int| 0 <= j < l - 1 && j < layers@.len() - 1 ==> (#[trigger] layers@[j]).z < layers@[j + 1].z,
        decreases layers.len() - l,
    {
        if layers[l - 1].z >= layers[l].z {
            assert(layers@[(l - 1) as int + 1] == layers@[l as int]);
            return false;
        }
        l = l + 1;
    }
    layout.origin_x <= i32::MAX - 179 && layout.origin_y <= i32::MAX - 179
}

/// Validates a layout and returns, for each identity, whether the surface
/// layer uses it.
#[verifier::loop_isolation(false)]
pub fn valid_worldgen_overmap_layout(layout: &WorldgenOvermapLayoutV1) -> (r: Option<Vec<bool>>)
    ensures
        r is Some <==> layout_ok(*layout),
        r matches Some(surface) ==> surface@.len() == layout.identities@.len()
            && forall|i: int| 0 <= i < surface@.len() ==> (#[trigger] surface@[i] <==> surface_uses(*layout, i)),
{
    if !valid_layout_header(layout) {
        return None;
    }
    let n = layout.identities.len();
    let layers = &layout.layers;
    let mut all_used: Vec<bool> = Vec::new();
    let mut surface: Vec<bool> = Vec::new();
    while all_used.len() < n
        invariant
            all_used@.len() <= n,
            all_used@.len() == surface@.len(),
            forall|i: int| 0 <= i < all_used@.len() ==> !all_used@[i] && !surface@[i],
        decreases n - all_used.len(),
    {
        all_used.push(false);
        surface.push(false);
    }
    let mut has_surface = false;
    let mut l: usize = 0;
    while l < layers.len()
        invariant
            l <= layers@.len(),
            n == layout.identities@.len(),
            all_used@.len() == n,
            surface@.len() == n,
            layout_header_ok(*layout),
            layers@ == layout.layers@,
            forall|j: int| 0 <= j < l ==> layer_ok(#[trigger] layers@[j], n as int),
            forall|i: int| 0 <= i < n ==> (#[trigger] all_used@[i] <==> exists|j: int| 0 <= j < l && layer_uses(#[trigger] layers@[j], i)),
            forall|i: int| 0 <= i < n ==> (#[trigger] surface@[i] <==> exists|j: int| 0 <= j < l && (#[trigger] layers@[j]).z == 0 && layer_uses(layers@[j], i)),
            has_surface == exists|j: int| 0 <= j < l && (#[trigger] layers@[j]).z == 0,
        decreases layers.len() - l,
    {
        let ghost before = all_used@;
        if !valid_layer(&layers[l], n, &mut all_used) {
            return None;
        }
        proof {
            assert forall|i: int| 0 <= i < n implies (#[trigger] all_used@[i] <==> exists|j: int| 0 <= j < l + 1 && layer_uses(#[trigger] layers@[j], i)) by {
                if layer_uses(layers@[l as int], i) {
                    assert(0 <= l < l + 1);
                }
                if exists|j: int| 0 <= j < l + 1 && layer_uses(#[trigger] layers@[j], i) {
                    let j = choose|j: int| 0 <= j < l + 1 && layer_uses(#[trigger] layers@[j], i);
                    if j < l {
                        assert(before[i]);
                    }
                }
            }
        }
        if layers[l].z == 0 {
            let ghost before_surface = surface@;
            let mut i: usize = 0;
            while i < n
                invariant
                    i <= n,
                    surface@.len() == n,
                    forall|k: int| 0 <= k < i ==> (#[trigger] surface@[k] <==> before_surface[k] || layer_uses(layers@[l as int], k)),
                    forall|k: int| i <= k < n ==> surface@[k] == before_surface[k],
                decreases n - i,
            {
                if !surface[i] {
                    let mut uses = false;
                    let runs = &layers[l].runs;
                    let mut k: usize = 0;
                    while k < runs.len()
                        invariant
                            k <= runs@.len(),
                            runs@ == layers@[l as int].runs@,
                            uses == exists|m: int| 0 <= m < k && (#[trigger] runs@[m]).identity_index == i,
                        decreases runs.len() - k,
                    {
                        if runs[k].identity_index as usize == i {
                            uses = true;
                        }
                        k = k + 1;
                    }
                    surface.set(i, uses);
                }
                i = i + 1;
            }
            has_surface = true;
            proof {
                assert forall|i: int| 0 <= i < n implies (#[trigger] surface@[i] <==> exists|j: int| 0 <= j < l + 1 && (#[trigger] layers@[j]).z == 0 && layer_uses(layers@[j], i)) by {
                    if exists|j: int| 0 <= j < l + 1 && (#[trigger] layers@[j]).z == 0 && layer_uses(layers@[j], i) {
                        let j = choose|j: int| 0 <= j < l + 1 && (#[trigger] layers@[j]).z == 0 && layer_uses(layers@[j], i);
                        if j < l {
                            assert(before_surface[i]);
                        }
                    }
                }
                assert(layers@[l as int].z == 0);
            }
        } else {
            proof {
                assert forall|i: int| 0 <= i < n implies (#[trigger] surface@[i] <==> exists|j: int| 0 <= j < l + 1 && (#[trigger] layers@[j]).z == 0 && layer_uses(layers@[j], i)) by {
                    if exists|j: int| 0 <= j < l + 1 && (#[trigger] layers@[j]).z == 0 && layer_uses(layers@[j], i) {
                        let j = choose|j: int| 0 <= j < l + 1 && (#[trigger] layers@[j]).z == 0 && layer_uses(layers@[j], i);
                        assert(j < l);
                    }
                }
            }
        }
        l = l + 1;
    }
    let mut i: usize = 0;
    while i < n
        invariant
            i <= n,
            all_used@.len() == n,
            forall|k: int| 0 <= k < i ==> all_used@[k],
        decreases n - i,
    {
        if !all_used[i] {
            proof {
                assert(!layout_uses(*layout, i as int));
            }
            return None;
        }
        i = i + 1;
    }
    if !has_surface {
        return None;
    }
    proof {
        assert forall|i: int| 0 <= i < n implies #[trigger] layout_uses(*layout, i) by {
            assert(all_used@[i]);
        }
    }
    Some(surface)
}

/// The first layer at height `z`, searching from position `k`.
pub open spec fn find_layer(layers: Seq<WorldgenOvermapLayerV1>, z: i32, k: int) -> Option<int>
    decreases layers.len() - k,
{
    if k < 0 || k >= layers.len() {
        None
    } else if layers[k].z == z {
        Some(k)
    } else {
        find_layer(layers, z, k + 1)
    }
}

proof fn lemma_find_layer(layers: Seq<WorldgenOvermapLayerV1>, z: i32, k: int)
    requires
        0 <= k,
    ensures
        find_layer(layers, z, k) matches Some(l) ==> k <= l < layers.len() && layers[l].z == z
            && forall|m: int| k <= m < l ==> layers[m].z != z,
        find_layer(layers, z, k) is None ==> forall|m: int| k <= m < layers.len() ==> layers[m].z != z,
    decreases layers.len() - k,
{
    if k < layers.len() && layers[k].z != z {
        lemma_find_layer(layers, z, k + 1);
    }
}

/// Whether `(x, y)` lies in the 180x180 horizontal extent of the layout.
pub open spec fn in_extent(layout: WorldgenOvermapLayoutV1, x: i32, y: i32) -> bool {
    &&& 0 <= x - layout.origin_x < WORLDGEN_OVERMAP_WIDTH
    &&& 0 <= y - layout.origin_y < WORLDGEN_OVERMAP_HEIGHT
}

/// The row-major cell of `(x, y)` within one layer.
pub open spec fn local_cell(layout: WorldgenOvermapLayoutV1, x: i32, y: i32) -> int {
    (y - layout.origin_y) * WORLDGEN_OVERMAP_WIDTH + (x - layout.origin_x)
}

/// The layer owning `omt` and its cell within that layer.
pub open spec fn layer_and_cell(layout: WorldgenOvermapLayoutV1, omt: ChunkCoord) -> Option<(int, int)> {
    if !in_extent(layout, omt.x, omt.y) {
        None
    } else {
        match find_layer(layout.layers@, omt.z, 0) {
            None => None,
            Some(l) => Some((l, local_cell(layout, omt.x, omt.y))),
        }
    }
}

/// The identity index of the run covering `cell`, accumulating run ends
/// from `end`; none once a run end would leave `u32`.
pub open spec fn run_lookup(runs: Seq<WorldgenOvermapRunV1>, cell: int, end: int) -> Option<int>
    decreases runs.len(),
{
    if runs.len() == 0 {
        None
    } else {
        let next = end + runs[0].length;
        if next > u32::MAX {
            None
        } else if cell < next {
            Some(runs[0].identity_index as int)
        } else {
            run_lookup(runs.drop_first(), cell, next)
        }
    }
}

/// The index of the identity owning `omt`, if it is in the layout.
pub open spec fn identity_index_at(layout: WorldgenOvermapLayoutV1, omt: ChunkCoord) -> Option<int> {
    match layer_and_cell(layout, omt) {
        None => None,
        Some((l, cell)) => match run_lookup(layout.layers@[l].runs@, cell, 0) {
            Some(i) => if i < layout.identities@.len() { Some(i) } else { None },
            None => None,
        },
    }
}

#[verifier::loop_isolation(false)]
fn overmap_layer_and_cell(layout: &WorldgenOvermapLayoutV1, omt: ChunkCoord) -> (r: Option<(usize, u32)>)
    ensures
        r is None <==> layer_and_cell(*layout, omt) is None,
        r matches Some((l, cell)) ==> layer_and_cell(*layout, omt) == Some((l as int, cell as int))
            && l < layout.layers@.len() && cell < 32_400,
{
    let local_x: i64 = omt.x as i64 - layout.origin_x as i64;
    let local_y: i64 = omt.y as i64 - layout.origin_y as i64;
    if local_x < 0 || local_x >= 180 || local_y < 0 || local_y >= 180 {
        return None;
    }
    let mut l: usize = 0;
    while l < layout.layers.len()
        invariant
            l <= layout.layers@.len(),
            find_layer(layout.layers@, omt.z, 0) == find_layer(layout.layers@, omt.z, l as int),
        decreases layout.layers.len() - l,
    {
        if layout.layers[l].z == omt.z {
            let cell = (local_y * 180 + local_x) as u32;
            return Some((l, cell));
        }
        l = l + 1;
    }
    None
}

/// Whether one coordinate belongs to a retained overmap layer.
pub fn worldgen_overmap_contains(catalog: &WorldgenCatalogV1, omt: ChunkCoord) -> (r: bool)
    ensures
        r == (layer_and_cell(catalog.overmap, omt) is Some),
{
    overmap_layer_and_cell(&catalog.overmap, omt).is_some()
}

/// The immutable OMT identity owned by one canonical coordinate.
#[verifier::loop_isolation(false)]
pub fn worldgen_omt_identity_at(catalog: &WorldgenCatalogV1, omt: ChunkCoord) -> (r: Option<&WorldgenOmtIdentityV1>)
    ensures
        match identity_index_at(catalog.overmap, omt) {
            None => r is None,
            Some(i) => r == Some(&catalog.overmap.identities@[i]),
        },
{
    let found = overmap_layer_and_cell(&catalog.overmap, omt);
    if found.is_none() {
        return None;
    }
    let (l, cell) = found.unwrap();
    let runs = &catalog.overmap.layers[l].runs;
    let mut end: u32 = 0;
    let mut k: usize = 0;
    assert(runs@.skip(0) =~= runs@);
    while k < runs.len()
        invariant
            k <= runs@.len(),
            runs@ == catalog.overmap.layers@[l as int].runs@,
            run_lookup(runs@, cell as int, 0) == run_lookup(runs@.skip(k as int), cell as int, end as int),
        decreases runs.len() - k,
    {
        assert(runs@.skip(k as int).drop_first() =~= runs@.skip(k as int + 1));
        assert(runs@.skip(k as int)[0] == runs@[k as int]);
        let next = match end.checked_add(runs[k].length) {
            None => {
                assert(run_lookup(runs@.skip(k as int), cell as int, end as int) is None);
                return None;
            },
            Some(next) => next,
        };
        if cell < next {
            let index = runs[k].identity_index as usize;
            if index < catalog.overmap.identities.len() {
                return Some(&catalog.overmap.identities[index]);
            }
            return None;
        }
        end = next;
        k = k + 1;
    }
    assert(runs@.skip(k as int) =~= Seq::<WorldgenOvermapRunV1>::empty());
    assert(run_lookup(runs@, cell as int, 0) is None);
    assert(layer_and_cell(catalog.overmap, omt) == Some((l as int, cell as int)));
    None
}

pub open spec fn extent_fits(layout: WorldgenOvermapLayoutV1) -> bool {
    &&& layout.origin_x + (WORLDGEN_OVERMAP_WIDTH - 1) <= i32::MAX
    &&& layout.origin_y + (WORLDGEN_OVERMAP_HEIGHT - 1) <= i32::MAX
}

pub open spec fn city_ok(layout: WorldgenOvermapLayoutV1, city: WorldgenCityV1, index: int) -> bool {
    &&& city.city_id.0 == index + 1
    &&& 2 <= city.size <= MAX_WORLDGEN_CITY_SIZE
    &&& city.center.z == 0
    &&& in_extent(layout, city.center.x, city.center.y)
}

/// At most 4096 cities with dense one-based IDs, sizes in 2..=55, distinct
/// surface centers inside the overmap.
pub open spec fn cities_ok(layout: WorldgenOvermapLayoutV1, cities: Seq<WorldgenCityV1>) -> bool {
    &&& cities.len() <= MAX_WORLDGEN_CITIES
    &&& extent_fits(layout)
    &&& forall|i: int| 0 <= i < cities.len() ==> city_ok(layout, #[trigger] cities[i], i)
    &&& forall|i: int, j: int| 0 <= i < j < cities.len() ==> (#[trigger] cities[i]).center != (#[trigger] cities[j]).center
}

fn false_flags(n: usize) -> (r: Vec<bool>)
    ensures
        r@.len() == n,
        forall|i: int| 0 <= i < n ==> !r@[i],
{
    let mut flags: Vec<bool> = Vec::new();
    while flags.len() < n
        invariant
            flags@.len() <= n,
            forall|i: int| 0 <= i < flags@.len() ==> !flags@[i],
        decreases n - flags.len(),
    {
        flags.push(false);
    }
    flags
}

#[verifier::loop_isolation(false)]
pub fn valid_worldgen_cities(layout: &WorldgenOvermapLayoutV1, cities: &Vec<WorldgenCityV1>) -> (r: bool)
    ensures
        r == cities_ok(*layout, cities@),
{
    if cities.len() > MAX_WORLDGEN_CITIES || layout.origin_x > i32::MAX - 179 || layout.origin_y > i32::MAX - 179 {
        return false;
    }
    let mut seen = false_flags(32_400);
    let mut i: usize = 0;
    while i < cities.len()
        invariant
            i <= cities@.len(),
            seen@.len() == 32_400,
            forall|j: int| 0 <= j < i ==> city_ok(*layout, #[trigger] cities@[j], j),
            forall|a: int, b: int| 0 <= a < b < i ==> (#[trigger] cities@[a]).center != (#[trigger] cities@[b]).center,
            forall|c: int| 0 <= c < 32_400 ==> (#[trigger] seen@[c] <==> exists|j: int| 0 <= j < i && local_cell(*layout, (#[trigger] cities@[j]).center.x, cities@[j].center.y) == c),
        decreases cities.len() - i,
    {
        let city = cities[i];
        let index_ok = (i as u64) + 1 == city.city_id.0 as u64;
        let x = city.center.x as i64 - layout.origin_x as i64;
        let y = city.center.y as i64 - layout.origin_y as i64;
        if !index_ok || city.size < 2 || city.size > MAX_WORLDGEN_CITY_SIZE || city.center.z != 0 || x < 0 || x >= 180 || y < 0 || y >= 180 {
            return false;
        }
        let cell = (y * 180 + x) as usize;
        if seen[cell] {
            proof {
                let j = choose|j: int| 0 <= j < i && local_cell(*layout, (#[trigger] cities@[j]).center.x, cities@[j].center.y) == cell;
                assert(cities@[j].center == city.center);
            }
            return false;
        }
        seen.set(cell, true);
        proof {
            assert forall|a: int, b: int| 0 <= a < b < i + 1 implies (#[trigger] cities@[a]).center != (#[trigger] cities@[b]).center by {
                if b == i {
                    assert(city_ok(*layout, cities@[a], a));
                    if cities@[a].center == city.center {
                        assert(seen@[cell as int]) by {
                            assert(local_cell(*layout, cities@[a].center.x, cities@[a].center.y) == cell);
                        }
                    }
                }
            }
        }
        i = i + 1;
    }
    true
}

pub open spec fn on_boundary(layout: WorldgenOvermapLayoutV1, p: ChunkCoord) -> bool {
    ||| p.x == layout.origin_x
    ||| p.x == layout.origin_x + (WORLDGEN_OVERMAP_WIDTH - 1)
    ||| p.y == layout.origin_y
    ||| p.y == layout.origin_y + (WORLDGEN_OVERMAP_HEIGHT - 1)
}

pub open spec fn inside_surface(layout: WorldgenOvermapLayoutV1, p: ChunkCoord) -> bool {
    p.z == 0 && in_extent(layout, p.x, p.y)
}

pub open spec fn river_ok(layout: WorldgenOvermapLayoutV1, river: WorldgenRiverNodeV1) -> bool {
    &&& river.size > 0
    &&& river.size <= cells_per_layer()
    &&& inside_surface(layout, river.start)
    &&& inside_surface(layout, river.end)
    &&& inside_surface(layout, river.control_start)
    &&& inside_surface(layout, river.control_end)
    &&& (river.major ==> on_boundary(layout, river.start) && on_boundary(layout, river.end))
}

/// At most 64 river nodes inside the surface; major nodes run from border to border.
pub open spec fn rivers_ok(layout: WorldgenOvermapLayoutV1, rivers: Seq<WorldgenRiverNodeV1>) -> bool {
    &&& rivers.len() <= MAX_WORLDGEN_RIVER_NODES
    &&& extent_fits(layout)
    &&& forall|i: int| 0 <= i < rivers.len() ==> river_ok(layout, #[trigger] rivers[i])
}

fn point_inside_surface(layout: &WorldgenOvermapLayoutV1, p: ChunkCoord) -> (r: bool)
    ensures
        r == inside_surface(*layout, p),
{
    let x = p.x as i64 - layout.origin_x as i64;
    let y = p.y as i64 - layout.origin_y as i64;
    p.z == 0 && 0 <= x && x < 180 && 0 <= y && y < 180
}

fn point_on_boundary(layout: &WorldgenOvermapLayoutV1, p: ChunkCoord) -> (r: bool)
    requires
        extent_fits(*layout),
    ensures
        r == on_boundary(*layout, p),
{
    p.x == layout.origin_x || p.x == layout.origin_x + 179 || p.y == layout.origin_y || p.y == layout.origin_y + 179
}

pub fn valid_worldgen_rivers(layout: &WorldgenOvermapLayoutV1, rivers: &Vec<WorldgenRiverNodeV1>) -> (r: bool)
    ensures
        r == rivers_ok(*layout, rivers@),
{
    if rivers.len() > MAX_WORLDGEN_RIVER_NODES || layout.origin_x > i32::MAX - 179 || layout.origin_y > i32::MAX - 179 {
        return false;
    }
    let mut i: usize = 0;
    while i < rivers.len()
        invariant
            i <= rivers@.len(),
            extent_fits(*layout),
            forall|j: int| 0 <= j < i ==> river_ok(*layout, #[trigger] rivers@[j]),
        decreases rivers.len() - i,
    {
        let river = rivers[i];
        if !(river.size > 0 && river.size <= 32_400 && point_inside_surface(layout, river.start) && point_inside_surface(layout, river.end)
            && point_inside_surface(layout, river.control_start) && point_inside_surface(layout, river.control_end)
            && (!river.major || (point_on_boundary(layout, river.start) && point_on_boundary(layout, river.end)))) {
            return false;
        }
        i = i + 1;
    }
    true
}

pub open spec fn has_layer(layout: WorldgenOvermapLayoutV1, z: i32) -> bool {
    exists|l: int| 0 <= l < layout.layers@.len() && (#[trigger] layout.layers@[l]).z == z
}

/// An OMT owned by a special: inside the extent, on an existing layer.
pub open spec fn owned_omt_ok(layout: WorldgenOvermapLayoutV1, p: ChunkCoord) -> bool {
    in_extent(layout, p.x, p.y) && has_layer(layout, p.z)
}

pub open spec fn special_ok(layout: WorldgenOvermapLayoutV1, special: WorldgenSpecialPlacementV1, index: int) -> bool {
    &&& special.placement_id.0 == index + 1
    &&& worldgen_id_ok(special.special_id@)
    &&& inside_surface(layout, special.origin)
    &&& special.rotation < 4
    &&& special.terrain_omts@.len() > 0
    &&& (special.population matches Some(population) ==> {
        &&& worldgen_id_ok(population.group_id@)
        &&& population.population.minimum <= population.population.maximum
        &&& population.population.maximum <= 1_000_000
        &&& population.radius.minimum <= population.radius.maximum
        &&& population.radius.maximum <= WORLDGEN_OVERMAP_WIDTH
    })
    &&& forall|k: int| 0 <= k < special.terrain_omts@.len() ==> owned_omt_ok(layout, #[trigger] special.terrain_omts@[k])
}

/// Every OMT owned by the specials, in placement order.
pub open spec fn owned_omts(specials: Seq<WorldgenSpecialPlacementV1>) -> Seq<ChunkCoord>
    decreases specials.len(),
{
    if specials.len() == 0 {
        Seq::empty()
    } else {
        owned_omts(specials.drop_last()) + specials.last().terrain_omts@
    }
}

pub open spec fn coords_distinct(coords: Seq<ChunkCoord>) -> bool {
    forall|i: int, j: int| 0 <= i < j < coords.len() ==> #[trigger] coords[i] != #[trigger] coords[j]
}

/// At most 4096 specials with dense one-based IDs, each well-formed; at most
/// 65536 owned OMTs in all, no OMT owned twice, and no two globally unique
/// specials with one special ID.
pub open spec fn specials_ok(layout: WorldgenOvermapLayoutV1, specials: Seq<WorldgenSpecialPlacementV1>) -> bool {
    &&& specials.len() <= MAX_WORLDGEN_SPECIAL_PLACEMENTS
    &&& extent_fits(layout)
    &&& forall|i: int| 0 <= i < specials.len() ==> special_ok(layout, #[trigger] specials[i], i)
    &&& owned_omts(specials).len() <= MAX_WORLDGEN_SPECIAL_OMTS
    &&& coords_distinct(owned_omts(specials))
    &&& forall|a: int, b: int| 0 <= a < b < specials.len() && (#[trigger] specials[a]).uniqueness == WorldgenSpecialUniquenessV1::Global
        && (#[trigger] specials[b]).uniqueness == WorldgenSpecialUniquenessV1::Global ==> specials[a].special_id@ != specials[b].special_id@
}

fn layer_position(layout: &WorldgenOvermapLayoutV1, z: i32) -> (r: Option<usize>)
    ensures
        r is Some <==> has_layer(*layout, z),
        r matches Some(l) ==> find_layer(layout.layers@, z, 0) == Some(l as int) && l < layout.layers@.len(),
{
    let mut l: usize = 0;
    while l < layout.layers.len()
        invariant
            l <= layout.layers@.len(),
            find_layer(layout.layers@, z, 0) == find_layer(layout.layers@, z, l as int),
            forall|m: int| 0 <= m < l ==> layout.layers@[m].z != z,
        decreases layout.layers.len() - l,
    {
        if layout.layers[l].z == z {
            return Some(l);
        }
        l = l + 1;
    }
    None
}

fn special_is_valid(layout: &WorldgenOvermapLayoutV1, special: &WorldgenSpecialPlacementV1, index: usize) -> (r: bool)
    requires
        extent_fits(*layout),
        index < MAX_WORLDGEN_SPECIAL_PLACEMENTS,
    ensures
        r == special_ok(*layout, *special, index as int),
{
    if (index as u64) + 1 != special.placement_id.0 as u64 || !valid_worldgen_id(special.special_id.as_str())
        || !point_inside_surface(layout, special.origin) || special.rotation >= 4 || special.terrain_omts.len() == 0 {
        return false;
    }
    match &special.population {
        Some(population) => {
            if !valid_worldgen_id(population.group_id.as_str()) || population.population.minimum > population.population.maximum
                || population.population.maximum > 1_000_000 || population.radius.minimum > population.radius.maximum
                || population.radius.maximum > 180 {
                return false;
            }
        },
        None => {},
    }
    let mut k: usize = 0;
    while k < special.terrain_omts.len()
        invariant
            k <= special.terrain_omts@.len(),
            forall|j: int| 0 <= j < k ==> owned_omt_ok(*layout, #[trigger] special.terrain_omts@[j]),
        decreases special.terrain_omts.len() - k,
    {
        let p = special.terrain_omts[k];
        let x = p.x as i64 - layout.origin_x as i64;
        let y = p.y as i64 - layout.origin_y as i64;
        if x < 0 || x >= 180 || y < 0 || y >= 180 || layer_position(layout, p.z).is_none() {
            return false;
        }
        k = k + 1;
    }
    true
}

pub open spec fn omt_key(layout: WorldgenOvermapLayoutV1, p: ChunkCoord) -> int {
    find_layer(layout.layers@, p.z, 0).unwrap() * cells_per_layer() + local_cell(layout, p.x, p.y)
}

proof fn lemma_omt_key_injective(layout: WorldgenOvermapLayoutV1, p: ChunkCoord, q: ChunkCoord)
    requires
        owned_omt_ok(layout, p),
        owned_omt_ok(layout, q),
        omt_key(layout, p) == omt_key(layout, q),
    ensures
        p == q,
{
    let l = choose|l: int| 0 <= l < layout.layers@.len() && (#[trigger] layout.layers@[l]).z == p.z;
    let m = choose|m: int| 0 <= m < layout.layers@.len() && (#[trigger] layout.layers@[m]).z == q.z;
    lemma_find_layer(layout.layers@, p.z, 0);
    lemma_find_layer(layout.layers@, q.z, 0);
    let lp = find_layer(layout.layers@, p.z, 0).unwrap();
    let lq = find_layer(layout.layers@, q.z, 0).unwrap();
    let cp = local_cell(layout, p.x, p.y);
    let cq = local_cell(layout, q.x, q.y);
    assert(0 <= cp < 32_400 && 0 <= cq < 32_400);
    assert(lp == lq) by (nonlinear_arith)
        requires
            lp * 32_400 + cp == lq * 32_400 + cq,
            0 <= cp < 32_400,
            0 <= cq < 32_400,
    ;
    assert(cp == cq);
}

/// Whether every coordinate is distinct; all must be owned-OMT positions.
#[verifier::loop_isolation(false)]
fn owned_coords_distinct(layout: &WorldgenOvermapLayoutV1, coords: &Vec<ChunkCoord>) -> (r: bool)
    requires
        layout.layers@.len() <= MAX_WORLDGEN_OVERMAP_LAYERS,
        forall|i: int| 0 <= i < coords@.len() ==> owned_omt_ok(*layout, #[trigger] coords@[i]),
    ensures
        r == coords_distinct(coords@),
{
    let slots = layout.layers.len() * 32_400;
    let mut seen = false_flags(slots);
    let mut k: usize = 0;
    while k < coords.len()
        invariant
            k <= coords@.len(),
            seen@.len() == slots,
            forall|a: int, b: int| 0 <= a < b < k ==> #[trigger] coords@[a] != #[trigger] coords@[b],
            forall|c: int| 0 <= c < slots ==> (#[trigger] seen@[c] <==> exists|j: int| 0 <= j < k && omt_key(*layout, #[trigger] coords@[j]) == c),
        decreases coords.len() - k,
    {
        let p = coords[k];
        let l = layer_position(layout, p.z).unwrap();
        let key = l * 32_400 + ((p.y as i64 - layout.origin_y as i64) * 180 + (p.x as i64 - layout.origin_x as i64)) as usize;
        assert(key == omt_key(*layout, p));
        if seen[key] {
            proof {
                let j = choose|j: int| 0 <= j < k && omt_key(*layout, #[trigger] coords@[j]) == key;
                lemma_omt_key_injective(*layout, coords@[j], p);
            }
            return false;
        }
        seen.set(key, true);
        proof {
            assert forall|a: int, b: int| 0 <= a < b < k + 1 implies #[trigger] coords@[a] != #[trigger] coords@[b] by {
                if b == k && coords@[a] == p {
                    assert(seen@[key as int]);
                }
            }
        }
        k = k + 1;
    }
    true
}

proof fn lemma_owned_omts_extend(specials: Seq<WorldgenSpecialPlacementV1>, a: int)
    requires
        0 <= a < specials.len(),
    ensures
        owned_omts(specials.subrange(0, a + 1)) == owned_omts(specials.subrange(0, a)) + specials[a].terrain_omts@,
{
    assert(specials.subrange(0, a + 1).drop_last() =~= specials.subrange(0, a));
}

#[verifier::loop_isolation(false)]
pub fn valid_worldgen_specials(layout: &WorldgenOvermapLayoutV1, specials: &Vec<WorldgenSpecialPlacementV1>) -> (r: bool)
    requires
        layout.layers@.len() <= MAX_WORLDGEN_OVERMAP_LAYERS,
    ensures
        r == specials_ok(*layout, specials@),
{
    if specials.len() > MAX_WORLDGEN_SPECIAL_PLACEMENTS || layout.origin_x > i32::MAX - 179 || layout.origin_y > i32::MAX - 179 {
        return false;
    }
    let mut a: usize = 0;
    let mut owned: Vec<ChunkCoord> = Vec::new();
    assert(specials@.subrange(0, 0) =~= Seq::<WorldgenSpecialPlacementV1>::empty());
    while a < specials.len()
        invariant
            a <= specials@.len(),
            forall|i: int| 0 <= i < a ==> special_ok(*layout, #[trigger] specials@[i], i),
            owned@ == owned_omts(specials@.subrange(0, a as int)),
            owned@.len() <= MAX_WORLDGEN_SPECIAL_OMTS,
            forall|i: int| 0 <= i < owned@.len() ==> owned_omt_ok(*layout, #[trigger] owned@[i]),
        decreases specials.len() - a,
    {
        if !special_is_valid(layout, &specials[a], a) {
            return false;
        }
        proof {
            lemma_owned_omts_extend(specials@, a as int);
        }
        let omts = &specials[a].terrain_omts;
        if omts.len() > MAX_WORLDGEN_SPECIAL_OMTS - owned.len() {
            proof {
                lemma_owned_omts_prefix_len(specials@, a as int + 1);
            }
            return false;
        }
        let ghost before = owned@;
        let mut k: usize = 0;
        while k < omts.len()
            invariant
                k <= omts@.len(),
                owned@ == before + omts@.subrange(0, k as int),
                forall|i: int| 0 <= i < owned@.len() ==> owned_omt_ok(*layout, #[trigger] owned@[i]),
            decreases omts.len() - k,
        {
            owned.push(omts[k]);
            assert(owned@ =~= before + omts@.subrange(0, k as int + 1));
            k = k + 1;
        }
        assert(omts@.subrange(0, k as int) =~= omts@);
        a = a + 1;
    }
    assert(specials@.subrange(0, a as int) =~= specials@);
    let mut b: usize = 0;
    while b < specials.len()
        invariant
            b <= specials@.len(),
            forall|x: int, y: int| 0 <= x < y < specials@.len() && x < b && (#[trigger] specials@[x]).uniqueness == WorldgenSpecialUniquenessV1::Global
                && (#[trigger] specials@[y]).uniqueness == WorldgenSpecialUniquenessV1::Global ==> specials@[x].special_id@ != specials@[y].special_id@,
        decreases specials.len() - b,
    {
        if specials[b].uniqueness == WorldgenSpecialUniquenessV1::Global {
            let mut c: usize = b + 1;
            while c < specials.len()
                invariant
                    b < c <= specials@.len(),
                    forall|y: int| b < y < c && (#[trigger] specials@[y]).uniqueness == WorldgenSpecialUniquenessV1::Global ==> specials@[b as int].special_id@ != specials@[y].special_id@,
                decreases specials.len() - c,
            {
                if specials[c].uniqueness == WorldgenSpecialUniquenessV1::Global && crate::text::str_eq(specials[b].special_id.as_str(), specials[c].special_id.as_str()) {
                    return false;
                }
                c = c + 1;
            }
        }
        b = b + 1;
    }
    owned_coords_distinct(layout, &owned)
}

proof fn lemma_owned_omts_prefix_len(specials: Seq<WorldgenSpecialPlacementV1>, k: int)
    requires
        0 <= k <= specials.len(),
    ensures
        owned_omts(specials.subrange(0, k)).len() <= owned_omts(specials).len(),
    decreases specials.len() - k,
{
    if k < specials.len() {
        lemma_owned_omts_extend(specials, k);
        lemma_owned_omts_prefix_len(specials, k + 1);
    } else {
        assert(specials.subrange(0, k) =~= specials);
    }
}

/// A start location: a bounded ID; 1..=256 targets with bounded IDs, each
/// matching some identity of the surface layer; ordered size and distance
/// intervals; and, when it requires a city, a city whose size is admitted.
pub open spec fn start_location_ok(start: WorldgenStartLocationV1, surface: Seq<bool>, identities: Seq<WorldgenOmtIdentityV1>, cities: Seq<WorldgenCityV1>) -> bool {
    let targets = start.targets@;
    &&& worldgen_id_ok(start.start_location_id@)
    &&& targets.len() > 0
    &&& targets.len() <= MAX_WORLDGEN_START_TARGETS
    &&& start.city_sizes.minimum <= start.city_sizes.maximum
    &&& start.city_distance.minimum <= start.city_distance.maximum
    &&& (start_requires_city(start) ==> exists|c: int| 0 <= c < cities.len() && start.city_sizes.minimum <= (#[trigger] cities[c]).size <= start.city_sizes.maximum)
    &&& forall|t: int| 0 <= t < targets.len() ==> worldgen_id_ok((#[trigger] targets[t]).omt@)
    &&& forall|t: int| 0 <= t < targets.len() ==> target_on_surface(#[trigger] targets[t], surface, identities)
}

/// Whether some identity used by the surface layer matches `target`.
pub open spec fn target_on_surface(target: crate::worldgen::WorldgenStartTargetV1, surface: Seq<bool>, identities: Seq<WorldgenOmtIdentityV1>) -> bool {
    exists|i: int| 0 <= i < surface.len() && i < identities.len() && surface[i] && omt_matches(target.omt@, target.match_type, #[trigger] identities[i])
}

#[verifier::loop_isolation(false)]
pub fn valid_worldgen_start_location(
    start: &WorldgenStartLocationV1,
    surface: &Vec<bool>,
    identities: &Vec<WorldgenOmtIdentityV1>,
    cities: &Vec<WorldgenCityV1>,
) -> (r: bool)
    ensures
        r == start_location_ok(*start, surface@, identities@, cities@),
{
    let targets = &start.targets;
    if !valid_worldgen_id(start.start_location_id.as_str()) || targets.len() == 0 || targets.len() > MAX_WORLDGEN_START_TARGETS
        || start.city_sizes.minimum > start.city_sizes.maximum || start.city_distance.minimum > start.city_distance.maximum {
        return false;
    }
    if start.requires_city() {
        let mut found = false;
        let mut c: usize = 0;
        while c < cities.len()
            invariant
                c <= cities@.len(),
                found == exists|j: int| 0 <= j < c && start.city_sizes.minimum <= (#[trigger] cities@[j]).size <= start.city_sizes.maximum,
            decreases cities.len() - c,
        {
            if start.city_sizes.contains(cities[c].size as i32) {
                found = true;
            }
            c = c + 1;
        }
        if !found {
            return false;
        }
    }
    let mut t: usize = 0;
    while t < targets.len()
        invariant
            t <= targets@.len(),
            forall|j: int| 0 <= j < t ==> worldgen_id_ok((#[trigger] targets@[j]).omt@),
        decreases targets.len() - t,
    {
        if !valid_worldgen_id(targets[t].omt.as_str()) {
            return false;
        }
        t = t + 1;
    }
    let mut t: usize = 0;
    while t < targets.len()
        invariant
            t <= targets@.len(),
            forall|j: int| 0 <= j < t ==> target_on_surface(#[trigger] targets@[j], surface@, identities@),
        decreases targets.len() - t,
    {
        let mut matched = false;
        let mut i: usize = 0;
        while i < surface.len() && i < identities.len()
            invariant
                i <= surface@.len(),
                i <= identities@.len(),
                matched == exists|m: int| 0 <= m < i && surface@[m] && omt_matches(targets@[t as int].omt@, targets@[t as int].match_type, #[trigger] identities@[m]),
            decreases surface.len() - i,
        {
            if surface[i] && worldgen_omt_matches(targets[t].omt.as_str(), targets[t].match_type, &identities[i]) {
                matched = true;
            }
            i = i + 1;
        }
        if !matched {
            return false;
        }
        t = t + 1;
    }
    true
}

} // verus!
