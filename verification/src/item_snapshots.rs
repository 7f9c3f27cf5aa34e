//! Concrete item instances with stable identities, and the items nested in
//! their pockets.

use vstd::prelude::*;

use crate::creatures::CreatureCorpseSnapshotV1;
use crate::disassembly::ItemComponentSnapshotV1;
use crate::ids::ItemId;
use crate::item_groups::{ItemSnippetV1, ItemTemperatureStateV1, ItemVariableValueV1, ItemVariantV1};
use crate::items::{item_profile_has_flag, profile_has_flag, ItemContainmentProfileV1, ItemPhaseV1};
use crate::prototypes::{
    AmmunitionCapacityV1, PoweredToolStateV1, RangedWeaponSnapshot, SpawnPocketKindV1, SpawnPocketStateV1,
};
use crate::text_map::TextMap;

verus! {

#[derive(Debug, PartialEq, Eq)]
pub struct ItemSnapshot {
    pub id: ItemId,
    pub type_id: String,
    pub charges: i32,
    /// Display damage level derived from `raw_damage`.
    pub damage: u16,
    pub raw_damage: u16,
    /// Per-instance `FIT` state.
    pub fitted: bool,
    pub variant: Option<ItemVariantV1>,
    pub snippet: Option<ItemSnippetV1>,
    pub variables: TextMap<ItemVariableValueV1>,
    pub melee_damage_milli: TextMap<i32>,
    pub calories: i32,
    pub quench: i32,
    pub comestible_type: String,
    pub temperature: Option<ItemTemperatureStateV1>,
    pub ammunition_type: String,
    pub ranged_weapon: Option<RangedWeaponSnapshot>,
    /// `Some` keeps the exact components of a reversible crafted item.
    pub component_provenance: Option<Vec<ItemComponentSnapshotV1>>,
    /// Capacity of a concrete magazine item.
    pub magazine_capacity: u32,
    pub integral_magazines: Vec<IntegralMagazinePocketSnapshotV1>,
    pub magazine_wells: Vec<MagazineWellSnapshotV1>,
    pub ammunition_containers: Vec<AmmunitionContainerPocketSnapshotV1>,
    /// Sub-charge battery energy retained after continuous draw.
    pub residual_energy_millijoules: u32,
    pub powered_tool: Option<PoweredToolStateV1>,
    /// `Some` turns the ordinary `corpse` item into a creature's corpse.
    pub creature_corpse: Option<CreatureCorpseSnapshotV1>,
    pub containment: ItemContainmentProfileV1,
}

#[derive(Debug, PartialEq, Eq)]
pub struct MagazineWellSnapshotV1 {
    pub pocket_index: u16,
    pub pocket_id: String,
    pub compatible_magazine_type_ids: Vec<String>,
    pub rigid: bool,
    pub unloadable: bool,
    pub installed_magazine: Option<Box<ItemSnapshot>>,
}

#[derive(Debug, PartialEq, Eq)]
pub struct IntegralMagazinePocketSnapshotV1 {
    pub pocket_index: u16,
    pub pocket_id: String,
    pub ammunition_type: String,
    pub capacity: u32,
    pub rigid: bool,
    pub reloadable: bool,
    pub unloadable: bool,
    pub loaded_ammunition: Option<Box<ItemSnapshot>>,
    /// Sub-charge energy retained after continuous battery draw.
    pub residual_energy_millijoules: u32,
}

#[derive(Debug, PartialEq, Eq)]
pub struct AmmunitionContainerPocketSnapshotV1 {
    pub pocket_index: u16,
    pub pocket_id: String,
    pub capacities: Vec<AmmunitionCapacityV1>,
    pub rigid: bool,
    pub access_moves: u16,
    pub reloadable: bool,
    pub unloadable: bool,
    pub contents: Vec<ItemSnapshot>,
    pub spawn_state: Option<SpawnPocketStateV1>,
}

/// No pocket of the item holds anything.
pub open spec fn holds_nothing(item: ItemSnapshot) -> bool {
    &&& forall|i: int| 0 <= i < item.integral_magazines@.len() ==> (#[trigger] item.integral_magazines@[i]).loaded_ammunition is None
    &&& forall|i: int| 0 <= i < item.magazine_wells@.len() ==> (#[trigger] item.magazine_wells@[i]).installed_magazine is None
    &&& forall|i: int| 0 <= i < item.ammunition_containers@.len() ==> (#[trigger] item.ammunition_containers@[i]).contents@.len() == 0
}

/// Whether no pocket of the item holds anything.
pub fn item_snapshot_has_no_contained_items(item: &ItemSnapshot) -> (r: bool)
    ensures
        r == holds_nothing(*item),
{
    let mut i: usize = 0;
    while i < item.integral_magazines.len()
        invariant
            i <= item.integral_magazines@.len(),
            forall|j: int| 0 <= j < i ==> (#[trigger] item.integral_magazines@[j]).loaded_ammunition is None,
        decreases item.integral_magazines.len() - i,
    {
        if item.integral_magazines[i].loaded_ammunition.is_some() {
            return false;
        }
        i = i + 1;
    }
    let mut i: usize = 0;
    while i < item.magazine_wells.len()
        invariant
            i <= item.magazine_wells@.len(),
            forall|j: int| 0 <= j < i ==> (#[trigger] item.magazine_wells@[j]).installed_magazine is None,
        decreases item.magazine_wells.len() - i,
    {
        if item.magazine_wells[i].installed_magazine.is_some() {
            return false;
        }
        i = i + 1;
    }
    let mut i: usize = 0;
    while i < item.ammunition_containers.len()
        invariant
            i <= item.ammunition_containers@.len(),
            forall|j: int| 0 <= j < i ==> (#[trigger] item.ammunition_containers@[j]).contents@.len() == 0,
        decreases item.ammunition_containers.len() - i,
    {
        if item.ammunition_containers[i].contents.len() > 0 {
            return false;
        }
        i = i + 1;
    }
    true
}

/// An item whose flags declare it soft; `SOFT` wins over `HARD`.
pub open spec fn is_soft(profile: ItemContainmentProfileV1) -> bool {
    profile_has_flag(profile, "SOFT"@)
}

pub open spec fn max_u64(a: u64, b: u64) -> u64 {
    if a >= b {
        a
    } else {
        b
    }
}

/// An e-file pocket, whose contents add no physical length.
pub open spec fn is_e_file_pocket(pocket: AmmunitionContainerPocketSnapshotV1) -> bool {
    pocket.spawn_state matches Some(state) && state.rules.kind == SpawnPocketKindV1::EFileStorage
}

/// The longest physical side an item presents: zero for a liquid or an
/// empty soft item; otherwise its own side (zero when soft) or the longest
/// nested item in a loaded magazine, installed magazine or non-e-file pocket,
/// whichever is longer.
pub open spec fn containment_length(item: ItemSnapshot) -> u64
    decreases item, 2int, 0int,
{
    if item.containment.phase == ItemPhaseV1::Liquid || (is_soft(item.containment) && holds_nothing(item)) {
        0
    } else {
        let own: u64 = if is_soft(item.containment) {
            0
        } else {
            item.containment.longest_side_millimeters
        };
        max_u64(
            max_u64(
                own,
                integral_length(item, item.integral_magazines@.len() as int),
            ),
            max_u64(
                well_length(item, item.magazine_wells@.len() as int),
                container_length(item, item.ammunition_containers@.len() as int),
            ),
        )
    }
}

/// The longest ammunition loaded in the first `k` integral magazines.
pub open spec fn integral_length(item: ItemSnapshot, k: int) -> u64
    decreases item, 1int, k,
{
    if k <= 0 || k > item.integral_magazines@.len() {
        0
    } else {
        let pocket = item.integral_magazines@[k - 1];
        let here: u64 = match pocket.loaded_ammunition {
            Some(child) => {
                proof {
                    assert(decreases_to!(item => item.integral_magazines));
                    assert(decreases_to!(item.integral_magazines => item.integral_magazines@));
                }
                containment_length(*child)
            },
            None => 0,
        };
        max_u64(integral_length(item, k - 1), here)
    }
}

/// The longest magazine installed in the first `k` wells.
pub open spec fn well_length(item: ItemSnapshot, k: int) -> u64
    decreases item, 1int, k,
{
    if k <= 0 || k > item.magazine_wells@.len() {
        0
    } else {
        let well = item.magazine_wells@[k - 1];
        let here: u64 = match well.installed_magazine {
            Some(child) => {
                proof {
                    assert(decreases_to!(item => item.magazine_wells));
                    assert(decreases_to!(item.magazine_wells => item.magazine_wells@));
                }
                containment_length(*child)
            },
            None => 0,
        };
        max_u64(well_length(item, k - 1), here)
    }
}

/// The longest item held in the first `k` container pockets, e-file pockets
/// left out.
pub open spec fn container_length(item: ItemSnapshot, k: int) -> u64
    decreases item, 1int, k,
{
    if k <= 0 || k > item.ammunition_containers@.len() {
        0
    } else {
        let pocket = item.ammunition_containers@[k - 1];
        let here: u64 = if is_e_file_pocket(pocket) {
            0
        } else {
            contents_length(item, k - 1, pocket.contents@.len() as int)
        };
        max_u64(container_length(item, k - 1), here)
    }
}

/// The longest of the first `c` items in container pocket `p`.
pub open spec fn contents_length(item: ItemSnapshot, p: int, c: int) -> u64
    decreases item, 0int, c,
{
    if p < 0 || p >= item.ammunition_containers@.len() || c <= 0 || c > item.ammunition_containers@[p].contents@.len() {
        0
    } else {
        proof {
            assert(decreases_to!(item => item.ammunition_containers));
            assert(decreases_to!(item.ammunition_containers => item.ammunition_containers@));
            assert(decreases_to!(item.ammunition_containers@[p].contents => item.ammunition_containers@[p].contents@));
        }
        let child = item.ammunition_containers@[p].contents@[c - 1];
        max_u64(contents_length(item, p, c - 1), containment_length(child))
    }
}

fn max_of(a: u64, b: u64) -> (r: u64)
    ensures
        r == max_u64(a, b),
{
    if a >= b {
        a
    } else {
        b
    }
}

/// The physical length an item presents to a pocket it is put in; e-file
/// contents add none.
pub fn item_snapshot_containment_length_millimeters(item: &ItemSnapshot) -> (r: Option<u64>)
    ensures
        r == Some(containment_length(*item)),
    decreases item,
{
    let soft = item_profile_has_flag(&item.containment, "SOFT");
    if item.containment.phase == ItemPhaseV1::Liquid || (soft && item_snapshot_has_no_contained_items(item)) {
        return Some(0);
    }
    let own: u64 = if soft {
        0
    } else {
        item.containment.longest_side_millimeters
    };
    let mut integral: u64 = 0;
    let mut i: usize = 0;
    while i < item.integral_magazines.len()
        invariant
            i <= item.integral_magazines@.len(),
            integral == integral_length(*item, i as int),
        decreases item.integral_magazines.len() - i,
    {
        let here: u64 = match &item.integral_magazines[i].loaded_ammunition {
            Some(child) => {
                proof {
                    assert(decreases_to!(item => item.integral_magazines));
                    assert(decreases_to!(item.integral_magazines => item.integral_magazines@));
                }
                match item_snapshot_containment_length_millimeters(child) {
                    Some(l) => l,
                    None => 0,
                }
            },
            None => 0,
        };
        integral = max_of(integral, here);
        i = i + 1;
    }
    let mut wells: u64 = 0;
    let mut i: usize = 0;
    while i < item.magazine_wells.len()
        invariant
            i <= item.magazine_wells@.len(),
            wells == well_length(*item, i as int),
        decreases item.magazine_wells.len() - i,
    {
        let here: u64 = match &item.magazine_wells[i].installed_magazine {
            Some(child) => {
                proof {
                    assert(decreases_to!(item => item.magazine_wells));
                    assert(decreases_to!(item.magazine_wells => item.magazine_wells@));
                }
                match item_snapshot_containment_length_millimeters(child) {
                    Some(l) => l,
                    None => 0,
                }
            },
            None => 0,
        };
        wells = max_of(wells, here);
        i = i + 1;
    }
    let mut containers: u64 = 0;
    let mut p: usize = 0;
    while p < item.ammunition_containers.len()
        invariant
            p <= item.ammunition_containers@.len(),
            containers == container_length(*item, p as int),
        decreases item.ammunition_containers.len() - p,
    {
        let pocket = &item.ammunition_containers[p];
        let e_file = match &pocket.spawn_state {
            Some(state) => state.rules.kind == SpawnPocketKindV1::EFileStorage,
            None => false,
        };
        let mut here: u64 = 0;
        if !e_file {
            let mut c: usize = 0;
            while c < pocket.contents.len()
                invariant
                    p < item.ammunition_containers@.len(),
                    *pocket == item.ammunition_containers@[p as int],
                    c <= pocket.contents@.len(),
                    here == contents_length(*item, p as int, c as int),
                decreases pocket.contents.len() - c,
            {
                proof {
                    assert(decreases_to!(item => item.ammunition_containers));
                    assert(decreases_to!(item.ammunition_containers => item.ammunition_containers@));
                    assert(decreases_to!(pocket.contents => pocket.contents@));
                }
                let l = match item_snapshot_containment_length_millimeters(&pocket.contents[c]) {
                    Some(l) => l,
                    None => 0,
                };
                here = max_of(here, l);
                c = c + 1;
            }
        }
        containers = max_of(containers, here);
        p = p + 1;
    }
    Some(max_of(max_of(own, integral), max_of(wells, containers)))
}

} // verus!
