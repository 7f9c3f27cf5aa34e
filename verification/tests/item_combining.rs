use protocol::disassembly::ItemComponentSnapshotV1;
use protocol::ids::ItemId;
use protocol::item_combining::item_snapshots_can_combine_for_containment;
use protocol::item_snapshots::{AmmunitionContainerPocketSnapshotV1, ItemSnapshot};
use protocol::text_map::TextMap;

fn stack(counter: u64, charges: i32) -> ItemSnapshot {
    let mut item = ItemSnapshot {
        id: ItemId::new(1, counter),
        type_id: String::from("9mm"),
        charges,
        damage: 0,
        raw_damage: 0,
        fitted: false,
        variant: None,
        snippet: None,
        variables: TextMap::new(),
        melee_damage_milli: TextMap::new(),
        calories: 0,
        quench: 0,
        comestible_type: String::new(),
        temperature: None,
        ammunition_type: String::from("9mm"),
        ranged_weapon: None,
        component_provenance: None,
        magazine_capacity: 0,
        integral_magazines: Vec::new(),
        magazine_wells: Vec::new(),
        ammunition_containers: Vec::new(),
        residual_energy_millijoules: 0,
        powered_tool: None,
        creature_corpse: None,
        containment: Default::default(),
    };
    item.containment.count_by_charges = true;
    item.containment.volume_milliliters = 1;
    item
}

fn component(type_id: &str) -> ItemComponentSnapshotV1 {
    ItemComponentSnapshotV1 {
        type_id: String::from(type_id),
        charges: 1,
        damage: 0,
        raw_damage: 0,
        fitted: false,
        variant: None,
        snippet: None,
        variables: TextMap::new(),
        melee_damage_milli: TextMap::new(),
        calories: 0,
        quench: 0,
        comestible_type: String::new(),
        temperature: None,
        ammunition_type: String::new(),
        ranged_weapon: None,
        count_by_charges: false,
        recoverable: true,
        component_provenance: None,
        magazine_capacity: 0,
        integral_magazines: Vec::new(),
        magazine_wells: Vec::new(),
        ammunition_containers: Vec::new(),
        residual_energy_millijoules: 0,
        powered_tool: None,
        containment: Default::default(),
    }
}

fn empty_pocket(contents: Vec<ItemSnapshot>) -> AmmunitionContainerPocketSnapshotV1 {
    AmmunitionContainerPocketSnapshotV1 {
        pocket_index: 0,
        pocket_id: String::from("CONTAINER"),
        capacities: Vec::new(),
        rigid: true,
        access_moves: 100,
        reloadable: false,
        unloadable: true,
        contents,
        spawn_state: None,
    }
}

#[test]
fn stacks_differing_only_in_identity_and_charges_combine_either_way() {
    let left = stack(1, 10);
    let right = stack(2, 35);
    assert!(item_snapshots_can_combine_for_containment(&left, &right));
    assert!(item_snapshots_can_combine_for_containment(&right, &left));
}

#[test]
fn stacks_that_do_not_count_by_charges_never_combine() {
    let mut left = stack(1, 1);
    let mut right = stack(2, 1);
    left.containment.count_by_charges = false;
    right.containment.count_by_charges = false;
    assert!(!item_snapshots_can_combine_for_containment(&left, &right));
}

#[test]
fn stacks_that_differ_in_any_other_property_do_not_combine() {
    let left = stack(1, 10);
    let mut right = stack(2, 10);
    right.type_id = String::from("45acp");
    assert!(!item_snapshots_can_combine_for_containment(&left, &right));

    let mut right = stack(2, 10);
    right.damage = 1;
    assert!(!item_snapshots_can_combine_for_containment(&left, &right));

    let mut right = stack(2, 10);
    right.containment.flags = vec![String::from("SOFT")];
    assert!(!item_snapshots_can_combine_for_containment(&left, &right));

    let mut with_parts = stack(3, 10);
    with_parts.component_provenance = Some(vec![component("casing")]);
    assert!(!item_snapshots_can_combine_for_containment(&left, &with_parts));
    let mut same_parts = stack(4, 2);
    same_parts.component_provenance = Some(vec![component("casing")]);
    assert!(item_snapshots_can_combine_for_containment(&with_parts, &same_parts));
    same_parts.component_provenance = Some(vec![component("primer")]);
    assert!(!item_snapshots_can_combine_for_containment(&with_parts, &same_parts));
}

#[test]
fn a_stack_that_owns_contents_does_not_combine() {
    let left = stack(1, 10);
    let mut right = stack(2, 10);
    right.ammunition_containers = vec![empty_pocket(vec![stack(3, 1)])];
    assert!(!item_snapshots_can_combine_for_containment(&left, &right));
    right.ammunition_containers = vec![empty_pocket(Vec::new())];
    assert!(!item_snapshots_can_combine_for_containment(&left, &right), "pocket layouts differ");
    let mut left = left;
    left.ammunition_containers = vec![empty_pocket(Vec::new())];
    assert!(item_snapshots_can_combine_for_containment(&left, &right));
}
