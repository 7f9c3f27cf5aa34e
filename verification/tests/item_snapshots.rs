use protocol::ids::ItemId;
use protocol::item_snapshots::{
    item_snapshot_containment_length_millimeters, item_snapshot_has_no_contained_items,
    AmmunitionContainerPocketSnapshotV1, IntegralMagazinePocketSnapshotV1, ItemSnapshot, MagazineWellSnapshotV1,
};
use protocol::items::ItemPhaseV1;
use protocol::prototypes::{SpawnPocketKindV1, SpawnPocketRulesV1, SpawnPocketStateV1};
use protocol::text_map::TextMap;

fn snapshot(counter: u64, longest_side_millimeters: u64) -> ItemSnapshot {
    let mut item = ItemSnapshot {
        id: ItemId::new(1, counter),
        type_id: format!("item_{counter}"),
        charges: 1,
        damage: 0,
        raw_damage: 0,
        fitted: false,
        variant: None,
        snippet: None,
        variables: TextMap::new(),
        melee_damage_milli: TextMap::new(),
        calories: 0,
        quench: 0,
        comestible_type: String::new(),
        temperature: None,
        ammunition_type: String::new(),
        ranged_weapon: None,
        component_provenance: None,
        magazine_capacity: 0,
        integral_magazines: Vec::new(),
        magazine_wells: Vec::new(),
        ammunition_containers: Vec::new(),
        residual_energy_millijoules: 0,
        powered_tool: None,
        creature_corpse: None,
        containment: Default::default(),
    };
    item.containment.longest_side_millimeters = longest_side_millimeters;
    item
}

fn pocket(kind: Option<SpawnPocketKindV1>, contents: Vec<ItemSnapshot>) -> AmmunitionContainerPocketSnapshotV1 {
    AmmunitionContainerPocketSnapshotV1 {
        pocket_index: 0,
        pocket_id: String::from("CONTAINER"),
        capacities: Vec::new(),
        rigid: true,
        access_moves: 100,
        reloadable: false,
        unloadable: true,
        contents,
        spawn_state: kind.map(|kind| SpawnPocketStateV1 {
            rules: SpawnPocketRulesV1 {
                kind,
                max_contains_volume_milliliters: 1_000,
                max_contains_weight_milligrams: 1_000,
                max_item_volume_milliliters: 1_000,
                min_item_volume_milliliters: 0,
                max_item_length_millimeters: 1_000,
                item_restrictions: Vec::new(),
                flag_restrictions: Vec::new(),
                access_moves: 100,
                rigid: true,
                watertight: false,
                transparent: false,
                forbidden: false,
                sealable: false,
            },
            contents_collapsed: false,
            sealed: false,
        }),
    }
}

#[test]
fn containment_length_takes_the_longest_nested_item_outside_e_files() {
    let plain = snapshot(1, 30);
    assert_eq!(item_snapshot_containment_length_millimeters(&plain), Some(30));

    let mut bag = snapshot(2, 50);
    bag.ammunition_containers = vec![pocket(Some(SpawnPocketKindV1::Container), vec![snapshot(3, 80), snapshot(4, 20)])];
    assert!(!item_snapshot_has_no_contained_items(&bag));
    assert_eq!(item_snapshot_containment_length_millimeters(&bag), Some(80));

    let mut phone = snapshot(5, 10);
    phone.ammunition_containers = vec![pocket(Some(SpawnPocketKindV1::EFileStorage), vec![snapshot(6, 500)])];
    assert_eq!(
        item_snapshot_containment_length_millimeters(&phone),
        Some(10),
        "e-file children do not contribute to length"
    );

    let mut soft = snapshot(7, 90);
    soft.containment.flags = vec![String::from("SOFT")];
    assert!(item_snapshot_has_no_contained_items(&soft));
    assert_eq!(item_snapshot_containment_length_millimeters(&soft), Some(0));
    soft.ammunition_containers = vec![pocket(None, vec![snapshot(8, 40)])];
    assert_eq!(item_snapshot_containment_length_millimeters(&soft), Some(40), "a soft item takes its contents' length");

    let mut liquid = snapshot(9, 70);
    liquid.containment.phase = ItemPhaseV1::Liquid;
    assert_eq!(item_snapshot_containment_length_millimeters(&liquid), Some(0));

    let mut gun = snapshot(10, 25);
    gun.magazine_wells = vec![MagazineWellSnapshotV1 {
        pocket_index: 0,
        pocket_id: String::from("MAGAZINE_WELL"),
        compatible_magazine_type_ids: vec![String::from("mag")],
        rigid: true,
        unloadable: true,
        installed_magazine: Some(Box::new(snapshot(11, 35))),
    }];
    gun.integral_magazines = vec![IntegralMagazinePocketSnapshotV1 {
        pocket_index: 1,
        pocket_id: String::from("MAGAZINE"),
        ammunition_type: String::from("9mm"),
        capacity: 10,
        rigid: true,
        reloadable: true,
        unloadable: true,
        loaded_ammunition: Some(Box::new(snapshot(12, 5))),
        residual_energy_millijoules: 0,
    }];
    assert!(!item_snapshot_has_no_contained_items(&gun));
    assert_eq!(item_snapshot_containment_length_millimeters(&gun), Some(35));
}
