use protocol::item_group_catalog::{
    item_group_catalog_is_valid, item_group_source_max_outputs, item_group_source_metrics,
    item_group_sources_are_valid,
};
use protocol::bash::{FurnitureBashTypeV1, TerrainBashTypeV1};
use protocol::item_group_closure::item_group_sources_have_exact_named_closure;
use protocol::world_item_groups::item_groups_are_valid;
use protocol::worldgen::TerrainTileSnapshot;
use protocol::item_group_types::{
    InclusiveI32RangeV1, InclusiveU16RangeV1, ItemGroupContainerV1, ItemGroupContentsSourceV1,
    ItemGroupDefinitionV1, ItemGroupEntryV1, ItemGroupEventV1, ItemGroupGraphV1, ItemGroupItemPrototypeV1,
    ItemGroupKindV1, ItemGroupNodeV1, ItemGroupOverflowV1, ItemGroupSourceV1, ItemGroupTargetV1,
    ItemGroupToolChargeStorageV1, MAX_ITEM_GROUP_DEFINITIONS, MAX_ITEM_GROUP_DEPTH, MAX_ITEM_GROUP_NODES,
    MAX_ITEM_GROUP_OUTPUTS,
};
use protocol::prototypes::{
    valid_craft_item_prototype, AmmunitionCapacityV1, AmmunitionContainerPocketPrototypeV1,
    IntegralMagazinePocketPrototypeV1, SpawnPocketKindV1, SpawnPocketRulesV1,
};
use protocol::item_groups::{
    item_variant_is_valid, ItemGroupVariantOptionV1, ItemVariableValueV1, ItemVariantV1, MAX_ITEM_VARIANTS,
};
use protocol::items::MAX_ITEM_RAW_DAMAGE;
use protocol::prototypes::{CraftItemPrototypeV1, MAX_ITEM_COMPONENT_DEPTH};
use protocol::text_map::TextMap;

fn item(type_id: &str) -> ItemGroupItemPrototypeV1 {
    ItemGroupItemPrototypeV1 {
        prototype: CraftItemPrototypeV1 {
            type_id: type_id.to_owned(),
            charges: 1,
            melee_damage_milli: TextMap::new(),
            calories: 0,
            quench: 0,
            comestible_type: String::new(),
            tracks_temperature: false,
            ammunition_type: String::new(),
            ranged_weapon: None,
            magazine_capacity: 0,
            integral_magazines: Vec::new(),
            magazine_wells: Vec::new(),
            ammunition_containers: Vec::new(),
            residual_energy_millijoules: 0,
            powered_tool: None,
            containment: Default::default(),
        },
        maximum_raw_damage: 0,
        variants: Vec::new(),
        description_expansion: None,
        snippets: Vec::new(),
        initial_variables: TextMap::new(),
        default_container: None,
        modifier_side_effects_supported: true,
        charges: None,
        minimum_one_charge: false,
        tool_charge_storage: None,
        charges_supported: true,
        modifier_container_capacity_applies: true,
        contents_insertion_supported: true,
    }
}

fn item_group_item(type_id: &str) -> ItemGroupTargetV1 {
    ItemGroupTargetV1::Item(Box::new(item(type_id)))
}

fn item_group_entry(probability: u32, count_min: u16, count_max: u16, target: ItemGroupTargetV1) -> ItemGroupEntryV1 {
    ItemGroupEntryV1 {
        probability,
        count_min,
        count_max,
        raw_damage: None,
        variant_id: None,
        event: None,
        target,
        modifier_charges: None,
        contents: Vec::new(),
        seal_contents: false,
        modifier_default_container_sealed: None,
        direct_wrapper: None,
        modifier_container: None,
    }
}

fn item_group_modifier_entry(
    probability: u32,
    count_min: u16,
    count_max: u16,
    target: ItemGroupTargetV1,
) -> ItemGroupEntryV1 {
    ItemGroupEntryV1 {
        raw_damage: Some(zero_damage()),
        ..item_group_entry(probability, count_min, count_max, target)
    }
}

fn zero_damage() -> InclusiveU16RangeV1 {
    InclusiveU16RangeV1 {
        minimum: 0,
        maximum: 0,
    }
}

fn single_node(group_id: &str, kind: ItemGroupKindV1, entries: Vec<ItemGroupEntryV1>) -> ItemGroupDefinitionV1 {
    ItemGroupDefinitionV1 {
        group_id: group_id.to_owned(),
        graph: ItemGroupGraphV1 {
            root_node: 0,
            nodes: vec![ItemGroupNodeV1 {
                node_id: 0,
                kind,
                entries,
            }],
            wrapper: None,
        },
    }
}

fn direct_item_definition(group_id: &str, target: ItemGroupTargetV1) -> ItemGroupDefinitionV1 {
    single_node(group_id, ItemGroupKindV1::Collection, vec![item_group_entry(100, 1, 1, target)])
}

fn named_cycle(group_id: &str, target: &str) -> ItemGroupDefinitionV1 {
    single_node(
        group_id,
        ItemGroupKindV1::Distribution,
        vec![item_group_entry(1, 1, 1, ItemGroupTargetV1::Group(target.to_owned()))],
    )
}

fn variant(id: &str, weight: u32) -> ItemGroupVariantOptionV1 {
    ItemGroupVariantOptionV1 {
        variant: ItemVariantV1 {
            id: id.to_owned(),
            name: format!("{id} name"),
            description: String::new(),
            symbol: String::new(),
            color: String::new(),
            ascii_picture: String::new(),
        },
        weight,
        description_expansion: None,
    }
}

fn item_with_variants(type_id: &str, variants: Vec<ItemGroupVariantOptionV1>) -> ItemGroupTargetV1 {
    let mut prototype = item(type_id);
    prototype.variants = variants;
    ItemGroupTargetV1::Item(Box::new(prototype))
}

fn item_group_chain(nodes: usize) -> ItemGroupDefinitionV1 {
    let nodes = (0..nodes)
        .map(|index| ItemGroupNodeV1 {
            node_id: u16::try_from(index).expect("test graph is small"),
            kind: ItemGroupKindV1::Collection,
            entries: vec![item_group_entry(
                100,
                1,
                1,
                if index + 1 == nodes {
                    item_group_item("chain_leaf")
                } else {
                    ItemGroupTargetV1::Node(u16::try_from(index + 1).expect("test graph is small"))
                },
            )],
        })
        .collect();
    ItemGroupDefinitionV1 {
        group_id: String::from("chain"),
        graph: ItemGroupGraphV1 {
            root_node: 0,
            nodes,
            wrapper: None,
        },
    }
}

fn recursive_catalog() -> Vec<ItemGroupDefinitionV1> {
    let mut charged = item("nail");
    charged.charges = Some(InclusiveI32RangeV1 {
        minimum: 0,
        maximum: 12,
    });
    charged.minimum_one_charge = true;
    let leaf = single_node(
        "a_leaf",
        ItemGroupKindV1::Distribution,
        vec![item_group_modifier_entry(250, 1, 3, ItemGroupTargetV1::Item(Box::new(charged)))],
    );
    let root = ItemGroupDefinitionV1 {
        group_id: String::from("b_root"),
        graph: ItemGroupGraphV1 {
            root_node: 0,
            nodes: vec![
                ItemGroupNodeV1 {
                    node_id: 0,
                    kind: ItemGroupKindV1::Collection,
                    entries: vec![
                        item_group_entry(100, 1, 1, ItemGroupTargetV1::Group(String::from("a_leaf"))),
                        item_group_entry(100, 1, 1, ItemGroupTargetV1::Group(String::from("a_leaf"))),
                        item_group_entry(25, 1, 1, ItemGroupTargetV1::Node(1)),
                    ],
                },
                ItemGroupNodeV1 {
                    node_id: 1,
                    kind: ItemGroupKindV1::Distribution,
                    entries: vec![item_group_entry(1, 1, 1, item_group_item("splinter"))],
                },
            ],
            wrapper: None,
        },
    };
    let holidays = [
        ItemGroupEventV1::NewYear,
        ItemGroupEventV1::Easter,
        ItemGroupEventV1::IndependenceDay,
        ItemGroupEventV1::Halloween,
        ItemGroupEventV1::Thanksgiving,
        ItemGroupEventV1::Christmas,
    ];
    let holiday_group = single_node(
        "c_holidays",
        ItemGroupKindV1::Distribution,
        holidays
            .into_iter()
            .map(|event| {
                let mut entry = item_group_entry(1, 1, 1, item_group_item("holiday_token"));
                entry.event = Some(event);
                entry
            })
            .collect(),
    );
    vec![leaf, root, holiday_group]
}

#[test]
fn item_group_graph_round_trips_and_computes_recursive_output_bound() {
    let catalog = recursive_catalog();
    assert!(item_group_catalog_is_valid(&catalog));
    assert_eq!(
        item_group_source_max_outputs(&ItemGroupSourceV1::Group(String::from("b_root")), &catalog),
        Some(7)
    );
    let inline = ItemGroupSourceV1::Inline(ItemGroupGraphV1 {
        root_node: 4,
        nodes: vec![ItemGroupNodeV1 {
            node_id: 4,
            kind: ItemGroupKindV1::Distribution,
            entries: vec![item_group_entry(1, 1, 1, ItemGroupTargetV1::Group(String::from("b_root")))],
        }],
        wrapper: None,
    });
    assert_eq!(item_group_source_max_outputs(&inline, &catalog), Some(7));
}

#[test]
fn item_group_variables_cannot_override_unprojected_physical_dimensions() {
    for reserved in ["weight", "integral_weight", "volume"] {
        let mut prototype = item("reserved_variable");
        prototype.initial_variables.insert(reserved.to_owned(), ItemVariableValueV1::Integer(1));
        let catalog = vec![direct_item_definition(
            "reserved_variable_group",
            ItemGroupTargetV1::Item(Box::new(prototype)),
        )];
        assert!(!item_group_catalog_is_valid(&catalog), "reserved variable {reserved} must fail closed");
    }
}

#[test]
fn item_group_validation_rejects_cycles_missing_refs_and_invalid_ranges() {
    let local_cycle = single_node(
        "local_cycle",
        ItemGroupKindV1::Collection,
        vec![item_group_entry(100, 1, 1, ItemGroupTargetV1::Node(0))],
    );
    assert!(!item_group_catalog_is_valid(&[local_cycle]));
    assert!(!item_group_catalog_is_valid(&[named_cycle("a", "b"), named_cycle("b", "a")]));
    assert!(!item_group_catalog_is_valid(&[named_cycle("missing", "absent")]));

    let mut invalid = item("nail");
    invalid.charges = Some(InclusiveI32RangeV1 {
        minimum: -2,
        maximum: 3,
    });
    let invalid_charges = direct_item_definition("invalid_charges", ItemGroupTargetV1::Item(Box::new(invalid)));
    assert!(!item_group_catalog_is_valid(&[invalid_charges]));

    let mut fixed_zero_damage = direct_item_definition("fixed_zero_damage", item_group_item("rock"));
    fixed_zero_damage.graph.nodes[0].entries[0].raw_damage = Some(zero_damage());
    assert!(item_group_catalog_is_valid(std::slice::from_ref(&fixed_zero_damage)));
    fixed_zero_damage.graph.nodes[0].entries[0].raw_damage = Some(InclusiveU16RangeV1 {
        minimum: 0,
        maximum: MAX_ITEM_RAW_DAMAGE + 1,
    });
    assert!(!item_group_catalog_is_valid(&[fixed_zero_damage]));

    let mut capped = item("damageable");
    capped.maximum_raw_damage = MAX_ITEM_RAW_DAMAGE;
    assert!(item_group_catalog_is_valid(&[direct_item_definition(
        "exact_damage_cap",
        ItemGroupTargetV1::Item(Box::new(capped)),
    )]));
    let mut invented = item("damageable");
    invented.maximum_raw_damage = 123;
    assert!(
        !item_group_catalog_is_valid(&[direct_item_definition(
            "invented_damage_cap",
            ItemGroupTargetV1::Item(Box::new(invented)),
        )]),
        "item damage caps are exactly zero or the global maximum"
    );

    assert!(
        !item_variant_is_valid(&variant("<any>", 1).variant),
        "the modifier sentinel is not a selectable variant identity"
    );
    assert!(item_group_catalog_is_valid(&[direct_item_definition(
        "maximum_variant_weight",
        item_with_variants("variant_item", vec![variant("maximum", i32::MAX as u32), variant("zero", 0)]),
    )]));
    assert!(
        !item_group_catalog_is_valid(&[direct_item_definition(
            "overflowed_variant_weight",
            item_with_variants("variant_item", vec![variant("maximum", i32::MAX as u32), variant("zero", 1)]),
        )]),
        "the signed-int constructor weight sum must not overflow"
    );

    let maximum_variants: Vec<ItemGroupVariantOptionV1> =
        (0..MAX_ITEM_VARIANTS).map(|index| variant(&format!("variant_{index}"), 1)).collect();
    assert!(item_group_catalog_is_valid(&[direct_item_definition(
        "maximum_unique_variants",
        item_with_variants("maximum_variants", maximum_variants.clone()),
    )]));
    let mut duplicated = maximum_variants;
    duplicated[MAX_ITEM_VARIANTS - 1].variant.id = String::from("variant_0");
    assert!(
        !item_group_catalog_is_valid(&[direct_item_definition(
            "duplicate_maximum_variants",
            item_with_variants("maximum_variants", duplicated),
        )]),
        "duplicate IDs must reject at the maximum bounded shape"
    );

    let mut missing_count_marker = single_node(
        "missing_count_marker",
        ItemGroupKindV1::Collection,
        vec![item_group_entry(100, 1, 2, item_group_item("rock"))],
    );
    assert!(!item_group_catalog_is_valid(std::slice::from_ref(&missing_count_marker)));
    missing_count_marker.graph.nodes[0].entries[0].raw_damage = Some(zero_damage());
    assert!(item_group_catalog_is_valid(&[missing_count_marker]));

    let mut nail = item("nail");
    nail.charges = Some(InclusiveI32RangeV1 {
        minimum: 4,
        maximum: 16,
    });
    let mut missing_charge_marker =
        direct_item_definition("missing_charge_marker", ItemGroupTargetV1::Item(Box::new(nail)));
    assert!(!item_group_catalog_is_valid(std::slice::from_ref(&missing_charge_marker)));
    missing_charge_marker.graph.nodes[0].entries[0].raw_damage = Some(zero_damage());
    assert!(item_group_catalog_is_valid(&[missing_charge_marker]));

    let null_item = direct_item_definition("null_item", item_group_item("null"));
    assert!(
        !item_group_catalog_is_valid(&[null_item]),
        "concrete null leaves are discarded rather than materialized"
    );

    let mut local_modifier = ItemGroupDefinitionV1 {
        group_id: String::from("local_modifier"),
        graph: ItemGroupGraphV1 {
            root_node: 0,
            nodes: vec![
                ItemGroupNodeV1 {
                    node_id: 0,
                    kind: ItemGroupKindV1::Collection,
                    entries: vec![item_group_entry(100, 1, 1, ItemGroupTargetV1::Node(1))],
                },
                ItemGroupNodeV1 {
                    node_id: 1,
                    kind: ItemGroupKindV1::Collection,
                    entries: vec![item_group_entry(100, 1, 1, item_group_item("rock"))],
                },
            ],
            wrapper: None,
        },
    };
    assert!(item_group_catalog_is_valid(std::slice::from_ref(&local_modifier)));
    local_modifier.graph.nodes[0].entries[0].raw_damage = Some(zero_damage());
    assert!(
        !item_group_catalog_is_valid(&[local_modifier]),
        "local group objects return before leaf modifiers are parsed"
    );

    let named_modifier = || {
        let mut definition = named_cycle("named_modifier", "named_target");
        definition.graph.nodes[0].entries[0].raw_damage = Some(zero_damage());
        definition
    };
    let named_target = || direct_item_definition("named_target", item_group_item("rock"));
    assert!(
        item_group_catalog_is_valid(&[named_modifier(), named_target()]),
        "named modifiers are applied to each completed child output"
    );
    let mut unsafe_named_target = named_target();
    let ItemGroupTargetV1::Item(leaf) = &mut unsafe_named_target.graph.nodes[0].entries[0].target else {
        unreachable!("fixture is a direct item")
    };
    leaf.modifier_side_effects_supported = false;
    assert!(
        !item_group_catalog_is_valid(&[named_modifier(), unsafe_named_target]),
        "named modifiers must not reach leaves with unrepresented side effects"
    );

    let charged_food_group = |minimum_one_charge| {
        let mut food = item("food");
        food.prototype.comestible_type = String::from("FOOD");
        food.charges = Some(InclusiveI32RangeV1 {
            minimum: 0,
            maximum: 0,
        });
        food.minimum_one_charge = minimum_one_charge;
        let mut definition = direct_item_definition("charged_food", ItemGroupTargetV1::Item(Box::new(food)));
        definition.graph.nodes[0].entries[0].raw_damage = Some(zero_damage());
        definition
    };
    assert!(item_group_catalog_is_valid(&[charged_food_group(true)]));
    assert!(!item_group_catalog_is_valid(&[charged_food_group(false)]));

    let mut magazine = item("magazine");
    magazine.prototype.ammunition_type = String::from("9mm");
    magazine.prototype.magazine_capacity = 10;
    magazine.charges = Some(InclusiveI32RangeV1 {
        minimum: 0,
        maximum: 11,
    });
    let overfilled_magazine =
        direct_item_definition("overfilled_magazine", ItemGroupTargetV1::Item(Box::new(magazine)));
    assert!(!item_group_catalog_is_valid(&[overfilled_magazine]));

    let overflowed_weights = single_node(
        "weights",
        ItemGroupKindV1::Distribution,
        vec![
            item_group_entry(u32::MAX, 1, 1, item_group_item("rock")),
            item_group_entry(1, 1, 1, item_group_item("stick")),
        ],
    );
    assert!(!item_group_catalog_is_valid(&[overflowed_weights]));
}

fn open_container_rules() -> SpawnPocketRulesV1 {
    SpawnPocketRulesV1 {
        kind: SpawnPocketKindV1::Container,
        max_contains_volume_milliliters: u64::MAX,
        max_contains_weight_milligrams: u64::MAX,
        max_item_volume_milliliters: u64::MAX,
        min_item_volume_milliliters: 0,
        max_item_length_millimeters: u64::MAX,
        item_restrictions: Vec::new(),
        flag_restrictions: Vec::new(),
        access_moves: 100,
        rigid: true,
        watertight: false,
        transparent: false,
        forbidden: false,
        sealable: false,
    }
}

fn contents_pocket() -> AmmunitionContainerPocketPrototypeV1 {
    AmmunitionContainerPocketPrototypeV1 {
        pocket_index: 0,
        pocket_id: String::from("CONTENTS"),
        capacities: Vec::new(),
        rigid: true,
        access_moves: 100,
        reloadable: false,
        unloadable: true,
        spawn_rules: Some(open_container_rules()),
    }
}

fn item_group_wrapper(type_id: &str, overflow: ItemGroupOverflowV1) -> ItemGroupContainerV1 {
    let mut wrapper = item(type_id);
    wrapper.prototype.ammunition_containers = vec![contents_pocket()];
    ItemGroupContainerV1 {
        item: Box::new(wrapper),
        variant_id: None,
        sealed: false,
        overflow,
    }
}

fn charged_tool(ammunition_type: &str, ammunition_magazine_capacity: u32) -> ItemGroupTargetV1 {
    let mut tool = item("charged_tool");
    tool.prototype.charges = 0;
    tool.modifier_container_capacity_applies = false;
    tool.prototype.integral_magazines = vec![IntegralMagazinePocketPrototypeV1 {
        pocket_index: 0,
        pocket_id: String::from("BATTERY"),
        ammunition_type: String::from("battery"),
        capacity: 5,
        rigid: true,
        reloadable: false,
        unloadable: false,
    }];
    let mut ammunition = item("battery").prototype;
    ammunition.ammunition_type = ammunition_type.to_owned();
    ammunition.magazine_capacity = ammunition_magazine_capacity;
    tool.tool_charge_storage = Some(ItemGroupToolChargeStorageV1::Integral { ammunition });
    ItemGroupTargetV1::Item(Box::new(tool))
}

fn charge_parent(minimum: i32, maximum: i32, child: &str, parent: &str) -> ItemGroupDefinitionV1 {
    let mut modifier = item_group_modifier_entry(100, 1, 1, ItemGroupTargetV1::Group(child.to_owned()));
    modifier.modifier_charges = Some(InclusiveI32RangeV1 { minimum, maximum });
    single_node(parent, ItemGroupKindV1::Collection, vec![modifier])
}

fn unsupported_payload() -> ItemGroupTargetV1 {
    let mut payload = item("unsupported_payload");
    payload.modifier_side_effects_supported = false;
    payload.charges_supported = false;
    ItemGroupTargetV1::Item(Box::new(payload))
}

fn wrapped_child(overflow: ItemGroupOverflowV1) -> ItemGroupDefinitionV1 {
    let mut entry = item_group_entry(100, 1, 1, unsupported_payload());
    entry.direct_wrapper = Some(item_group_wrapper("safe_direct_case", overflow));
    single_node("a_wrapped_child", ItemGroupKindV1::Collection, vec![entry])
}

fn wrapped_parent() -> ItemGroupDefinitionV1 {
    single_node(
        "b_wrapped_parent",
        ItemGroupKindV1::Collection,
        vec![item_group_modifier_entry(100, 1, 1, ItemGroupTargetV1::Group(String::from("a_wrapped_child")))],
    )
}

#[test]
fn named_item_group_metrics_follow_charge_candidates_and_result_wrappers() {
    let charge_catalog = vec![
        direct_item_definition("a_charged_child", charged_tool("battery", 0)),
        charge_parent(2, 2, "a_charged_child", "b_charge_parent"),
    ];
    let charge_source = ItemGroupSourceV1::Group(String::from("b_charge_parent"));
    let metrics = item_group_source_metrics(&charge_source, &charge_catalog)
        .map(|m| (m.outputs, m.containment_depth, m.charge_ammunition_candidates));
    assert_eq!(metrics, Some((2, 1, 1)), "a parent charge modifier materializes one nested ammunition object");
    assert!(!item_group_catalog_is_valid(&[direct_item_definition("a_charged_child", charged_tool("plutonium", 0))]));
    assert!(!item_group_catalog_is_valid(&[direct_item_definition("a_charged_child", charged_tool("battery", 1))]));

    assert!(
        item_group_catalog_is_valid(&[wrapped_child(ItemGroupOverflowV1::Unset), wrapped_parent()]),
        "a non-spill direct wrapper replaces the modified top-level item"
    );
    assert!(
        !item_group_catalog_is_valid(&[wrapped_child(ItemGroupOverflowV1::Spill), wrapped_parent()]),
        "spill results retain the unsupported payload beside the safe wrapper"
    );

    let mut unsafe_wrapper = item_group_wrapper("unsafe_modifier_case", ItemGroupOverflowV1::Unset);
    unsafe_wrapper.item.modifier_side_effects_supported = false;
    let mut modifier_wrapped_entry = item_group_modifier_entry(100, 1, 1, item_group_item("safe_payload"));
    modifier_wrapped_entry.modifier_container = Some(unsafe_wrapper);
    let modifier_wrapped_child =
        single_node("a_wrapped_child", ItemGroupKindV1::Collection, vec![modifier_wrapped_entry]);
    assert!(
        !item_group_catalog_is_valid(&[modifier_wrapped_child, wrapped_parent()]),
        "a modifier container becomes the completed top-level child"
    );

    let mut charge_unsafe_wrapper = item_group_wrapper("charge_unsafe_case", ItemGroupOverflowV1::Unset);
    charge_unsafe_wrapper.item.charges_supported = false;
    let mut graph_wrapped_child = direct_item_definition("a_graph_wrapped_child", item_group_item("charge_safe_payload"));
    graph_wrapped_child.graph.wrapper = Some(charge_unsafe_wrapper);
    let graph_charge_parent = charge_parent(1, 1, "a_graph_wrapped_child", "b_graph_charge_parent");
    assert!(
        !item_group_catalog_is_valid(&[graph_wrapped_child, graph_charge_parent]),
        "a whole-group wrapper supplies the authoritative charge capability"
    );

    let mut ignored_direct_charge = item_group_modifier_entry(100, 1, 1, item_group_item("direct_charge_target"));
    ignored_direct_charge.modifier_charges = Some(InclusiveI32RangeV1 {
        minimum: 1,
        maximum: 1,
    });
    assert!(
        !item_group_catalog_is_valid(&[single_node(
            "ignored_direct_charge",
            ItemGroupKindV1::Collection,
            vec![ignored_direct_charge],
        )]),
        "direct charges belong on the item prototype and cannot be silently ignored"
    );
}

fn contents_definition(target: ItemGroupTargetV1, contents: ItemGroupItemPrototypeV1) -> ItemGroupDefinitionV1 {
    single_node(
        "contents_projection",
        ItemGroupKindV1::Collection,
        vec![ItemGroupEntryV1 {
            contents: vec![ItemGroupContentsSourceV1::Item(Box::new(contents))],
            ..item_group_modifier_entry(100, 1, 1, target)
        }],
    )
}

fn phone(efile_rigid: bool) -> ItemGroupItemPrototypeV1 {
    let mut phone = item("phone");
    let mut efile_rules = open_container_rules();
    efile_rules.kind = SpawnPocketKindV1::EFileStorage;
    efile_rules.rigid = efile_rigid;
    phone.prototype.ammunition_containers = vec![
        AmmunitionContainerPocketPrototypeV1 {
            pocket_index: 0,
            pocket_id: String::from("BATTERY"),
            capacities: vec![AmmunitionCapacityV1 {
                ammunition_type: String::from("battery"),
                capacity: 1,
            }],
            rigid: true,
            access_moves: 100,
            reloadable: true,
            unloadable: true,
            spawn_rules: None,
        },
        AmmunitionContainerPocketPrototypeV1 {
            pocket_index: 1,
            pocket_id: String::from("EFILES"),
            capacities: Vec::new(),
            rigid: efile_rigid,
            access_moves: 100,
            reloadable: false,
            unloadable: true,
            spawn_rules: Some(efile_rules),
        },
    ];
    phone
}

fn efile() -> ItemGroupItemPrototypeV1 {
    let mut efile = item("efile");
    efile.prototype.containment.estorable = true;
    efile
}

#[test]
fn item_group_contents_projection_fails_closed_without_rejecting_true_no_pocket_items() {
    assert!(item_group_catalog_is_valid(&[contents_definition(item_group_item("true_no_pocket"), item("payload"))]));

    let mut lost = item("lost_projection");
    lost.contents_insertion_supported = false;
    assert!(
        !item_group_catalog_is_valid(&[contents_definition(ItemGroupTargetV1::Item(Box::new(lost)), item("payload"))]),
        "an empty strict projection cannot impersonate a true no-pocket item"
    );

    let mut quiver = item("quiver");
    quiver.prototype.ammunition_containers = vec![AmmunitionContainerPocketPrototypeV1 {
        pocket_index: 0,
        pocket_id: String::from("ARROWS"),
        capacities: vec![AmmunitionCapacityV1 {
            ammunition_type: String::from("arrow"),
            capacity: 20,
        }],
        rigid: true,
        access_moves: 100,
        reloadable: true,
        unloadable: true,
        spawn_rules: None,
    }];
    assert!(
        !item_group_catalog_is_valid(&[contents_definition(ItemGroupTargetV1::Item(Box::new(quiver)), item("arrow"))]),
        "non-estorable contents must not enter an unimplemented ammunition-container path"
    );

    assert!(valid_craft_item_prototype(&phone(true).prototype));
    assert!(valid_craft_item_prototype(&efile().prototype));
    let mut immutable_fit = efile().prototype;
    immutable_fit.containment.flags = vec![String::from("FIT")];
    assert!(
        valid_craft_item_prototype(&immutable_fit),
        "prototype validation must synthesize the immutable FIT state"
    );
    assert!(
        item_group_catalog_is_valid(&[contents_definition(ItemGroupTargetV1::Item(Box::new(phone(true))), efile())]),
        "estorable contents choose EFILE before the phone-like reload pocket"
    );
    assert!(
        !item_group_catalog_is_valid(&[contents_definition(ItemGroupTargetV1::Item(Box::new(phone(false))), efile())]),
        "canonical catalogs must reject unattainable non-rigid EFILE pockets"
    );
}

fn output_group(count_max: u16) -> ItemGroupDefinitionV1 {
    single_node(
        "outputs",
        ItemGroupKindV1::Collection,
        vec![item_group_modifier_entry(100, 0, count_max, item_group_item("rock"))],
    )
}

fn containment_catalog(edges: usize) -> Vec<ItemGroupDefinitionV1> {
    (0..=edges)
        .map(|index| {
            let mut carrier = item(&format!("carrier_{index:02}"));
            let mut contents = Vec::new();
            if index < edges {
                carrier.prototype.ammunition_containers = vec![contents_pocket()];
                contents = vec![ItemGroupContentsSourceV1::Group(format!("depth_{:02}", index + 1))];
            }
            let entry = ItemGroupEntryV1 {
                contents,
                ..item_group_modifier_entry(100, 1, 1, ItemGroupTargetV1::Item(Box::new(carrier)))
            };
            single_node(&format!("depth_{index:02}"), ItemGroupKindV1::Collection, vec![entry])
        })
        .collect()
}

fn empty_group(index: usize) -> ItemGroupDefinitionV1 {
    single_node(&format!("group_{index:04}"), ItemGroupKindV1::Collection, Vec::new())
}

fn exact_inline(inline_node_count: usize) -> ItemGroupSourceV1 {
    ItemGroupSourceV1::Inline(ItemGroupGraphV1 {
        root_node: 0,
        nodes: std::iter::once(ItemGroupNodeV1 {
            node_id: 0,
            kind: ItemGroupKindV1::Collection,
            entries: (1..inline_node_count)
                .map(|index| {
                    item_group_entry(
                        100,
                        1,
                        1,
                        ItemGroupTargetV1::Node(u16::try_from(index).expect("node bound fits u16")),
                    )
                })
                .collect(),
        })
        .chain((1..inline_node_count).map(|index| ItemGroupNodeV1 {
            node_id: u16::try_from(index).expect("node bound fits u16"),
            kind: ItemGroupKindV1::Collection,
            entries: vec![item_group_entry(100, 1, 1, item_group_item("rock"))],
        }))
        .collect(),
        wrapper: None,
    })
}

#[test]
fn item_group_output_depth_and_catalog_limits_are_exact() {
    assert!(item_group_catalog_is_valid(&[output_group(
        u16::try_from(MAX_ITEM_GROUP_OUTPUTS).expect("output bound fits u16"),
    )]));
    assert!(!item_group_catalog_is_valid(&[output_group(
        u16::try_from(MAX_ITEM_GROUP_OUTPUTS + 1).expect("test bound fits u16"),
    )]));

    let mut wrapped_outputs = output_group(2);
    let mut wrapper_item = item("counted_case");
    wrapper_item.prototype.ammunition_containers = vec![contents_pocket()];
    wrapped_outputs.graph.nodes[0].entries[0].direct_wrapper = Some(ItemGroupContainerV1 {
        item: Box::new(wrapper_item),
        variant_id: None,
        sealed: false,
        overflow: ItemGroupOverflowV1::Spill,
    });
    let wrapped_source = ItemGroupSourceV1::Inline(wrapped_outputs.graph);
    assert_eq!(
        item_group_source_max_outputs(&wrapped_source, &[]),
        Some(3),
        "two payloads plus one shared spill wrapper is the exact output bound"
    );

    assert!(item_group_catalog_is_valid(&[item_group_chain(MAX_ITEM_GROUP_DEPTH)]));
    assert!(!item_group_catalog_is_valid(&[item_group_chain(MAX_ITEM_GROUP_DEPTH + 1)]));

    assert!(item_group_catalog_is_valid(&containment_catalog(MAX_ITEM_COMPONENT_DEPTH)));
    assert!(!item_group_catalog_is_valid(&containment_catalog(MAX_ITEM_COMPONENT_DEPTH + 1)));

    let maximum_catalog = (0..MAX_ITEM_GROUP_DEFINITIONS).map(empty_group).collect::<Vec<_>>();
    assert!(item_group_catalog_is_valid(&maximum_catalog));

    let inline_node_count = MAX_ITEM_GROUP_NODES - maximum_catalog.len();
    assert!(item_group_sources_are_valid(&maximum_catalog, &[&exact_inline(inline_node_count)]));
    let one_more_inline = ItemGroupSourceV1::Inline(ItemGroupGraphV1 {
        root_node: 0,
        nodes: vec![ItemGroupNodeV1 {
            node_id: 0,
            kind: ItemGroupKindV1::Collection,
            entries: Vec::new(),
        }],
        wrapper: None,
    });
    assert!(!item_group_sources_are_valid(&maximum_catalog, &[&exact_inline(inline_node_count), &one_more_inline]));

    let oversized_catalog = (0..=MAX_ITEM_GROUP_DEFINITIONS).map(empty_group).collect::<Vec<_>>();
    assert!(!item_group_catalog_is_valid(&oversized_catalog));
}

fn group(id: &str) -> ItemGroupSourceV1 {
    ItemGroupSourceV1::Group(id.to_owned())
}

fn inline_naming(id: &str) -> ItemGroupSourceV1 {
    ItemGroupSourceV1::Inline(ItemGroupGraphV1 {
        root_node: 0,
        nodes: vec![ItemGroupNodeV1 {
            node_id: 0,
            kind: ItemGroupKindV1::Distribution,
            entries: vec![item_group_entry(1, 1, 1, ItemGroupTargetV1::Group(id.to_owned()))],
        }],
        wrapper: None,
    })
}

#[test]
fn named_closure_holds_exactly_the_reached_groups() {
    let catalog = recursive_catalog();
    assert!(!item_group_sources_have_exact_named_closure(&catalog, &[&group("b_root")]));
    assert!(item_group_sources_have_exact_named_closure(&catalog, &[&group("b_root"), &group("c_holidays")]));
    assert!(item_group_sources_have_exact_named_closure(&catalog, &[&inline_naming("c_holidays"), &group("b_root")]));
    assert!(!item_group_sources_have_exact_named_closure(
        &catalog,
        &[&group("b_root"), &group("c_holidays"), &group("missing")]
    ));
    assert!(!item_group_sources_have_exact_named_closure(&catalog, &[&inline_naming("missing")]));
    assert!(item_group_sources_have_exact_named_closure(&[], &[]));
    let mut contents_only = item_group_entry(100, 1, 1, item_group_item("box"));
    contents_only.contents = vec![ItemGroupContentsSourceV1::Group(String::from("a_leaf"))];
    let holder = single_node("holder", ItemGroupKindV1::Collection, vec![contents_only]);
    let leaf = recursive_catalog().into_iter().next().expect("fixture has a leaf");
    assert!(item_group_sources_have_exact_named_closure(&[leaf, holder], &[&group("holder")]));
}

fn bash_result(terrain_id: &str) -> TerrainTileSnapshot {
    TerrainTileSnapshot {
        terrain_id: terrain_id.to_owned(),
        move_cost: 2,
        transparent: true,
        flat: true,
        open: String::new(),
        open_move_cost: None,
        open_transparent: None,
        open_flat: None,
        close: String::new(),
        close_move_cost: None,
        close_transparent: None,
        close_flat: None,
    }
}

fn terrain_bash(drop_source: Option<ItemGroupSourceV1>) -> TerrainBashTypeV1 {
    TerrainBashTypeV1 {
        terrain_id: String::from("t_wall"),
        str_min: 1,
        str_max: 10,
        str_min_blocked: 1,
        str_max_blocked: 10,
        str_min_supported: 1,
        str_max_supported: 10,
        bash_multiplier_millionths: 1_000_000,
        result: bash_result("t_rubble"),
        drop_source,
        hit_field: None,
        destroyed_field: None,
        sound: String::from("crash"),
        failure_sound: String::from("thump"),
        sound_volume: 10,
        failure_sound_volume: 5,
    }
}

fn furniture_bash(drop_source: Option<ItemGroupSourceV1>) -> FurnitureBashTypeV1 {
    FurnitureBashTypeV1 {
        furniture_id: String::from("f_chair"),
        str_min: 1,
        str_max: 10,
        str_min_blocked: 1,
        str_max_blocked: 10,
        str_min_supported: 1,
        str_max_supported: 10,
        bash_multiplier_millionths: 1_000_000,
        result: None,
        drop_source,
        hit_field: None,
        destroyed_field: None,
        sound: String::from("smash"),
        failure_sound: String::from("whump"),
        sound_volume: 10,
        failure_sound_volume: 5,
    }
}

#[test]
fn world_item_groups_cover_every_drop_and_nothing_else() {
    let catalog = recursive_catalog();
    assert!(item_groups_are_valid(
        &catalog,
        &[terrain_bash(Some(group("b_root"))), terrain_bash(None)],
        &[furniture_bash(Some(inline_naming("c_holidays")))],
        &None,
    ));
    assert!(
        !item_groups_are_valid(&catalog, &[terrain_bash(Some(group("b_root")))], &[], &None),
        "an unreached group is not part of the world's closure"
    );
    assert!(!item_groups_are_valid(
        &catalog,
        &[terrain_bash(Some(group("b_root"))), terrain_bash(Some(group("missing")))],
        &[furniture_bash(Some(group("c_holidays")))],
        &None,
    ));
    assert!(item_groups_are_valid(&[], &[terrain_bash(None)], &[furniture_bash(None)], &None));
}

#[test]
fn every_group_of_a_valid_catalog_is_a_valid_source_and_names_add_no_storage() {
    let catalog = recursive_catalog();
    assert!(item_group_catalog_is_valid(&catalog));
    for definition in &catalog {
        assert!(item_group_sources_are_valid(&catalog, &[&group(&definition.group_id)]));
    }
    let maximum_catalog = (0..MAX_ITEM_GROUP_DEFINITIONS).map(empty_group).collect::<Vec<_>>();
    let inline_node_count = MAX_ITEM_GROUP_NODES - maximum_catalog.len();
    let exact = exact_inline(inline_node_count);
    assert!(item_group_sources_are_valid(
        &maximum_catalog,
        &[&exact, &group("group_0000"), &group("group_0511"), &group("group_0000")]
    ));
    assert!(!item_group_sources_are_valid(&maximum_catalog, &[&exact, &group("group_0512")]));
}

#[test]
fn dropping_trailing_sources_keeps_a_valid_list_valid() {
    let catalog = vec![empty_group(0), empty_group(1)];
    let first = group("group_0000");
    let second = group("group_0001");
    let inline = exact_inline(3);
    assert!(item_group_sources_are_valid(&catalog, &[&first, &inline, &second]));
    assert!(item_group_sources_are_valid(&catalog, &[&first, &inline]));
    assert!(item_group_sources_are_valid(&catalog, &[&first]));
    assert!(item_group_sources_are_valid(&catalog, &[]));

    let missing = group("group_0002");
    assert!(!item_group_sources_are_valid(&catalog, &[&first, &missing]));
    assert!(item_group_sources_are_valid(&catalog, &[&first]), "the valid prefix stays valid");
}

#[test]
fn a_group_naming_itself_or_an_undefined_group_is_refused() {
    assert!(!item_group_catalog_is_valid(&[named_cycle("loop", "loop")]));
    assert!(!item_group_catalog_is_valid(&[named_cycle("a", "z")]));
    assert!(!item_group_catalog_is_valid(&[named_cycle("a", "b"), empty_group(0)]));
    assert!(item_group_catalog_is_valid(&[empty_group(0), named_cycle("group_0001", "group_0000")]));
}
