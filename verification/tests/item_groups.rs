use protocol::item_group_catalog::item_group_catalog_is_valid;
use protocol::item_group_items::valid_item_group_item;
use protocol::item_group_shape::valid_item_group_graph_shape;
use protocol::item_group_types::{
    InclusiveU16RangeV1, ItemGroupContainerV1, ItemGroupContentsSourceV1, ItemGroupDefinitionV1, ItemGroupEntryV1,
    ItemGroupGraphV1, ItemGroupItemPrototypeV1, ItemGroupKindV1, ItemGroupNodeV1, ItemGroupOverflowV1,
    ItemGroupTargetV1,
};
use protocol::item_groups::{ItemDescriptionExpansionV1, ItemVariableValueV1, MAX_ITEM_VARIABLES};
use protocol::prototypes::{
    AmmunitionContainerPocketPrototypeV1, CraftItemPrototypeV1, SpawnPocketKindV1, SpawnPocketRulesV1,
};
use protocol::text_map::TextMap;

fn valid_test_item() -> ItemGroupItemPrototypeV1 {
    ItemGroupItemPrototypeV1 {
        prototype: CraftItemPrototypeV1 {
            type_id: String::from("test_item"),
            charges: 1,
            melee_damage_milli: TextMap::new(),
            calories: 0,
            quench: 0,
            comestible_type: String::new(),
            tracks_temperature: false,
            ammunition_type: String::new(),
            ranged_weapon: None,
            magazine_capacity: 0,
            integral_magazines: Vec::new(),
            magazine_wells: Vec::new(),
            ammunition_containers: Vec::new(),
            residual_energy_millijoules: 0,
            powered_tool: None,
            containment: Default::default(),
        },
        maximum_raw_damage: 0,
        variants: Vec::new(),
        description_expansion: None,
        snippets: Vec::new(),
        initial_variables: TextMap::new(),
        default_container: None,
        modifier_side_effects_supported: true,
        charges: None,
        minimum_one_charge: false,
        tool_charge_storage: None,
        charges_supported: true,
        modifier_container_capacity_applies: true,
        contents_insertion_supported: true,
    }
}

fn valid_test_container(type_id: &str) -> ItemGroupContainerV1 {
    let mut item = valid_test_item();
    item.prototype.type_id = type_id.to_owned();
    item.prototype.ammunition_containers = vec![AmmunitionContainerPocketPrototypeV1 {
        pocket_index: 0,
        pocket_id: String::from("CONTAINER"),
        capacities: Vec::new(),
        rigid: true,
        access_moves: 100,
        reloadable: false,
        unloadable: true,
        spawn_rules: Some(SpawnPocketRulesV1 {
            kind: SpawnPocketKindV1::Container,
            max_contains_volume_milliliters: 1_000,
            max_contains_weight_milligrams: 1_000_000,
            max_item_volume_milliliters: 1_000,
            min_item_volume_milliliters: 0,
            max_item_length_millimeters: 1_000,
            item_restrictions: Vec::new(),
            flag_restrictions: Vec::new(),
            access_moves: 100,
            rigid: true,
            watertight: true,
            transparent: true,
            forbidden: false,
            sealable: true,
        }),
    }];
    ItemGroupContainerV1 {
        item: Box::new(item),
        variant_id: None,
        sealed: true,
        overflow: ItemGroupOverflowV1::Unset,
    }
}

fn test_group(group_id: &str, entry: ItemGroupEntryV1) -> ItemGroupDefinitionV1 {
    ItemGroupDefinitionV1 {
        group_id: group_id.to_owned(),
        graph: ItemGroupGraphV1 {
            root_node: 0,
            nodes: vec![ItemGroupNodeV1 {
                node_id: 0,
                kind: ItemGroupKindV1::Collection,
                entries: vec![entry],
            }],
            wrapper: None,
        },
    }
}

fn test_entry(target: ItemGroupTargetV1) -> ItemGroupEntryV1 {
    ItemGroupEntryV1 {
        probability: 100,
        count_min: 1,
        count_max: 1,
        raw_damage: None,
        variant_id: None,
        event: None,
        modifier_charges: None,
        contents: Vec::new(),
        seal_contents: false,
        modifier_default_container_sealed: None,
        direct_wrapper: None,
        modifier_container: None,
        target,
    }
}

fn item_with_default_bottle() -> ItemGroupItemPrototypeV1 {
    let mut item = valid_test_item();
    item.default_container = Some(valid_test_container("default_bottle"));
    item
}

fn zero_damage() -> Option<InclusiveU16RangeV1> {
    Some(InclusiveU16RangeV1 {
        minimum: 0,
        maximum: 0,
    })
}

#[test]
fn default_container_fallback_and_explicit_null_have_distinct_valid_shapes() {
    let direct = test_group(
        "direct_default",
        test_entry(ItemGroupTargetV1::Item(Box::new(item_with_default_bottle()))),
    );
    assert!(item_group_catalog_is_valid(std::slice::from_ref(&direct)));

    let mut fallback = test_entry(ItemGroupTargetV1::Item(Box::new(item_with_default_bottle())));
    fallback.raw_damage = zero_damage();
    fallback.modifier_default_container_sealed = Some(false);
    assert!(item_group_catalog_is_valid(&[test_group("modifier_fallback", fallback)]));

    let mut suppressed = test_entry(ItemGroupTargetV1::Item(Box::new(item_with_default_bottle())));
    suppressed.raw_damage = zero_damage();
    assert!(
        item_group_catalog_is_valid(&[test_group("explicit_null_suppression", suppressed)]),
        "an explicit null modifier container is represented by a modifier marker without a fallback"
    );
}

fn creator_container() -> ItemGroupContainerV1 {
    let mut creator_item = valid_test_item();
    creator_item.prototype.type_id = String::from("creator_payload");
    creator_item.default_container = Some(valid_test_container("effective_wrapper"));
    ItemGroupContainerV1 {
        item: Box::new(creator_item),
        variant_id: None,
        sealed: true,
        overflow: ItemGroupOverflowV1::Unset,
    }
}

#[test]
fn explicit_modifier_container_creator_may_apply_its_own_default_wrapper() {
    let mut entry = test_entry(ItemGroupTargetV1::Item(Box::new(valid_test_item())));
    entry.raw_damage = zero_damage();
    entry.modifier_container = Some(creator_container());
    assert!(item_group_catalog_is_valid(&[test_group("creator_default_wrapper", entry)]));

    let mut direct = test_entry(ItemGroupTargetV1::Item(Box::new(valid_test_item())));
    direct.direct_wrapper = Some(creator_container());
    assert!(
        !item_group_catalog_is_valid(&[test_group("raw_wrapper_stays_raw", direct)]),
        "whole-group wrappers use the raw item constructor and cannot borrow creator semantics"
    );
}

#[test]
fn dynamic_named_group_default_fallback_is_retained_but_fails_closed() {
    let mut item = valid_test_item();
    let mut default_bottle = valid_test_container("default_bottle");
    default_bottle.item.default_container = Some(valid_test_container("second_level_default_bottle"));
    item.default_container = Some(default_bottle);
    let inner = test_group("inner_default", test_entry(ItemGroupTargetV1::Item(Box::new(item))));
    let mut outer_entry = test_entry(ItemGroupTargetV1::Group(inner.group_id.clone()));
    outer_entry.raw_damage = zero_damage();
    outer_entry.modifier_default_container_sealed = Some(true);
    let outer = test_group("outer_modifier", outer_entry);
    assert!(!item_group_catalog_is_valid(&[inner, outer]));

    let plain_inner = test_group("plain_inner", test_entry(ItemGroupTargetV1::Item(Box::new(valid_test_item()))));
    let mut proven_noop = test_entry(ItemGroupTargetV1::Group(plain_inner.group_id.clone()));
    proven_noop.raw_damage = zero_damage();
    proven_noop.modifier_default_container_sealed = Some(true);
    let plain_outer = test_group("plain_outer", proven_noop);
    assert!(item_group_catalog_is_valid(&[plain_inner, plain_outer]));
}

#[test]
fn graph_shape_rejects_contents_modifiers_on_local_node_targets() {
    let graph = ItemGroupGraphV1 {
        root_node: 0,
        nodes: vec![
            ItemGroupNodeV1 {
                node_id: 0,
                kind: ItemGroupKindV1::Collection,
                entries: vec![ItemGroupEntryV1 {
                    probability: 100,
                    count_min: 1,
                    count_max: 1,
                    raw_damage: zero_damage(),
                    variant_id: None,
                    event: None,
                    target: ItemGroupTargetV1::Node(1),
                    modifier_charges: None,
                    contents: vec![ItemGroupContentsSourceV1::Group(String::from("contents"))],
                    seal_contents: false,
                    modifier_default_container_sealed: None,
                    direct_wrapper: None,
                    modifier_container: None,
                }],
            },
            ItemGroupNodeV1 {
                node_id: 1,
                kind: ItemGroupKindV1::Collection,
                entries: Vec::new(),
            },
        ],
        wrapper: None,
    };

    assert!(
        !valid_item_group_graph_shape(&graph),
        "canonical-valid Node entries must not reach simulator-rejected modifier shapes"
    );
}

#[test]
fn generated_description_reserves_variable_capacity() {
    let mut item = valid_test_item();
    item.description_expansion = Some(ItemDescriptionExpansionV1 {
        template: String::from("expanded"),
        categories: Vec::new(),
    });
    let mut variables = TextMap::new();
    for index in 0..MAX_ITEM_VARIABLES {
        variables.insert(format!("variable_{index}"), ItemVariableValueV1::Integer(index as i64));
    }
    item.initial_variables = variables;
    assert!(!valid_item_group_item(&item));

    item.initial_variables.remove("variable_0");
    item.initial_variables.insert(
        String::from("description"),
        ItemVariableValueV1::String(String::from("old")),
    );
    assert!(valid_item_group_item(&item));
}
