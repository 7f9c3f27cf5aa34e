use protocol::geometry::ChunkCoord;
use protocol::worldgen::{
    worldgen_city_start_distance, worldgen_omt_matches, FurnitureTileSnapshot, TerrainTileSnapshot,
    WorldgenCatalogV1, WorldgenCellV1, WorldgenCityId, WorldgenCityV1, WorldgenFurniturePrototypeTargetV1,
    WorldgenFurnitureTargetV1, WorldgenI32IntervalV1, WorldgenItemGroupPlacementV1,
    WorldgenOmtGeneratorV1, WorldgenOmtIdentityV1, WorldgenOmtMatchTypeV1, WorldgenOvermapLayerV1,
    WorldgenOvermapLayoutV1, WorldgenOvermapRunV1, WorldgenRegionalFurnitureTableV1,
    WorldgenRegionalTerrainTableV1, WorldgenStartLocationV1, WorldgenStartTargetV1, WorldgenTemplateV1,
    WorldgenTerrainTargetV1, WorldgenWeightedFurniturePrototypeV1, WorldgenWeightedFurnitureTargetV1,
    WorldgenWeightedPrototypeV1, WorldgenWeightedTerrainTargetV1, MAX_WORLDGEN_REGIONAL_CHOICES,
    MAX_WORLDGEN_REGIONAL_RESOLUTION_DEPTH, MAX_WORLDGEN_REGIONAL_TABLES, WORLDGEN_CELLS_PER_OMT,
    WORLDGEN_GENERATOR_VERSION_V2, WORLDGEN_OMT_SIZE, WORLDGEN_OVERMAP_HEIGHT, WORLDGEN_OVERMAP_WIDTH,
};
use protocol::overmap::{worldgen_omt_identity_at, worldgen_overmap_contains};
use protocol::item_group_types::{ItemGroupDefinitionV1, ItemGroupGraphV1, ItemGroupKindV1, ItemGroupNodeV1};
use protocol::worldgen_catalog::worldgen_catalog_shape_is_valid;
use protocol::world_item_groups::item_groups_are_valid;
use protocol::worldgen_references::worldgen_catalog_is_valid;
use protocol::worldgen_graphs::valid_worldgen_regional_graph;

fn worldgen_test_terrain(terrain_id: &str) -> TerrainTileSnapshot {
    TerrainTileSnapshot {
        terrain_id: terrain_id.to_owned(),
        move_cost: 2,
        transparent: true,
        flat: true,
        open: String::new(),
        open_move_cost: None,
        open_transparent: None,
        open_flat: None,
        close: String::new(),
        close_move_cost: None,
        close_transparent: None,
        close_flat: None,
    }
}

fn worldgen_test_catalog() -> WorldgenCatalogV1 {
    let cell = WorldgenCellV1 {
        terrain: vec![vec![
            WorldgenWeightedTerrainTargetV1 {
                target: WorldgenTerrainTargetV1::Prototype(0),
                weight: 3,
            },
            WorldgenWeightedTerrainTargetV1 {
                target: WorldgenTerrainTargetV1::Regional(0),
                weight: 1,
            },
        ]],
        furniture: vec![vec![
            WorldgenWeightedFurnitureTargetV1 {
                target: WorldgenFurnitureTargetV1::Empty,
                weight: 3,
            },
            WorldgenWeightedFurnitureTargetV1 {
                target: WorldgenFurnitureTargetV1::Regional(0),
                weight: 1,
            },
        ]],
        item_group: None,
    };
    let mut cells = vec![cell; WORLDGEN_CELLS_PER_OMT];
    cells[0].item_group = Some(WorldgenItemGroupPlacementV1 {
        group_id: String::from("field_loot"),
        chance: 25,
        repeat_minimum: 1,
        repeat_maximum: 1,
    });
    WorldgenCatalogV1 {
        generator_version: WORLDGEN_GENERATOR_VERSION_V2,
        overmap: WorldgenOvermapLayoutV1 {
            origin_x: -90,
            origin_y: -90,
            identities: vec![WorldgenOmtIdentityV1 {
                full_id: String::from("field"),
                type_id: String::from("field"),
                subtype_id: String::from("field"),
                generator_id: String::from("field"),
                rotation: 0,
            }],
            layers: vec![WorldgenOvermapLayerV1 {
                z: 0,
                runs: vec![WorldgenOvermapRunV1 {
                    identity_index: 0,
                    length: u32::from(WORLDGEN_OVERMAP_WIDTH) * u32::from(WORLDGEN_OVERMAP_HEIGHT),
                }],
            }],
        },
        cities: Vec::new(),
        rivers: Vec::new(),
        specials: Vec::new(),
        start_location: Some(WorldgenStartLocationV1 {
            start_location_id: String::from("sloc_field"),
            targets: vec![WorldgenStartTargetV1 {
                omt: String::from("field"),
                match_type: WorldgenOmtMatchTypeV1::Type,
            }],
            city_sizes: WorldgenI32IntervalV1 {
                minimum: 0,
                maximum: i32::MAX,
            },
            city_distance: WorldgenI32IntervalV1 {
                minimum: 0,
                maximum: i32::MAX,
            },
        }),
        terrain_prototypes: vec![worldgen_test_terrain("t_floor"), worldgen_test_terrain("t_grass")],
        furniture_prototypes: vec![FurnitureTileSnapshot {
            furniture_id: String::from("f_chair"),
            move_cost_mod: 0,
            transparent: true,
            blocks_door: false,
            comfort: 1,
            floor_bedding_warmth: 0,
        }],
        monster_prototypes: Vec::new(),
        monster_groups: Vec::new(),
        regional_terrain: vec![WorldgenRegionalTerrainTableV1 {
            regional_id: String::from("region_groundcover"),
            choices: vec![
                WorldgenWeightedPrototypeV1 {
                    prototype_index: 0,
                    weight: 3,
                },
                WorldgenWeightedPrototypeV1 {
                    prototype_index: 1,
                    weight: 1,
                },
            ],
        }],
        regional_furniture: vec![WorldgenRegionalFurnitureTableV1 {
            regional_id: String::from("region_furniture"),
            choices: vec![
                WorldgenWeightedFurniturePrototypeV1 {
                    target: WorldgenFurniturePrototypeTargetV1::Empty,
                    weight: 3,
                },
                WorldgenWeightedFurniturePrototypeV1 {
                    target: WorldgenFurniturePrototypeTargetV1::Prototype(0),
                    weight: 1,
                },
            ],
        }],
        npc_name_categories: Vec::new(),
        omt_generators: vec![WorldgenOmtGeneratorV1 {
            omt_id: String::from("field"),
            templates: vec![WorldgenTemplateV1 {
                weight: 1_000,
                predecessor_id: None,
                builtin: None,
                cells,
                nested: Vec::new(),
                area_items: Vec::new(),
                npc_placements: Vec::new(),
                monster_placements: Vec::new(),
                individual_monster_placements: Vec::new(),
                erase_all_before_placing_terrain: false,
                deferred_fields: Vec::new(),
            }],
            nested_generators: Vec::new(),
        }],
    }
}

#[test]
fn city_identity_constraints_and_exact_start_distances_are_canonical() {
    let city = WorldgenCityV1 {
        city_id: WorldgenCityId(1),
        center: ChunkCoord { x: 0, y: 0, z: 0 },
        size: 8,
    };
    assert_eq!(worldgen_city_start_distance(&city, city.center), -8);
    assert_eq!(worldgen_city_start_distance(&city, ChunkCoord { x: 8, y: 0, z: 0 }), -8);
    assert_eq!(worldgen_city_start_distance(&city, ChunkCoord { x: 8, y: 8, z: 0 }), -5);
    assert_eq!(worldgen_city_start_distance(&city, ChunkCoord { x: 16, y: 0, z: 0 }), 0);

    let mut catalog = worldgen_test_catalog();
    catalog.cities.push(city);
    let start = catalog.start_location.as_mut().expect("start");
    start.city_sizes = WorldgenI32IntervalV1 {
        minimum: 8,
        maximum: 8,
    };
    start.city_distance = WorldgenI32IntervalV1 {
        minimum: -8,
        maximum: -5,
    };
    assert!(worldgen_catalog_shape_is_valid(&catalog));

    catalog.cities[0].city_id = WorldgenCityId(2);
    assert!(!worldgen_catalog_shape_is_valid(&catalog));
}

#[test]
fn regional_graph_validation_is_bounded_for_shared_dags_and_cycles() {
    let bounded_chain = (0..MAX_WORLDGEN_REGIONAL_RESOLUTION_DEPTH)
        .map(|index| {
            (index + 1 < MAX_WORLDGEN_REGIONAL_RESOLUTION_DEPTH)
                .then_some(index + 1)
                .into_iter()
                .collect::<Vec<_>>()
        })
        .collect::<Vec<_>>();
    assert!(valid_worldgen_regional_graph(&bounded_chain));

    let mut over_depth = bounded_chain.clone();
    over_depth.push(Vec::new());
    over_depth[MAX_WORLDGEN_REGIONAL_RESOLUTION_DEPTH - 1].push(MAX_WORLDGEN_REGIONAL_RESOLUTION_DEPTH);
    assert!(!valid_worldgen_regional_graph(&over_depth));

    let layer_width = MAX_WORLDGEN_REGIONAL_TABLES / MAX_WORLDGEN_REGIONAL_RESOLUTION_DEPTH;
    let shared_dag = (0..MAX_WORLDGEN_REGIONAL_TABLES)
        .map(|index| {
            let next_layer = index / layer_width + 1;
            if next_layer < MAX_WORLDGEN_REGIONAL_RESOLUTION_DEPTH {
                let start = next_layer * layer_width;
                (start..start + layer_width).collect::<Vec<_>>()
            } else {
                Vec::new()
            }
        })
        .collect::<Vec<_>>();
    assert!(
        valid_worldgen_regional_graph(&shared_dag),
        "the dense layered DAG must validate in linear graph time"
    );

    let mut cycle = vec![vec![1], vec![2], vec![0]];
    assert!(!valid_worldgen_regional_graph(&cycle));
    cycle[2].clear();
    assert!(valid_worldgen_regional_graph(&cycle));
}

#[test]
fn coordinate_owned_overmap_layout_routes_exact_cells_and_fails_closed() {
    let mut catalog = worldgen_test_catalog();
    catalog.overmap.identities = vec![
        WorldgenOmtIdentityV1 {
            full_id: String::from("field_a"),
            type_id: String::from("field"),
            subtype_id: String::from("field"),
            generator_id: String::from("field"),
            rotation: 0,
        },
        WorldgenOmtIdentityV1 {
            full_id: String::from("field_b"),
            type_id: String::from("field"),
            subtype_id: String::from("field"),
            generator_id: String::from("field"),
            rotation: 1,
        },
    ];
    catalog.overmap.layers[0].runs = vec![
        WorldgenOvermapRunV1 {
            identity_index: 0,
            length: 1,
        },
        WorldgenOvermapRunV1 {
            identity_index: 1,
            length: u32::from(WORLDGEN_OVERMAP_WIDTH) * u32::from(WORLDGEN_OVERMAP_HEIGHT) - 1,
        },
    ];
    assert!(worldgen_catalog_shape_is_valid(&catalog));
    assert_eq!(
        worldgen_omt_identity_at(&catalog, ChunkCoord { x: -90, y: -90, z: 0 }).map(|identity| identity.full_id.as_str()),
        Some("field_a")
    );
    assert_eq!(
        worldgen_omt_identity_at(&catalog, ChunkCoord { x: -89, y: -90, z: 0 })
            .map(|identity| (identity.full_id.as_str(), identity.rotation)),
        Some(("field_b", 1))
    );
    for outside in [
        ChunkCoord { x: -91, y: -90, z: 0 },
        ChunkCoord { x: 90, y: 89, z: 0 },
        ChunkCoord { x: -90, y: -90, z: 1 },
    ] {
        assert!(worldgen_omt_identity_at(&catalog, outside).is_none());
    }
}

#[test]
fn worldgen_catalog_checks_every_cumulative_weight_sum() {
    let mut regional_overflow = worldgen_test_catalog();
    regional_overflow.regional_terrain[0].choices = vec![
        WorldgenWeightedPrototypeV1 {
            prototype_index: 0,
            weight: u32::MAX,
        },
        WorldgenWeightedPrototypeV1 {
            prototype_index: 1,
            weight: 1,
        },
    ];
    assert!(!worldgen_catalog_shape_is_valid(&regional_overflow));

    let mut cell_overflow = worldgen_test_catalog();
    cell_overflow.omt_generators[0].templates[0].cells[0].terrain = vec![vec![
        WorldgenWeightedTerrainTargetV1 {
            target: WorldgenTerrainTargetV1::Prototype(0),
            weight: u32::MAX,
        },
        WorldgenWeightedTerrainTargetV1 {
            target: WorldgenTerrainTargetV1::Prototype(1),
            weight: 1,
        },
    ]];
    assert!(!worldgen_catalog_shape_is_valid(&cell_overflow));

    let mut template_overflow = worldgen_test_catalog();
    let mut second = template_overflow.omt_generators[0].templates[0].clone();
    template_overflow.omt_generators[0].templates[0].weight = u32::MAX;
    second.weight = 1;
    template_overflow.omt_generators[0].templates.push(second);
    assert!(!worldgen_catalog_shape_is_valid(&template_overflow));
}

#[test]
fn overmap_terrain_matching_preserves_every_pinned_mode() {
    let ordinary = WorldgenOmtIdentityV1 {
        full_id: String::from("forest_thick_north"),
        type_id: String::from("forest_thick"),
        subtype_id: String::from("forest_thick"),
        generator_id: String::from("forest_thick"),
        rotation: 0,
    };
    assert!(worldgen_omt_matches("forest_thick_north", WorldgenOmtMatchTypeV1::Exact, &ordinary));
    assert!(!worldgen_omt_matches("forest_thick", WorldgenOmtMatchTypeV1::Exact, &ordinary));
    assert!(worldgen_omt_matches("forest_thick", WorldgenOmtMatchTypeV1::Type, &ordinary));
    assert!(worldgen_omt_matches("forest", WorldgenOmtMatchTypeV1::Prefix, &ordinary));
    assert!(!worldgen_omt_matches("fores", WorldgenOmtMatchTypeV1::Prefix, &ordinary));
    assert!(worldgen_omt_matches("thick_n", WorldgenOmtMatchTypeV1::Contains, &ordinary));

    let linear = WorldgenOmtIdentityV1 {
        full_id: String::from("road_ne"),
        type_id: String::from("road"),
        subtype_id: String::from("road_curved"),
        generator_id: String::from("road_curved"),
        rotation: 3,
    };
    assert!(worldgen_omt_matches("road", WorldgenOmtMatchTypeV1::Type, &linear));
    assert!(worldgen_omt_matches("road_curved", WorldgenOmtMatchTypeV1::Subtype, &linear));
    assert!(!worldgen_omt_matches("road_straight", WorldgenOmtMatchTypeV1::Subtype, &linear));
}

fn worldgen_test_item_groups() -> Vec<ItemGroupDefinitionV1> {
    vec![ItemGroupDefinitionV1 {
        group_id: String::from("field_loot"),
        graph: ItemGroupGraphV1 {
            root_node: 0,
            nodes: vec![ItemGroupNodeV1 {
                node_id: 0,
                kind: ItemGroupKindV1::Collection,
                entries: Vec::new(),
            }],
            wrapper: None,
        },
    }]
}

#[test]
fn worldgen_catalog_accepts_a_fixture_whose_placements_name_catalog_groups() {
    assert!(worldgen_catalog_is_valid(&worldgen_test_catalog(), &worldgen_test_item_groups()));
    assert!(!worldgen_catalog_is_valid(&worldgen_test_catalog(), &[]));
}

#[test]
fn worldgen_catalog_round_trips_with_independent_regional_targets() {
    let catalog = worldgen_test_catalog();
    let item_groups = worldgen_test_item_groups();
    assert_eq!(WORLDGEN_OMT_SIZE, 24);
    assert_eq!(WORLDGEN_CELLS_PER_OMT, 576);
    assert!(worldgen_catalog_shape_is_valid(&catalog));
    assert!(worldgen_catalog_is_valid(&catalog, &item_groups));
}

#[test]
fn world_item_groups_are_exactly_what_worldgen_places() {
    let catalog = Some(worldgen_test_catalog());
    assert!(item_groups_are_valid(&worldgen_test_item_groups(), &[], &[], &catalog));
    assert!(!item_groups_are_valid(&[], &[], &[], &catalog), "a placement must name a catalog group");
    let mut extra = worldgen_test_item_groups();
    extra.push(ItemGroupDefinitionV1 {
        group_id: String::from("unplaced"),
        graph: ItemGroupGraphV1 {
            root_node: 0,
            nodes: vec![ItemGroupNodeV1 {
                node_id: 0,
                kind: ItemGroupKindV1::Collection,
                entries: Vec::new(),
            }],
            wrapper: None,
        },
    });
    assert!(worldgen_catalog_is_valid(&worldgen_test_catalog(), &extra), "worldgen alone allows other groups");
    assert!(!item_groups_are_valid(&extra, &[], &[], &catalog), "a world holds only the groups it draws from");
}

#[test]
fn worldgen_catalog_rejects_noncanonical_and_out_of_bounds_payloads() {
    let item_groups = worldgen_test_item_groups();

    let mut invalid = worldgen_test_catalog();
    invalid.generator_version += 1;
    assert!(!worldgen_catalog_is_valid(&invalid, &item_groups));

    let mut invalid = worldgen_test_catalog();
    invalid.omt_generators[0].templates[0].cells[0].furniture[0][0].weight = 0;
    assert!(!worldgen_catalog_shape_is_valid(&invalid));

    let mut invalid = worldgen_test_catalog();
    invalid.overmap.identities[0].generator_id = String::from("missing");
    assert!(!worldgen_catalog_shape_is_valid(&invalid));

    let mut invalid = worldgen_test_catalog();
    let mut predecessor = invalid.omt_generators[0].clone();
    predecessor.omt_id = String::from("predecessor");
    invalid.omt_generators[0].templates[0].predecessor_id = Some(predecessor.omt_id.clone());
    invalid.omt_generators.push(predecessor);
    assert!(
        !worldgen_catalog_shape_is_valid(&invalid),
        "a predecessor needs a concrete identity carrying its own rotation"
    );

    let mut invalid = worldgen_test_catalog();
    invalid.overmap.layers[0].runs[0].length -= 1;
    assert!(!worldgen_catalog_shape_is_valid(&invalid));

    let mut invalid = worldgen_test_catalog();
    invalid.overmap.layers[0].runs[0].length -= 1;
    invalid.overmap.layers[0].runs.push(WorldgenOvermapRunV1 {
        identity_index: 0,
        length: 1,
    });
    assert!(!worldgen_catalog_shape_is_valid(&invalid));

    let mut invalid = worldgen_test_catalog();
    invalid.overmap.layers[0].z = 1;
    assert!(!worldgen_catalog_shape_is_valid(&invalid));

    let mut invalid = worldgen_test_catalog();
    invalid.overmap.identities.push(WorldgenOmtIdentityV1 {
        full_id: String::from("unused"),
        type_id: String::from("unused"),
        subtype_id: String::from("unused"),
        generator_id: String::from("field"),
        rotation: 0,
    });
    assert!(!worldgen_catalog_shape_is_valid(&invalid));

    let mut invalid = worldgen_test_catalog();
    invalid
        .start_location
        .as_mut()
        .expect("fixture has a start location")
        .targets[0]
        .omt = String::from("forest");
    assert!(!worldgen_catalog_shape_is_valid(&invalid));

    let mut invalid = worldgen_test_catalog();
    invalid
        .start_location
        .as_mut()
        .expect("fixture has a start location")
        .targets
        .push(WorldgenStartTargetV1 {
            omt: String::from("forest"),
            match_type: WorldgenOmtMatchTypeV1::Type,
        });
    assert!(!worldgen_catalog_shape_is_valid(&invalid));

    let mut invalid = worldgen_test_catalog();
    invalid.terrain_prototypes.swap(0, 1);
    assert!(!worldgen_catalog_shape_is_valid(&invalid));

    let mut invalid = worldgen_test_catalog();
    invalid.regional_terrain.push(invalid.regional_terrain[0].clone());
    assert!(!worldgen_catalog_shape_is_valid(&invalid));

    let mut invalid = worldgen_test_catalog();
    invalid.omt_generators[0].templates[0].cells.pop();
    assert!(!worldgen_catalog_shape_is_valid(&invalid));

    let mut invalid = worldgen_test_catalog();
    invalid.omt_generators[0].templates[0].cells[0].terrain[0][0].target =
        WorldgenTerrainTargetV1::Prototype(u16::MAX);
    assert!(!worldgen_catalog_shape_is_valid(&invalid));

    let mut invalid = worldgen_test_catalog();
    invalid.omt_generators[0].templates[0].cells[0]
        .item_group
        .as_mut()
        .expect("fixture has a placement")
        .chance = 0;
    assert!(!worldgen_catalog_shape_is_valid(&invalid));

    let mut missing_group = worldgen_test_catalog();
    missing_group.omt_generators[0].templates[0].cells[0]
        .item_group
        .as_mut()
        .expect("fixture has a placement")
        .group_id = String::from("absent");
    assert!(worldgen_catalog_shape_is_valid(&missing_group));
    assert!(!worldgen_catalog_is_valid(&missing_group, &item_groups));

    let mut too_many_choices = worldgen_test_catalog();
    too_many_choices.regional_terrain[0].choices = vec![
        WorldgenWeightedPrototypeV1 {
            prototype_index: 0,
            weight: 1,
        };
        MAX_WORLDGEN_REGIONAL_CHOICES + 1
    ];
    assert!(!worldgen_catalog_shape_is_valid(&too_many_choices));
}

#[test]
fn overmap_contains_only_retained_layers_within_the_extent() {
    let catalog = worldgen_test_catalog();
    assert!(worldgen_overmap_contains(&catalog, ChunkCoord { x: -90, y: -90, z: 0 }));
    assert!(worldgen_overmap_contains(&catalog, ChunkCoord { x: 89, y: 89, z: 0 }));
    assert!(!worldgen_overmap_contains(&catalog, ChunkCoord { x: 90, y: 0, z: 0 }));
    assert!(!worldgen_overmap_contains(&catalog, ChunkCoord { x: 0, y: 0, z: -1 }));
}
