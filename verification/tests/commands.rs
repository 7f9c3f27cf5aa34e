use protocol::commands::{valid_client_command, ClientCommand, CommandKind};
use protocol::control::ControlMessage;
use protocol::disassembly::{
    valid_disassembly_recipe, DisassemblyComponentV1, DisassemblyRecipeV1, ItemComponentSnapshotV1,
};
use protocol::geometry::{CommandSequence, WorldPosition};
use protocol::ids::{ActorId, InteractionId, ItemId};
use protocol::item_components::{valid_component_provenance, valid_item_component_root};
use protocol::prototypes::{CraftItemPrototypeV1, MAX_ITEM_COMPONENTS, MAX_ITEM_COMPONENT_DEPTH};
use protocol::recipes::{
    BookStudyV1, ConstructionRecipeV1, ConstructionResultV1, CraftBookRequirementV1, CraftByproductV1,
    CraftComponentRequirementV1, CraftProficiencyV1, CraftQualityProviderV1, CraftQualityRequirementV1,
    CraftRecipeV1, CraftSkillRequirementV1, CraftToolRequirementV1, CRAFT_PROFICIENCY_SCALE, MAX_ACTOR_BASE_STAT,
    MAX_BOOK_STUDY_MOVES, MAX_CRAFT_OUTPUT_INSTANCES, MAX_SKILL_LEVEL,
};
use protocol::text_map::TextMap;
use protocol::time::SimTick;
use protocol::worldgen::FurnitureTileSnapshot;

/// Interaction choice identifiers in these commands stay well within any limit.
const CHOICE_ID_BYTES: usize = 64;

fn accepted(message: &ControlMessage) -> bool {
    message.within_bounds(CHOICE_ID_BYTES)
}

fn prototype(type_id: &str) -> CraftItemPrototypeV1 {
    CraftItemPrototypeV1 {
        type_id: String::from(type_id),
        charges: 1,
        melee_damage_milli: TextMap::new(),
        calories: 0,
        quench: 0,
        comestible_type: String::new(),
        tracks_temperature: false,
        ammunition_type: String::new(),
        ranged_weapon: None,
        magazine_capacity: 0,
        integral_magazines: Vec::new(),
        magazine_wells: Vec::new(),
        ammunition_containers: Vec::new(),
        residual_energy_millijoules: 0,
        powered_tool: None,
        containment: Default::default(),
    }
}

fn skill(level: u8) -> CraftSkillRequirementV1 {
    CraftSkillRequirementV1 { skill_id: String::from("fabrication"), level }
}

fn component(type_id: &str) -> CraftComponentRequirementV1 {
    CraftComponentRequirementV1 { type_id: String::from(type_id), count: 1, count_by_charges: false, recoverable: true }
}

fn protocol_test_recipe() -> CraftRecipeV1 {
    CraftRecipeV1 {
        recipe_id: String::from("rock_sock"),
        time_moves: 500,
        output_instances: 1,
        output: prototype("rock_sock"),
        retain_components: true,
        byproducts: Vec::new(),
        components: vec![vec![component("rock")], vec![component("socks")]],
        tools: Vec::new(),
        qualities: Vec::new(),
        proficiencies: Vec::new(),
        primary_skill: Some(skill(0)),
        required_skills: Vec::new(),
        autolearn: true,
        autolearn_skills: vec![skill(0)],
        book_requirements: Vec::new(),
        can_be_learned: false,
    }
}

fn protocol_test_construction() -> ConstructionRecipeV1 {
    ConstructionRecipeV1 {
        construction_id: String::from("constr_place_table"),
        name: String::from("Place Table"),
        time_moves: 6_000,
        required_skills: vec![skill(0)],
        components: vec![vec![component("w_table")]],
        qualities: vec![vec![CraftQualityRequirementV1 {
            quality_id: String::from("HAMMER"),
            level: 2,
            amount: 1,
            providers: vec![CraftQualityProviderV1 { type_id: String::from("hammer"), minimum_charges: 0 }],
        }]],
        pre_terrain: Vec::new(),
        requires_empty: true,
        result: ConstructionResultV1::Furniture(FurnitureTileSnapshot {
            furniture_id: String::from("f_table"),
            move_cost_mod: 0,
            transparent: true,
            blocks_door: false,
            comfort: 0,
            floor_bedding_warmth: 0,
        }),
    }
}

fn scrap_state() -> ItemComponentSnapshotV1 {
    ItemComponentSnapshotV1 {
        type_id: String::from("scrap"),
        charges: 1,
        damage: 0,
        raw_damage: 0,
        fitted: false,
        variant: None,
        snippet: None,
        variables: TextMap::new(),
        melee_damage_milli: TextMap::new(),
        calories: 0,
        quench: 0,
        comestible_type: String::new(),
        temperature: None,
        ammunition_type: String::new(),
        ranged_weapon: None,
        count_by_charges: false,
        recoverable: true,
        component_provenance: None,
        magazine_capacity: 0,
        integral_magazines: Vec::new(),
        magazine_wells: Vec::new(),
        ammunition_containers: Vec::new(),
        residual_energy_millijoules: 0,
        powered_tool: None,
        containment: Default::default(),
    }
}

fn protocol_test_disassembly_recipe() -> DisassemblyRecipeV1 {
    DisassemblyRecipeV1 {
        recipe_id: String::from("makeshift_scythe_war"),
        target_type_id: String::from("makeshift_scythe_war"),
        time_moves: 500,
        difficulty: 2,
        primary_skill_id: Some(String::from("fabrication")),
        learn_requirements: vec![skill(2)],
        autolearn: false,
        autolearn_requirements: Vec::new(),
        unload_charges_as: None,
        requires_empty_charges: false,
        components: vec![DisassemblyComponentV1 {
            output_instances: 2,
            count_by_charges: false,
            output: prototype("scrap"),
            output_state: Some(scrap_state()),
        }],
        tools: Vec::new(),
        qualities: Vec::new(),
    }
}

fn command(actor_id: ActorId, kind: CommandKind) -> ControlMessage {
    ControlMessage::Command(ClientCommand {
        actor_id,
        sequence: CommandSequence(1),
        client_tick: SimTick(50),
        kind,
    })
}

#[test]
fn control_frame_round_trip_is_versioned_and_bounded() {
    assert!(accepted(&ControlMessage::Heartbeat { tick: SimTick(50) }));
    let activate = |item_id| command(ActorId::new(7, 1), CommandKind::Activate { item_id });
    assert!(accepted(&activate(ItemId::new(7, 2))));
    assert!(!accepted(&activate(ItemId::new(8, 2))), "item commands cannot cross a world namespace");
    assert!(!accepted(&activate(ItemId::new(7, 0))), "stable item ID zero is invalid");
}

#[test]
fn craft_request_placeholder_and_normalized_definition_round_trip_strictly() {
    let craft = |recipe: Option<Box<CraftRecipeV1>>| {
        command(ActorId::new(1, 2), CommandKind::Craft { recipe_id: String::from("rock_sock"), recipe })
    };
    assert!(accepted(&craft(None)));
    assert!(accepted(&craft(Some(Box::new(protocol_test_recipe())))));

    let byproduct = |type_id: &str, output_instances| CraftByproductV1 { output_instances, output: prototype(type_id) };
    let mut with_byproducts = protocol_test_recipe();
    with_byproducts.byproducts = vec![byproduct("dust", 2), byproduct("splinter", 3)];
    assert!(accepted(&craft(Some(Box::new(with_byproducts)))));

    let mut unsorted_byproducts = protocol_test_recipe();
    unsorted_byproducts.byproducts = vec![byproduct("splinter", 1), byproduct("dust", 1)];
    assert!(!accepted(&craft(Some(Box::new(unsorted_byproducts)))));
    let mut duplicate_byproducts = protocol_test_recipe();
    duplicate_byproducts.byproducts = vec![byproduct("dust", 1), byproduct("dust", 1)];
    assert!(!accepted(&craft(Some(Box::new(duplicate_byproducts)))));
    let mut zero_byproduct = protocol_test_recipe();
    zero_byproduct.byproducts = vec![byproduct("dust", 0)];
    assert!(!accepted(&craft(Some(Box::new(zero_byproduct)))));
    let mut excessive_total_output = protocol_test_recipe();
    excessive_total_output.byproducts = vec![byproduct("dust", MAX_CRAFT_OUTPUT_INSTANCES)];
    assert!(!accepted(&craft(Some(Box::new(excessive_total_output)))));

    let mut mismatched = protocol_test_recipe();
    mismatched.recipe_id = String::from("different_recipe");
    assert!(!accepted(&craft(Some(Box::new(mismatched)))));
    let mut inconsistent_charge_mode = protocol_test_recipe();
    inconsistent_charge_mode.components.push(vec![CraftComponentRequirementV1 {
        type_id: String::from("rock"),
        count: 1,
        count_by_charges: true,
        recoverable: true,
    }]);
    assert!(!accepted(&craft(Some(Box::new(inconsistent_charge_mode)))));
    let mut invalid_support = protocol_test_recipe();
    invalid_support.tools =
        vec![vec![CraftToolRequirementV1 { type_id: String::from("hammer"), amount: 0, consumes_charges: false }]];
    assert!(!accepted(&craft(Some(Box::new(invalid_support)))));
    let mut excessive_presence = protocol_test_recipe();
    excessive_presence.tools =
        vec![vec![CraftToolRequirementV1 { type_id: String::from("hammer"), amount: 257, consumes_charges: false }]];
    assert!(!accepted(&craft(Some(Box::new(excessive_presence)))));
    let mut maximum_charged_tool = protocol_test_recipe();
    maximum_charged_tool.tools = vec![vec![CraftToolRequirementV1 {
        type_id: String::from("welder"),
        amount: u16::MAX,
        consumes_charges: true,
    }]];
    assert!(accepted(&craft(Some(Box::new(maximum_charged_tool)))));
    let mut unsorted_providers = protocol_test_recipe();
    unsorted_providers.qualities = vec![vec![CraftQualityRequirementV1 {
        quality_id: String::from("CUT"),
        level: 1,
        amount: 1,
        providers: vec![
            CraftQualityProviderV1 { type_id: String::from("knife"), minimum_charges: 0 },
            CraftQualityProviderV1 { type_id: String::from("blade"), minimum_charges: 5 },
        ],
    }]];
    assert!(!accepted(&craft(Some(Box::new(unsorted_providers)))));
    let mut unsorted_skills = protocol_test_recipe();
    unsorted_skills.required_skills = vec![
        CraftSkillRequirementV1 { skill_id: String::from("survival"), level: 1 },
        CraftSkillRequirementV1 { skill_id: String::from("fabrication"), level: 1 },
    ];
    assert!(!accepted(&craft(Some(Box::new(unsorted_skills)))));
    let mut excessive_skill = protocol_test_recipe();
    excessive_skill.primary_skill = Some(skill(MAX_SKILL_LEVEL + 1));
    assert!(!accepted(&craft(Some(Box::new(excessive_skill)))));
    let mut book_only = protocol_test_recipe();
    book_only.autolearn = false;
    book_only.autolearn_skills.clear();
    book_only.book_requirements =
        vec![CraftBookRequirementV1 { book_type_id: String::from("manual_fabrication"), required_skill_level: 2 }];
    assert!(accepted(&craft(Some(Box::new(book_only.clone())))));
    let mut no_knowledge_source = book_only.clone();
    no_knowledge_source.book_requirements.clear();
    assert!(!accepted(&craft(Some(Box::new(no_knowledge_source)))));
    let mut unsorted_books = book_only.clone();
    unsorted_books.book_requirements = vec![
        CraftBookRequirementV1 { book_type_id: String::from("manual_survival"), required_skill_level: 1 },
        CraftBookRequirementV1 { book_type_id: String::from("manual_fabrication"), required_skill_level: 1 },
    ];
    assert!(!accepted(&craft(Some(Box::new(unsorted_books)))));
    let mut excessive_book_skill = book_only;
    excessive_book_skill.book_requirements[0].required_skill_level = MAX_SKILL_LEVEL + 1;
    assert!(!accepted(&craft(Some(Box::new(excessive_book_skill)))));
    let valid_proficiency = CraftProficiencyV1 {
        proficiency_id: String::from("prof_metalworking"),
        required: false,
        time_multiplier_millionths: 1_500_000,
        skill_penalty_millionths: 500_000,
        learning_time_multiplier_millionths: CRAFT_PROFICIENCY_SCALE,
        max_experience_action_points: None,
        time_to_learn_action_points: 14_400_000,
        can_learn: true,
        required_proficiencies: Vec::new(),
    };
    let mut with_proficiency = protocol_test_recipe();
    with_proficiency.proficiencies = vec![valid_proficiency.clone()];
    assert!(accepted(&craft(Some(Box::new(with_proficiency)))));
    let mut required_with_time = protocol_test_recipe();
    required_with_time.proficiencies = vec![CraftProficiencyV1 { required: true, ..valid_proficiency.clone() }];
    assert!(!accepted(&craft(Some(Box::new(required_with_time)))));
    let mut required_with_penalty = protocol_test_recipe();
    required_with_penalty.proficiencies =
        vec![CraftProficiencyV1 { required: true, time_multiplier_millionths: 0, ..valid_proficiency.clone() }];
    assert!(!accepted(&craft(Some(Box::new(required_with_penalty)))));
    let mut unsorted_proficiencies = protocol_test_recipe();
    unsorted_proficiencies.proficiencies = vec![
        CraftProficiencyV1 { proficiency_id: String::from("prof_welding"), ..valid_proficiency.clone() },
        valid_proficiency,
    ];
    assert!(!accepted(&craft(Some(Box::new(unsorted_proficiencies)))));
}

#[test]
fn construction_request_placeholder_and_normalized_definition_round_trip_strictly() {
    let construct = |construction: Option<Box<ConstructionRecipeV1>>| {
        command(
            ActorId::new(1, 2),
            CommandKind::Construct {
                target: WorldPosition { x: 2, y: 2, z: 0 },
                construction_id: String::from("constr_place_table"),
                construction,
            },
        )
    };
    assert!(accepted(&construct(None)));
    assert!(accepted(&construct(Some(Box::new(protocol_test_construction())))));
    let mut invalid = protocol_test_construction();
    invalid.components.clear();
    assert!(!accepted(&construct(Some(Box::new(invalid)))));
    let mut invalid_quality = protocol_test_construction();
    invalid_quality.qualities[0][0].providers.clear();
    assert!(!accepted(&construct(Some(Box::new(invalid_quality)))));
}

#[test]
fn book_study_request_is_placeholder_or_strict_server_definition() {
    let study = BookStudyV1 {
        book_type_id: String::from("manual_pistol"),
        skill_id: String::from("pistol"),
        required_skill_level: 0,
        maximum_skill_level: 3,
        intelligence_requirement: 3,
        time_moves: 90_000,
        source_time_minutes: 15,
    };
    let read = |study: Option<Box<BookStudyV1>>| {
        command(
            ActorId::new(1, 2),
            CommandKind::ReadBook { item_id: ItemId::new(1, 3), book_type_id: String::from("manual_pistol"), study },
        )
    };
    assert!(accepted(&read(None)));
    assert!(accepted(&read(Some(Box::new(study.clone())))));
    let mut mismatched = study.clone();
    mismatched.book_type_id = String::from("other_book");
    assert!(!accepted(&read(Some(Box::new(mismatched)))));
    let mut invalid_levels = study.clone();
    invalid_levels.maximum_skill_level = invalid_levels.required_skill_level;
    assert!(!accepted(&read(Some(Box::new(invalid_levels)))));
    let mut invalid_intelligence = study.clone();
    invalid_intelligence.intelligence_requirement = MAX_ACTOR_BASE_STAT + 1;
    assert!(!accepted(&read(Some(Box::new(invalid_intelligence)))));
    let mut excessive_time = study;
    excessive_time.time_moves = MAX_BOOK_STUDY_MOVES + 1;
    assert!(!accepted(&read(Some(Box::new(excessive_time)))));
}

#[test]
fn disassembly_request_is_placeholder_or_strict_server_definition() {
    let recipe = protocol_test_disassembly_recipe();
    let disassemble = |recipe: Option<Box<DisassemblyRecipeV1>>| {
        command(
            ActorId::new(1, 2),
            CommandKind::Disassemble {
                item_id: ItemId::new(1, 3),
                item_type_id: String::from("makeshift_scythe_war"),
                recipe,
            },
        )
    };
    assert!(accepted(&disassemble(None)));
    assert!(accepted(&disassemble(Some(Box::new(recipe.clone())))));
    let mut mismatched = recipe.clone();
    mismatched.target_type_id = String::from("other_item");
    assert!(!accepted(&disassemble(Some(Box::new(mismatched)))));
    let mut charged_tool = recipe.clone();
    charged_tool.tools =
        vec![vec![CraftToolRequirementV1 { type_id: String::from("welder"), amount: 1, consumes_charges: true }]];
    assert!(!accepted(&disassemble(Some(Box::new(charged_tool)))));
    let mut invalid_charged_component = recipe;
    invalid_charged_component.components[0].count_by_charges = true;
    assert!(!accepted(&disassemble(Some(Box::new(invalid_charged_component)))));

    let mut invalid_unload = protocol_test_disassembly_recipe();
    invalid_unload.unload_charges_as = Some(prototype("test_round"));
    assert!(!accepted(&disassemble(Some(Box::new(invalid_unload)))));
    let mut contradictory = protocol_test_disassembly_recipe();
    let mut battery = prototype("battery");
    battery.charges = 100;
    battery.ammunition_type = String::from("battery");
    contradictory.unload_charges_as = Some(battery);
    contradictory.requires_empty_charges = true;
    assert!(
        !accepted(&disassemble(Some(Box::new(contradictory)))),
        "a recipe cannot both unload modeled charges and require an empty target"
    );
}

#[test]
fn disassembly_component_states_must_match_their_prototype_and_nest_within_bounds() {
    let recipe = protocol_test_disassembly_recipe();
    assert!(valid_disassembly_recipe(&recipe));

    let mut other_type = protocol_test_disassembly_recipe();
    other_type.components[0].output_state.as_mut().expect("state").type_id = String::from("rock");
    assert!(!valid_disassembly_recipe(&other_type), "a recorded state is what the prototype constructs");

    let mut unrecoverable = protocol_test_disassembly_recipe();
    unrecoverable.components[0].output_state.as_mut().expect("state").recoverable = false;
    assert!(!valid_disassembly_recipe(&unrecoverable));

    let mut nested = scrap_state();
    let mut depth = 1;
    while depth < 8 {
        nested = ItemComponentSnapshotV1 { component_provenance: Some(vec![nested]), ..scrap_state() };
        depth += 1;
    }
    let mut deep = protocol_test_disassembly_recipe();
    deep.components[0].output_state = Some(nested);
    assert!(valid_disassembly_recipe(&deep), "eight levels of nesting fit");
    let too_deep_state = ItemComponentSnapshotV1 {
        component_provenance: Some(vec![deep.components[0].output_state.clone().expect("state")]),
        ..scrap_state()
    };
    let mut too_deep = protocol_test_disassembly_recipe();
    too_deep.components[0].output_state = Some(too_deep_state);
    assert!(!valid_disassembly_recipe(&too_deep), "a ninth level does not");
}

#[test]
fn commands_need_a_named_actor_a_sequence_and_in_world_targets() {
    let actor = ActorId::new(3, 9);
    let respond = |choice_id: &str| ClientCommand {
        actor_id: actor,
        sequence: CommandSequence(4),
        client_tick: SimTick(0),
        kind: CommandKind::RespondInteraction {
            interaction_id: InteractionId::new(3, 1),
            choice_id: String::from(choice_id),
        },
    };
    assert!(valid_client_command(&respond("accept"), 6));
    assert!(!valid_client_command(&respond("accepted"), 6), "a choice over the byte limit");
    assert!(!valid_client_command(&respond(""), 6));
    assert!(!valid_client_command(&respond("a\u{1}"), 6));

    let mut unsequenced = respond("accept");
    unsequenced.sequence = CommandSequence(0);
    assert!(!valid_client_command(&unsequenced, 6));
    let mut anonymous = respond("accept");
    anonymous.actor_id = ActorId::new(3, 0);
    assert!(!valid_client_command(&anonymous, 6));

    let pocket = |owner: ItemId, contained: ItemId| ClientCommand {
        actor_id: actor,
        sequence: CommandSequence(1),
        client_tick: SimTick(0),
        kind: CommandKind::RemovePocketItem { owner_item: owner, pocket_index: 0, contained_item: contained },
    };
    assert!(valid_client_command(&pocket(ItemId::new(3, 5), ItemId::new(3, 6)), 6));
    assert!(!valid_client_command(&pocket(ItemId::new(3, 5), ItemId::new(3, 5)), 6), "an item cannot hold itself");
    assert!(!valid_client_command(&pocket(ItemId::new(3, 5), ItemId::new(4, 6)), 6));

    let waiting = ClientCommand { actor_id: actor, sequence: CommandSequence(1), client_tick: SimTick(0), kind: CommandKind::Wait };
    assert!(valid_client_command(&waiting, 6));
}

fn provenance_component() -> ItemComponentSnapshotV1 {
    ItemComponentSnapshotV1 { type_id: String::from("component"), ..scrap_state() }
}

#[test]
fn item_component_provenance_is_recursively_bounded() {
    let mut deepest = provenance_component();
    for _ in 1..MAX_ITEM_COMPONENT_DEPTH {
        let mut parent = provenance_component();
        parent.component_provenance = Some(vec![deepest]);
        deepest = parent;
    }
    assert!(valid_item_component_root(&deepest));
    let mut too_deep = provenance_component();
    too_deep.component_provenance = Some(vec![deepest]);
    assert!(!valid_item_component_root(&too_deep));
    let mut mismatched_charge_mode = provenance_component();
    mismatched_charge_mode.containment.count_by_charges = true;
    assert!(!valid_item_component_root(&mismatched_charge_mode));
    assert!(!valid_component_provenance(&Some(vec![provenance_component(); MAX_ITEM_COMPONENTS + 1])));
    assert!(valid_component_provenance(&Some(vec![provenance_component(); MAX_ITEM_COMPONENTS])));
    assert!(valid_component_provenance(&None));
}
