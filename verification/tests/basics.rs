use protocol::description::item_description_expansion_is_valid;
use protocol::geometry::{ChunkCoord, LocalTileCoord, WorldPosition};
use protocol::ids::ActorId;
use protocol::item_groups::{
    initial_item_temperature_state, valid_item_temperature_state, ItemDescriptionExpansionV1,
    ItemDescriptionSnippetCategoryV1, ItemDescriptionSnippetChoiceV1,
    ITEM_TEMPERATURE_NORMAL_AMBIENT_MILLIKELVIN, MAX_DESCRIPTION_SNIPPET_DEPTH,
};
use protocol::items::ItemPhaseV1;
use protocol::time::{CalendarSnapshot, Season, SimTick, SECONDS_PER_DAY};

#[test]
fn temperature_state_accepts_only_the_bounded_constructor_lifecycle() {
    let birth = SimTick(123);
    let initial = initial_item_temperature_state(birth, ItemPhaseV1::Solid);
    assert!(valid_item_temperature_state(&initial));

    let mut initialized = initial;
    initialized.temperature_millikelvin = ITEM_TEMPERATURE_NORMAL_AMBIENT_MILLIKELVIN;
    initialized.specific_energy_millijoules_per_gram = None;
    initialized.last_check_tick = SimTick(12_123);
    assert!(valid_item_temperature_state(&initialized));

    let mut invented_energy = initialized;
    invented_energy.specific_energy_millijoules_per_gram = Some(0);
    assert!(!valid_item_temperature_state(&invented_energy));

    let mut invented_flag = initialized;
    invented_flag.hot = true;
    assert!(!valid_item_temperature_state(&invented_flag));

    let mut unsupported_phase = initialized;
    unsupported_phase.current_phase = ItemPhaseV1::Gas;
    assert!(!valid_item_temperature_state(&unsupported_phase));
}

fn choice(text: &str, weight: u64) -> ItemDescriptionSnippetChoiceV1 {
    ItemDescriptionSnippetChoiceV1 {
        text: text.to_owned(),
        weight,
    }
}

fn category(category: &str, choices: Vec<ItemDescriptionSnippetChoiceV1>) -> ItemDescriptionSnippetCategoryV1 {
    ItemDescriptionSnippetCategoryV1 {
        category: category.to_owned(),
        choices,
    }
}

#[test]
fn description_expansion_requires_exact_acyclic_reachable_closure() {
    let valid = ItemDescriptionExpansionV1 {
        template: String::from("Before <outer> <unknown>"),
        categories: vec![
            category("<inner>", vec![choice("done", 1)]),
            category("<outer>", vec![choice("nested <inner>", 2), choice("plain", 0)]),
        ],
    };
    assert!(item_description_expansion_is_valid(&valid));

    let mut unsorted = valid.clone();
    unsorted.categories.reverse();
    assert!(!item_description_expansion_is_valid(&unsorted));

    let mut unreachable = valid.clone();
    unreachable.categories.insert(0, category("<extra>", vec![choice("unused", 1)]));
    assert!(!item_description_expansion_is_valid(&unreachable));

    let cyclic = ItemDescriptionExpansionV1 {
        template: String::from("<cycle_a>"),
        categories: vec![
            category("<cycle_a>", vec![choice("<cycle_b>", 1)]),
            category("<cycle_b>", vec![choice("<cycle_a>", 1)]),
        ],
    };
    assert!(!item_description_expansion_is_valid(&cyclic));

    let literal_zero_weight = ItemDescriptionExpansionV1 {
        template: String::from("<zero>"),
        categories: vec![category("<zero>", vec![choice("never", 0)])],
    };
    assert!(item_description_expansion_is_valid(&literal_zero_weight));
}

#[test]
fn description_expansion_memoizes_repeated_dag_branches() {
    let mut categories = Vec::new();
    for index in 0..MAX_DESCRIPTION_SNIPPET_DEPTH {
        let replacement = if index + 1 == MAX_DESCRIPTION_SNIPPET_DEPTH {
            String::from("done")
        } else {
            format!("<dag_{:02}>", index + 1)
        };
        categories.push(ItemDescriptionSnippetCategoryV1 {
            category: format!("<dag_{index:02}>"),
            choices: vec![
                ItemDescriptionSnippetChoiceV1 {
                    text: replacement.clone(),
                    weight: 1,
                },
                ItemDescriptionSnippetChoiceV1 {
                    text: replacement,
                    weight: 1,
                },
            ],
        });
    }
    let expansion = ItemDescriptionExpansionV1 {
        template: String::from("<dag_00>"),
        categories,
    };
    assert!(item_description_expansion_is_valid(&expansion));
}

#[test]
fn stable_id_round_trips_its_parts() {
    let id = ActorId::new(0xfedc_ba98_7654_3210, 42);
    assert_eq!(id.world_namespace(), 0xfedc_ba98_7654_3210);
    assert_eq!(id.counter(), 42);
    assert_eq!(id.to_string(), "fedcba9876543210:000000000000002a");
}

#[test]
fn negative_positions_use_euclidean_chunks() {
    let position = WorldPosition { x: -1, y: -13, z: 2 };
    let (chunk, local) = position.chunk_and_local();
    assert_eq!(chunk, ChunkCoord { x: -1, y: -2, z: 2 });
    assert_eq!(local, LocalTileCoord { x: 11, y: 11 });
}

#[test]
fn default_calendar_starts_on_spring_day_sixty_one_at_eight() {
    assert_eq!(
        CalendarSnapshot::at_tick(SimTick(0)),
        CalendarSnapshot {
            year: 1,
            season: Season::Spring,
            day_of_season: 61,
            hour: 8,
            minute: 0,
            second: 0,
        }
    );
    assert_eq!(
        CalendarSnapshot::at_tick(SimTick(SimTick::HZ * 31 * SECONDS_PER_DAY)),
        CalendarSnapshot {
            year: 1,
            season: Season::Summer,
            day_of_season: 1,
            hour: 8,
            minute: 0,
            second: 0,
        }
    );
}

#[test]
fn calendar_advances_only_after_twenty_subsecond_ticks() {
    assert_eq!(CalendarSnapshot::at_tick(SimTick(SimTick::HZ - 1)).second, 0);
    assert_eq!(CalendarSnapshot::at_tick(SimTick(SimTick::HZ)).second, 1);
}
