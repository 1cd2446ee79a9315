use slimefun::items::{SlimefunCategory, SlimefunItemRegistry, SlimefunItemSpec};

#[test]
fn a_new_registry_holds_the_starter_items() {
    let r = SlimefunItemRegistry::new();
    assert_eq!(r.count(), 11);
    let iron = r.get("IRON_DUST").expect("iron dust");
    assert_eq!(iron.name, "Polvo de Hierro");
    assert_eq!(iron.category, SlimefunCategory::Resources);
    assert_eq!(iron.recipe_type, "ORE_WASHER");
    assert_eq!(iron.recipe_inputs, vec!["SIFTED_ORE".to_string()]);
    let smelter = r.get("ELECTRIC_SMELTER").expect("smelter");
    assert!(smelter.is_electric);
    assert_eq!(smelter.capacity_joules, 2000);
    assert_eq!(smelter.energy_consumption_per_tick, 24);
    let solar = r.get("SOLAR_GENERATOR").expect("solar");
    assert_eq!(solar.recipe_inputs, vec!["SOLAR_PANEL".to_string(), "BASIC_CIRCUIT_BOARD".to_string()]);
    assert!(r.get("NOPE").is_none());
}

#[test]
fn registering_an_item_makes_it_findable_and_replaces_by_id() {
    let mut r = SlimefunItemRegistry::new();
    let spec = SlimefunItemSpec {
        id: "IRON_DUST".to_string(),
        name: "Iron Dust".to_string(),
        category: SlimefunCategory::Resources,
        recipe_type: "GRIND_STONE".to_string(),
        recipe_inputs: vec![],
        recipe_output_count: 2,
        is_electric: false,
        capacity_joules: 0,
        energy_consumption_per_tick: 0,
    };
    r.register_item(spec);
    assert_eq!(r.count(), 11);
    assert_eq!(r.get("IRON_DUST").unwrap().name, "Iron Dust");

    r.register_item(SlimefunItemSpec {
        id: "GPS_TRANSMITTER".to_string(),
        name: "GPS".to_string(),
        category: SlimefunCategory::Tools,
        recipe_type: "ENHANCED_CRAFTING_TABLE".to_string(),
        recipe_inputs: vec!["STEEL_INGOT".to_string()],
        recipe_output_count: 1,
        is_electric: true,
        capacity_joules: 100,
        energy_consumption_per_tick: 1,
    });
    assert_eq!(r.count(), 12);
    assert_eq!(r.get("GPS_TRANSMITTER").unwrap().category, SlimefunCategory::Tools);
}
