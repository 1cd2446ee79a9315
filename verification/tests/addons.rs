use slimefun::addons::all_addons::AllAddonsRegistry;
use slimefun::addons::fluffy_machines::FluffyMachinesAddonEngine;
use slimefun::addons::networks::NetworksAddonEngine;
use slimefun::addons::SlimefunAddonsEngine;
use slimefun::block_storage::SlimefunBlockData;
use slimefun::cargo::{CargoNetRoutingEngine, CargoRouteRequest};

fn bloque() -> SlimefunBlockData {
    SlimefunBlockData {
        world: "world".into(),
        x: 0,
        y: 64,
        z: 0,
        item_id: "NETWORKS_NETWORK_BRIDGE".into(),
        extra_data: String::new(),
        owner_uuid: None,
        last_tick_timestamp: 0,
    }
}

#[test]
fn the_catalogue_has_every_integrated_addon() {
    let addons = AllAddonsRegistry::get_all_44_addons();
    assert_eq!(addons.len(), 44);
    assert_eq!(addons[0].id, "networks_v6");
    assert_eq!(addons[0].name, "NetworksV6-Drake");
    assert_eq!(addons[43].id, "drakes_slime_market");
    assert_eq!(addons[43].category, "ECONOMY");
    assert!(addons.iter().all(|a| a.active));
}

#[test]
fn ticks_are_dispatched_to_catalogued_addons_only() {
    let r = AllAddonsRegistry::new();
    assert_eq!(r.dispatch_machine_tick("networks_v6", &bloque()), 1);
    assert_eq!(r.dispatch_machine_tick("drakes_slime_market", &bloque()), 1);
    assert_eq!(r.dispatch_machine_tick("unknown_addon", &bloque()), 0);
}

#[test]
fn active_addons_carry_the_engine_metadata() {
    let m = SlimefunAddonsEngine::get_active_addons();
    assert_eq!(m.len(), 44);
    assert_eq!(m[1].name, "FluffyMachines");
    assert!(m.iter().all(|a| a.version == "1.0.0-RUST" && a.author == "DrakesCraft Labs" && a.total_items == 25));
}

#[test]
fn fluffy_and_networks_tables() {
    let f = FluffyMachinesAddonEngine::get_machine_specs();
    assert_eq!(f.len(), 4);
    assert_eq!(f[1].id, "AUTO_ENCHANTER");
    assert_eq!(f[1].energy_per_tick, 128);
    let n = NetworksAddonEngine::get_item_specs();
    assert_eq!(n.len(), 5);
    assert_eq!(n[0].capacity_joules, 10000);
    assert_eq!(n[1].capacity_joules, 0);
}

#[test]
fn cargo_moves_the_whole_request() {
    let req = CargoRouteRequest {
        source_x: 0,
        source_y: 0,
        source_z: 0,
        target_x: 5,
        target_y: 0,
        target_z: 0,
        item_id: "IRON_DUST".to_string(),
        amount: 37,
    };
    assert_eq!(CargoNetRoutingEngine::route_items(&req), 37);
}
