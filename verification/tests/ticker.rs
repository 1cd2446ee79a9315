use slimefun::block_storage::{BlockStorageEngine, SlimefunBlockData};
use slimefun::ticker::TickerEngine;

#[test]
fn el_contador_avanza_uno_por_tick() {
    let mut t = TickerEngine::new();
    let s = BlockStorageEngine::new();

    assert_eq!(t.tick_all_machines(&s).tick, 0);
    assert_eq!(t.tick_all_machines(&s).tick, 1);
    assert_eq!(t.current_tick(), 2);
}

#[test]
fn informa_de_los_bloques_que_aun_no_procesa() {
    let mut t = TickerEngine::new();
    let mut s = BlockStorageEngine::new();
    s.set_block(SlimefunBlockData {
        world: "world".into(),
        x: 0,
        y: 64,
        z: 0,
        item_id: "SOLAR_PANEL".into(),
        extra_data: String::new(),
        owner_uuid: None,
        last_tick_timestamp: 0,
    });

    assert_eq!(t.tick_all_machines(&s).pending_blocks, 1);
}

#[test]
fn a_new_ticker_starts_at_zero() {
    let t = TickerEngine::new();
    assert_eq!(t.current_tick(), 0);
}
