use std::collections::BTreeMap;

use slimefun::block_storage::{block_from_row, BlockStorageEngine, SaveOp, SlimefunBlockData};

/// A database table in memory: (world, x, y, z) -> (id, data).
type Disk = BTreeMap<(String, i32, i32, i32), (String, String)>;

fn bloque(x: i32, id: &str) -> SlimefunBlockData {
    SlimefunBlockData {
        world: "world".into(),
        x,
        y: 64,
        z: 0,
        item_id: id.into(),
        extra_data: String::new(),
        owner_uuid: None,
        last_tick_timestamp: 0,
    }
}

/// Loads every row of `disk`, as the database loader does.
fn cargar(e: &mut BlockStorageEngine, disk: &Disk) -> usize {
    let rows = disk
        .iter()
        .map(|((w, x, y, z), (id, data))| {
            Some(block_from_row(w.clone(), *x, *y, *z, id.clone(), Some(data.clone())))
        })
        .collect();
    e.load_rows(rows)
}

/// Saves the pending blocks into `disk`, as the database saver does: nothing is
/// written when nothing is pending, and the marks are cleared after the commit.
fn guardar(e: &mut BlockStorageEngine, disk: &mut Disk) -> usize {
    let pendientes = e.pending_saves();
    if pendientes.is_empty() {
        return 0;
    }
    for op in &pendientes {
        match op {
            SaveOp::Upsert(b) => {
                disk.insert(
                    (b.world.clone(), b.x, b.y, b.z),
                    (b.item_id.clone(), b.extra_data.clone()),
                );
            }
            SaveOp::Delete(k) => {
                disk.remove(k);
            }
        }
    }
    e.mark_saved(&pendientes);
    pendientes.len()
}

fn ids_en_disco(disk: &Disk) -> Vec<(i32, String)> {
    let mut filas: Vec<(i32, String)> = disk.iter().map(|(k, v)| (k.1, v.0.clone())).collect();
    filas.sort();
    filas
}

#[test]
fn poner_un_bloque_lo_deja_pendiente() {
    let mut e = BlockStorageEngine::new();
    assert_eq!(e.dirty_count(), 0);
    e.set_block(bloque(1, "SOLAR_PANEL"));
    assert_eq!(e.dirty_count(), 1);
}

#[test]
fn guardar_solo_escribe_lo_pendiente_y_limpia_la_marca() {
    let mut db = Disk::new();
    let mut e = BlockStorageEngine::new();
    cargar(&mut e, &db);

    e.set_block(bloque(1, "SOLAR_PANEL"));
    e.set_block(bloque(2, "COAL_GENERATOR"));
    assert_eq!(guardar(&mut e, &mut db), 2);
    assert_eq!(e.dirty_count(), 0);

    // Untouched, the next pass writes no row at all.
    assert_eq!(guardar(&mut e, &mut db), 0);

    // Touch one, and one is written.
    e.set_block(bloque(2, "LAVA_GENERATOR"));
    assert_eq!(guardar(&mut e, &mut db), 1);

    assert_eq!(
        ids_en_disco(&db),
        vec![(1, "SOLAR_PANEL".to_string()), (2, "LAVA_GENERATOR".to_string())]
    );
}

#[test]
fn romper_un_bloque_lo_borra_del_disco() {
    let mut db = Disk::new();
    let mut e = BlockStorageEngine::new();
    cargar(&mut e, &db);

    e.set_block(bloque(1, "SOLAR_PANEL"));
    e.set_block(bloque(2, "COAL_GENERATOR"));
    guardar(&mut e, &mut db);

    e.remove_block("world", 2, 64, 0);
    assert_eq!(e.dirty_count(), 1);
    guardar(&mut e, &mut db);

    assert_eq!(ids_en_disco(&db), vec![(1, "SOLAR_PANEL".to_string())]);
}

#[test]
fn cargar_del_disco_no_ensucia() {
    let mut db = Disk::new();
    let mut e = BlockStorageEngine::new();
    cargar(&mut e, &db);
    e.set_block(bloque(1, "SOLAR_PANEL"));
    guardar(&mut e, &mut db);

    let mut otro = BlockStorageEngine::new();
    assert_eq!(cargar(&mut otro, &db), 1);
    assert_eq!(otro.count(), 1);
    assert_eq!(
        otro.dirty_count(),
        0,
        "lo recien leido ya esta en disco, no hay nada que guardar"
    );
    assert_eq!(guardar(&mut otro, &mut db), 0);
}

#[test]
fn quitar_algo_que_no_existe_no_deja_marca() {
    let mut e = BlockStorageEngine::new();
    assert!(e.remove_block("world", 9, 9, 9).is_none());
    assert_eq!(e.dirty_count(), 0);
}

#[test]
fn marcar_todo_fuerza_la_copia_entera() {
    let mut db = Disk::new();
    let mut e = BlockStorageEngine::new();
    cargar(&mut e, &db);
    e.set_block(bloque(1, "A"));
    e.set_block(bloque(2, "B"));
    guardar(&mut e, &mut db);
    assert_eq!(guardar(&mut e, &mut db), 0);

    e.mark_all_dirty();
    assert_eq!(guardar(&mut e, &mut db), 2);
}

#[test]
fn lookup_returns_the_stored_block_and_counts_queries() {
    let mut e = BlockStorageEngine::new();
    let mut b = bloque(5, "ELECTRIC_SMELTER");
    b.extra_data = "{\"charge\":12}".to_string();
    b.owner_uuid = Some("owner-1".to_string());
    b.last_tick_timestamp = 77;
    e.set_block(b);

    let got = e.get_block("world", 5, 64, 0).expect("block present");
    assert_eq!(got.item_id, "ELECTRIC_SMELTER");
    assert_eq!(got.extra_data, "{\"charge\":12}");
    assert_eq!(got.owner_uuid.as_deref(), Some("owner-1"));
    assert_eq!(got.last_tick_timestamp, 77);
    assert!(e.get_block("world", 6, 64, 0).is_none());
    assert!(e.get_block("nether", 5, 64, 0).is_none());
    assert_eq!(e.total_queries(), 3);
}

#[test]
fn setting_a_place_twice_keeps_one_block_and_one_mark() {
    let mut e = BlockStorageEngine::new();
    e.set_block(bloque(1, "A"));
    e.set_block(bloque(1, "B"));
    assert_eq!(e.count(), 1);
    assert_eq!(e.dirty_count(), 1);
    assert_eq!(e.get_block("world", 1, 64, 0).unwrap().item_id, "B");
}

#[test]
fn removing_returns_the_block_and_empties_the_place() {
    let mut e = BlockStorageEngine::new();
    e.set_block(bloque(3, "SOLAR_PANEL"));
    let quitado = e.remove_block("world", 3, 64, 0).expect("was there");
    assert_eq!(quitado.item_id, "SOLAR_PANEL");
    assert_eq!(e.count(), 0);
    assert!(e.get_block("world", 3, 64, 0).is_none());
}

#[test]
fn the_plan_deletes_what_was_removed_and_stores_what_was_set() {
    let mut e = BlockStorageEngine::new();
    e.set_block(bloque(1, "A"));
    e.set_block(bloque(2, "B"));
    e.remove_block("world", 2, 64, 0);
    let mut plan = e.pending_saves();
    plan.sort_by_key(|op| match op {
        SaveOp::Upsert(b) => b.x,
        SaveOp::Delete(k) => k.1,
    });
    assert_eq!(plan.len(), 2);
    assert!(matches!(&plan[0], SaveOp::Upsert(b) if b.item_id == "A"));
    assert!(matches!(&plan[1], SaveOp::Delete(k) if k.0 == "world" && k.1 == 2));
}

#[test]
fn a_failed_save_leaves_the_blocks_pending() {
    let mut e = BlockStorageEngine::new();
    e.set_block(bloque(1, "A"));
    let _plan = e.pending_saves();
    // The transaction failed: the marks are not cleared.
    assert_eq!(e.dirty_count(), 1);
    // A block touched after the plan was made stays pending after the commit.
    let plan = e.pending_saves();
    e.set_block(bloque(2, "B"));
    e.mark_saved(&plan);
    assert_eq!(e.dirty_count(), 1);
}

#[test]
fn a_row_without_data_loads_with_empty_data() {
    let b = block_from_row("world".to_string(), 1, 2, 3, "A".to_string(), None);
    assert_eq!(b.extra_data, "");
    assert!(b.owner_uuid.is_none());
    assert_eq!(b.last_tick_timestamp, 0);
    let mut e = BlockStorageEngine::new();
    assert_eq!(e.load_rows(vec![Some(b), None]), 1);
    assert_eq!(e.count(), 1);
    assert_eq!(e.dirty_count(), 0);
}
