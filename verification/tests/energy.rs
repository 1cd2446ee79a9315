use slimefun::energy::{EnergyNetGraphSolver, EnergyNodeType, EnergyReport};

fn solver(nodes: &[EnergyNodeType]) -> EnergyNetGraphSolver {
    let mut s = EnergyNetGraphSolver::new();
    for (i, t) in nodes.iter().enumerate() {
        s.register_node(i as i32, 0, 0, *t);
    }
    s
}

#[test]
fn el_sobrante_carga_capacitores() {
    let mut s = solver(&[
        EnergyNodeType::Generator { production_per_tick: 100 },
        EnergyNodeType::Consumer { demand_per_tick: 30 },
        EnergyNodeType::Capacitor { capacity: 1000, stored: 0 },
    ]);

    let r = s.solve_tick();
    assert_eq!(r.generated, 100);
    assert_eq!(r.supplied, 30);
    assert_eq!(r.charged, 70);
    assert_eq!(r.wasted, 0);
    assert_eq!(s.stored_energy(), 70);
}

#[test]
fn el_deficit_sale_de_los_capacitores() {
    let mut s = solver(&[
        EnergyNodeType::Generator { production_per_tick: 10 },
        EnergyNodeType::Consumer { demand_per_tick: 50 },
        EnergyNodeType::Capacitor { capacity: 1000, stored: 100 },
    ]);

    let r = s.solve_tick();
    assert_eq!(r.discharged, 40);
    assert_eq!(r.supplied, 50);
    assert_eq!(r.unmet, 0);
    assert_eq!(s.stored_energy(), 60);
}

#[test]
fn sin_reservas_suficientes_queda_demanda_sin_cubrir() {
    let mut s = solver(&[
        EnergyNodeType::Generator { production_per_tick: 10 },
        EnergyNodeType::Consumer { demand_per_tick: 100 },
        EnergyNodeType::Capacitor { capacity: 1000, stored: 15 },
    ]);

    let r = s.solve_tick();
    assert_eq!(r.discharged, 15, "solo habia 15 guardados");
    assert_eq!(r.supplied, 25, "10 generados mas los 15 de reserva");
    assert_eq!(r.unmet, 75, "del deficit de 90 se taparon 15");
    assert_eq!(r.supplied + r.unmet, r.demanded, "todo lo pedido se explica");
    assert!(r.is_starved());
    assert_eq!(s.stored_energy(), 0);
}

#[test]
fn lo_que_no_cabe_en_capacitores_se_pierde() {
    let mut s = solver(&[
        EnergyNodeType::Generator { production_per_tick: 500 },
        EnergyNodeType::Capacitor { capacity: 100, stored: 90 },
    ]);

    let r = s.solve_tick();
    assert_eq!(r.charged, 10);
    assert_eq!(r.wasted, 490);
    assert_eq!(s.stored_energy(), 100);
}

#[test]
fn el_reparto_llena_un_capacitor_antes_de_pasar_al_siguiente() {
    let mut s = solver(&[
        EnergyNodeType::Generator { production_per_tick: 150 },
        EnergyNodeType::Capacitor { capacity: 100, stored: 0 },
        EnergyNodeType::Capacitor { capacity: 100, stored: 0 },
    ]);

    let r = s.solve_tick();
    assert_eq!(r.charged, 150);
    assert_eq!(r.wasted, 0);
    assert_eq!(s.stored_energy(), 150);
}

#[test]
fn una_red_de_solo_conectores_no_hace_nada() {
    let mut s = solver(&[EnergyNodeType::Connector, EnergyNodeType::Connector]);
    assert_eq!(s.solve_tick(), EnergyReport::default());
}

#[test]
fn las_sumas_saturan_en_vez_de_desbordar() {
    let mut s = solver(&[
        EnergyNodeType::Generator { production_per_tick: u64::MAX },
        EnergyNodeType::Generator { production_per_tick: u64::MAX },
    ]);

    assert_eq!(s.solve_tick().generated, u64::MAX);
}

#[test]
fn un_capacitor_por_encima_de_su_capacidad_no_regala_energia() {
    // Happens when someone lowers the capacity while the capacitor is full.
    let mut s = solver(&[
        EnergyNodeType::Generator { production_per_tick: 50 },
        EnergyNodeType::Capacitor { capacity: 10, stored: 80 },
    ]);

    let r = s.solve_tick();
    assert_eq!(r.charged, 0, "no cabe nada, la resta no debe desbordar");
    assert_eq!(r.wasted, 50);
    assert_eq!(s.stored_energy(), 80);
}

#[test]
fn quitar_un_nodo_lo_saca_del_reparto() {
    let mut s = solver(&[
        EnergyNodeType::Generator { production_per_tick: 100 },
        EnergyNodeType::Consumer { demand_per_tick: 40 },
    ]);
    s.remove_node(1, 0, 0);

    let r = s.solve_tick();
    assert_eq!(r.demanded, 0);
    assert_eq!(r.wasted, 100, "sin capacitores el sobrante se pierde");
}

fn capacitor_levels(s: &mut EnergyNetGraphSolver, n: i32) -> Vec<u64> {
    let mut levels = Vec::new();
    for i in 0..n {
        if let Some(node) = s.remove_node(i, 0, 0) {
            if let EnergyNodeType::Capacitor { stored, .. } = node.node_type {
                levels.push(stored);
            }
            s.register_node(node.x, node.y, node.z, node.node_type);
        }
    }
    levels.sort();
    levels
}

#[test]
fn one_capacitor_is_filled_before_the_next_takes_any() {
    let mut s = solver(&[
        EnergyNodeType::Generator { production_per_tick: 150 },
        EnergyNodeType::Capacitor { capacity: 100, stored: 0 },
        EnergyNodeType::Capacitor { capacity: 100, stored: 0 },
    ]);
    s.solve_tick();
    assert_eq!(capacitor_levels(&mut s, 3), vec![50, 100]);
}

#[test]
fn the_deficit_drains_capacitors_one_at_a_time() {
    let mut s = solver(&[
        EnergyNodeType::Consumer { demand_per_tick: 70 },
        EnergyNodeType::Capacitor { capacity: 100, stored: 50 },
        EnergyNodeType::Capacitor { capacity: 100, stored: 50 },
    ]);
    let r = s.solve_tick();
    assert_eq!(r.discharged, 70);
    assert_eq!(r.unmet, 0);
    assert_eq!(capacitor_levels(&mut s, 3), vec![0, 30]);
}

#[test]
fn a_balanced_network_touches_no_reserve() {
    let mut s = solver(&[
        EnergyNodeType::Generator { production_per_tick: 40 },
        EnergyNodeType::Consumer { demand_per_tick: 40 },
        EnergyNodeType::Capacitor { capacity: 100, stored: 7 },
    ]);
    let r = s.solve_tick();
    assert_eq!(r.supplied, 40);
    assert_eq!(r.charged, 0);
    assert_eq!(r.discharged, 0);
    assert_eq!(r.wasted, 0);
    assert!(!r.is_starved());
    assert_eq!(s.stored_energy(), 7);
}

#[test]
fn stored_energy_saturates() {
    let s = solver(&[
        EnergyNodeType::Capacitor { capacity: u64::MAX, stored: u64::MAX },
        EnergyNodeType::Capacitor { capacity: u64::MAX, stored: 5 },
    ]);
    assert_eq!(s.stored_energy(), u64::MAX);
}

#[test]
fn registering_at_a_taken_place_replaces_the_node() {
    let mut s = EnergyNetGraphSolver::new();
    s.register_node(1, 2, 3, EnergyNodeType::Connector);
    s.register_node(1, 2, 3, EnergyNodeType::Generator { production_per_tick: 9 });
    assert_eq!(s.count_nodes(), 1);
    let n = s.remove_node(1, 2, 3).unwrap();
    assert_eq!((n.x, n.y, n.z), (1, 2, 3));
    assert_eq!(n.node_type, EnergyNodeType::Generator { production_per_tick: 9 });
    assert!(s.remove_node(1, 2, 3).is_none());
    assert_eq!(s.count_nodes(), 0);
}

#[test]
fn energy_is_conserved_across_ticks() {
    let mut s = solver(&[
        EnergyNodeType::Generator { production_per_tick: 30 },
        EnergyNodeType::Consumer { demand_per_tick: 10 },
        EnergyNodeType::Capacitor { capacity: 50, stored: 0 },
    ]);
    let mut expected = 0u64;
    for _ in 0..4 {
        let before = s.stored_energy();
        let r = s.solve_tick();
        assert_eq!(r.supplied + r.charged + r.wasted, r.generated);
        expected = before + r.charged - r.discharged;
        assert_eq!(s.stored_energy(), expected);
    }
    assert_eq!(expected, 50);
}
