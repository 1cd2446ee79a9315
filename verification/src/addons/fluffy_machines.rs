//! Machines of the FluffyMachines addon.
use vstd::prelude::*;

verus! {

#[derive(Debug, Clone)]
pub struct FluffyMachineSpec {
    pub id: &'static str,
    pub name: &'static str,
    pub energy_per_tick: u64,
}

/// The FluffyMachines machines and their consumption per tick.
pub open spec fn fluffy_machine_catalog() -> Seq<FluffyMachineSpec> {
    seq![
        FluffyMachineSpec { id: "AUTO_ANVIL", name: "Yunque Automático", energy_per_tick: 64 },
        FluffyMachineSpec { id: "AUTO_ENCHANTER", name: "Encantador Automático", energy_per_tick: 128 },
        FluffyMachineSpec { id: "METAL_PRESS", name: "Prensa de Metal Fluffy", energy_per_tick: 32 },
        FluffyMachineSpec { id: "ELECTRIC_SMELTER", name: "Fundidor Eléctrico de Lingotes", energy_per_tick: 48 },
    ]
}

pub struct FluffyMachinesAddonEngine;

impl FluffyMachinesAddonEngine {
    pub fn get_machine_specs() -> (specs: Vec<FluffyMachineSpec>)
        ensures
            specs@ == fluffy_machine_catalog(),
    {
        vec![
            FluffyMachineSpec { id: "AUTO_ANVIL", name: "Yunque Automático", energy_per_tick: 64 },
            FluffyMachineSpec { id: "AUTO_ENCHANTER", name: "Encantador Automático", energy_per_tick: 128 },
            FluffyMachineSpec { id: "METAL_PRESS", name: "Prensa de Metal Fluffy", energy_per_tick: 32 },
            FluffyMachineSpec { id: "ELECTRIC_SMELTER", name: "Fundidor Eléctrico de Lingotes", energy_per_tick: 48 },
        ]
    }
}


/// Every FluffyMachines machine runs on energy, and no two share an id.
pub proof fn lemma_fluffy_machines_use_energy()
    ensures
        forall|i: int| 0 <= i < fluffy_machine_catalog().len() ==> #[trigger] fluffy_machine_catalog()[i].energy_per_tick > 0,
        forall|i: int, j: int| 0 <= i < j < fluffy_machine_catalog().len() ==> #[trigger] fluffy_machine_catalog()[i].id@ != #[trigger] fluffy_machine_catalog()[j].id@,
{
    reveal_strlit("AUTO_ANVIL");
    reveal_strlit("AUTO_ENCHANTER");
    reveal_strlit("METAL_PRESS");
    reveal_strlit("ELECTRIC_SMELTER");
    assert("AUTO_ANVIL"@.len() == 10);
    assert("AUTO_ENCHANTER"@.len() == 14);
    assert("METAL_PRESS"@.len() == 11);
    assert("ELECTRIC_SMELTER"@.len() == 16);
    assert(fluffy_machine_catalog()[1].id@ != fluffy_machine_catalog()[0].id@);
    assert(fluffy_machine_catalog()[2].id@ != fluffy_machine_catalog()[0].id@);
    assert(fluffy_machine_catalog()[2].id@ != fluffy_machine_catalog()[1].id@);
    assert(fluffy_machine_catalog()[3].id@ != fluffy_machine_catalog()[0].id@);
    assert(fluffy_machine_catalog()[3].id@ != fluffy_machine_catalog()[1].id@);
    assert(fluffy_machine_catalog()[3].id@ != fluffy_machine_catalog()[2].id@);
}

} // verus!
