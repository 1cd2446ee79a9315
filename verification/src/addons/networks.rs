//! Items of the Networks addon.
use vstd::prelude::*;

verus! {

#[derive(Debug, Clone)]
pub struct NetworksItemSpec {
    pub id: &'static str,
    pub name: &'static str,
    pub category: &'static str,
    pub capacity_joules: u64,
}

/// The Networks items and their energy capacity.
pub open spec fn networks_item_catalog() -> Seq<NetworksItemSpec> {
    seq![
        NetworksItemSpec { id: "NETWORKS_NETWORK_BRIDGE", name: "Puente de Red Networks", category: "NETWORKS", capacity_joules: 10000 },
        NetworksItemSpec { id: "NETWORKS_NETWORK_MONITOR", name: "Monitor de Red", category: "NETWORKS", capacity_joules: 0 },
        NetworksItemSpec { id: "NETWORKS_CRAFTING_UNIT", name: "Unidad de Autocrafteo", category: "NETWORKS", capacity_joules: 5000 },
        NetworksItemSpec { id: "NETWORKS_IMPORT_BUS", name: "Bus de Importación", category: "NETWORKS", capacity_joules: 1000 },
        NetworksItemSpec { id: "NETWORKS_EXPORT_BUS", name: "Bus de Exportación", category: "NETWORKS", capacity_joules: 1000 },
    ]
}

pub struct NetworksAddonEngine;

impl NetworksAddonEngine {
    pub fn get_item_specs() -> (specs: Vec<NetworksItemSpec>)
        ensures
            specs@ == networks_item_catalog(),
    {
        vec![
            NetworksItemSpec { id: "NETWORKS_NETWORK_BRIDGE", name: "Puente de Red Networks", category: "NETWORKS", capacity_joules: 10000 },
            NetworksItemSpec { id: "NETWORKS_NETWORK_MONITOR", name: "Monitor de Red", category: "NETWORKS", capacity_joules: 0 },
            NetworksItemSpec { id: "NETWORKS_CRAFTING_UNIT", name: "Unidad de Autocrafteo", category: "NETWORKS", capacity_joules: 5000 },
            NetworksItemSpec { id: "NETWORKS_IMPORT_BUS", name: "Bus de Importación", category: "NETWORKS", capacity_joules: 1000 },
            NetworksItemSpec { id: "NETWORKS_EXPORT_BUS", name: "Bus de Exportación", category: "NETWORKS", capacity_joules: 1000 },
        ]
    }
}


/// Every Networks item belongs to the Networks category, and no two share an id.
pub proof fn lemma_networks_items_distinct()
    ensures
        forall|i: int| 0 <= i < networks_item_catalog().len() ==> #[trigger] networks_item_catalog()[i].category@ == "NETWORKS"@,
        forall|i: int, j: int| 0 <= i < j < networks_item_catalog().len() ==> #[trigger] networks_item_catalog()[i].id@ != #[trigger] networks_item_catalog()[j].id@,
{
    reveal_strlit("NETWORKS_NETWORK_BRIDGE");
    reveal_strlit("NETWORKS_NETWORK_MONITOR");
    reveal_strlit("NETWORKS_CRAFTING_UNIT");
    reveal_strlit("NETWORKS_IMPORT_BUS");
    reveal_strlit("NETWORKS_EXPORT_BUS");
    assert("NETWORKS_NETWORK_BRIDGE"@.len() == 23);
    assert("NETWORKS_NETWORK_MONITOR"@.len() == 24);
    assert("NETWORKS_CRAFTING_UNIT"@.len() == 22);
    assert("NETWORKS_IMPORT_BUS"@.len() == 19);
    assert("NETWORKS_EXPORT_BUS"@.len() == 19);
    assert("NETWORKS_EXPORT_BUS"@[9] != "NETWORKS_IMPORT_BUS"@[9]);
    assert(networks_item_catalog()[1].id@ != networks_item_catalog()[0].id@);
    assert(networks_item_catalog()[2].id@ != networks_item_catalog()[0].id@);
    assert(networks_item_catalog()[2].id@ != networks_item_catalog()[1].id@);
    assert(networks_item_catalog()[3].id@ != networks_item_catalog()[0].id@);
    assert(networks_item_catalog()[3].id@ != networks_item_catalog()[1].id@);
    assert(networks_item_catalog()[3].id@ != networks_item_catalog()[2].id@);
    assert(networks_item_catalog()[4].id@ != networks_item_catalog()[0].id@);
    assert(networks_item_catalog()[4].id@ != networks_item_catalog()[1].id@);
    assert(networks_item_catalog()[4].id@ != networks_item_catalog()[2].id@);
    assert(networks_item_catalog()[4].id@ != networks_item_catalog()[3].id@);
}

} // verus!
