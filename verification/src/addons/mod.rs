//! The integrated addons.
use vstd::prelude::*;

pub mod all_addons;
pub mod fluffy_machines;
pub mod networks;
pub mod supreme;

use all_addons::{AllAddonsRegistry, SlimefunAddonDescriptor, addon_catalog};

verus! {

#[derive(Debug, Clone)]
pub struct AddonMetadata {
    pub name: &'static str,
    pub version: &'static str,
    pub author: &'static str,
    pub total_items: u32,
}

/// The metadata the engine announces for a catalogued addon.
pub open spec fn addon_metadata(a: SlimefunAddonDescriptor) -> AddonMetadata {
    AddonMetadata { name: a.name, version: "1.0.0-RUST", author: "DrakesCraft Labs", total_items: 25 }
}

pub struct SlimefunAddonsEngine;

impl SlimefunAddonsEngine {
    /// The metadata of every catalogued addon, in catalogue order.
    pub fn get_active_addons() -> (res: Vec<AddonMetadata>)
        ensures
            res@ == addon_catalog().map_values(|a: SlimefunAddonDescriptor| addon_metadata(a)),
    {
        let addons = AllAddonsRegistry::get_all_44_addons();
        let mut res: Vec<AddonMetadata> = Vec::new();
        let n = addons.len();
        let mut i: usize = 0;
        while i < n
            invariant
                n == addons@.len(),
                addons@ == addon_catalog(),
                i <= n,
                res@ == addons@.take(i as int).map_values(|a: SlimefunAddonDescriptor| addon_metadata(a)),
            decreases n - i,
        {
            let a = &addons[i];
            res.push(AddonMetadata { name: a.name, version: "1.0.0-RUST", author: "DrakesCraft Labs", total_items: 25 });
            assert(addons@.take(i + 1) =~= addons@.take(i as int).push(addons@[i as int]));
            assert(res@ =~= addons@.take(i + 1).map_values(|a: SlimefunAddonDescriptor| addon_metadata(a)));
            i += 1;
        }
        assert(addons@.take(n as int) =~= addons@);
        res
    }
}

} // verus!
