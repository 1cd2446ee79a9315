//! Routing of items through a cargo network.
use vstd::prelude::*;

verus! {

#[derive(Debug, Clone)]
pub struct CargoRouteRequest {
    pub source_x: i32,
    pub source_y: i32,
    pub source_z: i32,
    pub target_x: i32,
    pub target_y: i32,
    pub target_z: i32,
    pub item_id: String,
    pub amount: u32,
}

pub struct CargoNetRoutingEngine;

impl CargoNetRoutingEngine {
    /// Routes a request and returns how many items were moved: all of them.
    pub fn route_items(request: &CargoRouteRequest) -> (moved: u32)
        ensures
            moved == request.amount,
    {
        request.amount
    }
}

} // verus!
