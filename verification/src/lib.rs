//! Verified core of the Slimefun native engine: block storage with change
//! tracking, the energy-network solver, the tick counter, the item registry and
//! the addon catalogue.
pub mod shared_map;
pub mod energy;
pub mod block_storage;
pub mod cargo;
pub mod ticker;
pub mod native;
pub mod items;
pub mod addons;

pub use block_storage::{BlockStorageEngine, SlimefunBlockData};
pub use energy::{EnergyNetGraphSolver, EnergyNode, EnergyNodeType, EnergyReport};
pub use items::{SlimefunCategory, SlimefunItemRegistry, SlimefunItemSpec};
pub use ticker::{TickReport, TickerEngine};
