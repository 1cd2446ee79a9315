//! The Supreme addon. Its cards carry floating-point multipliers, which the verified
//! library does not hold; their table is kept by the application around it.
use vstd::prelude::*;

verus! {

pub struct SupremeAddonEngine;

} // verus!
