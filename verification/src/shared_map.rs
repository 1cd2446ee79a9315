//! Declaration of the concurrent hash map that the engines keep their state in.
//!
//! The map's contents are opaque to the verifier; each engine names what its map
//! holds and reaches the map only through small trusted wrappers next to it.
use vstd::prelude::*;
use dashmap::DashMap;

verus! {

#[verifier::external_type_specification]
#[verifier::external_body]
#[verifier::reject_recursive_types(K)]
#[verifier::reject_recursive_types(V)]
#[verifier::reject_recursive_types(S)]
pub struct ExDashMap<K, V, S>(DashMap<K, V, S>);

} // verus!
