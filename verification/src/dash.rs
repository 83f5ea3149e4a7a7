//! Declaration of the `dashmap` crate's concurrent map type.
//!
//! The service keeps its two in-memory stores, pending link tokens and
//! per-chat active projects, in `dashmap::DashMap`. The type is opaque to
//! the verifier; each store names its contents with a spec function over
//! this type and reads and writes it through small trusted wrappers.

use vstd::prelude::*;

verus! {

#[verifier::external_type_specification]
#[verifier::external_body]
#[verifier::reject_recursive_types(K)]
#[verifier::reject_recursive_types(V)]
#[verifier::reject_recursive_types(S)]
pub struct ExDashMap<K, V, S>(dashmap::DashMap<K, V, S>);

} // verus!
