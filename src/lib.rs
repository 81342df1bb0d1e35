//! Host side of sandboxed profiling modules: the handle table through which guests
//! name host-owned counters, the bounds-checked bridge into guest memory with its
//! fixed reply layout, and the counter and counter-group state machine.
use vstd::prelude::*;

pub mod codec;
pub mod counting;
pub mod group;
pub mod memory;
pub mod ops;
pub mod runtime;
pub mod table;

verus! {

} // verus!
