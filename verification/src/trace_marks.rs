//! Marker types for a trace-collection layer built on top of the decoder:
//! phantom tags that record whether a collection of execution traces has
//! been segregated by call, and the kinds of report such a layer emits.
//! The layer itself consumes the decode and analyze interfaces; nothing
//! here carries data.

use vstd::prelude::*;

verus! {

/// Tag for a trace collection whose entries have been segregated by call.
pub struct Sorted;

/// Tag for a trace collection still in raw emission order.
pub struct Unsorted;

/// The two sortedness tags a trace collection can carry.
pub trait SortMarker {

}

impl SortMarker for Sorted {

}

impl SortMarker for Unsorted {

}

/// The kinds of report a trace-collection layer emits.
pub enum TraceKind {
    /// A per-call summary of the collected trace entries.
    Summary,
}

} // verus!
