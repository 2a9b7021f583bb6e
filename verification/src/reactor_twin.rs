//! Replay records of the reactor digital-twin demo.

use vstd::prelude::*;

verus! {

/// A dispatch order issued by the reactor twin at one tick.
#[derive(Debug, Clone, PartialEq, Eq)]
pub struct ReactorTwinDispatchOrder {
    pub priority_label: String,
    pub description: String,
}

} // verus!
