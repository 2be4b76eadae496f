//! Events addressed to the UI layer.

use vstd::prelude::*;

verus! {

/// A fire-and-forget event for the UI layer: an event name and a
/// string payload.
pub struct UiEvent {
    pub name: String,
    pub payload: String,
}

} // verus!
