//! The event controller: the handler the message loop drives with the
//! editing engine's notifications and requests. The protocol semantics are
//! the engine's, not this crate's, so the handler carries no verified
//! state; the loop adapter around it lives at the unverified edge.
use vstd::prelude::*;

verus! {

/// Handler for the message loop's notifications and requests.
pub struct EventController {}

impl EventController {
    pub fn new() -> (ctl: EventController) {
        EventController {  }
    }
}

} // verus!
