//! Concurrency substrate for a terminal client: a counting-permit pool, a
//! shared/exclusive lock built on it, a write multiplexer that serializes a
//! shared output device, a channel-backed stream adapter, an input
//! distributor with broadcast topics, and a resize controller.
//!
//! Every component is modeled over plain values: acquisition is immediate or
//! refused, and the runtime that suspends and retries lives outside this
//! crate. The contracts state exactly how each operation transforms the
//! component's state.
use vstd::prelude::*;

pub mod adapter;
pub mod controller;
pub mod distributor;
pub mod events;
pub mod permits;
pub mod resize;
pub mod sharedlock;
pub mod text;
pub mod writemux;

verus! {

/// A position on the terminal grid, in character cells.
pub struct Point {
    pub x: usize,
    pub y: usize,
}

} // verus!
