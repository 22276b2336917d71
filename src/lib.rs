//! Core of a multi-character skeletal-animation stage: the console grammar,
//! the command bus consumer, scene editing, the text reveal, mesh index
//! assembly and the bounded animation scheduler.
use vstd::prelude::*;

pub mod bus;
pub mod clips;
pub mod console;
pub mod loader;
pub mod mesh;
pub mod scenario;
pub mod schedule;
pub mod stage;
pub mod text;
pub mod typewriter;

verus! {

/// Number of fixed character positions on the stage.
pub const SLOT_COUNT: usize = 5;

} // verus!
