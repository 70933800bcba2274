//! Game rules of a shredder puzzle: a machine that shreds the objects of five
//! ever larger stages, wears down while doing so and jams when a stat runs out.
use vstd::prelude::*;

pub mod hud;
pub mod keys;
pub mod resource;
pub mod scraper;
pub mod world;

pub use world::WorldState;

verus! {

/// Handed to the work a loading screen waits for.
pub struct LoadingContext {}

} // verus!
