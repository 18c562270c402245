//! Two systems of an entity-component game world, as rules without I/O: the
//! radar system, which works out how a sensor's published contacts must change
//! as entities move in and out of its range, and the mining system, which runs
//! an extractor's timer down and orders the steps that complete an extraction.
//!
//! The library decides and the embedding acts: it reads the store, publishes
//! the commands it is handed, and reports back what came of it.

pub mod address;
pub mod command;
pub mod components;
pub mod failure;
pub mod mining;
pub mod mining_laws;
pub mod model;
pub mod position_cache;
pub mod radar;
pub mod radar_frame;
pub mod radar_laws;
pub mod text;
