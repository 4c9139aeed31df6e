//! Creatures driven by small neural networks encoded in compact genomes,
//! moving on a shared grid world.
//!
//! The library holds the integer logic of the simulation: the gene codec,
//! the wiring of a brain (which neuron feeds which, in which stage), the
//! sensor and actuator dispatch, and the world's occupancy rules.

pub mod brain;
pub mod gene;
pub mod population;
mod rng;
pub mod world;
